//! A bounded, insertion-ordered store of diagnostic strings.

use crate::text::{joined, texts};
use std::collections::VecDeque;
use vstd::prelude::*;
use vstd::string::*;

verus! {

/// The largest number of diagnostics a backlog keeps.
pub const BACKLOG_CAPACITY: usize = 10;

/// What separates the diagnostics when they are joined into one text.
pub const DIAGNOSTIC_SEPARATOR: &'static str = "\n";

/// What a backlog holds after `entry` is inserted into `entries`: the entry
/// goes to the back, and the oldest one leaves once the capacity is exceeded.
pub open spec fn bounded_push(entries: Seq<Seq<char>>, entry: Seq<char>) -> Seq<Seq<char>> {
    if entries.len() < BACKLOG_CAPACITY {
        entries.push(entry)
    } else {
        entries.drop_first().push(entry)
    }
}

/// What a backlog that starts as `entries` holds after the diagnostics of
/// `more` are inserted one by one.
pub open spec fn push_all(entries: Seq<Seq<char>>, more: Seq<Seq<char>>) -> Seq<Seq<char>>
    decreases more.len(),
{
    if more.len() == 0 {
        entries
    } else {
        bounded_push(push_all(entries, more.drop_last()), more.last())
    }
}

/// The newest diagnostics of `all`, as many as a backlog keeps, in order.
pub open spec fn latest(all: Seq<Seq<char>>) -> Seq<Seq<char>> {
    if all.len() <= BACKLOG_CAPACITY {
        all
    } else {
        all.subrange(all.len() - BACKLOG_CAPACITY, all.len() as int)
    }
}

/// An insertion into the newest diagnostics of a sequence leaves the newest
/// diagnostics of the sequence with the entry added.
pub proof fn lemma_bounded_push_latest(all: Seq<Seq<char>>, entry: Seq<char>)
    ensures
        bounded_push(latest(all), entry) == latest(all.push(entry)),
        latest(all).len() <= BACKLOG_CAPACITY,
{
    assert(bounded_push(latest(all), entry) =~= latest(all.push(entry)));
}

/// A backlog never holds more than its capacity, and after any number of
/// insertions it holds the newest diagnostics in insertion order: the
/// oldest ones are the ones that left.
pub proof fn lemma_push_all_keeps_latest(entries: Seq<Seq<char>>, more: Seq<Seq<char>>)
    requires
        entries.len() <= BACKLOG_CAPACITY,
    ensures
        push_all(entries, more) == latest(entries + more),
        push_all(entries, more).len() <= BACKLOG_CAPACITY,
    decreases more.len(),
{
    if more.len() == 0 {
        assert(entries + more =~= entries);
    } else {
        lemma_push_all_keeps_latest(entries, more.drop_last());
        lemma_bounded_push_latest(entries + more.drop_last(), more.last());
        assert((entries + more.drop_last()).push(more.last()) =~= entries + more);
    }
}

/// Diagnostics kept for the caller, oldest first, never more than
/// [`BACKLOG_CAPACITY`] of them.
pub struct ErrorBacklog {
    entries: VecDeque<String>,
}

impl View for ErrorBacklog {
    type V = Seq<Seq<char>>;

    closed spec fn view(&self) -> Seq<Seq<char>> {
        self.entries@.map_values(|s: String| s@)
    }
}

impl ErrorBacklog {
    #[verifier::type_invariant]
    spec fn within_capacity(self) -> bool {
        self.entries@.len() <= BACKLOG_CAPACITY
    }

    /// An empty backlog.
    pub fn new() -> (backlog: Self)
        ensures
            backlog@ == Seq::<Seq<char>>::empty(),
    {
        let backlog = ErrorBacklog { entries: VecDeque::new() };
        assert(backlog@ =~= Seq::<Seq<char>>::empty());
        backlog
    }

    /// The number of diagnostics held.
    pub fn len(&self) -> (n: usize)
        ensures
            n == self@.len(),
            n <= BACKLOG_CAPACITY,
    {
        proof {
            use_type_invariant(self);
        }
        self.entries.len()
    }

    /// Whether no diagnostic is held.
    pub fn is_empty(&self) -> (empty: bool)
        ensures
            empty == (self@.len() == 0),
    {
        self.entries.len() == 0
    }

    /// Copies of the diagnostics, oldest first.
    pub fn entries(&self) -> (list: Vec<String>)
        ensures
            texts(list@) == self@,
    {
        let mut list: Vec<String> = Vec::new();
        let mut i: usize = 0;
        while i < self.entries.len()
            invariant
                i <= self.entries@.len(),
                texts(list@) == self@.take(i as int),
            decreases self.entries@.len() - i,
        {
            let entry = self.entries[i].clone();
            let ghost before = list@;
            list.push(entry);
            assert(texts(list@) =~= texts(before).push(entry@));
            assert(self@.take(i + 1) =~= self@.take(i as int).push(self.entries@[i as int]@));
            i = i + 1;
        }
        assert(self@.take(i as int) =~= self@);
        list
    }

    /// The diagnostics, oldest first, one per line.
    pub fn join(&self) -> (text: String)
        ensures
            text@ == joined(self@, DIAGNOSTIC_SEPARATOR@),
    {
        let mut text = String::new();
        let mut i: usize = 0;
        while i < self.entries.len()
            invariant
                i <= self.entries@.len(),
                text@ == joined(self@.take(i as int), DIAGNOSTIC_SEPARATOR@),
            decreases self.entries@.len() - i,
        {
            proof {
                let before = self@.take(i as int);
                let after = self@.take(i + 1);
                assert(after.drop_last() =~= before);
                assert(after.last() == self.entries@[i as int]@);
            }
            if i > 0 {
                text.append(DIAGNOSTIC_SEPARATOR);
            }
            text.append(self.entries[i].as_str());
            i = i + 1;
        }
        assert(self@.take(i as int) =~= self@);
        text
    }

    /// Inserts a diagnostic at the back, evicting the oldest one when the
    /// backlog is full.
    pub fn push(&mut self, diagnostic: String)
        ensures
            final(self)@ == bounded_push(old(self)@, diagnostic@),
            final(self)@.len() <= BACKLOG_CAPACITY,
    {
        let mut taken = ErrorBacklog::new();
        core::mem::swap(self, &mut taken);
        *self = taken.with(diagnostic);
    }

    /// The backlog with a diagnostic inserted at the back.
    pub fn with(self, diagnostic: String) -> (backlog: Self)
        ensures
            backlog@ == bounded_push(self@, diagnostic@),
            backlog@.len() <= BACKLOG_CAPACITY,
    {
        proof {
            use_type_invariant(&self);
        }
        let ErrorBacklog { mut entries } = self;
        entries.push_back(diagnostic);
        if entries.len() > BACKLOG_CAPACITY {
            let _ = entries.pop_front();
        }
        let backlog = ErrorBacklog { entries };
        assert(backlog@ =~= bounded_push(self@, diagnostic@));
        backlog
    }
}

} // verus!

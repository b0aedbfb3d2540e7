//! The argument vector with which the agent is started.

use crate::escape::{escaped, windows_escape};
use crate::text::{opt_str_text, texts};
use vstd::prelude::*;
use vstd::string::*;

verus! {

/// The flag that introduces the prompt.
pub const PROMPT_FLAG: &'static str = "--prompt";

/// The flag that introduces the output format.
pub const OUTPUT_FLAG: &'static str = "-o";

/// The output format: one JSON event per line.
pub const OUTPUT_FORMAT: &'static str = "stream-json";

/// The flag that asks for a sandbox.
pub const SANDBOX_FLAG: &'static str = "--sandbox";

/// The flag that introduces the model's name.
pub const MODEL_FLAG: &'static str = "--model";

/// The flag that introduces the session to resume.
pub const RESUME_FLAG: &'static str = "--resume";

/// The prompt as it is handed to the agent: escaped where the platform's
/// command line requires it, unchanged elsewhere.
pub open spec fn prompt_argument(prompt: Seq<char>, escape_prompt: bool) -> Seq<char> {
    if escape_prompt {
        escaped(prompt)
    } else {
        prompt
    }
}

/// A flag with its value, or nothing where the value is absent or empty.
pub open spec fn optional_pair(flag: Seq<char>, value: Option<Seq<char>>) -> Seq<Seq<char>> {
    match value {
        Some(value) => if value.len() > 0 {
            seq![flag, value]
        } else {
            Seq::empty()
        },
        None => Seq::empty(),
    }
}

/// The flag that asks for a sandbox, where one is asked for.
pub open spec fn sandbox_part(sandbox: bool) -> Seq<Seq<char>> {
    if sandbox {
        seq![SANDBOX_FLAG@]
    } else {
        Seq::empty()
    }
}

/// The agent's arguments, in order: the prompt, the output format, then the
/// sandbox flag, the model and the session to resume, each only where it
/// applies.
pub open spec fn arguments(
    prompt: Seq<char>,
    sandbox: bool,
    session_id: Option<Seq<char>>,
    model: Option<Seq<char>>,
    escape_prompt: bool,
) -> Seq<Seq<char>> {
    seq![PROMPT_FLAG@, prompt_argument(prompt, escape_prompt), OUTPUT_FLAG@, OUTPUT_FORMAT@]
        + sandbox_part(sandbox) + optional_pair(MODEL_FLAG@, model) + optional_pair(
        RESUME_FLAG@,
        session_id,
    )
}

/// Appends a flag and its value to `args`, unless the value is absent or
/// empty.
fn push_optional_pair(args: &mut Vec<String>, flag: &str, value: Option<&str>)
    ensures
        texts(final(args)@) == texts(old(args)@) + optional_pair(flag@, opt_str_text(value)),
{
    match value {
        Some(value) => {
            if !value.is_empty() {
                args.push(flag.to_owned());
                args.push(value.to_owned());
                assert(texts(args@) =~= texts(old(args)@) + seq![flag@, value@]);
            } else {
                assert(texts(args@) =~= texts(old(args)@) + Seq::<Seq<char>>::empty());
            }
        },
        None => {
            assert(texts(args@) =~= texts(old(args)@) + Seq::<Seq<char>>::empty());
        },
    }
}

/// Assembles the agent's argument vector. With `escape_prompt` the prompt is
/// escaped for a command line that interprets backslashes and quotes;
/// without it the prompt is passed through as it is.
pub fn build_args(
    prompt: &str,
    sandbox: bool,
    session_id: Option<&str>,
    model: Option<&str>,
    escape_prompt: bool,
) -> (args: Vec<String>)
    ensures
        texts(args@) == arguments(
            prompt@,
            sandbox,
            opt_str_text(session_id),
            opt_str_text(model),
            escape_prompt,
        ),
{
    let prompt_text = if escape_prompt {
        windows_escape(prompt)
    } else {
        prompt.to_owned()
    };
    let mut args: Vec<String> = Vec::new();
    args.push(PROMPT_FLAG.to_owned());
    args.push(prompt_text);
    args.push(OUTPUT_FLAG.to_owned());
    args.push(OUTPUT_FORMAT.to_owned());
    assert(texts(args@) =~= seq![
        PROMPT_FLAG@,
        prompt_argument(prompt@, escape_prompt),
        OUTPUT_FLAG@,
        OUTPUT_FORMAT@,
    ]);
    let ghost fixed = texts(args@);
    if sandbox {
        args.push(SANDBOX_FLAG.to_owned());
    }
    assert(texts(args@) =~= fixed + sandbox_part(sandbox));
    push_optional_pair(&mut args, MODEL_FLAG, model);
    push_optional_pair(&mut args, RESUME_FLAG, session_id);
    args
}

} // verus!

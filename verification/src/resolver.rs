//! Finding the agent's executable.

use crate::error::{ErrorView, GeminiError};
use crate::text::opt_text;
use vstd::prelude::*;

verus! {

/// The name under which the agent is looked up.
pub const GEMINI_COMMAND: &'static str = "gemini";

/// `which::which`: the path of the first executable called `name` on the
/// search path, as text, or `None` where the search finds none. The answer
/// depends on the environment and the file system at the time of the call,
/// so nothing is stated of it.
#[verifier::external_body]
fn search_path(name: &str) -> (found: Option<String>) {
    match which::which(name) {
        Ok(path) => Some(path.to_string_lossy().into_owned()),
        Err(_) => None,
    }
}

/// What a search amounts to: the path that was found, or the failure that
/// says that the agent is not installed.
pub open spec fn resolved(found: Option<Seq<char>>) -> Result<Seq<char>, ErrorView> {
    match found {
        Some(path) => Ok(path),
        None => Err(ErrorView::GeminiNotFound),
    }
}

/// The view of a path or the failure in its place.
pub open spec fn resolution_view(resolution: Result<String, GeminiError>) -> Result<
    Seq<char>,
    ErrorView,
> {
    match resolution {
        Ok(path) => Ok(path@),
        Err(error) => Err(error@),
    }
}

/// Turns the answer of a search into a path or a failure.
pub fn resolve(found: Option<String>) -> (resolution: Result<String, GeminiError>)
    ensures
        resolution_view(resolution) == resolved(opt_text(found)),
{
    match found {
        Some(path) => Ok(path),
        None => Err(GeminiError::GeminiNotFound),
    }
}

/// Find the gemini executable path. The search is made anew at every call,
/// since the environment may change between calls; the only failure is that
/// nothing was found.
pub fn find_gemini_executable() -> (resolution: Result<String, GeminiError>)
    ensures
        resolution is Err ==> resolution_view(resolution) == Err::<Seq<char>, ErrorView>(
            ErrorView::GeminiNotFound,
        ),
{
    resolve(search_path(GEMINI_COMMAND))
}

} // verus!

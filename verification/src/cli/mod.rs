//! The commands of the program.
pub mod output;
pub mod query;
pub mod serve;
pub mod table;

use vstd::prelude::*;

verus! {

/// The text of the failure to resolve the path of a directory.
pub open spec fn unresolved_text(path: Seq<char>, error: Seq<char>) -> Seq<char> {
    "Error: cannot resolve path "@ + path + ": "@ + error
}

/// The message of the failure to resolve the path of a directory.
pub fn unresolved_message(path: &str, error: &str) -> (text: String)
    ensures
        text@ == unresolved_text(path@, error@),
{
    let mut text = "Error: cannot resolve path ".to_string();
    text.append(path);
    text.append(": ");
    text.append(error);
    text
}

/// A text behind a prefix.
pub(crate) fn prefixed(prefix: &str, text: &str) -> (out: String)
    ensures
        out@ == prefix@ + text@,
{
    let mut out = prefix.to_string();
    out.append(text);
    out
}

}

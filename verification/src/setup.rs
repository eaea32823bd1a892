//! What is reported of a setup that was abandoned.
use crate::error::optional_text;
use vstd::prelude::*;

verus! {

/// How the failure of a setup reads: by the text that it was abandoned with, whether it owns that
/// text or only refers to it, and otherwise by a text of its own.
pub open spec fn failure(owned: Option<Seq<char>>, borrowed: Option<Seq<char>>) -> Seq<char> {
    match (owned, borrowed) {
        (Some(text), _) => text,
        (None, Some(text)) => text,
        (None, None) => "non-string setup panic"@,
    }
}

/// How the failure of a setup reads. The text is kept, so that a failed setup is reported again and
/// not repeated.
pub fn failure_text(owned: Option<String>, borrowed: Option<String>) -> (text: String)
    ensures
        text@ == failure(optional_text(owned), optional_text(borrowed)),
{
    match (owned, borrowed) {
        (Some(text), _) => text,
        (None, Some(text)) => text,
        (None, None) => "non-string setup panic".to_owned(),
    }
}

/// The text that a setup was abandoned with is what is reported of it, whole; only where there is
/// none does a text of its own stand in for it.
pub proof fn failures_keep_their_texts(text: Seq<char>, other: Option<Seq<char>>)
    ensures
        failure(Some(text), other) == text,
        failure(None, Some(text)) == text,
        failure(None, None) == "non-string setup panic"@,
{
}

} // verus!

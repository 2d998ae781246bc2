use vstd::prelude::*;
use vstd::string::StrSliceExecFns;
use vstd::string::StringExecFns;

verus! {

/// Longest message text, in characters, that DAPNET accepts.
pub const MAX_TEXT_LENGTH: usize = 80;

/// The characters of an optional text.
pub open spec fn text_view(text: Option<String>) -> Option<Seq<char>> {
    match text {
        Some(t) => Some(t@),
        None => None,
    }
}

/// Why a payload's text is refused, if it is.
pub open spec fn text_problem(text: Option<Seq<char>>) -> Option<Seq<char>> {
    match text {
        None => Some("Text must be set"@),
        Some(t) => if t.len() > MAX_TEXT_LENGTH {
            Some("Text must be 80 characters or less"@)
        } else {
            None
        },
    }
}

/// Checks that the text of a payload is set and at most 80 characters long.
pub fn check_text(text: &Option<String>) -> (r: Result<(), String>)
    ensures
        r is Ok <==> text_problem(text_view(*text)) is None,
        r is Err ==> text_problem(text_view(*text)) == Some(r->Err_0@),
{
    match text {
        Some(t) => {
            if t.as_str().unicode_len() > MAX_TEXT_LENGTH {
                Err(String::from_str("Text must be 80 characters or less"))
            } else {
                Ok(())
            }
        },
        None => Err(String::from_str("Text must be set")),
    }
}

} // verus!

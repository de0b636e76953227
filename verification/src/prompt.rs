//! Yes-or-no answers of the operator.

use vstd::prelude::*;

verus! {

/// `text` without the white space at its two ends, as `str::trim` gives it.
pub uninterp spec fn trimmed(text: Seq<char>) -> Seq<char>;

/// `text` in lower case, as `str::to_lowercase` gives it.
pub uninterp spec fn lowercased(text: Seq<char>) -> Seq<char>;

/// Calls `str::trim`, which removes leading and trailing white space as
/// Unicode defines it.
#[verifier::external_body]
fn trim(text: &str) -> (r: &str)
    ensures
        r@ == trimmed(text@),
{
    text.trim()
}

/// Calls `str::to_lowercase`, which maps each character to its lower case as
/// Unicode defines it.
#[verifier::external_body]
fn to_lowercase(text: &str) -> (r: String)
    ensures
        r@ == lowercased(text@),
{
    text.to_lowercase()
}

/// What a trimmed, lower-case answer means: `y` and `yes` are yes, `n` and
/// `no` are no, anything else is no answer.
pub open spec fn answer_of(normalized: Seq<char>) -> Option<bool> {
    if normalized == "y"@ || normalized == "yes"@ {
        Some(true)
    } else if normalized == "n"@ || normalized == "no"@ {
        Some(false)
    } else {
        None
    }
}

/// Reads an answer that is already trimmed and in lower case.
pub fn classify_answer(normalized: &str) -> (answer: Option<bool>)
    ensures
        answer == answer_of(normalized@),
{
    let given = normalized.to_owned();
    if given == "y".to_owned() || given == "yes".to_owned() {
        Some(true)
    } else if given == "n".to_owned() || given == "no".to_owned() {
        Some(false)
    } else {
        None
    }
}

/// Reads the operator's answer from a line of input, ignoring the white
/// space around it and the case of its letters. `None` means that the line is
/// no answer and the question is to be asked again.
pub fn parse_answer(line: &str) -> (answer: Option<bool>)
    ensures
        answer == answer_of(lowercased(trimmed(line@))),
{
    let normalized = to_lowercase(trim(line));
    classify_answer(normalized.as_str())
}

} // verus!

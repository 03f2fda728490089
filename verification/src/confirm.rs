//! Asking the user a yes-or-no question: what to print, and what a line of
//! reply means.

use vstd::prelude::*;

verus! {

/// What `str::trim` returns for a string with these characters.
pub uninterp spec fn trimmed(line: Seq<char>) -> Seq<char>;

/// What `str::to_lowercase` returns for a string with these characters.
pub uninterp spec fn lowercase_of(text: Seq<char>) -> Seq<char>;

/// `str::trim`: the string without the white space at its two ends, as
/// Unicode defines white space. The result depends on the characters alone.
#[verifier::external_body]
fn trim(line: &str) -> (inner: &str)
    ensures
        inner@ == trimmed(line@),
{
    line.trim()
}

/// `str::to_lowercase`: the string in lower case, as Unicode defines it. The
/// result depends on the characters alone.
#[verifier::external_body]
fn to_lowercase(text: &str) -> (lower: String)
    ensures
        lower@ == lowercase_of(text@),
{
    text.to_lowercase()
}

/// `==` on `str`: whether two strings hold the same characters.
#[verifier::external_body]
fn same_text(left: &str, right: &str) -> (same: bool)
    ensures
        same == (left@ == right@),
{
    left == right
}

/// The question asked where the caller gives none.
pub open spec fn default_question() -> Seq<char> {
    "Do you want to edit this file? (y/n) "@
}

/// The question to print: the caller's own, or the default one.
pub fn prompt_text<'a>(message: Option<&'a str>) -> (question: &'a str)
    ensures
        question@ == match message {
            Some(own) => own@,
            None => default_question(),
        },
{
    match message {
        Some(own) => own,
        None => "Do you want to edit this file? (y/n) ",
    }
}

/// What a reply means once it is trimmed and in lower case: yes, no, or
/// nothing, in which case the user is to be asked again.
pub open spec fn answer_of(reply: Seq<char>) -> Option<bool> {
    if reply == "yes"@ || reply == "ye"@ || reply == "y"@ {
        Some(true)
    } else if reply == "no"@ || reply == "n"@ {
        Some(false)
    } else {
        None
    }
}

/// Reads a reply that is already trimmed and in lower case.
pub fn classify(reply: &str) -> (answer: Option<bool>)
    ensures
        answer == answer_of(reply@),
{
    if same_text(reply, "yes") || same_text(reply, "ye") || same_text(reply, "y") {
        Some(true)
    } else if same_text(reply, "no") || same_text(reply, "n") {
        Some(false)
    } else {
        None
    }
}

/// Reads one line of reply: white space around it and the case of its
/// letters do not count. `None` means that the line is no answer.
pub fn parse_answer(line: &str) -> (answer: Option<bool>)
    ensures
        answer == answer_of(lowercase_of(trimmed(line@))),
{
    let lower = to_lowercase(trim(line));
    classify(lower.as_str())
}

} // verus!

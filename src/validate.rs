use vstd::prelude::*;
use crate::model::{CreateTodoRequest, TodoError};

verus! {

/// Whether a character has the Unicode White_Space property.
pub uninterp spec fn white_space(c: char) -> bool;

/// Relies on `char::is_whitespace`: true exactly for the characters with the
/// Unicode White_Space property, among them the ASCII space, tab, line feed
/// and carriage return, and none of the ASCII letters and digits.
#[verifier::external_body]
fn is_white_space(c: char) -> (r: bool)
    ensures
        r == white_space(c),
        c == ' ' || c == '\t' || c == '\n' || c == '\r' ==> r,
        ('a' <= c <= 'z') || ('A' <= c <= 'Z') || ('0' <= c <= '9') ==> !r,
{
    c.is_whitespace()
}

/// A text that is empty once leading and trailing white space is trimmed.
pub open spec fn blank(s: Seq<char>) -> bool {
    forall|i: int| 0 <= i < s.len() ==> white_space(#[trigger] s[i])
}

/// Whether the text is empty after trimming.
pub fn is_blank(s: &str) -> (r: bool)
    ensures
        r == blank(s@),
{
    let mut all_white: bool = true;
    for c in it: s.chars()
        invariant
            it.seq() == s@,
            all_white == (forall|j: int| 0 <= j < it.index() ==> white_space(#[trigger] s@[j])),
    {
        if !is_white_space(c) {
            all_white = false;
        }
    }
    all_white
}

/// Accepts a create payload whose title is non-empty after trimming.
pub fn validate_create(req: CreateTodoRequest) -> (r: Result<CreateTodoRequest, TodoError>)
    ensures
        blank(req.title@) ==> r == Err::<CreateTodoRequest, TodoError>(TodoError::ValidationError),
        !blank(req.title@) ==> r == Ok::<CreateTodoRequest, TodoError>(req),
{
    if is_blank(req.title.as_str()) {
        Err(TodoError::ValidationError)
    } else {
        Ok(req)
    }
}

} // verus!

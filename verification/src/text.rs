//! Helpers on display text: comparison and middle truncation.

use vstd::prelude::*;
use vstd::string::*;
use crate::error::TransferError;

verus! {

/// The characters of an optional text.
pub open spec fn optional_text(text: Option<String>) -> Option<Seq<char>> {
    match text {
        Some(t) => Some(t@),
        None => None,
    }
}

/// The characters of a text that a fallible step produced.
pub open spec fn text_outcome(outcome: Result<String, TransferError>) -> Result<
    Seq<char>,
    TransferError,
> {
    match outcome {
        Ok(t) => Ok(t@),
        Err(e) => Err(e),
    }
}

/// The marker that stands for the characters left out of a truncated text.
pub open spec fn ellipsis() -> Seq<char> {
    seq!['.', '.', '.']
}

/// What `truncate_middle` displays for `text` under a width budget of
/// `width` characters.
///
/// A text within the budget is shown as it is. A longer one keeps its first
/// `width / 2` characters and its last `width - width / 2` characters, with
/// the ellipsis between them.
pub open spec fn truncated(text: Seq<char>, width: nat) -> Seq<char> {
    if text.len() <= width {
        text
    } else {
        let head = width / 2;
        let tail = (width - head) as nat;
        text.subrange(0, head as int) + ellipsis() + text.subrange(
            text.len() - tail,
            text.len() as int,
        )
    }
}

/// Shortens `input` to at most `max_len` of its own characters by cutting out
/// its middle.
pub fn truncate_middle(input: &str, max_len: usize) -> (shown: String)
    ensures
        shown@ == truncated(input@, max_len as nat),
        input@.len() <= max_len ==> shown@ == input@,
        input@.len() > max_len ==> shown@.len() == max_len + 3,
{
    let len = input.unicode_len();
    if len <= max_len {
        return input.to_owned();
    }
    let half_len = max_len / 2;
    let start = input.substring_char(0, half_len);
    let end = input.substring_char(len - (max_len - half_len), len);
    let mut shown = start.to_owned();
    proof {
        reveal_strlit("...");
        assert("..."@ =~= ellipsis());
    }
    shown.append("...");
    shown.append(end);
    shown
}

/// Whether two texts hold the same characters.
pub fn same_text(left: &str, right: &str) -> (same: bool)
    ensures
        same == (left@ == right@),
{
    let len = left.unicode_len();
    if len != right.unicode_len() {
        return false;
    }
    let mut i: usize = 0;
    while i < len
        invariant
            len == left@.len(),
            len == right@.len(),
            i <= len,
            forall|j: int| 0 <= j < i ==> left@[j] == right@[j],
        decreases len - i,
    {
        if left.get_char(i) != right.get_char(i) {
            return false;
        }
        i += 1;
    }
    assert(left@ =~= right@);
    true
}

} // verus!

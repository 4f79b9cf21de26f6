//! Primitives shared by every component: the error taxonomy, character-level
//! text helpers, the validation rules and string truncation.

use vstd::prelude::*;
use crate::shared::text::{chars_of, string_of_range};

pub mod error;
pub mod password;
pub mod text;
pub mod validation;

pub use error::{AppError, ErrorKind};

verus! {

/// The three-character ellipsis appended to truncated text.
pub open spec fn ellipsis() -> Seq<char> {
    seq!['.', '.', '.']
}

/// `s` cut to at most `max_chars` characters, with an ellipsis when cut.
pub open spec fn truncated(s: Seq<char>, max_chars: nat) -> Seq<char> {
    if s.len() <= max_chars {
        s
    } else {
        s.take(max_chars as int) + ellipsis()
    }
}

/// Cuts `s` to at most `max_chars` characters; a cut is marked with `...`.
pub fn truncate_string(s: &str, max_chars: usize) -> (r: String)
    ensures
        r@ == truncated(s@, max_chars as nat),
{
    let v = chars_of(s);
    if v.len() <= max_chars {
        String::from_str(s)
    } else {
        let mut r = string_of_range(&v, 0, max_chars);
        r.push('.');
        r.push('.');
        r.push('.');
        assert(r@ =~= s@.take(max_chars as int) + ellipsis());
        r
    }
}

/// Truncating text that already fits changes nothing; truncating longer text
/// keeps exactly `max_chars` characters of it and adds the ellipsis.
pub proof fn truncation_law(s: Seq<char>, max_chars: nat)
    ensures
        s.len() <= max_chars ==> truncated(s, max_chars) == s,
        s.len() > max_chars ==> truncated(s, max_chars).len() == max_chars + 3,
        s.len() > max_chars ==> truncated(s, max_chars).take(max_chars as int) == s.take(
            max_chars as int,
        ),
        s.len() > max_chars ==> truncated(s, max_chars).skip(max_chars as int) == ellipsis(),
{
    if s.len() > max_chars {
        let t = truncated(s, max_chars);
        assert(t.take(max_chars as int) =~= s.take(max_chars as int));
        assert(t.skip(max_chars as int) =~= ellipsis());
    }
}

} // verus!

//! Identifiers and the clock. Identifiers are UUIDs held as 128-bit
//! integers; instants are microseconds since the Unix epoch.

use vstd::prelude::*;
use crate::signing::hex_digit;

verus! {

/// A 128-bit identifier: the big-endian value of a UUID.
pub type Id = u128;

/// An instant, in microseconds since the Unix epoch (UTC).
pub type Timestamp = i64;

/// Sixteen to the power of `e`.
pub open spec fn sixteen_to(e: nat) -> nat
    decreases e,
{
    if e == 0 {
        1
    } else {
        16 * sixteen_to((e - 1) as nat)
    }
}

/// The hex digit of `id` at position `k`, counted from the most
/// significant of its 32 digits.
pub open spec fn hex_digit_at(id: u128, k: int) -> char {
    hex_digit((id as int / sixteen_to((31 - k) as nat) as int) % 16)
}

/// The hyphenated lower-case text of the UUID whose big-endian value is
/// `id`: 32 hex digits, most significant first, in groups of 8, 4, 4, 4
/// and 12 with a hyphen between two groups.
pub open spec fn uuid_text(id: u128) -> Seq<char> {
    Seq::new(
        36,
        |i: int|
            if i == 8 || i == 13 || i == 18 || i == 23 {
                '-'
            } else if i < 8 {
                hex_digit_at(id, i)
            } else if i < 13 {
                hex_digit_at(id, i - 1)
            } else if i < 18 {
                hex_digit_at(id, i - 2)
            } else if i < 23 {
                hex_digit_at(id, i - 3)
            } else {
                hex_digit_at(id, i - 4)
            },
    )
}

/// `Uuid::now_v7`: a fresh time-ordered identifier. It depends on the clock
/// and on random bits, so nothing is promised about its value.
#[verifier::external_body]
pub(crate) fn fresh_id() -> Id {
    uuid::Uuid::now_v7().as_u128()
}

/// `Uuid::new_v4`: a fresh random identifier. Nothing is promised about its
/// value.
#[verifier::external_body]
pub(crate) fn random_id() -> Id {
    uuid::Uuid::new_v4().as_u128()
}

/// `Uuid`'s `Display`: the 128 bits in lower-case hex, hyphenated.
#[verifier::external_body]
pub(crate) fn id_text(id: Id) -> (text: String)
    ensures
        text@ == uuid_text(id),
{
    uuid::Uuid::from_u128(id).to_string()
}

/// `Utc::now`: the current instant. Nothing is promised about its value.
#[verifier::external_body]
pub(crate) fn now() -> Timestamp {
    chrono::Utc::now().timestamp_micros()
}

} // verus!

//! Random texts and numbers, by rand.

use crate::outside::{returned, returned_for};
use vstd::prelude::*;

verus! {

/// A letter or digit of ASCII.
pub open spec fn alphanumeric(c: char) -> bool {
    ('0' <= c <= '9') || ('A' <= c <= 'Z') || ('a' <= c <= 'z')
}

/// A text of the given length made of letters and digits.
pub open spec fn token_of(length: nat, text: Seq<char>) -> bool {
    text.len() == length && forall|i: int| 0 <= i < text.len() ==> alphanumeric(#[trigger] text[i])
}

/// Draws `length` characters with `rand`'s `Alphanumeric`. Which ones come is
/// left to chance.
#[verifier::external_body]
pub(crate) fn random_text(length: u8) -> (r: String)
    ensures
        token_of(length as nat, r@),
{
    rand::Rng::sample_iter(rand::thread_rng(), &rand::distributions::Alphanumeric)
        .take(length as usize)
        .map(char::from)
        .collect()
}

/// Draws a number with `rand`. Which one comes is left to chance.
#[verifier::external_body]
pub(crate) fn random_number() -> (r: u64) {
    rand::Rng::gen(&mut rand::thread_rng())
}

/// Whether a text was drawn: it is one that a call of [`random_text`] may have
/// returned.
pub closed spec fn drawn(length: u8, text: Seq<char>) -> bool {
    exists|s: String| s@ == text && #[trigger] call_ensures(random_text, (length,), s)
}

/// Whether a number was drawn: it is one that a call of [`random_number`] may have
/// returned.
pub closed spec fn drawn_number(number: u64) -> bool {
    call_ensures(random_number, (), number)
}

/// A text that was drawn has the length that was asked for, in letters and digits.
pub proof fn drawn_is_token(length: u8, text: Seq<char>)
    requires
        drawn(length, text),
    ensures
        token_of(length as nat, text),
{
}

/// What is drawn is what [`random_text`] and [`random_number`] return, and nothing else.
pub(crate) proof fn drawn_is_returned(length: u8, text: String, number: u64)
    ensures
        call_ensures(random_text, (length,), text) ==> drawn(length, text@),
        drawn(length, text@) ==> exists|s: String|
            s@ == text@ && #[trigger] call_ensures(random_text, (length,), s),
        drawn_number(number) <==> call_ensures(random_number, (), number),
{
}

/// Draws a text.
pub(crate) fn draw_text(length: u8) -> (r: String)
    ensures
        drawn(length, r@),
        token_of(length as nat, r@),
{
    returned_for(random_text, length)
}

/// Draws a number.
pub(crate) fn draw_number() -> (r: u64)
    ensures
        drawn_number(r),
{
    returned(random_number)
}

} // verus!

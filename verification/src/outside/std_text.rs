//! Parsing and debug texts, by the standard library.

use crate::outside::told;
use crate::text::{i64_value, texts};
use vstd::prelude::*;

verus! {

/// The debug text of the error with which `str::parse::<i64>` refuses a text.
pub uninterp spec fn integer_error(text: Seq<char>) -> Seq<char>;

/// Calls `str::parse::<i64>`: an optional sign followed by digits only, at
/// least one, of a value in range, is accepted, and nothing else.
#[verifier::external_body]
pub(crate) fn parse_i64(text: &str) -> (r: Result<i64, String>)
    ensures
        told(r) == (match i64_value(text@) {
            Some(n) => Ok::<i64, Seq<char>>(n),
            None => Err(integer_error(text@)),
        }),
{
    text.parse::<i64>().map_err(|e| format!("{:?}", e))
}

/// The debug text of a string: quoted and escaped.
pub uninterp spec fn text_debug(text: Seq<char>) -> Seq<char>;

/// Formats a string with `{:?}`.
#[verifier::external_body]
pub(crate) fn debug_of_text(text: &str) -> (r: String)
    ensures
        r@ == text_debug(text@),
{
    format!("{:?}", text)
}

/// The debug text of a list of strings.
pub uninterp spec fn texts_debug(list: Seq<Seq<char>>) -> Seq<char>;

/// Formats a list of strings with `{:?}`.
#[verifier::external_body]
pub(crate) fn debug_of_texts(list: &Vec<String>) -> (r: String)
    ensures
        r@ == texts_debug(texts(list@)),
{
    format!("{:?}", list)
}

} // verus!

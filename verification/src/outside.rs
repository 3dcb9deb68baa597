//! The calls into other crates. Each is a small function of this crate whose
//! contract says what the other crate is relied on for.

use vstd::prelude::*;

pub mod clock;
pub mod json;
pub mod jwt;
pub mod passwords;
pub mod random;
pub mod registry_key;
pub mod ssh;
pub mod std_text;

verus! {

/// An outcome whose error is a text.
pub open spec fn told<T>(r: Result<T, String>) -> Result<T, Seq<char>> {
    match r {
        Ok(t) => Ok(t),
        Err(e) => Err(e@),
    }
}

/// An outcome that is a text either way.
pub open spec fn told_text(r: Result<String, String>) -> Result<Seq<char>, Seq<char>> {
    match r {
        Ok(t) => Ok(t@),
        Err(e) => Err(e@),
    }
}

/// Calls a function and tells that what comes back is what it returned.
pub(crate) fn returned<R, F: Fn() -> R>(f: F) -> (r: R)
    requires
        call_requires(f, ()),
    ensures
        call_ensures(f, (), r),
{
    f()
}

/// Calls a function of one argument and tells that what comes back is what it
/// returned.
pub(crate) fn returned_for<A, R, F: Fn(A) -> R>(f: F, argument: A) -> (r: R)
    requires
        call_requires(f, (argument,)),
    ensures
        call_ensures(f, (argument,), r),
{
    f(argument)
}

/// Calls a function of two arguments and tells that what comes back is what it
/// returned.
pub(crate) fn returned_for_two<A, B, R, F: Fn(A, B) -> R>(f: F, first: A, second: B) -> (r: R)
    requires
        call_requires(f, (first, second)),
    ensures
        call_ensures(f, (first, second), r),
{
    f(first, second)
}

/// Calls a function of three arguments and tells that what comes back is what it
/// returned.
pub(crate) fn returned_for_three<A, B, C, R, F: Fn(A, B, C) -> R>(
    f: F,
    first: A,
    second: B,
    third: C,
) -> (r: R)
    requires
        call_requires(f, (first, second, third)),
    ensures
        call_ensures(f, (first, second, third), r),
{
    f(first, second, third)
}

/// An outcome that is a sequence of bytes or a text.
pub open spec fn told_bytes(r: Result<Vec<u8>, String>) -> Result<Seq<u8>, Seq<char>> {
    match r {
        Ok(t) => Ok(t@),
        Err(e) => Err(e@),
    }
}

/// An outcome that is a list of texts or a text.
pub open spec fn told_texts(r: Result<Vec<String>, String>) -> Result<Seq<Seq<char>>, Seq<char>> {
    match r {
        Ok(t) => Ok(crate::text::texts(t@)),
        Err(e) => Err(e@),
    }
}

} // verus!

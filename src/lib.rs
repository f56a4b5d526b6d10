//! Text utilities for use from a host runtime.
//!
//! The single operation, [`dir`], hands back the text it is given,
//! character for character.
use vstd::prelude::*;

verus! {

/// What [`dir`] returns for a request, as a sequence of characters:
/// the request itself.
pub open spec fn dir_result(request: Seq<char>) -> Seq<char> {
    request
}

/// Returns `request` unchanged.
pub fn dir(request: String) -> (r: String)
    ensures
        r@ == dir_result(request@),
        r@ == request@,
{
    request
}

/// Two calls of [`dir`] on equal requests give equal results: the result
/// depends on the request alone, with no state kept between calls.
pub proof fn lemma_dir_deterministic(a: Seq<char>, b: Seq<char>)
    requires
        a == b,
    ensures
        dir_result(a) == dir_result(b),
{
}

/// Calls of [`dir`] on different requests do not affect one another: each
/// result is its own request, whatever the other call was given.
pub proof fn lemma_dir_independent(a: Seq<char>, b: Seq<char>)
    ensures
        dir_result(a) == a,
        dir_result(b) == b,
        a != b ==> dir_result(a) != dir_result(b),
{
}

} // verus!

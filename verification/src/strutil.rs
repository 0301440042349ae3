//! Small trusted helpers over std's string operations.

use vstd::prelude::*;

verus! {

/// The decimal representation of a `u128`, as std's formatting renders it.
pub uninterp spec fn spec_u128_decimal(n: u128) -> Seq<char>;

/// Relies on str's `PartialEq`: two string slices are equal exactly when
/// their character sequences are equal.
#[verifier::external_body]
pub(crate) fn str_eq(a: &str, b: &str) -> (r: bool)
    ensures
        r == (a@ == b@),
{
    a == b
}

/// Relies on std's string formatting: the concatenation of two string
/// slices.
#[verifier::external_body]
pub(crate) fn str_concat(a: &str, b: &str) -> (r: String)
    ensures
        r@ == a@ + b@,
{
    format!("{}{}", a, b)
}

/// Relies on std's string formatting of `u128`: a prefix followed by the
/// decimal representation of `n`, which depends on `n` alone.
#[verifier::external_body]
pub(crate) fn concat_u128(prefix: &str, n: u128) -> (r: String)
    ensures
        r@ == prefix@ + spec_u128_decimal(n),
{
    format!("{}{}", prefix, n)
}

} // verus!

//! Naming-convention conversions, delegated to the `heck` crate.
//!
//! The exact character-level behaviour of the conversions is involved (word
//! boundary detection over the whole of Unicode), so each conversion's result
//! is only given a name here; the callers' contracts are stated over these
//! names.

use vstd::prelude::*;

verus! {

/// What `heck`'s snake-case conversion returns: a function of the input
/// characters alone.
pub uninterp spec fn snake_of(s: Seq<char>) -> Seq<char>;

/// What `heck`'s upper-camel-case conversion returns: a function of the input
/// characters alone.
pub uninterp spec fn upper_camel_of(s: Seq<char>) -> Seq<char>;

/// Relies on `heck::ToSnakeCase::to_snake_case` for `str`: the word-boundary
/// scan depends on the input characters alone and never fails.
#[verifier::external_body]
pub fn to_snake_case(s: &str) -> (r: String)
    ensures
        r@ == snake_of(s@),
{
    heck::ToSnakeCase::to_snake_case(s)
}

/// Relies on `heck::ToUpperCamelCase::to_upper_camel_case` for `str`: the
/// word-boundary scan depends on the input characters alone and never fails.
#[verifier::external_body]
pub fn to_upper_camel_case(s: &str) -> (r: String)
    ensures
        r@ == upper_camel_of(s@),
{
    heck::ToUpperCamelCase::to_upper_camel_case(s)
}

} // verus!

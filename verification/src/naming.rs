use heck::CamelCase;
use heck::SnakeCase;
use vstd::prelude::*;

verus! {

/// The upper-camel-case rendering that `heck` gives to an identifier.
pub uninterp spec fn camel_case_of(identifier: Seq<char>) -> Seq<char>;

/// The lower-snake-case rendering that `heck` gives to an identifier.
pub uninterp spec fn snake_case_of(identifier: Seq<char>) -> Seq<char>;

/// Calls `heck::CamelCase::to_camel_case` on `identifier`. Taken on trust:
/// the result depends on the characters of the identifier alone, so that it
/// is `camel_case_of` of them. What that rendering is, is left to `heck`.
#[verifier::external_body]
pub(crate) fn to_camel_case(identifier: &str) -> (name: String)
    ensures
        name@ == camel_case_of(identifier@),
{
    identifier.to_camel_case()
}

/// Calls `heck::SnakeCase::to_snake_case` on `identifier`. Taken on trust:
/// the result depends on the characters of the identifier alone, so that it
/// is `snake_case_of` of them. What that rendering is, is left to `heck`.
#[verifier::external_body]
pub(crate) fn to_snake_case(identifier: &str) -> (name: String)
    ensures
        name@ == snake_case_of(identifier@),
{
    identifier.to_snake_case()
}

} // verus!

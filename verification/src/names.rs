//! Case conversion of names, done by the `heck` crate.
use vstd::prelude::*;

verus! {

/// The snake-case form that `heck` gives a name: what
/// `heck::ToSnakeCase::to_snake_case` returns for the text `name`.
pub uninterp spec fn snake_case(name: Seq<char>) -> Seq<char>;

/// The upper-camel-case form that `heck` gives a name: what
/// `heck::ToUpperCamelCase::to_upper_camel_case` returns for the text `name`.
pub uninterp spec fn upper_camel_case(name: Seq<char>) -> Seq<char>;

/// Calls `heck::ToSnakeCase::to_snake_case` on `name`. The conversion reads
/// nothing but the characters of `name`, so its result is named by
/// [`snake_case`]; nothing more is claimed of it.
#[verifier::external_body]
pub(crate) fn to_snake_case(name: &str) -> (converted: String)
    ensures
        converted@ == snake_case(name@),
{
    heck::ToSnakeCase::to_snake_case(name)
}

/// Calls `heck::ToUpperCamelCase::to_upper_camel_case` on `name`. The
/// conversion reads nothing but the characters of `name`, so its result is
/// named by [`upper_camel_case`]; nothing more is claimed of it.
#[verifier::external_body]
pub(crate) fn to_upper_camel_case(name: &str) -> (converted: String)
    ensures
        converted@ == upper_camel_case(name@),
{
    heck::ToUpperCamelCase::to_upper_camel_case(name)
}

} // verus!

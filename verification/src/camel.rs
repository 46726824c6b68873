//! The lowerCamelCase conversion, which the `heck` crate performs.

use vstd::prelude::*;

pub use heck::AsLowerCamelCase;

verus! {

/// The characters that `heck` produces for `s` in lowerCamelCase: the words
/// of `s`, the first in lower case, each later one capitalized, with nothing
/// between them. Which characters form a word is `heck`'s decision, so this
/// has no definition here.
pub uninterp spec fn lower_camel_case(s: Seq<char>) -> Seq<char>;

/// Formats `name` through `heck::AsLowerCamelCase`.
///
/// Trusted: the result is taken to be `lower_camel_case` of the characters
/// of `name`, that is, the conversion is taken to depend on those characters
/// alone. Nothing is claimed about which characters come out.
#[verifier::external_body]
pub(crate) fn to_lower_camel_case(name: &str) -> (converted: String)
    ensures
        converted@ == lower_camel_case(name@),
{
    format!("{}", AsLowerCamelCase(name))
}

} // verus!

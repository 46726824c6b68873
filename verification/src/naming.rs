//! Names of elements and attributes, and the key of a field.

use std::borrow::Cow;
use vstd::prelude::*;

use crate::camel::{lower_camel_case, to_lower_camel_case};
use crate::text::{
    has_leading_ascii_digit, prefix_underscore, same_text, starts_with_ascii_digit,
    underscore_prefixed,
};

verus! {

/// The markup name of the identifier `name`: behind an underscore where
/// `name` begins with an ASCII digit, in lowerCamelCase otherwise.
pub open spec fn element_name(name: Seq<char>) -> Seq<char> {
    if has_leading_ascii_digit(name) {
        underscore_prefixed(name)
    } else {
        lower_camel_case(name)
    }
}

/// Whether `name` is its own markup name: it begins with no ASCII digit and
/// is in lowerCamelCase already.
pub open spec fn is_element_name(name: Seq<char>) -> bool {
    !has_leading_ascii_digit(name) && lower_camel_case(name) == name
}

/// The key of a field called `name`: the rename where there is one, the
/// markup name of `name` otherwise.
pub open spec fn dom_key_text(name: Seq<char>, rename: Option<Seq<char>>) -> Seq<char> {
    match rename {
        Some(r) => r,
        None => element_name(name),
    }
}

/// Chooses between `name` and what it was converted to: where the two hold
/// the same characters, `name` itself is handed back and `converted` is
/// dropped; otherwise `converted` is handed back.
pub fn keep_or_replace<'a>(name: &'a str, converted: String) -> (chosen: Cow<'a, str>)
    ensures
        converted@ == name@ ==> chosen == Cow::<'a, str>::Borrowed(name),
        converted@ != name@ ==> chosen == Cow::<'a, str>::Owned(converted),
{
    if same_text(converted.as_str(), name) {
        Cow::Borrowed(name)
    } else {
        Cow::Owned(converted)
    }
}

/// Converts an identifier to a markup name.
///
/// A name that begins with an ASCII digit comes back in a new string, behind
/// an underscore and otherwise untouched. Any other name is converted to
/// lowerCamelCase; where that changes nothing, `name` itself is handed back
/// and no string is kept.
///
/// The result begins with an ASCII digit only where `name` begins with none
/// and the conversion brings one to the front, as it does for `_0`.
#[inline]
pub fn to_element_name(name: &str) -> (element: Cow<'_, str>)
    ensures
        element@ == element_name(name@),
        is_element_name(name@) ==> element == Cow::<'_, str>::Borrowed(name),
        !is_element_name(name@) ==> element is Owned,
        has_leading_ascii_digit(name@) ==> element@ == underscore_prefixed(name@),
        has_leading_ascii_digit(element@) <==> !has_leading_ascii_digit(name@)
            && has_leading_ascii_digit(lower_camel_case(name@)),
{
    if starts_with_ascii_digit(name) {
        return Cow::Owned(prefix_underscore(name));
    }
    let converted: String = to_lower_camel_case(name);
    keep_or_replace(name, converted)
}

/// Computes the key of a field.
///
/// A rename is used as it stands. Without one the key is the markup name of
/// `name`, as `to_element_name` gives it.
#[inline]
pub fn dom_key<'a>(name: &'a str, rename: Option<&'a str>) -> (key: Cow<'a, str>)
    ensures
        key@ == dom_key_text(name@, rename.deep_view()),
        rename matches Some(r) ==> key == Cow::<'a, str>::Borrowed(r),
        rename is None && is_element_name(name@) ==> key == Cow::<'a, str>::Borrowed(name),
        rename is None && !is_element_name(name@) ==> key is Owned,
{
    match rename {
        Some(r) => Cow::Borrowed(r),
        None => to_element_name(name),
    }
}

} // verus!

//! What holds of the names for every identifier.

use vstd::prelude::*;

use crate::camel::lower_camel_case;
use crate::naming::{dom_key_text, element_name, is_element_name};
use crate::text::{has_leading_ascii_digit, underscore_prefixed};

verus! {

/// A name that begins with an ASCII digit is kept whole behind one
/// underscore: it is not converted to lowerCamelCase.
pub proof fn lemma_leading_digit_is_prefixed(name: Seq<char>)
    requires
        has_leading_ascii_digit(name),
    ensures
        element_name(name) == underscore_prefixed(name),
        element_name(name).len() == name.len() + 1,
        element_name(name)[0] == '_',
        element_name(name).skip(1) == name,
{
}

/// The markup name of `name` equals `name` exactly when `name` begins with no
/// ASCII digit and is in lowerCamelCase already.
pub proof fn lemma_unchanged_iff_element_name(name: Seq<char>)
    ensures
        element_name(name) == name <==> is_element_name(name),
{
}

/// The markup name begins with no ASCII digit, unless `name` begins with no
/// ASCII digit and its lowerCamelCase form begins with one.
pub proof fn lemma_no_leading_digit(name: Seq<char>)
    requires
        has_leading_ascii_digit(name) || !has_leading_ascii_digit(lower_camel_case(name)),
    ensures
        !has_leading_ascii_digit(element_name(name)),
{
}

/// With a rename, the key is the rename, whatever the field is called.
pub proof fn lemma_rename_is_key(name: Seq<char>, rename: Seq<char>)
    ensures
        dom_key_text(name, Some(rename)) == rename,
{
}

/// Without a rename, the key is the markup name of the field.
pub proof fn lemma_key_defaults_to_element_name(name: Seq<char>)
    ensures
        dom_key_text(name, None) == element_name(name),
{
}

/// The markup name of a name that begins with an ASCII digit begins with an
/// underscore, so converting it once more puts no second underscore in
/// front: it hands the name, underscore included, to the lowerCamelCase
/// conversion.
pub proof fn lemma_twice_on_leading_digit(name: Seq<char>)
    requires
        has_leading_ascii_digit(name),
    ensures
        element_name(element_name(name)) == lower_camel_case(underscore_prefixed(name)),
{
}

} // verus!

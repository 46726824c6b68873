//! Element and attribute names for DOM serialization.
//!
//! Identifiers become markup names in lowerCamelCase. A name that begins with
//! an ASCII digit, such as the index of a tuple field, gets an underscore in
//! front of it instead, because a markup name cannot begin with a digit.

pub mod camel;
pub mod laws;
pub mod naming;
pub mod text;

pub use camel::AsLowerCamelCase;
pub use naming::{dom_key, to_element_name};

//! The ways reading a PLY file can fail, and the check of unique names that a file must pass
//! before its elements and properties can be looked up by name.

use vstd::prelude::*;
use super::types::{has_repeated_name, Element, Ply};

verus! {

/// The error of an input or output operation.
#[verifier::external_type_specification]
#[verifier::external_body]
pub struct ExIoError(std::io::Error);

/// Describes errors that may occur when parsing a ply file.
#[derive(Debug)]
pub enum Error {
    /// A ply file contains duplicate element names.
    DuplicateElements,
    /// An element in a ply file contains duplicate property names.
    DuplicateProperties,
    /// The file could not be parsed: the path, then what went wrong.
    ParserError(String, String),
    /// The file could not be read: the path, then the error of the operation.
    IoError(String, std::io::Error),
}

/// The text of an input or output error.
///
/// Formats `e` with its `Display` impl, which writes the operating system's description of
/// the error; that text depends on the machine, so nothing is stated of it.
#[verifier::external_body]
pub fn io_error_text(e: &std::io::Error) -> String {
    format!("{}", e)
}

impl Error {
    /// The message that describes the error: a fixed sentence for duplicate names, and for a
    /// failed parse or read what went wrong, `: ` and the path.
    pub fn message(&self) -> (r: String)
        ensures
            match self {
                Error::DuplicateElements => r@ == "Some element names appeared more than once"@,
                Error::DuplicateProperties => r@ == "Some property names appeared more than once in a single element"@,
                Error::ParserError(path, reason) => r@ == reason@ + ": "@ + path@,
                Error::IoError(path, e) => exists|t: String| #[trigger] call_ensures(io_error_text, (e,), t) && r@ == t@ + ": "@ + path@,
            },
    {
        match self {
            Error::DuplicateElements => String::from_str("Some element names appeared more than once"),
            Error::DuplicateProperties => String::from_str("Some property names appeared more than once in a single element"),
            Error::ParserError(path, reason) => {
                let mut m = reason.clone();
                m.append(": ");
                m.append(path.as_str());
                m
            },
            Error::IoError(path, e) => {
                let mut m = io_error_text(e);
                let ghost t = m;
                m.append(": ");
                m.append(path.as_str());
                assert(call_ensures(io_error_text, (e,), t));
                m
            },
        }
    }
}

/// Some element of `elements` has two properties of the same name.
pub open spec fn some_element_repeats_a_property(elements: Seq<Element>) -> bool {
    exists|k: int| 0 <= k < elements.len() && has_repeated_name(#[trigger] elements[k].property_names())
}

impl<P> Ply<P> {
    /// Accepts a parsed file only if its element names are unique and, within each element,
    /// its property names are unique: otherwise elements and properties could not be reliably
    /// found by name.
    pub fn check_unique_names(self) -> (r: Result<Self, Error>)
        ensures
            has_repeated_name(self.header.element_names()) ==> r matches Err(Error::DuplicateElements),
            !has_repeated_name(self.header.element_names()) && some_element_repeats_a_property(self.header.elements@)
                ==> r matches Err(Error::DuplicateProperties),
            !has_repeated_name(self.header.element_names()) && !some_element_repeats_a_property(self.header.elements@)
                ==> r == Ok::<Self, Error>(self),
    {
        if self.header.has_duplicate_elements() {
            return Err(Error::DuplicateElements);
        }
        let mut k: usize = 0;
        while k < self.header.elements.len()
            invariant
                k <= self.header.elements@.len(),
                !has_repeated_name(self.header.element_names()),
                forall|a: int| 0 <= a < k ==> !has_repeated_name(#[trigger] self.header.elements@[a].property_names()),
            decreases self.header.elements@.len() - k,
        {
            if self.header.elements[k].has_duplicate_properties() {
                return Err(Error::DuplicateProperties);
            }
            k = k + 1;
        }
        Ok(self)
    }
}

} // verus!

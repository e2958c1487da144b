//! Errors raised while decoding a multipart form against a field declaration.

use vstd::prelude::*;
use vstd::string::StringExecFns;

use crate::numbers::NumberError;

verus! {

/// A decode failure, reported for the first field check that fails.
#[derive(Debug, Clone, PartialEq, Eq)]
pub enum FormError {
    /// A field declared required had no value in the parsed body.
    MissingField(String),
    /// A declared numeric field held text that is not a decimal `i32`.
    InvalidNumber(String, NumberError),
    /// The declaration requires an image part and none was supplied.
    MissingImage,
}

impl NumberError {
    pub open spec fn spec_detail(self) -> Seq<char> {
        match self {
            NumberError::Empty => "value is empty"@,
            NumberError::InvalidDigit => "invalid digit"@,
            NumberError::OutOfRange => "out of range"@,
        }
    }

    /// A short description of why the number failed to parse.
    pub fn detail(&self) -> (r: &'static str)
        ensures
            r@ == self.spec_detail(),
    {
        match self {
            NumberError::Empty => "value is empty",
            NumberError::InvalidDigit => "invalid digit",
            NumberError::OutOfRange => "out of range",
        }
    }
}

impl FormError {
    pub open spec fn spec_message(self) -> Seq<char> {
        match self {
            FormError::MissingField(name) => "Missing required field: "@ + name@,
            FormError::InvalidNumber(name, e) => "Invalid "@ + name@ + ": "@ + e.spec_detail(),
            FormError::MissingImage => "Missing image"@,
        }
    }

    /// The client-facing description of this failure.
    pub fn message(&self) -> (r: String)
        ensures
            r@ == self.spec_message(),
    {
        match self {
            FormError::MissingField(name) => {
                let mut m = String::from_str("Missing required field: ");
                m.append(name.as_str());
                m
            },
            FormError::InvalidNumber(name, e) => {
                let mut m = String::from_str("Invalid ");
                m.append(name.as_str());
                m.append(": ");
                m.append(e.detail());
                m
            },
            FormError::MissingImage => String::from_str("Missing image"),
        }
    }
}

} // verus!

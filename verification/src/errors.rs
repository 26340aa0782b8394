//! Errors of the protocol layer.

use crate::common::text::{decimal_text, push_decimal};
use vstd::prelude::*;
use vstd::string::*;

verus! {

/// What can be wrong with a message on the wire.
#[derive(Debug, Clone, PartialEq, Eq)]
pub enum FixError {
    /// A timestamp cannot be read: the text.
    InvalidTimestamp(String),
    /// A required field is missing: the field.
    MissingField(String),
    /// A field has an invalid value: the field, then the value.
    InvalidValue(String, String),
    /// The checksum is not the one that the content gives: expected, then found.
    ChecksumMismatch(u32, u32),
    /// The body length is not the one that the content gives: expected, then calculated.
    BodyLengthMismatch(u32, usize),
    /// The protocol version is not supported: the version.
    UnsupportedBeginString(String),
}

/// A `FixError` with its texts as sequences.
pub enum FixErrorView {
    InvalidTimestamp(Seq<char>),
    MissingField(Seq<char>),
    InvalidValue(Seq<char>, Seq<char>),
    ChecksumMismatch(u32, u32),
    BodyLengthMismatch(u32, usize),
    UnsupportedBeginString(Seq<char>),
}

impl View for FixError {
    type V = FixErrorView;

    open spec fn view(&self) -> FixErrorView {
        match self {
            FixError::InvalidTimestamp(t) => FixErrorView::InvalidTimestamp(t@),
            FixError::MissingField(f) => FixErrorView::MissingField(f@),
            FixError::InvalidValue(f, v) => FixErrorView::InvalidValue(f@, v@),
            FixError::ChecksumMismatch(e, g) => FixErrorView::ChecksumMismatch(*e, *g),
            FixError::BodyLengthMismatch(e, c) => FixErrorView::BodyLengthMismatch(*e, *c),
            FixError::UnsupportedBeginString(v) => FixErrorView::UnsupportedBeginString(v@),
        }
    }
}

impl FixErrorView {
    /// The sentence that describes the error.
    pub open spec fn message(self) -> Seq<char> {
        match self {
            FixErrorView::InvalidTimestamp(t) => "Invalid timestamp: "@ + t,
            FixErrorView::MissingField(f) => "Missing required field: "@ + f,
            FixErrorView::InvalidValue(f, v) => "Invalid value for "@ + f + ": "@ + v,
            FixErrorView::ChecksumMismatch(e, g) => "Checksum mismatch: expected "@ + decimal_text(
                e as nat,
            ) + ", got "@ + decimal_text(g as nat),
            FixErrorView::BodyLengthMismatch(e, c) => "Body length mismatch: expected "@
                + decimal_text(e as nat) + ", calculated "@ + decimal_text(c as nat),
            FixErrorView::UnsupportedBeginString(v) => "Unsupported BeginString: "@ + v,
        }
    }
}

impl FixError {
    /// The sentence that describes the error.
    pub fn to_string(&self) -> (s: String)
        ensures
            s@ == self@.message(),
    {
        match self {
            FixError::InvalidTimestamp(t) => String::from_str("Invalid timestamp: ").concat(
                t.as_str(),
            ),
            FixError::MissingField(f) => String::from_str("Missing required field: ").concat(
                f.as_str(),
            ),
            FixError::InvalidValue(f, v) => String::from_str("Invalid value for ").concat(
                f.as_str(),
            ).concat(": ").concat(v.as_str()),
            FixError::ChecksumMismatch(e, g) => {
                let mut s = String::from_str("Checksum mismatch: expected ");
                push_decimal(&mut s, *e as u64);
                s.append(", got ");
                push_decimal(&mut s, *g as u64);
                s
            },
            FixError::BodyLengthMismatch(e, c) => {
                let mut s = String::from_str("Body length mismatch: expected ");
                push_decimal(&mut s, *e as u64);
                s.append(", calculated ");
                push_decimal(&mut s, *c as u64);
                s
            },
            FixError::UnsupportedBeginString(v) => String::from_str(
                "Unsupported BeginString: ",
            ).concat(v.as_str()),
        }
    }
}

} // verus!

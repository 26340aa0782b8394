//! What every component of a message can do: check itself, write its fields
//! and take a field that was read.

use crate::common::text::{Field, fields_text};
use vstd::prelude::*;
use vstd::string::*;

verus! {

/// What validation can find wrong with a message.
#[derive(Debug, Clone, PartialEq, Eq)]
pub enum ValidationError {
    /// A required field is missing from the message.
    MissingRequiredField(String),
    /// A field has an invalid value: the field, then the value.
    InvalidFieldValue(String, String),
    /// The message checksum is invalid.
    InvalidChecksum,
    /// The message body length is invalid.
    InvalidBodyLength,
    /// The message is empty or malformed.
    EmptyMessage,
    /// The FIX version is not supported.
    VersionMismatch,
    /// A field value is out of the acceptable range: the field, then the value.
    ValueOutOfRange(String, String),
    /// A field format is incorrect: the field, then the value.
    InvalidFormat(String, String),
}

/// A `ValidationError` with its texts as sequences.
pub enum ValidationErrorView {
    MissingRequiredField(Seq<char>),
    InvalidFieldValue(Seq<char>, Seq<char>),
    InvalidChecksum,
    InvalidBodyLength,
    EmptyMessage,
    VersionMismatch,
    ValueOutOfRange(Seq<char>, Seq<char>),
    InvalidFormat(Seq<char>, Seq<char>),
}

impl View for ValidationError {
    type V = ValidationErrorView;

    open spec fn view(&self) -> ValidationErrorView {
        match self {
            ValidationError::MissingRequiredField(f) => ValidationErrorView::MissingRequiredField(
                f@,
            ),
            ValidationError::InvalidFieldValue(f, v) => ValidationErrorView::InvalidFieldValue(
                f@,
                v@,
            ),
            ValidationError::InvalidChecksum => ValidationErrorView::InvalidChecksum,
            ValidationError::InvalidBodyLength => ValidationErrorView::InvalidBodyLength,
            ValidationError::EmptyMessage => ValidationErrorView::EmptyMessage,
            ValidationError::VersionMismatch => ValidationErrorView::VersionMismatch,
            ValidationError::ValueOutOfRange(f, v) => ValidationErrorView::ValueOutOfRange(f@, v@),
            ValidationError::InvalidFormat(f, v) => ValidationErrorView::InvalidFormat(f@, v@),
        }
    }
}

impl ValidationErrorView {
    /// The sentence that describes the error.
    pub open spec fn message(self) -> Seq<char> {
        match self {
            ValidationErrorView::MissingRequiredField(f) => "Missing required field: "@ + f,
            ValidationErrorView::InvalidFieldValue(f, v) => "Invalid value '"@ + v
                + "' for field '"@ + f + "'"@,
            ValidationErrorView::InvalidChecksum => "Invalid checksum"@,
            ValidationErrorView::InvalidBodyLength => "Invalid body length"@,
            ValidationErrorView::EmptyMessage => "Empty message"@,
            ValidationErrorView::VersionMismatch => "FIX Version Not Supported"@,
            ValidationErrorView::ValueOutOfRange(f, v) => "Value '"@ + v + "' for field '"@ + f
                + "' is out of acceptable range"@,
            ValidationErrorView::InvalidFormat(f, v) => "Invalid format '"@ + v
                + "' for field '"@ + f + "'"@,
        }
    }
}

impl ValidationError {
    /// The sentence that describes the error.
    pub fn to_string(&self) -> (s: String)
        ensures
            s@ == self@.message(),
    {
        match self {
            ValidationError::MissingRequiredField(f) => String::from_str(
                "Missing required field: ",
            ).concat(f.as_str()),
            ValidationError::InvalidFieldValue(f, v) => String::from_str("Invalid value '").concat(
                v.as_str(),
            ).concat("' for field '").concat(f.as_str()).concat("'"),
            ValidationError::InvalidChecksum => String::from_str("Invalid checksum"),
            ValidationError::InvalidBodyLength => String::from_str("Invalid body length"),
            ValidationError::EmptyMessage => String::from_str("Empty message"),
            ValidationError::VersionMismatch => String::from_str("FIX Version Not Supported"),
            ValidationError::ValueOutOfRange(f, v) => String::from_str("Value '").concat(
                v.as_str(),
            ).concat("' for field '").concat(f.as_str()).concat("' is out of acceptable range"),
            ValidationError::InvalidFormat(f, v) => String::from_str("Invalid format '").concat(
                v.as_str(),
            ).concat("' for field '").concat(f.as_str()).concat("'"),
        }
    }
}

/// Whether a validation came out as the model says it must.
pub open spec fn validation_matches(
    r: Result<(), ValidationError>,
    problem: Option<ValidationErrorView>,
) -> bool {
    match problem {
        None => r is Ok,
        Some(e) => r is Err && r->Err_0@ == e,
    }
}

/// A component that can check itself.
pub trait Validate {
    /// The first thing that is wrong with this component, if anything is.
    spec fn problem(&self) -> Option<ValidationErrorView>;

    /// Validates the component: `Ok` where nothing is wrong, else the first
    /// thing that is.
    fn validate(&self) -> (r: Result<(), ValidationError>)
        ensures
            validation_matches(r, self.problem()),
    ;

    /// Whether validation passes.
    fn is_valid(&self) -> (b: bool)
        ensures
            b == (self.problem() is None),
    {
        self.validate().is_ok()
    }
}

/// A component that writes itself as fields on the wire.
pub trait WriteTo {
    /// The fields of this component, in the order in which they are written.
    spec fn fields(&self) -> Seq<Field>;

    /// Appends the fields of this component to the buffer.
    fn write_to(&self, buffer: &mut String)
        ensures
            final(buffer)@ == old(buffer)@ + fields_text(self.fields()),
    ;
}

/// Whether taking a field came out as the model says it must: on success
/// the component is the one that the model gives, on failure it is unchanged
/// and the message is the model's.
pub open spec fn field_outcome_matches<M>(
    r: Result<(), String>,
    before: M,
    after: M,
    expected: Result<M, Seq<char>>,
) -> bool {
    match expected {
        Ok(m) => r is Ok && after == m,
        Err(e) => r is Err && r->Err_0@ == e && after == before,
    }
}

/// A component that takes the fields that belong to it, one at a time, and
/// writes those that count towards the body length.
pub trait FixFieldHandler: View {
    /// The component after it has taken the field, or why it cannot take it.
    spec fn with_field(model: Self::V, tag: u32, value: Seq<char>) -> Result<Self::V, Seq<char>>;

    /// Takes one field that was read from the wire.
    fn parse_field(&mut self, tag: u32, value: &str) -> (r: Result<(), String>)
        ensures
            field_outcome_matches(
                r,
                old(self)@,
                final(self)@,
                Self::with_field(old(self)@, tag, value@),
            ),
    ;

    /// The fields of this component that count towards the body length.
    spec fn body_fields(&self) -> Seq<Field>;

    /// Appends the fields that count towards the body length.
    fn write_body_fields(&self, buffer: &mut String)
        ensures
            final(buffer)@ == old(buffer)@ + fields_text(self.body_fields()),
    ;
}

} // verus!

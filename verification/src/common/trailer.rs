//! The standard trailer that every message ends with.

use crate::common::text::{
    all_digits, char_is_digit, chars_of, decimal_text, Field, fields_text, is_digit,
    lemma_field_appended, parse_u32, parse_unsigned, write_field,
};
use crate::common::scan::plain_optional;
use crate::common::validation::{
    field_outcome_matches, Validate, ValidationError, ValidationErrorView, WriteTo,
};
use crate::common::writer::{
    FieldList, lemma_nothing_written, optional_number_text, optional_text, put_optional_number,
    put_optional_text, unknown_field,
};
use vstd::prelude::*;
use vstd::string::*;

verus! {

/// The standard message trailer.
#[derive(Debug, Clone, PartialEq, Eq)]
pub struct FixTrailer {
    /// Tag 10: the checksum, three digits, always the last field of a message.
    pub checksum: String,
    /// Tag 93: the length of the signature.
    pub signature_length: Option<u32>,
    /// Tag 89: the signature.
    pub signature: Option<String>,
}

/// What a trailer holds, as mathematical values.
pub struct TrailerView {
    pub checksum: Seq<char>,
    pub signature_length: Option<u32>,
    pub signature: Option<Seq<char>>,
}

impl View for FixTrailer {
    type V = TrailerView;

    open spec fn view(&self) -> TrailerView {
        TrailerView {
            checksum: self.checksum@,
            signature_length: self.signature_length,
            signature: optional_text(self.signature),
        }
    }
}

impl TrailerView {
    /// The trailer that a new message starts with: nothing set.
    pub open spec fn initial() -> TrailerView {
        TrailerView { checksum: Seq::empty(), signature_length: None, signature: None }
    }

    /// The trailers that can be read back from their wire text: the
    /// signature holds no field separator.
    pub open spec fn wf(self) -> bool {
        plain_optional(self.signature)
    }

    /// The fields that count towards the body length: the signature length
    /// and the signature, where they are present.
    pub open spec fn body_fields(self) -> Seq<Field> {
        FieldList::new()
            .with_optional(93, optional_number_text(self.signature_length))
            .with_optional(89, self.signature)
            .fields
    }

    /// The optional fields, then the stored checksum last.
    pub open spec fn fields(self) -> Seq<Field> {
        self.body_fields().push(Field { tag: 10, value: self.checksum })
    }

    /// The first thing that is wrong with the trailer, if anything is: the
    /// checksum must be three digits.
    pub open spec fn problem(self) -> Option<ValidationErrorView> {
        if self.checksum.len() == 3 && all_digits(self.checksum) {
            None
        } else {
            Some(ValidationErrorView::InvalidChecksum)
        }
    }

    /// The trailer after it has taken a field, or why it cannot take it.
    pub open spec fn with_field(self, tag: u32, value: Seq<char>) -> Result<
        TrailerView,
        Seq<char>,
    > {
        if tag == 10 {
            Ok(TrailerView { checksum: value, ..self })
        } else if tag == 93 {
            match parse_unsigned(value, u32::MAX as nat) {
                Some(n) => Ok(TrailerView { signature_length: Some(n as u32), ..self }),
                None => Err("Invalid SignatureLength"@),
            }
        } else if tag == 89 {
            Ok(TrailerView { signature: Some(value), ..self })
        } else {
            Err("Unknown trailer field: "@ + decimal_text(tag as nat))
        }
    }
}

impl Default for FixTrailer {
    fn default() -> (r: FixTrailer)
        ensures
            r@ == TrailerView::initial(),
    {
        FixTrailer { checksum: String::new(), signature_length: None, signature: None }
    }
}

impl Validate for FixTrailer {
    open spec fn problem(&self) -> Option<ValidationErrorView> {
        self@.problem()
    }

    fn validate(&self) -> (r: Result<(), ValidationError>) {
        let chars = chars_of(self.checksum.as_str());
        if chars.len() != 3 {
            return Err(ValidationError::InvalidChecksum);
        }
        let mut i: usize = 0;
        while i < 3
            invariant
                i <= 3,
                chars.len() == 3,
                chars@ == self.checksum@,
                forall|j: int| 0 <= j < i ==> is_digit(#[trigger] chars@[j]),
            decreases 3 - i,
        {
            if !char_is_digit(chars[i]) {
                return Err(ValidationError::InvalidChecksum);
            }
            i += 1;
        }
        Ok(())
    }
}

impl FixTrailer {
    /// Appends the fields that count towards the body length: every field
    /// of the trailer but the checksum.
    pub fn write_body_fields(&self, buffer: &mut String)
        ensures
            final(buffer)@ == old(buffer)@ + fields_text(self@.body_fields()),
    {
        let ghost start = buffer@;
        let written: Ghost<FieldList> = Ghost(FieldList::new());
        proof {
            lemma_nothing_written(buffer@);
        }
        let written = put_optional_number(buffer, 93, self.signature_length, Ghost(start), written);
        let written = put_optional_text(buffer, 89, &self.signature, Ghost(start), written);
    }

    /// Takes one field that was read from the wire. On failure the trailer
    /// is unchanged.
    pub fn parse_field(&mut self, tag: u32, value: &str) -> (r: Result<(), String>)
        ensures
            field_outcome_matches(
                r,
                old(self)@,
                final(self)@,
                old(self)@.with_field(tag, value@),
            ),
    {
        match tag {
            10 => {
                self.checksum = String::from_str(value);
            },
            93 => {
                match parse_u32(value) {
                    Some(n) => {
                        self.signature_length = Some(n);
                    },
                    None => {
                        return Err(String::from_str("Invalid SignatureLength"));
                    },
                }
            },
            89 => {
                self.signature = Some(String::from_str(value));
            },
            _ => {
                return Err(unknown_field("Unknown trailer field: ", tag));
            },
        }
        Ok(())
    }
}

impl WriteTo for FixTrailer {
    open spec fn fields(&self) -> Seq<Field> {
        self@.fields()
    }

    fn write_to(&self, buffer: &mut String) {
        let ghost start = buffer@;
        self.write_body_fields(buffer);
        write_field(buffer, 10, self.checksum.as_str());
        proof {
            lemma_field_appended(
                start,
                self@.body_fields(),
                Field { tag: 10, value: self.checksum@ },
                buffer@,
            );
        }
    }
}

} // verus!

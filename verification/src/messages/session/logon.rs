//! The Logon message (MsgType=A): the first message of a session, which
//! carries its parameters.

use crate::common::enums::EncryptMethod;
use crate::common::header::{flag_of, parse_flag};
use crate::common::text::{decimal_text, Field, parse_u32, parse_unsigned};
use crate::common::validation::{
    field_outcome_matches, Validate, ValidationError, ValidationErrorView, WriteTo,
};
use crate::common::writer::{
    FieldList, lemma_nothing_written, optional_flag_text, optional_number_text, put_code,
    put_number, put_optional_flag, put_optional_number, unknown_field,
};
use vstd::prelude::*;
use vstd::string::*;

verus! {

/// The body of a Logon.
#[derive(Debug, Clone, PartialEq, Eq)]
pub struct LogonBody {
    /// Tag 98: the encryption method.
    pub encrypt_method: EncryptMethod,
    /// Tag 108: the heartbeat interval in seconds.
    pub heart_bt_int: u32,
    /// Tag 141: whether both sides reset their sequence numbers.
    pub reset_seq_num_flag: Option<bool>,
    /// Tag 789: the next sequence number that the sender expects.
    pub next_expected_msg_seq_num: Option<u32>,
    /// Tag 383: the largest message, in bytes, that the sender takes.
    pub max_message_size: Option<u32>,
}

impl View for LogonBody {
    type V = LogonBody;

    open spec fn view(&self) -> LogonBody {
        *self
    }
}

impl LogonBody {
    /// The body that a new Logon starts with: no encryption, a heartbeat
    /// every 30 seconds.
    pub open spec fn initial() -> LogonBody {
        LogonBody {
            encrypt_method: EncryptMethod::NoEncryption,
            heart_bt_int: 30,
            reset_seq_num_flag: None,
            next_expected_msg_seq_num: None,
            max_message_size: None,
        }
    }

    /// The fields of the body, in wire order: the two required fields, then
    /// the optional ones that are present.
    pub open spec fn wire_fields(self) -> Seq<Field> {
        FieldList::new()
            .with(98, self.encrypt_method.wire_code())
            .with(108, decimal_text(self.heart_bt_int as nat))
            .with_optional(141, optional_flag_text(self.reset_seq_num_flag))
            .with_optional(789, optional_number_text(self.next_expected_msg_seq_num))
            .with_optional(383, optional_number_text(self.max_message_size))
            .fields
    }

    /// The first thing that is wrong with the body, if anything is: the
    /// heartbeat interval must not be zero.
    pub open spec fn first_problem(self) -> Option<ValidationErrorView> {
        if self.heart_bt_int == 0 {
            Some(ValidationErrorView::InvalidFieldValue("HeartBtInt"@, "0"@))
        } else {
            None
        }
    }

    /// The tags of the fields that the body holds.
    pub open spec fn handles_tag(tag: u32) -> bool {
        tag == 98 || tag == 108 || tag == 141 || tag == 789 || tag == 383
    }

    /// The body after it has taken a field, or why it cannot take it.
    pub open spec fn with_field(self, tag: u32, value: Seq<char>) -> Result<LogonBody, Seq<char>> {
        if tag == 98 {
            match EncryptMethod::from_wire_code(value) {
                Some(m) => Ok(LogonBody { encrypt_method: m, ..self }),
                None => Err("Invalid EncryptMethod"@),
            }
        } else if tag == 108 {
            match parse_unsigned(value, u32::MAX as nat) {
                Some(n) => Ok(LogonBody { heart_bt_int: n as u32, ..self }),
                None => Err("Invalid HeartBtInt"@),
            }
        } else if tag == 141 {
            Ok(LogonBody { reset_seq_num_flag: Some(flag_of(value)), ..self })
        } else if tag == 789 {
            match parse_unsigned(value, u32::MAX as nat) {
                Some(n) => Ok(LogonBody { next_expected_msg_seq_num: Some(n as u32), ..self }),
                None => Err("Invalid NextExpectedMsgSeqNum"@),
            }
        } else if tag == 383 {
            match parse_unsigned(value, u32::MAX as nat) {
                Some(n) => Ok(LogonBody { max_message_size: Some(n as u32), ..self }),
                None => Err("Invalid MaxMessageSize"@),
            }
        } else {
            Err("Unknown logon field: "@ + decimal_text(tag as nat))
        }
    }
}

impl Default for LogonBody {
    fn default() -> (r: LogonBody)
        ensures
            r == LogonBody::initial(),
    {
        LogonBody {
            encrypt_method: EncryptMethod::NoEncryption,
            heart_bt_int: 30,
            reset_seq_num_flag: None,
            next_expected_msg_seq_num: None,
            max_message_size: None,
        }
    }
}

impl Validate for LogonBody {
    open spec fn problem(&self) -> Option<ValidationErrorView> {
        self.first_problem()
    }

    fn validate(&self) -> (r: Result<(), ValidationError>) {
        if self.heart_bt_int == 0 {
            return Err(
                ValidationError::InvalidFieldValue(
                    String::from_str("HeartBtInt"),
                    String::from_str("0"),
                ),
            );
        }
        Ok(())
    }
}

impl WriteTo for LogonBody {
    open spec fn fields(&self) -> Seq<Field> {
        self.wire_fields()
    }

    fn write_to(&self, buffer: &mut String) {
        let ghost start = buffer@;
        let written: Ghost<FieldList> = Ghost(FieldList::new());
        proof {
            lemma_nothing_written(buffer@);
        }
        let written = put_code(buffer, 98, self.encrypt_method.code(), Ghost(start), written);
        let written = put_number(buffer, 108, self.heart_bt_int, Ghost(start), written);
        let written = put_optional_flag(
            buffer,
            141,
            self.reset_seq_num_flag,
            Ghost(start),
            written,
        );
        let written = put_optional_number(
            buffer,
            789,
            self.next_expected_msg_seq_num,
            Ghost(start),
            written,
        );
        let written = put_optional_number(
            buffer,
            383,
            self.max_message_size,
            Ghost(start),
            written,
        );
    }
}

impl LogonBody {
    /// A Logon body with the required fields.
    pub fn new(encrypt_method: EncryptMethod, heart_bt_int: u32) -> (r: LogonBody)
        ensures
            r == (LogonBody { encrypt_method, heart_bt_int, ..LogonBody::initial() }),
    {
        LogonBody {
            encrypt_method,
            heart_bt_int,
            reset_seq_num_flag: None,
            next_expected_msg_seq_num: None,
            max_message_size: None,
        }
    }

    /// The same body with the reset flag set to `flag`.
    pub fn with_reset_seq_num_flag(self, flag: bool) -> (r: LogonBody)
        ensures
            r == (LogonBody { reset_seq_num_flag: Some(flag), ..self }),
    {
        let mut body = self;
        body.reset_seq_num_flag = Some(flag);
        body
    }

    /// The same body with the next expected sequence number set.
    pub fn with_next_expected_msg_seq_num(self, seq_num: u32) -> (r: LogonBody)
        ensures
            r == (LogonBody { next_expected_msg_seq_num: Some(seq_num), ..self }),
    {
        let mut body = self;
        body.next_expected_msg_seq_num = Some(seq_num);
        body
    }

    /// The same body with the maximum message size set.
    pub fn with_max_message_size(self, size: u32) -> (r: LogonBody)
        ensures
            r == (LogonBody { max_message_size: Some(size), ..self }),
    {
        let mut body = self;
        body.max_message_size = Some(size);
        body
    }

    /// Whether the body holds a field with this tag.
    pub fn handles(tag: u32) -> (r: bool)
        ensures
            r == LogonBody::handles_tag(tag),
    {
        tag == 98 || tag == 108 || tag == 141 || tag == 789 || tag == 383
    }

    /// Takes one field that was read from the wire. On failure the body is
    /// unchanged.
    pub fn parse_field(&mut self, tag: u32, value: &str) -> (r: Result<(), String>)
        ensures
            field_outcome_matches(r, *old(self), *final(self), old(self).with_field(tag, value@)),
    {
        match tag {
            98 => {
                match EncryptMethod::parse_code(value) {
                    Ok(m) => {
                        self.encrypt_method = m;
                    },
                    Err(_) => {
                        return Err(String::from_str("Invalid EncryptMethod"));
                    },
                }
            },
            108 => {
                match parse_u32(value) {
                    Some(n) => {
                        self.heart_bt_int = n;
                    },
                    None => {
                        return Err(String::from_str("Invalid HeartBtInt"));
                    },
                }
            },
            141 => {
                self.reset_seq_num_flag = Some(parse_flag(value));
            },
            789 => {
                match parse_u32(value) {
                    Some(n) => {
                        self.next_expected_msg_seq_num = Some(n);
                    },
                    None => {
                        return Err(String::from_str("Invalid NextExpectedMsgSeqNum"));
                    },
                }
            },
            383 => {
                match parse_u32(value) {
                    Some(n) => {
                        self.max_message_size = Some(n);
                    },
                    None => {
                        return Err(String::from_str("Invalid MaxMessageSize"));
                    },
                }
            },
            _ => {
                return Err(unknown_field("Unknown logon field: ", tag));
            },
        }
        Ok(())
    }
}

} // verus!

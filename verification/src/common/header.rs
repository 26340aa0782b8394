//! The standard header that every message starts with, and the reading of
//! timestamps.

use crate::common::enums::{MsgType, MsgTypeView};
use crate::common::scan::plain;
use crate::common::text::{
    chars_of, decimal_text, Field, field_text, fields_text, lemma_field_appended,
    lemma_fields_appended, lemma_fields_text_single, parse_decimal_range, parse_u32, parse_unsigned,
    push_decimal, same_text, write_field, write_number_field,
};
use crate::common::timestamp::{
    Civil, is_valid_date, is_valid_time, parse_timestamp, timestamp_numbers, UtcTimestamp,
};
use crate::common::validation::{
    FixFieldHandler, Validate, ValidationError, ValidationErrorView, WriteTo,
};
use crate::common::writer::{
    FieldList, lemma_nothing_written, optional_flag_text, optional_time, optional_time_text,
    put_number, put_optional_flag, put_optional_time, put_text, put_time, unknown_field,
};
use vstd::prelude::*;
use vstd::string::*;

verus! {

/// The flag that a text stands for: set where the text is `Y`, clear otherwise.
pub open spec fn flag_of(text: Seq<char>) -> bool {
    text == seq!['Y']
}

/// Reads a flag.
pub fn parse_flag(value: &str) -> (flag: bool)
    ensures
        flag == flag_of(value@),
{
    let chars = chars_of(value);
    let flag = chars.len() == 1 && chars[0] == 'Y';
    assert(flag == (value@ =~= seq!['Y']));
    flag
}

/// Reads a timestamp, `YYYYMMDD-HH:MM:SS` with `.sss` after it or not.
///
/// A seconds field of 60 names the instant one second after second 59 of
/// the same minute. Each failure says what was wrong and quotes the text.
pub fn parse_fix_timestamp(s: &str) -> (r: Result<UtcTimestamp, String>)
    ensures
        match parse_timestamp(s@) {
            Ok(t) => r is Ok && r->Ok_0@ == t,
            Err(e) => r is Err && r->Err_0@ == e,
        },
{
    let chars = chars_of(s);
    if chars.len() < 17 {
        return Err(String::from_str("Timestamp too short: ").concat(s));
    }
    let year = match parse_decimal_range(&chars, 0, 4, 9999) {
        Some(n) => n as u16,
        None => { return Err(String::from_str("Invalid year: ").concat(s)); },
    };
    let month = match parse_decimal_range(&chars, 4, 6, 99) {
        Some(n) => n as u8,
        None => { return Err(String::from_str("Invalid month: ").concat(s)); },
    };
    let day = match parse_decimal_range(&chars, 6, 8, 99) {
        Some(n) => n as u8,
        None => { return Err(String::from_str("Invalid day: ").concat(s)); },
    };
    let hour = match parse_decimal_range(&chars, 9, 11, 99) {
        Some(n) => n as u8,
        None => { return Err(String::from_str("Invalid hour: ").concat(s)); },
    };
    let minute = match parse_decimal_range(&chars, 12, 14, 99) {
        Some(n) => n as u8,
        None => { return Err(String::from_str("Invalid minute: ").concat(s)); },
    };
    let second = match parse_decimal_range(&chars, 15, 17, 99) {
        Some(n) => n as u8,
        None => { return Err(String::from_str("Invalid second: ").concat(s)); },
    };
    let millisecond = if chars.len() >= 21 && chars[17] == '.' {
        match parse_decimal_range(&chars, 18, 21, 999) {
            Some(n) => n as u16,
            None => { return Err(String::from_str("Invalid milliseconds: ").concat(s)); },
        }
    } else {
        0
    };
    assert(timestamp_numbers(s@) == Ok::<(nat, nat, nat, nat, nat, nat, nat), Seq<char>>(
        (
            year as nat,
            month as nat,
            day as nat,
            hour as nat,
            minute as nat,
            second as nat,
            millisecond as nat,
        ),
    ));
    let leap = second == 60;
    let second = if leap {
        59
    } else {
        second
    };
    if !(1 <= month && month <= 12) {
        return Err(String::from_str("Invalid month: ").concat(s));
    }
    if !is_valid_date(year as i32, month, day) {
        return Err(String::from_str("Invalid date: ").concat(s));
    }
    if !is_valid_time(hour, minute, second, millisecond) {
        return Err(String::from_str("Invalid time: ").concat(s));
    }
    let t = UtcTimestamp::from_parts((year, month, day, hour, minute, second, millisecond));
    if !leap {
        return Ok(t);
    }
    match t.next_second() {
        Some(next) => Ok(next),
        None => Err(String::from_str("Invalid date: ").concat(s)),
    }
}

/// The standard message header.
#[derive(Debug, Clone, PartialEq, Eq)]
pub struct FixHeader {
    /// Tag 8: the protocol version, always `FIX.4.2`.
    pub begin_string: &'static str,
    /// Tag 9: the length of the message body, derived when the message is built.
    pub body_length: u32,
    /// Tag 35: the message type.
    pub msg_type: MsgType,
    /// Tag 49: the sender's identifier.
    pub sender_comp_id: String,
    /// Tag 56: the target's identifier.
    pub target_comp_id: String,
    /// Tag 34: the message sequence number.
    pub msg_seq_num: u32,
    /// Tag 52: when the message was sent.
    pub sending_time: UtcTimestamp,
    /// Tag 43: whether this may be a duplicate.
    pub poss_dup_flag: Option<bool>,
    /// Tag 97: whether this may be a resend.
    pub poss_resend: Option<bool>,
    /// Tag 122: when the message was first sent.
    pub orig_sending_time: Option<UtcTimestamp>,
}

/// What a header holds, as mathematical values.
pub struct HeaderView {
    pub begin_string: Seq<char>,
    pub body_length: u32,
    pub msg_type: MsgTypeView,
    pub sender_comp_id: Seq<char>,
    pub target_comp_id: Seq<char>,
    pub msg_seq_num: u32,
    pub sending_time: Civil,
    pub poss_dup_flag: Option<bool>,
    pub poss_resend: Option<bool>,
    pub orig_sending_time: Option<Civil>,
}

impl View for FixHeader {
    type V = HeaderView;

    open spec fn view(&self) -> HeaderView {
        HeaderView {
            begin_string: self.begin_string@,
            body_length: self.body_length,
            msg_type: self.msg_type@,
            sender_comp_id: self.sender_comp_id@,
            target_comp_id: self.target_comp_id@,
            msg_seq_num: self.msg_seq_num,
            sending_time: self.sending_time@,
            poss_dup_flag: self.poss_dup_flag,
            poss_resend: self.poss_resend,
            orig_sending_time: optional_time(self.orig_sending_time),
        }
    }
}

impl HeaderView {
    /// The header that a new message starts with.
    pub open spec fn initial(
        msg_type: MsgTypeView,
        sender_comp_id: Seq<char>,
        target_comp_id: Seq<char>,
        msg_seq_num: u32,
        sending_time: Civil,
    ) -> HeaderView {
        HeaderView {
            begin_string: "FIX.4.2"@,
            body_length: 0,
            msg_type,
            sender_comp_id,
            target_comp_id,
            msg_seq_num,
            sending_time,
            poss_dup_flag: None,
            poss_resend: None,
            orig_sending_time: None,
        }
    }

    /// The headers that can be read back from their wire text: no text
    /// holds a field separator, an unnamed message type is no code with a
    /// name, and the times are instants.
    pub open spec fn wf(self) -> bool {
        &&& self.msg_type.wf()
        &&& plain(self.msg_type.wire_code())
        &&& plain(self.sender_comp_id)
        &&& plain(self.target_comp_id)
        &&& self.sending_time.wf()
        &&& match self.orig_sending_time {
            Some(t) => t.wf(),
            None => true,
        }
    }

    /// The fields that count towards the body length, in wire order: the
    /// message type, the two identifiers, the sequence number, the sending
    /// time, then the optional fields that are present.
    pub open spec fn body_fields(self) -> Seq<Field> {
        FieldList::new()
            .with(35, self.msg_type.wire_code())
            .with(49, self.sender_comp_id)
            .with(56, self.target_comp_id)
            .with(34, decimal_text(self.msg_seq_num as nat))
            .with(52, self.sending_time.text())
            .with_optional(43, optional_flag_text(self.poss_dup_flag))
            .with_optional(97, optional_flag_text(self.poss_resend))
            .with_optional(122, optional_time_text(self.orig_sending_time))
            .fields
    }

    /// The version and the stored body length in front of the other fields.
    pub open spec fn fields(self) -> Seq<Field> {
        seq![
            Field { tag: 8, value: self.begin_string },
            Field { tag: 9, value: decimal_text(self.body_length as nat) },
        ] + self.body_fields()
    }

    /// The first thing that is wrong with the header, if anything is.
    pub open spec fn problem(self) -> Option<ValidationErrorView> {
        if self.begin_string != "FIX.4.2"@ {
            Some(ValidationErrorView::VersionMismatch)
        } else if self.sender_comp_id.len() == 0 || self.target_comp_id.len() == 0
            || self.msg_seq_num == 0 || self.sending_time.year < 1970 {
            Some(ValidationErrorView::EmptyMessage)
        } else {
            None
        }
    }

    /// The header after it has taken a field, or why it cannot take it.
    pub open spec fn with_field(self, tag: u32, value: Seq<char>) -> Result<HeaderView, Seq<char>> {
        if tag == 8 {
            if value == "FIX.4.2"@ {
                Ok(self)
            } else {
                Err("Unsupported FIX version: "@ + value)
            }
        } else if tag == 9 {
            match parse_unsigned(value, u32::MAX as nat) {
                Some(n) => Ok(HeaderView { body_length: n as u32, ..self }),
                None => Err("Invalid BodyLength"@),
            }
        } else if tag == 35 {
            Ok(self)
        } else if tag == 49 {
            Ok(HeaderView { sender_comp_id: value, ..self })
        } else if tag == 56 {
            Ok(HeaderView { target_comp_id: value, ..self })
        } else if tag == 34 {
            match parse_unsigned(value, u32::MAX as nat) {
                Some(n) => Ok(HeaderView { msg_seq_num: n as u32, ..self }),
                None => Err("Invalid MsgSeqNum"@),
            }
        } else if tag == 52 {
            match parse_timestamp(value) {
                Ok(t) => Ok(HeaderView { sending_time: t, ..self }),
                Err(e) => Err(e),
            }
        } else if tag == 43 {
            Ok(HeaderView { poss_dup_flag: Some(flag_of(value)), ..self })
        } else if tag == 97 {
            Ok(HeaderView { poss_resend: Some(flag_of(value)), ..self })
        } else if tag == 122 {
            match parse_timestamp(value) {
                Ok(t) => Ok(HeaderView { orig_sending_time: Some(t), ..self }),
                Err(e) => Err(e),
            }
        } else {
            Err("Unknown header field: "@ + decimal_text(tag as nat))
        }
    }
}

impl FixHeader {
    /// A header with the required fields, sent now.
    pub fn new(
        msg_type: MsgType,
        sender_comp_id: &str,
        target_comp_id: &str,
        msg_seq_num: u32,
    ) -> (r:
        FixHeader)
        ensures
            r@ == HeaderView::initial(
                msg_type@,
                sender_comp_id@,
                target_comp_id@,
                msg_seq_num,
                r@.sending_time,
            ),
            r@.sending_time.wf(),
    {
        FixHeader::sent_at(
            msg_type,
            sender_comp_id,
            target_comp_id,
            msg_seq_num,
            UtcTimestamp::now(),
        )
    }

    /// A header with the required fields and the given sending time.
    pub fn sent_at(
        msg_type: MsgType,
        sender_comp_id: &str,
        target_comp_id: &str,
        msg_seq_num: u32,
        sending_time: UtcTimestamp,
    ) -> (r: FixHeader)
        ensures
            r@ == HeaderView::initial(
                msg_type@,
                sender_comp_id@,
                target_comp_id@,
                msg_seq_num,
                sending_time@,
            ),
    {
        FixHeader {
            begin_string: "FIX.4.2",
            body_length: 0,
            msg_type,
            sender_comp_id: String::from_str(sender_comp_id),
            target_comp_id: String::from_str(target_comp_id),
            msg_seq_num,
            sending_time,
            poss_dup_flag: None,
            poss_resend: None,
            orig_sending_time: None,
        }
    }
}

impl Validate for FixHeader {
    open spec fn problem(&self) -> Option<ValidationErrorView> {
        self@.problem()
    }

    fn validate(&self) -> (r: Result<(), ValidationError>) {
        if !same_text(self.begin_string, "FIX.4.2") {
            return Err(ValidationError::VersionMismatch);
        }
        if self.sender_comp_id.as_str().is_empty() {
            return Err(ValidationError::EmptyMessage);
        }
        if self.target_comp_id.as_str().is_empty() {
            return Err(ValidationError::EmptyMessage);
        }
        if self.msg_seq_num == 0 {
            return Err(ValidationError::EmptyMessage);
        }
        if self.sending_time.year() < 1970 {
            return Err(ValidationError::EmptyMessage);
        }
        Ok(())
    }
}

impl WriteTo for FixHeader {
    open spec fn fields(&self) -> Seq<Field> {
        self@.fields()
    }

    fn write_to(&self, buffer: &mut String) {
        let ghost start = buffer@;
        write_field(buffer, 8, self.begin_string);
        write_number_field(buffer, 9, self.body_length as u64);
        let ghost front = seq![
            Field { tag: 8, value: self@.begin_string },
            Field { tag: 9, value: decimal_text(self.body_length as nat) },
        ];
        proof {
            lemma_fields_text_single(front[0]);
            lemma_field_appended(start, seq![front[0]], front[1], buffer@);
            assert(seq![front[0]].push(front[1]) =~= front);
        }
        self.write_body_fields(buffer);
        proof {
            lemma_fields_appended(start, front, self@.body_fields(), buffer@);
        }
    }
}

impl FixFieldHandler for FixHeader {
    open spec fn with_field(model: HeaderView, tag: u32, value: Seq<char>) -> Result<
        HeaderView,
        Seq<char>,
    > {
        model.with_field(tag, value)
    }

    fn parse_field(&mut self, tag: u32, value: &str) -> (r: Result<(), String>) {
        match tag {
            8 => {
                if !same_text(value, "FIX.4.2") {
                    return Err(String::from_str("Unsupported FIX version: ").concat(value));
                }
            },
            9 => {
                match parse_u32(value) {
                    Some(n) => {
                        self.body_length = n;
                    },
                    None => {
                        return Err(String::from_str("Invalid BodyLength"));
                    },
                }
            },
            35 => {},
            49 => {
                self.sender_comp_id = String::from_str(value);
            },
            56 => {
                self.target_comp_id = String::from_str(value);
            },
            34 => {
                match parse_u32(value) {
                    Some(n) => {
                        self.msg_seq_num = n;
                    },
                    None => {
                        return Err(String::from_str("Invalid MsgSeqNum"));
                    },
                }
            },
            52 => {
                match parse_fix_timestamp(value) {
                    Ok(t) => {
                        self.sending_time = t;
                    },
                    Err(e) => {
                        return Err(e);
                    },
                }
            },
            43 => {
                self.poss_dup_flag = Some(parse_flag(value));
            },
            97 => {
                self.poss_resend = Some(parse_flag(value));
            },
            122 => {
                match parse_fix_timestamp(value) {
                    Ok(t) => {
                        self.orig_sending_time = Some(t);
                    },
                    Err(e) => {
                        return Err(e);
                    },
                }
            },
            _ => {
                return Err(unknown_field("Unknown header field: ", tag));
            },
        }
        Ok(())
    }

    open spec fn body_fields(&self) -> Seq<Field> {
        self@.body_fields()
    }

    fn write_body_fields(&self, buffer: &mut String) {
        let ghost start = buffer@;
        let written: Ghost<FieldList> = Ghost(FieldList::new());
        proof {
            lemma_nothing_written(buffer@);
        }
        push_decimal(buffer, 35);
        buffer.push('=');
        self.msg_type.write_code(buffer);
        buffer.push('\u{1}');
        proof {
            let f = Field { tag: 35, value: self@.msg_type.wire_code() };
            assert(buffer@ =~= start + fields_text(written@.fields) + field_text(f.tag, f.value));
            lemma_field_appended(start, written@.fields, f, buffer@);
        }
        let written: Ghost<FieldList> = Ghost(written@.with(35, self@.msg_type.wire_code()));
        let written = put_text(buffer, 49, self.sender_comp_id.as_str(), Ghost(start), written);
        let written = put_text(buffer, 56, self.target_comp_id.as_str(), Ghost(start), written);
        let written = put_number(buffer, 34, self.msg_seq_num, Ghost(start), written);
        let written = put_time(buffer, 52, self.sending_time, Ghost(start), written);
        let written = put_optional_flag(buffer, 43, self.poss_dup_flag, Ghost(start), written);
        let written = put_optional_flag(buffer, 97, self.poss_resend, Ghost(start), written);
        let written = put_optional_time(buffer, 122, self.orig_sending_time, Ghost(start), written);
    }
}

} // verus!

//! Codec for FIX 4.2 messages: typed records to and from the `tag=value`
//! wire text, with the body length and the checksum derived from the content.
//!
//! A message is a header, a body and a trailer. Writing it puts the version
//! and the body length in front of the content and the checksum behind it;
//! both are computed from the content each time. Reading cuts the text into
//! fields, picks the body by the message type, hands each field to the
//! component it belongs to and validates the whole.

pub mod builder;
pub mod common;
pub mod errors;
pub mod laws;
pub mod messages;
pub mod round_trip;

pub use crate::builder::FixMessageBuilder;
use crate::common::enums::MsgTypeView;
pub use crate::common::enums::{EncryptMethod, ExecTransType, ExecType, MsgType, OrdStatus, Side};
pub use crate::common::decimal::Decimal;
use crate::common::header::HeaderView;
pub use crate::common::header::{FixHeader, parse_fix_timestamp};
use crate::common::scan::{fields_view, has_tag, last_value, read_fields, wire_fields, WireField};
use crate::common::text::{
    chars_of, decimal_text, Field, field_text, fields_text, lemma_fields_text_concat,
    padded_decimal, parse_u32, parse_unsigned, push_decimal, push_three_digits, soh_char,
    write_field,
};
use crate::common::timestamp::Civil;
pub use crate::common::timestamp::UtcTimestamp;
use crate::common::trailer::TrailerView;
pub use crate::common::trailer::FixTrailer;
use crate::common::validation::{FixFieldHandler, ValidationErrorView, WriteTo};
pub use crate::common::validation::{Validate, ValidationError};
pub use crate::common::{SOH, write_tag_timestamp};
pub use crate::errors::FixError;
use crate::messages::BodyView;
pub use crate::messages::{
    ExecutionReportBody, FixMessageBody, HeartbeatBody, LogonBody, NewOrderSingleBody,
    OrderCancelRequestBody,
};
use vstd::prelude::*;
use vstd::string::*;
use vstd::utf8::encode_utf8;

verus! {

/// A complete message: header, body and trailer.
#[derive(Debug, Clone, PartialEq, Eq)]
pub struct FixMessage {
    /// The standard header.
    pub header: FixHeader,
    /// The body of the message type.
    pub body: FixMessageBody,
    /// The standard trailer.
    pub trailer: FixTrailer,
}

/// What a message holds, as mathematical values.
pub struct MessageView {
    pub header: HeaderView,
    pub body: BodyView,
    pub trailer: TrailerView,
}

impl View for FixMessage {
    type V = MessageView;

    open spec fn view(&self) -> MessageView {
        MessageView { header: self.header@, body: self.body@, trailer: self.trailer@ }
    }
}

/// The sum of a sequence of bytes.
pub open spec fn byte_sum(bytes: Seq<u8>) -> nat
    decreases bytes.len(),
{
    if bytes.len() == 0 {
        0
    } else {
        byte_sum(bytes.drop_last()) + bytes.last() as nat
    }
}

/// The checksum of a text: the sum of its bytes, modulo 256.
pub open spec fn checksum_of(text: Seq<char>) -> nat {
    byte_sum(encode_utf8(text)) % 256
}

/// The tags that belong to the header.
pub open spec fn is_header_tag(tag: u32) -> bool {
    tag == 8 || tag == 9 || tag == 35 || tag == 49 || tag == 56 || tag == 34 || tag == 52 || tag
        == 43 || tag == 97 || tag == 122
}

/// The tags that belong to the trailer.
pub open spec fn is_trailer_tag(tag: u32) -> bool {
    tag == 10 || tag == 93 || tag == 89
}

/// The text with ` | ` in place of every field separator.
pub open spec fn readable(text: Seq<char>) -> Seq<char>
    decreases text.len(),
{
    if text.len() == 0 {
        Seq::empty()
    } else if text.last() == soh_char() {
        readable(text.drop_last()) + seq![' ', '|', ' ']
    } else {
        readable(text.drop_last()).push(text.last())
    }
}

impl MessageView {
    /// The message that a new message of the given type starts with.
    pub open spec fn initial(
        msg_type: MsgTypeView,
        sender_comp_id: Seq<char>,
        target_comp_id: Seq<char>,
        msg_seq_num: u32,
        now: Civil,
    ) -> MessageView {
        MessageView {
            header: HeaderView::initial(msg_type, sender_comp_id, target_comp_id, msg_seq_num, now),
            body: BodyView::initial(msg_type, now),
            trailer: TrailerView::initial(),
        }
    }

    /// The fields that the body length measures: those of the header but
    /// the version and the body length, those of the body, and those of the
    /// trailer but the checksum.
    pub open spec fn content_fields(self) -> Seq<Field> {
        self.header.body_fields() + self.body.fields() + self.trailer.body_fields()
    }

    /// The text that the body length measures.
    pub open spec fn content_text(self) -> Seq<char> {
        fields_text(self.content_fields())
    }

    /// The body length: the number of bytes of the content.
    pub open spec fn body_length(self) -> nat {
        encode_utf8(self.content_text()).len()
    }

    /// The message up to the checksum field: the version, the body length
    /// as the content gives it, and the content.
    pub open spec fn text_without_checksum(self) -> Seq<char> {
        field_text(8, self.header.begin_string) + field_text(9, decimal_text(self.body_length()))
            + self.content_text()
    }

    /// The checksum: the sum of all bytes before the checksum field, modulo
    /// 256, as three digits.
    pub open spec fn checksum_text(self) -> Seq<char> {
        padded_decimal(checksum_of(self.text_without_checksum()), 3)
    }

    /// The message on the wire: everything up to the checksum field, then
    /// the checksum field.
    pub open spec fn wire_text(self) -> Seq<char> {
        self.text_without_checksum() + field_text(10, self.checksum_text())
    }

    /// All fields with the body length and the checksum as they are stored.
    pub open spec fn stored_fields(self) -> Seq<Field> {
        self.header.fields() + self.body.fields() + self.trailer.fields()
    }

    /// Whether the stored body length and checksum are those that the
    /// content gives.
    pub open spec fn finalized(self) -> bool {
        &&& self.header.body_length as nat == self.body_length()
        &&& self.trailer.checksum == self.checksum_text()
    }

    /// The first thing that is wrong with the message, if anything is:
    /// with the header, else with the body, else with the trailer.
    pub open spec fn problem(self) -> Option<ValidationErrorView> {
        if self.header.problem() is Some {
            self.header.problem()
        } else if self.body.problem() is Some {
            self.body.problem()
        } else {
            self.trailer.problem()
        }
    }

    /// The message after the component that the tag belongs to has taken
    /// the field, or why it cannot take it. A tag that belongs to neither
    /// the header nor the trailer and that the body does not hold is passed
    /// over.
    pub open spec fn with_field(self, tag: u32, value: Seq<char>) -> Result<
        MessageView,
        Seq<char>,
    > {
        if is_header_tag(tag) {
            match self.header.with_field(tag, value) {
                Ok(header) => Ok(MessageView { header, ..self }),
                Err(e) => Err("Header parse error: "@ + e),
            }
        } else if is_trailer_tag(tag) {
            match self.trailer.with_field(tag, value) {
                Ok(trailer) => Ok(MessageView { trailer, ..self }),
                Err(e) => Err("Trailer parse error: "@ + e),
            }
        } else if self.body.handles_tag(tag) {
            match self.body.with_field(tag, value) {
                Ok(body) => Ok(MessageView { body, ..self }),
                Err(e) => Err("Body parse error: "@ + e),
            }
        } else {
            Ok(self)
        }
    }

    /// The message after it has taken, in order, every field whose tag
    /// does not come again later in the list, or the first error.
    pub open spec fn with_fields(self, fields: Seq<Field>) -> Result<MessageView, Seq<char>>
        decreases fields.len(),
    {
        if fields.len() == 0 {
            Ok(self)
        } else if has_tag(fields.skip(1), fields[0].tag) {
            self.with_fields(fields.skip(1))
        } else {
            match self.with_field(fields[0].tag as u32, fields[0].value) {
                Ok(m) => m.with_fields(fields.skip(1)),
                Err(e) => Err(e),
            }
        }
    }
}

/// The message that a wire text stands for, read at the time `now`, or why
/// it stands for none.
///
/// The type, the two identifiers and the sequence number must be there.
/// Where a tag comes more than once its last value counts, and a tag that
/// no component holds is passed over. A field that the text does not carry
/// keeps the value that a new message has, which for a time is `now`. The
/// message that was read must pass validation.
pub open spec fn decode(text: Seq<char>, now: Civil) -> Result<MessageView, Seq<char>> {
    match wire_fields(text) {
        Err(e) => Err(e),
        Ok(fields) => {
            let msg_type = last_value(fields, 35);
            let sender = last_value(fields, 49);
            let target = last_value(fields, 56);
            let seq_text = last_value(fields, 34);
            if msg_type is None {
                Err("Missing MsgType (35)"@)
            } else if sender is None {
                Err("Missing SenderCompID (49)"@)
            } else if target is None {
                Err("Missing TargetCompID (56)"@)
            } else if seq_text is None {
                Err("Missing MsgSeqNum (34)"@)
            } else {
                match parse_unsigned(seq_text->0, u32::MAX as nat) {
                    None => Err("Invalid MsgSeqNum"@),
                    Some(seq) => {
                        let start = MessageView::initial(
                            MsgTypeView::from_wire_code(msg_type->0),
                            sender->0,
                            target->0,
                            seq as u32,
                            now,
                        );
                        validated(start.with_fields(fields))
                    },
                }
            }
        },
    }
}

/// The message that was read, where it was read and passes validation;
/// else the error of reading it, or the sentence for what is wrong with it.
pub open spec fn validated(read: Result<MessageView, Seq<char>>) -> Result<
    MessageView,
    Seq<char>,
> {
    match read {
        Err(e) => Err(e),
        Ok(m) => match m.problem() {
            Some(p) => Err(p.message()),
            None => Ok(m),
        },
    }
}

/// Whether reading came out as the model says it must.
pub open spec fn decode_matches(
    r: Result<FixMessage, String>,
    expected: Result<MessageView, Seq<char>>,
) -> bool {
    match expected {
        Ok(m) => r is Ok && r->Ok_0@ == m,
        Err(e) => r is Err && r->Err_0@ == e,
    }
}

/// The checksum of a text: the sum of its bytes, modulo 256.
pub fn compute_checksum(text: &str) -> (sum: u16)
    ensures
        sum == checksum_of(text@),
        sum < 256,
{
    let bytes = text.as_bytes();
    let mut sum: u16 = 0;
    let mut i: usize = 0;
    assert(bytes@.take(0) =~= Seq::<u8>::empty());
    while i < bytes.len()
        invariant
            i <= bytes.len(),
            bytes@ == encode_utf8(text@),
            sum == byte_sum(bytes@.take(i as int)) % 256,
            sum < 256,
        decreases bytes.len() - i,
    {
        assert(bytes@.take(i + 1).drop_last() =~= bytes@.take(i as int));
        sum = (sum + bytes[i] as u16) % 256;
        i += 1;
    }
    assert(bytes@.take(bytes.len() as int) =~= bytes@);
    sum
}

/// Whether a tag belongs to the header.
pub fn header_takes(tag: u32) -> (r: bool)
    ensures
        r == is_header_tag(tag),
{
    tag == 8 || tag == 9 || tag == 35 || tag == 49 || tag == 56 || tag == 34 || tag == 52 || tag
        == 43 || tag == 97 || tag == 122
}

/// Whether a tag belongs to the trailer.
pub fn trailer_takes(tag: u32) -> (r: bool)
    ensures
        r == is_trailer_tag(tag),
{
    tag == 10 || tag == 93 || tag == 89
}

/// The place of the last field with this tag, if there is one.
fn find_last(fields: &Vec<WireField>, tag: u32) -> (r: Option<usize>)
    ensures
        match last_value(fields_view(fields@), tag as nat) {
            Some(v) => r is Some && r->0 < fields.len() && fields[r->0 as int].value@ == v,
            None => r is None,
        },
{
    let mut i: usize = fields.len();
    let ghost all = fields_view(fields@);
    assert(all.take(i as int) =~= all);
    while i > 0
        invariant
            i <= fields.len(),
            all == fields_view(fields@),
            last_value(all, tag as nat) == last_value(all.take(i as int), tag as nat),
        decreases i,
    {
        i -= 1;
        assert(all.take(i + 1).last() == fields[i as int]@);
        assert(all.take(i + 1).drop_last() =~= all.take(i as int));
        if fields[i].tag == tag {
            return Some(i);
        }
    }
    None
}

/// Whether the tag of the field at `i` comes again after it.
fn comes_again(fields: &Vec<WireField>, i: usize) -> (r: bool)
    requires
        i < fields.len(),
    ensures
        r == has_tag(fields_view(fields@).skip(i + 1), fields[i as int].tag as nat),
{
    let ghost later = fields_view(fields@).skip(i + 1);
    let tag = fields[i].tag;
    let mut j: usize = i + 1;
    while j < fields.len()
        invariant
            i < j <= fields.len(),
            later == fields_view(fields@).skip(i + 1),
            tag == fields[i as int].tag,
            forall|k: int| 0 <= k < j - i - 1 ==> (#[trigger] later[k]).tag != tag as nat,
        decreases fields.len() - j,
    {
        if fields[j].tag == tag {
            assert(later[j - i - 1].tag == tag as nat);
            return true;
        }
        j += 1;
    }
    false
}

impl Validate for FixMessage {
    open spec fn problem(&self) -> Option<ValidationErrorView> {
        self@.problem()
    }

    fn validate(&self) -> (r: Result<(), ValidationError>) {
        match self.header.validate() {
            Ok(()) => {},
            Err(e) => {
                return Err(e);
            },
        }
        match self.body.validate() {
            Ok(()) => {},
            Err(e) => {
                return Err(e);
            },
        }
        self.trailer.validate()
    }
}

impl FixMessage {
    /// A new message of the given type, sent now, with the body that
    /// belongs to the type.
    pub fn new(
        msg_type: MsgType,
        sender_comp_id: &str,
        target_comp_id: &str,
        msg_seq_num: u32,
    ) -> (r:
        FixMessage)
        ensures
            r@ == MessageView::initial(
                msg_type@,
                sender_comp_id@,
                target_comp_id@,
                msg_seq_num,
                r@.header.sending_time,
            ),
            r@.header.sending_time.wf(),
    {
        FixMessage::new_at(
            msg_type,
            sender_comp_id,
            target_comp_id,
            msg_seq_num,
            UtcTimestamp::now(),
        )
    }

    /// A new message of the given type, sent at the given time, with the
    /// body that belongs to the type.
    pub fn new_at(
        msg_type: MsgType,
        sender_comp_id: &str,
        target_comp_id: &str,
        msg_seq_num: u32,
        now: UtcTimestamp,
    ) -> (r: FixMessage)
        ensures
            r@ == MessageView::initial(
                msg_type@,
                sender_comp_id@,
                target_comp_id@,
                msg_seq_num,
                now@,
            ),
    {
        let body = match &msg_type {
            MsgType::Heartbeat => FixMessageBody::Heartbeat(HeartbeatBody::default()),
            MsgType::Logon => FixMessageBody::Logon(LogonBody::default()),
            MsgType::NewOrderSingle => FixMessageBody::NewOrderSingle(
                NewOrderSingleBody::created_at(now),
            ),
            MsgType::ExecutionReport => FixMessageBody::ExecutionReport(
                ExecutionReportBody::default(),
            ),
            MsgType::OrderCancelRequest => FixMessageBody::OrderCancelRequest(
                OrderCancelRequestBody::created_at(now),
            ),
            _ => FixMessageBody::Other,
        };
        let header = FixHeader::sent_at(msg_type, sender_comp_id, target_comp_id, msg_seq_num, now);
        let trailer = FixTrailer::default();
        FixMessage { header, body, trailer }
    }

    /// Whether validation passes.
    pub fn is_valid(&self) -> (b: bool)
        ensures
            b == (self@.problem() is None),
    {
        self.validate().is_ok()
    }

    /// The content of the message, which the body length measures: every
    /// field but the version, the body length and the checksum.
    pub fn serialize_body_and_trailer_without_checksum(&self) -> (s: String)
        ensures
            s@ == self@.content_text(),
    {
        let mut buf = String::new();
        self.header.write_body_fields(&mut buf);
        self.body.write_to(&mut buf);
        self.trailer.write_body_fields(&mut buf);
        proof {
            lemma_fields_text_concat(self@.header.body_fields(), self@.body.fields());
            lemma_fields_text_concat(
                self@.header.body_fields() + self@.body.fields(),
                self@.trailer.body_fields(),
            );
            assert(buf@ =~= self@.content_text());
        }
        buf
    }

    /// The body length that the content gives: the number of its bytes, or
    /// the largest number that the field can hold where there are more.
    pub fn calculate_body_length(&self) -> (n: u32)
        ensures
            n as nat == if self@.body_length() <= u32::MAX {
                self@.body_length()
            } else {
                u32::MAX as nat
            },
    {
        let content = self.serialize_body_and_trailer_without_checksum();
        let len = content.as_str().as_bytes().len();
        if len > 0xffff_ffff {
            0xffff_ffff
        } else {
            len as u32
        }
    }

    /// The message up to the checksum field, with the body length that the
    /// content gives.
    pub fn serialize_without_checksum(&self) -> (s: String)
        ensures
            s@ == self@.text_without_checksum(),
    {
        let content = self.serialize_body_and_trailer_without_checksum();
        let mut buf = String::new();
        write_field(&mut buf, 8, self.header.begin_string);
        push_decimal(&mut buf, 9);
        buf.push('=');
        let len = content.as_str().as_bytes().len();
        assert(len as nat == self@.body_length());
        push_decimal(&mut buf, len as u64);
        buf.push('\u{1}');
        buf.append(content.as_str());
        assert(buf@ =~= field_text(8, self@.header.begin_string) + field_text(
            9,
            decimal_text(len as nat),
        ) + content@);
        assert(buf@ =~= self@.text_without_checksum());
        buf
    }

    /// The checksum that the content gives, as three digits.
    pub fn calculate_checksum(&self) -> (s: String)
        ensures
            s@ == self@.checksum_text(),
    {
        let text = self.serialize_without_checksum();
        let sum = compute_checksum(text.as_str());
        let mut s = String::new();
        push_three_digits(&mut s, sum);
        assert(s@ =~= self@.checksum_text());
        s
    }

    /// The message on the wire. The body length and the checksum are
    /// computed from the content; what the header and the trailer store of
    /// them is not used.
    pub fn to_fix_string(&self) -> (s: String)
        ensures
            s@ == self@.wire_text(),
            s@ == self@.text_without_checksum() + field_text(
                10,
                padded_decimal(checksum_of(self@.text_without_checksum()), 3),
            ),
    {
        let mut buf = self.serialize_without_checksum();
        let sum = compute_checksum(buf.as_str());
        push_decimal(&mut buf, 10);
        buf.push('=');
        push_three_digits(&mut buf, sum);
        buf.push('\u{1}');
        assert(buf@ =~= self@.wire_text());
        buf
    }

    /// Every field of the message in wire order, with the body length and
    /// the checksum as the header and the trailer store them.
    pub fn write_message(&self) -> (s: String)
        ensures
            s@ == fields_text(self@.stored_fields()),
    {
        let mut buf = String::new();
        self.header.write_to(&mut buf);
        self.body.write_to(&mut buf);
        self.trailer.write_to(&mut buf);
        proof {
            lemma_fields_text_concat(self@.header.fields(), self@.body.fields());
            lemma_fields_text_concat(
                self@.header.fields() + self@.body.fields(),
                self@.trailer.fields(),
            );
            assert(buf@ =~= fields_text(self@.stored_fields()));
        }
        buf
    }

    /// The message on the wire, with ` | ` in place of every separator.
    pub fn to_string(&self) -> (s: String)
        ensures
            s@ == readable(self@.wire_text()),
    {
        let wire = self.to_fix_string();
        let chars = chars_of(wire.as_str());
        let mut s = String::new();
        let mut i: usize = 0;
        assert(chars@.take(0) =~= Seq::<char>::empty());
        while i < chars.len()
            invariant
                i <= chars.len(),
                s@ == readable(chars@.take(i as int)),
            decreases chars.len() - i,
        {
            assert(chars@.take(i + 1).drop_last() =~= chars@.take(i as int));
            let c = chars[i];
            if c == '\u{1}' {
                s.push(' ');
                s.push('|');
                s.push(' ');
                assert(s@ =~= readable(chars@.take(i as int)) + seq![' ', '|', ' ']);
            } else {
                s.push(c);
            }
            i += 1;
        }
        assert(chars@.take(chars.len() as int) =~= chars@);
        s
    }

    /// Reads a message from its wire text. Where the text carries no time
    /// for a field that must have one, the field holds the current time.
    pub fn from_fix_string(fix_string: &str) -> (r: Result<FixMessage, String>)
        ensures
            exists|now: Civil| now.wf() && decode_matches(r, #[trigger] decode(fix_string@, now)),
            r is Ok ==> r->Ok_0@.problem() is None,
    {
        let now = UtcTimestamp::now();
        FixMessage::from_fix_string_at(fix_string, now)
    }

    /// Reads a message from its wire text, with `now` as the current time.
    pub fn from_fix_string_at(fix_string: &str, now: UtcTimestamp) -> (r: Result<
        FixMessage,
        String,
    >)
        ensures
            decode_matches(r, decode(fix_string@, now@)),
            r is Ok ==> r->Ok_0@.problem() is None,
    {
        let fields = match read_fields(fix_string) {
            Ok(fields) => fields,
            Err(e) => {
                return Err(e);
            },
        };
        let ghost all = fields_view(fields@);
        let msg_type = match find_last(&fields, 35) {
            Some(i) => MsgType::parse_code(fields[i].value.as_str()),
            None => {
                return Err(String::from_str("Missing MsgType (35)"));
            },
        };
        let sender = match find_last(&fields, 49) {
            Some(i) => i,
            None => {
                return Err(String::from_str("Missing SenderCompID (49)"));
            },
        };
        let target = match find_last(&fields, 56) {
            Some(i) => i,
            None => {
                return Err(String::from_str("Missing TargetCompID (56)"));
            },
        };
        let msg_seq_num = match find_last(&fields, 34) {
            Some(i) => match parse_u32(fields[i].value.as_str()) {
                Some(n) => n,
                None => {
                    return Err(String::from_str("Invalid MsgSeqNum"));
                },
            },
            None => {
                return Err(String::from_str("Missing MsgSeqNum (34)"));
            },
        };
        let mut message = FixMessage::new_at(
            msg_type,
            fields[sender].value.as_str(),
            fields[target].value.as_str(),
            msg_seq_num,
            now,
        );
        let ghost start = message@;
        let mut i: usize = 0;
        assert(all.skip(0) =~= all);
        while i < fields.len()
            invariant
                i <= fields.len(),
                all == fields_view(fields@),
                start.with_fields(all) == message@.with_fields(all.skip(i as int)),
                decode(fix_string@, now@) == validated(start.with_fields(all)),
            decreases fields.len() - i,
        {
            let ghost rest = all.skip(i as int);
            assert(rest[0] == fields[i as int]@);
            assert(rest.skip(1) =~= all.skip(i + 1));
            if !comes_again(&fields, i) {
                let tag = fields[i].tag;
                let value = fields[i].value.as_str();
                let ghost before = message@;
                assert(rest[0].tag as u32 == tag && rest[0].value == value@);
                let outcome = if header_takes(tag) {
                    match message.header.parse_field(tag, value) {
                        Ok(()) => Ok(()),
                        Err(e) => Err(String::from_str("Header parse error: ").concat(e.as_str())),
                    }
                } else if trailer_takes(tag) {
                    match message.trailer.parse_field(tag, value) {
                        Ok(()) => Ok(()),
                        Err(e) => Err(String::from_str("Trailer parse error: ").concat(e.as_str())),
                    }
                } else if message.body.handles(tag) {
                    match message.body.parse_field(tag, value) {
                        Ok(()) => Ok(()),
                        Err(e) => Err(String::from_str("Body parse error: ").concat(e.as_str())),
                    }
                } else {
                    Ok(())
                };
                assert(match before.with_field(tag, value@) {
                    Ok(m) => outcome is Ok && message@ == m,
                    Err(e) => outcome is Err && outcome->Err_0@ == e,
                });
                match outcome {
                    Ok(()) => {},
                    Err(e) => {
                        assert(before.with_fields(rest) == Err::<MessageView, Seq<char>>(e@));
                        return Err(e);
                    },
                }
            }
            i += 1;
        }
        match message.validate() {
            Ok(()) => Ok(message),
            Err(e) => Err(e.to_string()),
        }
    }

    /// A builder for a message of the given type.
    pub fn builder(
        msg_type: MsgType,
        sender_comp_id: &str,
        target_comp_id: &str,
        msg_seq_num: u32,
    ) -> (r:
        FixMessageBuilder)
        ensures
            r@ == MessageView::initial(
                msg_type@,
                sender_comp_id@,
                target_comp_id@,
                msg_seq_num,
                r@.header.sending_time,
            ),
            r@.header.sending_time.wf(),
    {
        FixMessageBuilder::new(msg_type, sender_comp_id, target_comp_id, msg_seq_num)
    }
}

impl Default for FixMessage {
    /// A Heartbeat from `SENDER` to `TARGET` with sequence number 1.
    fn default() -> (r: FixMessage)
        ensures
            r@ == MessageView::initial(
                MsgTypeView::Heartbeat,
                "SENDER"@,
                "TARGET"@,
                1,
                r@.header.sending_time,
            ),
            r@.header.sending_time.wf(),
    {
        FixMessage::new(MsgType::Heartbeat, "SENDER", "TARGET", 1)
    }
}

} // verus!

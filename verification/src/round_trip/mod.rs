//! Writing a message and reading it back gives the message.
//!
//! The proof follows the message through the reader: its wire text is cut
//! into the fields that were written, no tag stands twice among them, and
//! field by field the components take their values back.

pub mod envelope;
pub mod order;
pub mod session;

use crate::common::enums::MsgTypeView;
use crate::common::header::HeaderView;
use crate::common::scan::{
    distinct_tags, has_tag, last_value, lemma_fields_round_trip, lemma_last_value_distinct, plain,
    plain_optional, readable_fields, wire_fields,
};
use crate::common::text::{
    all_digits, decimal_text, decimal_value, Field, fields_text, is_digit, lemma_fields_text_concat,
    lemma_fields_text_push, lemma_fields_text_single, lemma_parse_decimal_text, soh_char,
};
use crate::common::timestamp::{Civil, lemma_padded};
use crate::common::trailer::TrailerView;
use crate::common::writer::FieldList;
use crate::messages::BodyView;
use crate::round_trip::envelope::{
    lemma_header_front, lemma_header_taken, lemma_number_plain, lemma_trailer_taken,
};
use crate::round_trip::order::{
    lemma_execution_report_taken, lemma_new_order_single_taken, lemma_order_cancel_request_taken,
};
use crate::round_trip::session::{lemma_heartbeat_taken, lemma_logon_taken};
use crate::{checksum_of, decode, MessageView};
use vstd::prelude::*;

verus! {

impl MessageView {
    /// The message after it has taken every field of the list, in order,
    /// or the first error.
    pub open spec fn take_all(self, fields: Seq<Field>) -> Result<MessageView, Seq<char>>
        decreases fields.len(),
    {
        if fields.len() == 0 {
            Ok(self)
        } else {
            match self.with_field(fields[0].tag as u32, fields[0].value) {
                Ok(m) => m.take_all(fields.skip(1)),
                Err(e) => Err(e),
            }
        }
    }

    /// The place of a tag in the wire order of this message's fields: the
    /// header's tags first, then the body's, then the trailer's, the
    /// checksum last. A negative number for a tag that the message does not
    /// write.
    pub open spec fn rank(self, tag: nat) -> int {
        if tag == 8 {
            0
        } else if tag == 9 {
            1
        } else if tag == 35 {
            2
        } else if tag == 49 {
            3
        } else if tag == 56 {
            4
        } else if tag == 34 {
            5
        } else if tag == 52 {
            6
        } else if tag == 43 {
            7
        } else if tag == 97 {
            8
        } else if tag == 122 {
            9
        } else if tag == 93 {
            200
        } else if tag == 89 {
            201
        } else if tag == 10 {
            202
        } else if 0 <= self.body.rank(tag) < 100 {
            100 + self.body.rank(tag)
        } else {
            -1
        }
    }
}

/// The message with another body.
pub open spec fn with_body(m: MessageView, body: BodyView) -> MessageView {
    MessageView { body, ..m }
}

/// Whether the fields stand in the wire order of the message `m`, each at a
/// place from `lo` up to but not including `hi`.
pub open spec fn ascending(fields: Seq<Field>, m: MessageView, lo: int, hi: int) -> bool {
    &&& forall|i: int| 0 <= i < fields.len() ==> lo <= m.rank((#[trigger] fields[i]).tag) < hi
    &&& forall|i: int, j: int|
        0 <= i < j < fields.len() ==> m.rank((#[trigger] fields[i]).tag) < m.rank(
            (#[trigger] fields[j]).tag,
        )
}

/// Where a reader stands that started from `start` and has taken the
/// fields of `list`: it holds `state`, and the fields can be read back from
/// their wire text and stand in the wire order of `m`, at places from `lo`
/// up to but not including `hi`.
pub closed spec fn taken(
    start: MessageView,
    list: FieldList,
    m: MessageView,
    state: MessageView,
    lo: int,
    hi: int,
) -> bool {
    &&& start.take_all(list.fields) == Ok::<MessageView, Seq<char>>(state)
    &&& readable_fields(list.fields)
    &&& ascending(list.fields, m, lo, hi)
    &&& lo <= hi
}

/// A reader that has taken nothing yet.
pub proof fn lemma_taken_nothing(start: MessageView, m: MessageView, lo: int)
    ensures
        taken(start, FieldList::new(), m, start, lo, lo),
{
}

/// Taking the fields of two lists one after the other is taking the
/// fields of the joined list.
pub proof fn lemma_take_all_concat(m: MessageView, a: Seq<Field>, b: Seq<Field>)
    ensures
        m.take_all(a + b) == match m.take_all(a) {
            Ok(n) => n.take_all(b),
            Err(e) => Err(e),
        },
    decreases a.len(),
{
    if a.len() == 0 {
        assert(a + b =~= b);
    } else {
        assert((a + b)[0] == a[0]);
        assert((a + b).skip(1) =~= a.skip(1) + b);
        match m.with_field(a[0].tag as u32, a[0].value) {
            Ok(n) => {
                lemma_take_all_concat(n, a.skip(1), b);
            },
            Err(e) => {},
        }
    }
}

/// One more field is taken.
pub proof fn lemma_taken_with(
    start: MessageView,
    list: FieldList,
    m: MessageView,
    state: MessageView,
    lo: int,
    hi: int,
    tag: nat,
    value: Seq<char>,
    next: MessageView,
)
    requires
        taken(start, list, m, state, lo, hi),
        hi <= m.rank(tag),
        tag <= u32::MAX,
        plain(value),
        state.with_field(tag as u32, value) == Ok::<MessageView, Seq<char>>(next),
    ensures
        taken(start, list.with(tag, value), m, next, lo, m.rank(tag) + 1),
{
    let f = Field { tag, value };
    let one = seq![f];
    assert(list.with(tag, value).fields =~= list.fields + one);
    lemma_take_all_concat(start, list.fields, one);
    assert(one.skip(1) =~= Seq::<Field>::empty());
    assert(one[0] == f);
    assert(next.take_all(one.skip(1)) == Ok::<MessageView, Seq<char>>(next));
    assert(state.take_all(one) == Ok::<MessageView, Seq<char>>(next));
    let all = list.fields + one;
    assert forall|i: int| 0 <= i < all.len() implies (#[trigger] all[i]).tag <= u32::MAX && plain(
        all[i].value,
    ) && lo <= m.rank(all[i].tag) < m.rank(tag) + 1 by {
        if i < list.fields.len() {
            assert(all[i] == list.fields[i]);
        } else {
            assert(all[i] == f);
        }
    }
    assert forall|i: int, j: int| 0 <= i < j < all.len() implies m.rank((#[trigger] all[i]).tag)
        < m.rank((#[trigger] all[j]).tag) by {
        assert(all[i] == list.fields[i]);
        if j < list.fields.len() {
            assert(all[j] == list.fields[j]);
        } else {
            assert(all[j] == f);
        }
    }
}

/// One more field is taken where it has a value.
pub proof fn lemma_taken_with_optional(
    start: MessageView,
    list: FieldList,
    m: MessageView,
    state: MessageView,
    lo: int,
    hi: int,
    tag: nat,
    value: Option<Seq<char>>,
    next: MessageView,
)
    requires
        taken(start, list, m, state, lo, hi),
        hi <= m.rank(tag),
        tag <= u32::MAX,
        plain_optional(value),
        match value {
            Some(v) => state.with_field(tag as u32, v) == Ok::<MessageView, Seq<char>>(next),
            None => next == state,
        },
    ensures
        taken(start, list.with_optional(tag, value), m, next, lo, m.rank(tag) + 1),
{
    match value {
        Some(v) => {
            lemma_taken_with(start, list, m, state, lo, hi, tag, v, next);
        },
        None => {},
    }
}

/// Two readers one after the other are one reader of the joined list.
pub proof fn lemma_taken_concat(
    start: MessageView,
    a: FieldList,
    b: FieldList,
    m: MessageView,
    middle: MessageView,
    end: MessageView,
    lo: int,
    mid_hi: int,
    mid_lo: int,
    hi: int,
)
    requires
        taken(start, a, m, middle, lo, mid_hi),
        taken(middle, b, m, end, mid_lo, hi),
        mid_hi <= mid_lo,
    ensures
        taken(start, FieldList { fields: a.fields + b.fields }, m, end, lo, hi),
{
    lemma_take_all_concat(start, a.fields, b.fields);
    let all = a.fields + b.fields;
    assert forall|i: int| 0 <= i < all.len() implies (#[trigger] all[i]).tag <= u32::MAX && plain(
        all[i].value,
    ) && lo <= m.rank(all[i].tag) < hi by {
        if i < a.fields.len() {
            assert(all[i] == a.fields[i]);
        } else {
            assert(all[i] == b.fields[i - a.fields.len()]);
        }
    }
    assert forall|i: int, j: int| 0 <= i < j < all.len() implies m.rank((#[trigger] all[i]).tag)
        < m.rank((#[trigger] all[j]).tag) by {
        if i < a.fields.len() {
            assert(all[i] == a.fields[i]);
        } else {
            assert(all[i] == b.fields[i - a.fields.len()]);
        }
        if j < a.fields.len() {
            assert(all[j] == a.fields[j]);
        } else {
            assert(all[j] == b.fields[j - a.fields.len()]);
        }
    }
}

/// What a reader that has taken a list of fields stands for.
pub proof fn lemma_taken_means(
    start: MessageView,
    list: FieldList,
    m: MessageView,
    state: MessageView,
    lo: int,
    hi: int,
)
    requires
        taken(start, list, m, state, lo, hi),
    ensures
        start.take_all(list.fields) == Ok::<MessageView, Seq<char>>(state),
        readable_fields(list.fields),
        ascending(list.fields, m, lo, hi),
{
}

/// A reader's places may be given more room.
pub proof fn lemma_taken_within(
    start: MessageView,
    list: FieldList,
    m: MessageView,
    state: MessageView,
    lo: int,
    hi: int,
    more: int,
)
    requires
        taken(start, list, m, state, lo, hi),
        hi <= more,
    ensures
        taken(start, list, m, state, lo, more),
{
}

/// Fields in wire order hold no tag twice.
pub proof fn lemma_ascending_distinct(fields: Seq<Field>, m: MessageView, lo: int, hi: int)
    requires
        ascending(fields, m, lo, hi),
    ensures
        distinct_tags(fields),
{
}

/// Where no tag stands twice, every field is taken.
pub proof fn lemma_with_fields_distinct(m: MessageView, fields: Seq<Field>)
    requires
        distinct_tags(fields),
    ensures
        m.with_fields(fields) == m.take_all(fields),
    decreases fields.len(),
{
    if fields.len() > 0 {
        let rest = fields.skip(1);
        assert forall|a: int, b: int| 0 <= a < b < rest.len() implies (#[trigger] rest[a]).tag != (
        #[trigger] rest[b]).tag by {
            assert(rest[a] == fields[a + 1] && rest[b] == fields[b + 1]);
        }
        if has_tag(rest, fields[0].tag) {
            let i = choose|i: int| 0 <= i < rest.len() && (#[trigger] rest[i]).tag == fields[0].tag;
            assert(rest[i] == fields[i + 1]);
            assert(false);
        }
        match m.with_field(fields[0].tag as u32, fields[0].value) {
            Ok(n) => {
                lemma_with_fields_distinct(n, rest);
            },
            Err(e) => {},
        }
    }
}

impl MessageView {
    /// The messages that can be read back from their wire text: every
    /// component can, and the body is the one that belongs to the type.
    pub open spec fn wf(self) -> bool {
        &&& self.header.wf()
        &&& self.body.wf()
        &&& self.trailer.wf()
        &&& self.body.belongs_to(self.header.msg_type)
    }

    /// Every field of the message as it goes on the wire, in order.
    pub open spec fn wire_list(self) -> Seq<Field> {
        FieldList::new().with(8, self.header.begin_string).with(
            9,
            decimal_text(self.body_length()),
        ).fields + self.header.body_fields() + self.body.fields() + self.trailer.body_fields()
            + FieldList::new().with(10, self.checksum_text()).fields
    }
}

/// The wire text of a message is the text of its fields, in order.
pub proof fn lemma_wire_text_is_fields(m: MessageView)
    ensures
        m.wire_text() == fields_text(m.wire_list()),
{
    let front = FieldList::new().with(8, m.header.begin_string).with(
        9,
        decimal_text(m.body_length()),
    ).fields;
    let last = FieldList::new().with(10, m.checksum_text()).fields;
    let f8 = Field { tag: 8, value: m.header.begin_string };
    let f9 = Field { tag: 9, value: decimal_text(m.body_length()) };
    let f10 = Field { tag: 10, value: m.checksum_text() };
    assert(front =~= seq![f8].push(f9));
    lemma_fields_text_single(f8);
    lemma_fields_text_push(seq![f8], f9);
    assert(last =~= seq![f10]);
    lemma_fields_text_single(f10);
    let content = m.content_fields();
    assert(m.wire_list() =~= front + content + last);
    lemma_fields_text_concat(front, content);
    lemma_fields_text_concat(front + content, last);
}

/// The checksum of a message is three digits.
pub proof fn lemma_checksum_text(m: MessageView)
    ensures
        m.checksum_text().len() == 3,
        all_digits(m.checksum_text()),
        decimal_value(m.checksum_text()) == checksum_of(m.text_without_checksum()),
        plain(m.checksum_text()),
{
    lemma_padded(checksum_of(m.text_without_checksum()), 3);
    assert forall|i: int| 0 <= i < m.checksum_text().len() implies #[trigger] m.checksum_text()[i]
        != soh_char() by {
        assert(is_digit(m.checksum_text()[i]));
    }
}

/// Finalizing changes nothing of what a message writes.
pub proof fn lemma_finalize_keeps_text(m: MessageView)
    ensures
        m.finalize().content_fields() == m.content_fields(),
        m.finalize().wire_text() == m.wire_text(),
        m.finalize().wire_list() == m.wire_list(),
        m.finalize().finalize() == m.finalize(),
        m.body_length() <= u32::MAX ==> m.finalize().finalized(),
        m.finalized() ==> m.finalize() == m,
{
    let f = m.finalize();
    assert(f.header.body_fields() == m.header.body_fields());
    assert(f.trailer.body_fields() == m.trailer.body_fields());
}

/// The message that the reader starts from when it reads the text of `m`.
pub open spec fn reading_start(m: MessageView, now: Civil) -> MessageView {
    MessageView::initial(
        m.header.msg_type,
        m.header.sender_comp_id,
        m.header.target_comp_id,
        m.header.msg_seq_num,
        now,
    )
}

/// What must hold of a message for it to be read back from its wire text:
/// its texts hold no field separator, its body is the one that belongs to
/// its type, its header and body pass validation, and its content is no
/// longer than the body length field can say.
pub open spec fn can_round_trip(m: MessageView) -> bool {
    &&& m.wf()
    &&& m.header.problem() is None
    &&& m.body.problem() is None
    &&& m.body_length() <= u32::MAX
}

/// A new reader takes the version and the body length of `f`.
proof fn lemma_front_taken(start: MessageView, f: MessageView)
    requires
        start.header.begin_string == "FIX.4.2"@,
        f.header.begin_string == "FIX.4.2"@,
        f.header.body_length as nat == f.body_length(),
    ensures
        taken(
            start,
            FieldList::new().with(8, f.header.begin_string).with(9, decimal_text(f.body_length())),
            f,
            MessageView {
                header: HeaderView { body_length: f.header.body_length, ..start.header },
                ..start
            },
            0,
            2,
        ),
{
    let h = f.header;
    let length = decimal_text(f.body_length());
    let l0 = FieldList::new();
    lemma_taken_nothing(start, f, 0);
    let l1 = l0.with(8, h.begin_string);
    reveal_strlit("FIX.4.2");
    assert(plain(h.begin_string));
    lemma_taken_with(start, l0, f, start, 0, 0, 8, h.begin_string, start);
    let s2 = MessageView {
        header: HeaderView { body_length: h.body_length, ..start.header },
        ..start
    };
    lemma_parse_decimal_text(f.body_length(), u32::MAX as nat);
    lemma_number_plain(f.body_length());
    lemma_taken_with(start, l1, f, start, 0, 1, 9, length, s2);
}

/// A new reader takes the checksum of `f` last.
proof fn lemma_checksum_taken(s: MessageView, f: MessageView)
    requires
        s == (MessageView {
            trailer: TrailerView { checksum: s.trailer.checksum, ..f.trailer },
            ..f
        }),
        plain(f.trailer.checksum),
    ensures
        taken(s, FieldList::new().with(10, f.trailer.checksum), f, f, 202, 203),
{
    lemma_taken_nothing(s, f, 202);
    lemma_taken_with(s, FieldList::new(), f, s, 202, 202, 10, f.trailer.checksum, f);
}

/// A new reader that takes every field of a finalized message, in wire
/// order, holds the message.
proof fn lemma_message_taken(f: MessageView, now: Civil)
    requires
        can_round_trip(f),
        f.finalized(),
    ensures
        taken(reading_start(f, now), FieldList { fields: f.wire_list() }, f, f, 0, 203),
{
    let h = f.header;
    let start = reading_start(f, now);
    lemma_checksum_text(f);
    let l2 = FieldList::new().with(8, h.begin_string).with(9, decimal_text(f.body_length()));
    let s2 = MessageView {
        header: HeaderView { body_length: h.body_length, ..start.header },
        ..start
    };
    lemma_front_taken(start, f);

    lemma_header_taken(s2, f);
    let s3 = MessageView { header: h, ..s2 };
    let l3 = FieldList { fields: l2.fields + h.body_fields() };
    lemma_taken_concat(start, l2, FieldList { fields: h.body_fields() }, f, s2, s3, 0, 2, 2, 10);

    lemma_body_taken(s3, f, now);
    let s4 = with_body(s3, f.body);
    let l4 = FieldList { fields: l3.fields + f.body.fields() };
    lemma_taken_concat(
        start,
        l3,
        FieldList { fields: f.body.fields() },
        f,
        s3,
        s4,
        0,
        10,
        100,
        200,
    );

    lemma_trailer_taken(s4, f);
    let s5 = MessageView {
        trailer: TrailerView { checksum: s4.trailer.checksum, ..f.trailer },
        ..s4
    };
    let l5 = FieldList { fields: l4.fields + f.trailer.body_fields() };
    lemma_taken_concat(
        start,
        l4,
        FieldList { fields: f.trailer.body_fields() },
        f,
        s4,
        s5,
        0,
        200,
        200,
        202,
    );

    let last = FieldList::new().with(10, f.trailer.checksum);
    lemma_checksum_taken(s5, f);
    lemma_taken_concat(start, l5, last, f, s5, f, 0, 202, 202, 203);
    assert(l5.fields + last.fields =~= f.wire_list());
}

/// What the reader looks up in the fields of a message before it takes
/// them: the type, the two identifiers and the sequence number.
proof fn lemma_lookups(f: MessageView)
    requires
        distinct_tags(f.wire_list()),
    ensures
        last_value(f.wire_list(), 35) == Some(f.header.msg_type.wire_code()),
        last_value(f.wire_list(), 49) == Some(f.header.sender_comp_id),
        last_value(f.wire_list(), 56) == Some(f.header.target_comp_id),
        last_value(f.wire_list(), 34) == Some(decimal_text(f.header.msg_seq_num as nat)),
{
    let all = f.wire_list();
    let h = f.header;
    lemma_header_front(h);
    let front = FieldList::new().with(8, h.begin_string).with(
        9,
        decimal_text(f.body_length()),
    ).fields;
    assert(front.len() == 2);
    assert(all[2] == h.body_fields()[0]);
    assert(all[3] == h.body_fields()[1]);
    assert(all[4] == h.body_fields()[2]);
    assert(all[5] == h.body_fields()[3]);
    lemma_last_value_distinct(all, 2);
    lemma_last_value_distinct(all, 3);
    lemma_last_value_distinct(all, 4);
    lemma_last_value_distinct(all, 5);
}

/// A finalized message is read back from its wire text.
proof fn lemma_round_trip_finalized(f: MessageView, now: Civil)
    requires
        can_round_trip(f),
        f.finalized(),
    ensures
        decode(f.wire_text(), now) == Ok::<MessageView, Seq<char>>(f),
{
    let all = f.wire_list();
    let start = reading_start(f, now);
    lemma_message_taken(f, now);
    lemma_taken_means(start, FieldList { fields: all }, f, f, 0, 203);
    lemma_ascending_distinct(all, f, 0, 203);
    lemma_with_fields_distinct(start, all);
    lemma_wire_text_is_fields(f);
    assert(all.len() > 0);
    lemma_fields_round_trip(all);
    lemma_lookups(f);
    MsgTypeView::lemma_code_round_trip(f.header.msg_type, f.header.msg_type.wire_code());
    lemma_parse_decimal_text(f.header.msg_seq_num as nat, u32::MAX as nat);
    lemma_checksum_text(f);
    assert(f.problem() is None);
    assert(wire_fields(f.wire_text()) == Ok::<Seq<Field>, Seq<char>>(all));
    assert(start.with_fields(all) == Ok::<MessageView, Seq<char>>(f));
}

/// Writing a message and reading it back gives the message, with the body
/// length and the checksum that its content gives.
///
/// This holds of every message whose texts hold no field separator, whose
/// body is the one that belongs to its type, whose header and body pass
/// validation and whose content is no longer than the body length field can
/// say. Where the message is finalized, what is read is the message itself.
pub proof fn lemma_round_trip(m: MessageView, now: Civil)
    requires
        can_round_trip(m),
    ensures
        decode(m.wire_text(), now) == Ok::<MessageView, Seq<char>>(m.finalize()),
        m.finalized() ==> decode(m.wire_text(), now) == Ok::<MessageView, Seq<char>>(m),
{
    lemma_finalize_keeps_text(m);
    let f = m.finalize();
    assert(f.header.problem() == m.header.problem());
    assert(f.body_length() == m.body_length());
    lemma_round_trip_finalized(f, now);
}

/// A reader with the new body of the type of `m` takes the body of `m` back
/// from the fields that the body writes.
pub proof fn lemma_body_taken(s: MessageView, m: MessageView, now: Civil)
    requires
        m.body.wf(),
        m.body.belongs_to(m.header.msg_type),
        s.body == BodyView::initial(m.header.msg_type, now),
    ensures
        taken(s, FieldList { fields: m.body.fields() }, m, with_body(s, m.body), 100, 200),
{
    match m.body {
        BodyView::Heartbeat(b) => {
            lemma_heartbeat_taken(s, m, b);
        },
        BodyView::Logon(b) => {
            lemma_logon_taken(s, m, b);
        },
        BodyView::NewOrderSingle(b) => {
            lemma_new_order_single_taken(s, m, b, now);
        },
        BodyView::ExecutionReport(b) => {
            lemma_execution_report_taken(s, m, b);
        },
        BodyView::OrderCancelRequest(b) => {
            lemma_order_cancel_request_taken(s, m, b, now);
        },
        BodyView::Other => {
            lemma_taken_nothing(s, m, 100);
            lemma_taken_within(s, FieldList::new(), m, s, 100, 100, 200);
            assert(FieldList::new().fields =~= m.body.fields());
        },
    }
}

} // verus!

//! What holds of every message that is written: where its checksum and its
//! body length come from, and what validation lets pass.

use crate::common::header::HeaderView;
use crate::common::text::{
    all_digits, decimal_text, decimal_value, Field, field_text, fields_text,
    lemma_fields_text_concat, lemma_fields_text_push, lemma_fields_text_single,
};
use crate::common::timestamp::lemma_padded;
use crate::{byte_sum, MessageView};
use vstd::prelude::*;
use vstd::utf8::encode_utf8;

verus! {

/// The checksum field of a written message is the last field, and its value
/// is three digits that say the sum, modulo 256, of all the bytes before
/// the field.
pub proof fn lemma_checksum_says_byte_sum(m: MessageView)
    ensures
        m.wire_text() == m.text_without_checksum() + field_text(10, m.checksum_text()),
        m.checksum_text().len() == 3,
        all_digits(m.checksum_text()),
        decimal_value(m.checksum_text()) == byte_sum(encode_utf8(m.text_without_checksum())) % 256,
{
    lemma_padded(byte_sum(encode_utf8(m.text_without_checksum())) % 256, 3);
}

/// The body length field of a written message is its second field, and its
/// value is the number of bytes between the end of that field and the start
/// of the checksum field.
pub proof fn lemma_body_length_says_byte_count(m: MessageView)
    ensures
        m.wire_text() == field_text(8, m.header.begin_string) + field_text(
            9,
            decimal_text(encode_utf8(m.content_text()).len()),
        ) + m.content_text() + field_text(10, m.checksum_text()),
        m.content_text() == fields_text(
            m.header.body_fields() + m.body.fields() + m.trailer.body_fields(),
        ),
{
}

/// A message that was finalized goes on the wire as it is stored: its body
/// length and its checksum are those that its content gives.
pub proof fn lemma_finalized_is_stored(m: MessageView)
    requires
        m.finalized(),
    ensures
        fields_text(m.stored_fields()) == m.wire_text(),
{
    let f8 = Field { tag: 8, value: m.header.begin_string };
    let f9 = Field { tag: 9, value: decimal_text(m.header.body_length as nat) };
    let f10 = Field { tag: 10, value: m.trailer.checksum };
    let front = seq![f8, f9];
    let h = m.header.body_fields();
    let b = m.body.fields();
    let t = m.trailer.body_fields();
    assert(front =~= seq![f8].push(f9));
    lemma_fields_text_single(f8);
    lemma_fields_text_push(seq![f8], f9);
    lemma_fields_text_push(t, f10);
    assert(m.stored_fields() =~= front + (h + b + t) + seq![f10]);
    lemma_fields_text_concat(front, h + b + t);
    lemma_fields_text_concat(front + (h + b + t), seq![f10]);
    lemma_fields_text_single(f10);
}

/// Validation lets no message pass whose sequence number is zero or whose
/// sender or target is empty; and a message that passes still passes with
/// any other sequence number but zero, and with any other sender or target
/// that is not empty.
pub proof fn lemma_validation_gating(
    m: MessageView,
    seq_num: u32,
    sender: Seq<char>,
    target: Seq<char>,
)
    ensures
        m.header.msg_seq_num == 0 ==> m.problem() is Some,
        m.header.sender_comp_id.len() == 0 ==> m.problem() is Some,
        m.header.target_comp_id.len() == 0 ==> m.problem() is Some,
        m.problem() is None && seq_num != 0 ==> (MessageView {
            header: HeaderView { msg_seq_num: seq_num, ..m.header },
            ..m
        }).problem() is None,
        m.problem() is None && sender.len() > 0 ==> (MessageView {
            header: HeaderView { sender_comp_id: sender, ..m.header },
            ..m
        }).problem() is None,
        m.problem() is None && target.len() > 0 ==> (MessageView {
            header: HeaderView { target_comp_id: target, ..m.header },
            ..m
        }).problem() is None,
{
}

/// A message fails validation for its sequence number, its sender or its
/// target alone where correcting that one field makes it pass.
pub proof fn lemma_validation_corrected(good: MessageView)
    requires
        good.problem() is None,
    ensures
        (MessageView { header: HeaderView { msg_seq_num: 0, ..good.header }, ..good }).problem()
            is Some,
        (MessageView {
            header: HeaderView { sender_comp_id: Seq::empty(), ..good.header },
            ..good
        }).problem() is Some,
        (MessageView {
            header: HeaderView { target_comp_id: Seq::empty(), ..good.header },
            ..good
        }).problem() is Some,
{
}

} // verus!

//! The header and the trailer take their fields back.

use crate::common::header::{flag_of, HeaderView};
use crate::common::scan::plain;
use crate::common::text::{
    decimal_text, Field, is_digit, lemma_decimal_text, lemma_parse_decimal_text,
};
use crate::common::timestamp::{lemma_text_shape, lemma_timestamp_round_trip};
use crate::common::trailer::TrailerView;
use crate::common::writer::{
    FieldList, flag_text, optional_flag_text, optional_number_text, optional_time_text,
};
use crate::round_trip::{
    lemma_taken_nothing, lemma_taken_with, lemma_taken_with_optional, lemma_taken_within, taken,
};
use crate::MessageView;
use vstd::prelude::*;

verus! {

/// A flag reads back from its own text, which holds no field separator.
pub proof fn lemma_flag_round_trip(flag: bool)
    ensures
        flag_of(flag_text(flag)) == flag,
        plain(flag_text(flag)),
{
    assert(flag_text(false)[0] == 'N');
    assert(flag_text(true) =~= seq!['Y']);
}

/// A number's text holds no field separator.
pub proof fn lemma_number_plain(n: nat)
    ensures
        plain(decimal_text(n)),
{
    lemma_decimal_text(n);
    assert forall|i: int| 0 <= i < decimal_text(n).len() implies #[trigger] decimal_text(n)[i]
        != '\u{1}' by {
        assert(is_digit(decimal_text(n)[i]));
    }
}

/// A reader whose header has the version, the body length and the type of
/// `m` and no optional field takes the header of `m` back from the fields
/// that the header writes.
pub proof fn lemma_header_taken(s: MessageView, m: MessageView)
    requires
        m.header.wf(),
        s.header.begin_string == m.header.begin_string,
        s.header.body_length == m.header.body_length,
        s.header.msg_type == m.header.msg_type,
        s.header.poss_dup_flag is None,
        s.header.poss_resend is None,
        s.header.orig_sending_time is None,
    ensures
        taken(
            s,
            FieldList { fields: m.header.body_fields() },
            m,
            MessageView { header: m.header, ..s },
            2,
            10,
        ),
{
    let h = m.header;
    let l0 = FieldList::new();
    lemma_taken_nothing(s, m, 2);

    let l1 = l0.with(35, h.msg_type.wire_code());
    lemma_taken_with(s, l0, m, s, 2, 2, 35, h.msg_type.wire_code(), s);

    let l2 = l1.with(49, h.sender_comp_id);
    let s2 = MessageView {
        header: HeaderView { sender_comp_id: h.sender_comp_id, ..s.header },
        ..s
    };
    lemma_taken_with(s, l1, m, s, 2, 3, 49, h.sender_comp_id, s2);

    let l3 = l2.with(56, h.target_comp_id);
    let s3 = MessageView {
        header: HeaderView { target_comp_id: h.target_comp_id, ..s2.header },
        ..s2
    };
    lemma_taken_with(s, l2, m, s2, 2, 4, 56, h.target_comp_id, s3);

    let l4 = l3.with(34, decimal_text(h.msg_seq_num as nat));
    let s4 = MessageView { header: HeaderView { msg_seq_num: h.msg_seq_num, ..s3.header }, ..s3 };
    lemma_parse_decimal_text(h.msg_seq_num as nat, u32::MAX as nat);
    lemma_number_plain(h.msg_seq_num as nat);
    lemma_taken_with(s, l3, m, s3, 2, 5, 34, decimal_text(h.msg_seq_num as nat), s4);

    let l5 = l4.with(52, h.sending_time.text());
    let s5 = MessageView { header: HeaderView { sending_time: h.sending_time, ..s4.header }, ..s4 };
    lemma_timestamp_round_trip(h.sending_time);
    lemma_text_shape(h.sending_time);
    lemma_taken_with(s, l4, m, s4, 2, 6, 52, h.sending_time.text(), s5);

    let l6 = l5.with_optional(43, optional_flag_text(h.poss_dup_flag));
    let s6 = MessageView {
        header: HeaderView { poss_dup_flag: h.poss_dup_flag, ..s5.header },
        ..s5
    };
    if h.poss_dup_flag is Some {
        lemma_flag_round_trip(h.poss_dup_flag->0);
    }
    lemma_taken_with_optional(s, l5, m, s5, 2, 7, 43, optional_flag_text(h.poss_dup_flag), s6);

    let l7 = l6.with_optional(97, optional_flag_text(h.poss_resend));
    let s7 = MessageView { header: HeaderView { poss_resend: h.poss_resend, ..s6.header }, ..s6 };
    if h.poss_resend is Some {
        lemma_flag_round_trip(h.poss_resend->0);
    }
    lemma_taken_with_optional(s, l6, m, s6, 2, 8, 97, optional_flag_text(h.poss_resend), s7);

    let l8 = l7.with_optional(122, optional_time_text(h.orig_sending_time));
    let s8 = MessageView {
        header: HeaderView { orig_sending_time: h.orig_sending_time, ..s7.header },
        ..s7
    };
    if h.orig_sending_time is Some {
        lemma_timestamp_round_trip(h.orig_sending_time->0);
        lemma_text_shape(h.orig_sending_time->0);
    }
    lemma_taken_with_optional(s, l7, m, s7, 2, 9, 122, optional_time_text(h.orig_sending_time), s8);

    assert(l8.fields == h.body_fields());
    assert(s8.header == h);
    lemma_taken_within(s, l8, m, s8, 2, 10, 10);
}

/// A reader whose trailer has no optional field takes the optional fields
/// of the trailer of `m` back from the fields that the trailer writes
/// before the checksum.
pub proof fn lemma_trailer_taken(s: MessageView, m: MessageView)
    requires
        m.trailer.wf(),
        s.trailer.signature_length is None,
        s.trailer.signature is None,
    ensures
        taken(
            s,
            FieldList { fields: m.trailer.body_fields() },
            m,
            MessageView { trailer: TrailerView { checksum: s.trailer.checksum, ..m.trailer }, ..s },
            200,
            202,
        ),
{
    let t = m.trailer;
    let l0 = FieldList::new();
    lemma_taken_nothing(s, m, 200);

    let l1 = l0.with_optional(93, optional_number_text(t.signature_length));
    let s1 = MessageView {
        trailer: TrailerView { signature_length: t.signature_length, ..s.trailer },
        ..s
    };
    if t.signature_length is Some {
        lemma_parse_decimal_text(t.signature_length->0 as nat, u32::MAX as nat);
        lemma_number_plain(t.signature_length->0 as nat);
    }
    lemma_taken_with_optional(
        s,
        l0,
        m,
        s,
        200,
        200,
        93,
        optional_number_text(t.signature_length),
        s1,
    );

    let l2 = l1.with_optional(89, t.signature);
    let s2 = MessageView { trailer: TrailerView { signature: t.signature, ..s1.trailer }, ..s1 };
    lemma_taken_with_optional(s, l1, m, s1, 200, 201, 89, t.signature, s2);

    assert(l2.fields == t.body_fields());
    assert(s2.trailer == TrailerView { checksum: s.trailer.checksum, ..t });
    lemma_taken_within(s, l2, m, s2, 200, 202, 202);
}

/// The fields that a header writes begin with the type, the two
/// identifiers and the sequence number.
pub proof fn lemma_header_front(h: HeaderView)
    ensures
        h.body_fields().len() >= 5,
        h.body_fields()[0] == (Field { tag: 35, value: h.msg_type.wire_code() }),
        h.body_fields()[1] == (Field { tag: 49, value: h.sender_comp_id }),
        h.body_fields()[2] == (Field { tag: 56, value: h.target_comp_id }),
        h.body_fields()[3] == (Field { tag: 34, value: decimal_text(h.msg_seq_num as nat) }),
{
    let l5 = FieldList::new().with(35, h.msg_type.wire_code()).with(49, h.sender_comp_id).with(
        56,
        h.target_comp_id,
    ).with(34, decimal_text(h.msg_seq_num as nat)).with(52, h.sending_time.text());
    let l6 = l5.with_optional(43, optional_flag_text(h.poss_dup_flag));
    let l7 = l6.with_optional(97, optional_flag_text(h.poss_resend));
    let l8 = l7.with_optional(122, optional_time_text(h.orig_sending_time));
    assert(l5.fields.len() == 5);
    assert(l6.fields.len() >= 5 && l6.fields.take(5) =~= l5.fields);
    assert(l7.fields.len() >= 5 && l7.fields.take(5) =~= l5.fields);
    assert(l8.fields.len() >= 5 && l8.fields.take(5) =~= l5.fields);
    assert(forall|i: int| 0 <= i < 5 ==> l8.fields[i] == l8.fields.take(5)[i]);
}

} // verus!

//! The session bodies take their fields back.

use crate::common::enums::EncryptMethod;
use crate::common::text::{decimal_text, lemma_parse_decimal_text};
use crate::common::writer::{FieldList, optional_flag_text, optional_number_text};
use crate::messages::session::heartbeat::HeartbeatView;
use crate::messages::{BodyView, LogonBody};
use crate::round_trip::envelope::{lemma_flag_round_trip, lemma_number_plain};
use crate::round_trip::{
    lemma_taken_nothing, lemma_taken_with, lemma_taken_with_optional, lemma_taken_within, taken,
    with_body,
};
use crate::MessageView;
use vstd::prelude::*;

verus! {

/// A reader with a new Heartbeat body takes the body of `m` back from the
/// fields that the body writes.
pub proof fn lemma_heartbeat_taken(s: MessageView, m: MessageView, b: HeartbeatView)
    requires
        m.body == BodyView::Heartbeat(b),
        b.wf(),
        s.body == BodyView::Heartbeat(HeartbeatView::initial()),
    ensures
        taken(s, FieldList { fields: m.body.fields() }, m, with_body(s, m.body), 100, 200),
{
    let l0 = FieldList::new();
    lemma_taken_nothing(s, m, 100);
    let l1 = l0.with_optional(112, b.test_req_id);
    let s1 = with_body(s, BodyView::Heartbeat(b));
    lemma_taken_with_optional(s, l0, m, s, 100, 100, 112, b.test_req_id, s1);
    assert(l1.fields == b.fields());
    lemma_taken_within(s, l1, m, s1, 100, 101, 200);
}

/// A reader with a new Logon body takes the body of `m` back from the
/// fields that the body writes.
pub proof fn lemma_logon_taken(s: MessageView, m: MessageView, b: LogonBody)
    requires
        m.body == BodyView::Logon(b),
        s.body == BodyView::Logon(LogonBody::initial()),
    ensures
        taken(s, FieldList { fields: m.body.fields() }, m, with_body(s, m.body), 100, 200),
{
    let b0 = LogonBody::initial();
    let l0 = FieldList::new();
    lemma_taken_nothing(s, m, 100);

    let l1 = l0.with(98, b.encrypt_method.wire_code());
    let b1 = LogonBody { encrypt_method: b.encrypt_method, ..b0 };
    let s1 = with_body(s, BodyView::Logon(b1));
    EncryptMethod::lemma_code_round_trip(b.encrypt_method, b.encrypt_method.wire_code());
    lemma_taken_with(s, l0, m, s, 100, 100, 98, b.encrypt_method.wire_code(), s1);

    let l2 = l1.with(108, decimal_text(b.heart_bt_int as nat));
    let b2 = LogonBody { heart_bt_int: b.heart_bt_int, ..b1 };
    let s2 = with_body(s, BodyView::Logon(b2));
    lemma_parse_decimal_text(b.heart_bt_int as nat, u32::MAX as nat);
    lemma_number_plain(b.heart_bt_int as nat);
    lemma_taken_with(s, l1, m, s1, 100, 101, 108, decimal_text(b.heart_bt_int as nat), s2);

    let l3 = l2.with_optional(141, optional_flag_text(b.reset_seq_num_flag));
    let b3 = LogonBody { reset_seq_num_flag: b.reset_seq_num_flag, ..b2 };
    let s3 = with_body(s, BodyView::Logon(b3));
    if b.reset_seq_num_flag is Some {
        lemma_flag_round_trip(b.reset_seq_num_flag->0);
    }
    lemma_taken_with_optional(
        s,
        l2,
        m,
        s2,
        100,
        102,
        141,
        optional_flag_text(b.reset_seq_num_flag),
        s3,
    );

    let l4 = l3.with_optional(789, optional_number_text(b.next_expected_msg_seq_num));
    let b4 = LogonBody { next_expected_msg_seq_num: b.next_expected_msg_seq_num, ..b3 };
    let s4 = with_body(s, BodyView::Logon(b4));
    if b.next_expected_msg_seq_num is Some {
        lemma_parse_decimal_text(b.next_expected_msg_seq_num->0 as nat, u32::MAX as nat);
        lemma_number_plain(b.next_expected_msg_seq_num->0 as nat);
    }
    lemma_taken_with_optional(
        s,
        l3,
        m,
        s3,
        100,
        103,
        789,
        optional_number_text(b.next_expected_msg_seq_num),
        s4,
    );

    let l5 = l4.with_optional(383, optional_number_text(b.max_message_size));
    let b5 = LogonBody { max_message_size: b.max_message_size, ..b4 };
    let s5 = with_body(s, BodyView::Logon(b5));
    if b.max_message_size is Some {
        lemma_parse_decimal_text(b.max_message_size->0 as nat, u32::MAX as nat);
        lemma_number_plain(b.max_message_size->0 as nat);
    }
    lemma_taken_with_optional(
        s,
        l4,
        m,
        s4,
        100,
        104,
        383,
        optional_number_text(b.max_message_size),
        s5,
    );

    assert(l5.fields == b.wire_fields());
    assert(b5 == b);
    lemma_taken_within(s, l5, m, s5, 100, 105, 200);
}

} // verus!

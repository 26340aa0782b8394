//! Tests of whole messages on the wire: exact texts, reading back, and the
//! latitude that reading allows.

use fix_learning::common::scan::read_fields;
use fix_learning::common::text::{parse_decimal, parse_u32, same_text, write_field, write_number_field};
use fix_learning::common::validation::{FixFieldHandler, WriteTo};
use fix_learning::{
    compute_checksum, Decimal, EncryptMethod, ExecTransType, ExecType, ExecutionReportBody,
    FixHeader, FixMessage, FixMessageBody, FixMessageBuilder, FixTrailer, HeartbeatBody,
    LogonBody, MsgType, NewOrderSingleBody, OrdStatus, OrderCancelRequestBody, Side,
    UtcTimestamp, Validate, ValidationError,
};

fn at(year: u16, month: u8, day: u8, hour: u8, minute: u8, second: u8, millisecond: u16) -> UtcTimestamp {
    UtcTimestamp::new(year, month, day, hour, minute, second, millisecond).unwrap()
}

fn with_body(msg_type: MsgType, sender: &str, target: &str, seq: u32, sent: UtcTimestamp, body: FixMessageBody) -> FixMessage {
    let mut message = FixMessage::new_at(msg_type, sender, target, seq, sent);
    message.body = body;
    FixMessageBuilder::from_message(message).build()
}

fn sample_new_order() -> FixMessage {
    let mut body = NewOrderSingleBody::created_at(at(2019, 2, 6, 16, 25, 8, 968));
    body.cl_ord_id = "14163685067084226997921".to_string();
    body.handl_inst = "2".to_string();
    body.symbol = "AAPL".to_string();
    body.side = Side::Buy;
    body.ord_type = "1".to_string();
    body.order_qty = Some(Decimal::from_integer(100));
    body.security_exchange = Some("TO".to_string());
    with_body(
        MsgType::NewOrderSingle,
        "TESTBUY3",
        "TESTSELL3",
        972,
        at(2019, 2, 6, 16, 25, 10, 403),
        FixMessageBody::NewOrderSingle(body),
    )
}

fn independent_checksum(text: &str) -> u32 {
    text.bytes().map(|b| b as u32).sum::<u32>() % 256
}

fn assert_consistent(wire: &str) {
    let checksum_at = wire.rfind("10=").unwrap();
    let stated: u32 = wire[checksum_at + 3..checksum_at + 6].parse().unwrap();
    assert_eq!(wire.len(), checksum_at + 7);
    assert_eq!(stated, independent_checksum(&wire[..checksum_at]));
    let length_at = wire.find("\x019=").unwrap() + 1;
    let length_end = wire[length_at..].find('\x01').unwrap() + length_at;
    let stated_length: usize = wire[length_at + 2..length_end].parse().unwrap();
    assert_eq!(stated_length, checksum_at - (length_end + 1));
}

#[test]
fn new_order_single_goes_on_the_wire_in_canonical_order() {
    let message = sample_new_order();
    let wire = message.to_fix_string();
    assert_eq!(
        wire,
        "8=FIX.4.2\x019=151\x0135=D\x0149=TESTBUY3\x0156=TESTSELL3\x0134=972\x0152=20190206-16:25:10.403\x0111=14163685067084226997921\x0121=2\x0155=AAPL\x0154=1\x0160=20190206-16:25:08.968\x0140=1\x0138=100\x01207=TO\x0110=188\x01"
    );
    assert!(wire.starts_with("8=FIX.4.2\x019=151\x0135=D\x0149=TESTBUY3\x0156=TESTSELL3\x0134=972\x0152="));
    assert_consistent(&wire);
    assert_eq!(message.header.body_length, 151);
    assert_eq!(message.trailer.checksum, "188");
    assert_eq!(message.write_message(), wire);
}

#[test]
fn heartbeat_exact_wire_text() {
    let message = FixMessage::builder(MsgType::Heartbeat, "SENDER", "TARGET", 1)
        .sending_time(at(2024, 12, 1, 12, 34, 56, 789))
        .build();
    assert_eq!(
        message.to_fix_string(),
        "8=FIX.4.2\x019=55\x0135=0\x0149=SENDER\x0156=TARGET\x0134=1\x0152=20241201-12:34:56.789\x0110=101\x01"
    );
    assert_eq!(message.calculate_body_length(), 55);
    assert_eq!(message.calculate_checksum(), "101");
    assert_eq!(
        message.serialize_body_and_trailer_without_checksum(),
        "35=0\x0149=SENDER\x0156=TARGET\x0134=1\x0152=20241201-12:34:56.789\x01"
    );
    assert_eq!(
        message.serialize_without_checksum(),
        "8=FIX.4.2\x019=55\x0135=0\x0149=SENDER\x0156=TARGET\x0134=1\x0152=20241201-12:34:56.789\x01"
    );
}

#[test]
fn logon_with_every_optional_field_exact_wire_text() {
    let mut message = FixMessage::builder(MsgType::Logon, "CLIENT", "BROKER", 7)
        .sending_time(at(2024, 2, 29, 23, 59, 59, 0))
        .poss_dup_flag(true)
        .poss_resend(false)
        .orig_sending_time(at(2024, 2, 29, 23, 59, 58, 1))
        .reset_seq_num_flag(true)
        .next_expected_msg_seq_num(5)
        .max_message_size(4096)
        .build();
    message.trailer.signature_length = Some(3);
    message.trailer.signature = Some("abc".to_string());
    let message = FixMessageBuilder::from_message(message).build();
    let wire = message.to_fix_string();
    assert_eq!(
        wire,
        "8=FIX.4.2\x019=136\x0135=A\x0149=CLIENT\x0156=BROKER\x0134=7\x0152=20240229-23:59:59.000\x0143=Y\x0197=N\x01122=20240229-23:59:58.001\x0198=0\x01108=30\x01141=Y\x01789=5\x01383=4096\x0193=3\x0189=abc\x0110=105\x01"
    );
    let parsed = FixMessage::from_fix_string(&wire).unwrap();
    assert_eq!(parsed, message);
}

#[test]
fn readable_form_shows_bars_for_separators() {
    let message = FixMessage::builder(MsgType::Heartbeat, "SENDER", "TARGET", 1)
        .sending_time(at(2024, 12, 1, 12, 34, 56, 789))
        .build();
    assert_eq!(
        message.to_string(),
        "8=FIX.4.2 | 9=55 | 35=0 | 49=SENDER | 56=TARGET | 34=1 | 52=20241201-12:34:56.789 | 10=101 | "
    );
}

#[test]
fn checksum_of_known_texts() {
    assert_eq!(compute_checksum(""), 0);
    assert_eq!(compute_checksum("8=FIX.4.2\x019=5\x01"), 203);
    assert_eq!(compute_checksum("é🚀"), 21);
}

#[test]
fn stored_derived_fields_are_not_used_when_writing() {
    let mut message = FixMessage::builder(MsgType::Heartbeat, "SENDER", "TARGET", 1)
        .sending_time(at(2024, 12, 1, 12, 34, 56, 789))
        .build();
    message.header.body_length = 9999;
    message.trailer.checksum = "000".to_string();
    let wire = message.to_fix_string();
    assert!(wire.contains("\x019=55\x01"));
    assert!(wire.ends_with("10=101\x01"));
    let stored = message.write_message();
    assert!(stored.contains("\x019=9999\x01"));
    assert!(stored.ends_with("10=000\x01"));
}

#[test]
fn round_trip_new_order_single_all_fields_present_and_absent() {
    let full = {
        let mut body = NewOrderSingleBody::created_at(at(2019, 2, 6, 16, 25, 8, 968));
        body.cl_ord_id = "ORD1".to_string();
        body.handl_inst = "1".to_string();
        body.symbol = "MSFT".to_string();
        body.side = Side::Sell;
        body.ord_type = "2".to_string();
        body.order_qty = Some(Decimal::from_integer(250));
        body.cash_order_qty = Some(Decimal::new(false, 1050075, 2).unwrap());
        body.price = Some(Decimal::new(false, 42005, 3).unwrap());
        body.security_exchange = Some("N".to_string());
        body
    };
    let bare = {
        let mut body = NewOrderSingleBody::created_at(at(2019, 2, 6, 16, 25, 8, 968));
        body.cash_order_qty = Some(Decimal::new(true, 5, 1).unwrap());
        body
    };
    for body in [full, bare] {
        let message = with_body(
            MsgType::NewOrderSingle,
            "BUY",
            "SELL",
            3,
            at(2019, 2, 6, 16, 25, 10, 403),
            FixMessageBody::NewOrderSingle(body),
        );
        let wire = message.to_fix_string();
        assert_consistent(&wire);
        let parsed = FixMessage::from_fix_string(&wire).unwrap();
        assert_eq!(parsed, message);
        assert_eq!(parsed.to_fix_string(), wire);
    }
}

#[test]
fn round_trip_execution_report_all_fields_present_and_absent() {
    let full = {
        let mut body = ExecutionReportBody::new("OID7", "EID9");
        body.exec_trans_type = ExecTransType::Correct;
        body.exec_type = ExecType::PartialFill;
        body.ord_status = OrdStatus::PartiallyFilled;
        body.symbol = "IBM".to_string();
        body.side = Side::Sell;
        body.leaves_qty = Decimal::from_integer(40);
        body.cum_qty = Decimal::from_integer(60);
        body.avg_px = Decimal::new(false, 15025, 2).unwrap();
        body.last_shares = Some(Decimal::from_integer(10));
        body.last_px = Some(Decimal::new(false, 1503, 1).unwrap());
        body.transact_time = Some(at(2020, 1, 2, 3, 4, 5, 6));
        body.cl_ord_id = Some("C1".to_string());
        body.orig_cl_ord_id = Some("C0".to_string());
        body.ord_rej_reason = Some(3);
        body
    };
    let bare = {
        let mut body = ExecutionReportBody::new("O", "E");
        body.symbol = "S".to_string();
        body
    };
    for body in [full, bare] {
        let message = with_body(
            MsgType::ExecutionReport,
            "BROKER",
            "CLIENT",
            100,
            at(2020, 1, 2, 3, 4, 5, 7),
            FixMessageBody::ExecutionReport(body),
        );
        let wire = message.to_fix_string();
        assert_consistent(&wire);
        let parsed = FixMessage::from_fix_string(&wire).unwrap();
        assert_eq!(parsed, message);
    }
}

#[test]
fn execution_report_exact_field_order() {
    let mut body = ExecutionReportBody::new("OID7", "EID9");
    body.exec_trans_type = ExecTransType::Status;
    body.exec_type = ExecType::Restated;
    body.ord_status = OrdStatus::AcceptedForBidding;
    body.symbol = "IBM".to_string();
    body.side = Side::Sell;
    body.leaves_qty = Decimal::from_integer(40);
    body.cum_qty = Decimal::from_integer(60);
    body.avg_px = Decimal::new(false, 15025, 2).unwrap();
    body.last_shares = Some(Decimal::from_integer(10));
    body.last_px = Some(Decimal::new(false, 1503, 1).unwrap());
    body.transact_time = Some(at(2020, 1, 2, 3, 4, 5, 6));
    body.cl_ord_id = Some("C1".to_string());
    body.orig_cl_ord_id = Some("C0".to_string());
    body.ord_rej_reason = Some(3);
    let mut text = String::new();
    body.write_to(&mut text);
    assert_eq!(
        text,
        "37=OID7\x0117=EID9\x0120=3\x01150=D\x0139=D\x0111=C1\x0141=C0\x0155=IBM\x0154=2\x0160=20200102-03:04:05.006\x0132=10\x0131=150.3\x01151=40\x0114=60\x016=150.25\x01103=3\x01"
    );
    let mut again = String::from("x");
    body.write_body_fields(&mut again);
    assert_eq!(again, format!("x{}", text));
}

#[test]
fn round_trip_order_cancel_request_all_fields_present_and_absent() {
    let full = {
        let mut body = OrderCancelRequestBody::created_at(at(2021, 6, 30, 0, 0, 0, 0));
        body.orig_cl_ord_id = "ORIG".to_string();
        body.cl_ord_id = "CXL".to_string();
        body.symbol = "AAPL".to_string();
        body.side = Side::Buy;
        body.order_id = Some("B77".to_string());
        body.order_qty = Some(Decimal::from_integer(5));
        body.cash_order_qty = Some(Decimal::new(false, 1, 19).unwrap());
        body.account = Some("ACC=1".to_string());
        body.text = Some("please cancel".to_string());
        body
    };
    let bare = {
        let mut body = OrderCancelRequestBody::created_at(at(2021, 6, 30, 0, 0, 0, 0));
        body.orig_cl_ord_id = "ORIG".to_string();
        body.cl_ord_id = "CXL".to_string();
        body.symbol = "AAPL".to_string();
        body.order_qty = Some(Decimal::zero());
        body
    };
    for body in [full, bare] {
        let message = with_body(
            MsgType::OrderCancelRequest,
            "CLIENT",
            "BROKER",
            50,
            at(2021, 6, 30, 0, 0, 0, 1),
            FixMessageBody::OrderCancelRequest(body),
        );
        let wire = message.to_fix_string();
        assert_consistent(&wire);
        let parsed = FixMessage::from_fix_string(&wire).unwrap();
        assert_eq!(parsed, message);
    }
}

#[test]
fn order_cancel_request_exact_field_order() {
    let mut body = OrderCancelRequestBody::created_at(at(2021, 6, 30, 0, 0, 0, 0));
    body.orig_cl_ord_id = "ORIG".to_string();
    body.cl_ord_id = "CXL".to_string();
    body.symbol = "AAPL".to_string();
    body.order_id = Some("B77".to_string());
    body.order_qty = Some(Decimal::from_integer(5));
    body.cash_order_qty = Some(Decimal::new(true, 1, 3).unwrap());
    body.account = Some("ACC".to_string());
    body.text = Some("note".to_string());
    let mut text = String::new();
    body.write_to(&mut text);
    assert_eq!(
        text,
        "41=ORIG\x0137=B77\x0111=CXL\x0155=AAPL\x0154=1\x0160=20210630-00:00:00.000\x0138=5\x01152=-0.001\x011=ACC\x0158=note\x01"
    );
}

#[test]
fn round_trip_session_messages_and_other_types() {
    let sent = at(2024, 12, 1, 12, 34, 56, 789);
    let cases = vec![
        FixMessage::builder(MsgType::Heartbeat, "A", "B", 1).sending_time(sent).build(),
        FixMessage::builder(MsgType::Heartbeat, "A", "B", u32::MAX)
            .sending_time(sent)
            .test_req_id("")
            .poss_resend(true)
            .build(),
        FixMessage::builder(MsgType::Logon, "A", "B", 2)
            .sending_time(sent)
            .encrypt_method(EncryptMethod::PemAndMd5)
            .heart_bt_int(1)
            .reset_seq_num_flag(false)
            .build(),
        FixMessage::builder(MsgType::MarketDataRequest, "A", "B", 3).sending_time(sent).build(),
        FixMessage::builder(MsgType::Other("XYZ".to_string()), "A", "B", 4).sending_time(sent).build(),
        FixMessage::builder(MsgType::Other("".to_string()), "A=B", "Zürich", 5)
            .sending_time(sent)
            .orig_sending_time(at(1970, 1, 1, 0, 0, 0, 0))
            .build(),
    ];
    for message in cases {
        let wire = message.to_fix_string();
        assert_consistent(&wire);
        assert_eq!(message.write_message(), wire);
        let parsed = FixMessage::from_fix_string(&wire).unwrap();
        assert_eq!(parsed, message);
    }
}

#[test]
fn other_body_writes_no_field_and_takes_any() {
    let message = FixMessage::builder(MsgType::Other("U1".to_string()), "S", "T", 1)
        .sending_time(at(2024, 12, 1, 12, 34, 56, 789))
        .build();
    assert_eq!(message.body, FixMessageBody::Other);
    let mut text = String::new();
    message.body.write_to(&mut text);
    assert_eq!(text, "");
    let mut body = FixMessageBody::Other;
    assert!(body.parse_field(1, "x").is_ok());
    assert!(!body.handles(1));
    assert_eq!(body, FixMessageBody::Other);
}

#[test]
fn body_variant_follows_message_type() {
    let sent = at(2024, 1, 1, 0, 0, 0, 0);
    assert!(matches!(FixMessage::new_at(MsgType::Heartbeat, "S", "T", 1, sent).body, FixMessageBody::Heartbeat(_)));
    assert!(matches!(FixMessage::new_at(MsgType::Logon, "S", "T", 1, sent).body, FixMessageBody::Logon(_)));
    assert!(matches!(FixMessage::new_at(MsgType::NewOrderSingle, "S", "T", 1, sent).body, FixMessageBody::NewOrderSingle(_)));
    assert!(matches!(FixMessage::new_at(MsgType::ExecutionReport, "S", "T", 1, sent).body, FixMessageBody::ExecutionReport(_)));
    assert!(matches!(FixMessage::new_at(MsgType::OrderCancelRequest, "S", "T", 1, sent).body, FixMessageBody::OrderCancelRequest(_)));
    assert!(matches!(FixMessage::new_at(MsgType::MarketDataRequest, "S", "T", 1, sent).body, FixMessageBody::Other));
    let fresh = FixMessage::new(MsgType::NewOrderSingle, "S", "T", 1);
    assert!(fresh.header.sending_time.year() >= 2024);
    if let FixMessageBody::NewOrderSingle(body) = &fresh.body {
        assert_eq!(body.transact_time, fresh.header.sending_time);
    } else {
        panic!("Expected NewOrderSingle body");
    }
}

#[test]
fn last_occurrence_of_a_tag_wins() {
    let wire = "8=FIX.4.2\x019=1\x0135=0\x0149=FIRST\x0134=oops\x0156=T\x0134=7\x0149=LAST\x0152=20241201-12:34:56.789\x01112=a\x01112=b\x0110=000\x01";
    let parsed = FixMessage::from_fix_string(wire).unwrap();
    assert_eq!(parsed.header.sender_comp_id, "LAST");
    assert_eq!(parsed.header.msg_seq_num, 7);
    assert_eq!(parsed.body, FixMessageBody::Heartbeat(HeartbeatBody::responding_to_test_request("b")));
}

#[test]
fn unknown_tags_and_pieces_without_equals_are_passed_over() {
    let wire = "\x01\x018=FIX.4.2\x019=1\x0135=A\x0149=S\x0156=T\x0134=2\x0152=20241201-12:34:56.789\x016000=CUSTOM\x01junk\x0198=3\x01108=10\x0110=123";
    let parsed = FixMessage::from_fix_string(wire).unwrap();
    assert_eq!(parsed.header.msg_type, MsgType::Logon);
    assert_eq!(parsed.body, FixMessageBody::Logon(LogonBody::new(EncryptMethod::PkcsAndDes, 10)));
    assert_eq!(parsed.trailer.checksum, "123");
}

#[test]
fn a_missing_time_is_the_time_of_reading() {
    let wire = "8=FIX.4.2\x0135=D\x0149=S\x0156=T\x0134=2\x0138=1\x0110=123\x01";
    let now = at(2031, 5, 6, 7, 8, 9, 10);
    let parsed = FixMessage::from_fix_string_at(wire, now).unwrap();
    assert_eq!(parsed.header.sending_time, now);
    if let FixMessageBody::NewOrderSingle(body) = &parsed.body {
        assert_eq!(body.transact_time, now);
        assert_eq!(body.order_qty, Some(Decimal::from_integer(1)));
    } else {
        panic!("Expected NewOrderSingle body");
    }
    let read_now = FixMessage::from_fix_string(wire).unwrap();
    assert!(read_now.header.sending_time.year() >= 2024);
}

#[test]
fn decode_errors_name_the_condition() {
    let err = |wire: &str| FixMessage::from_fix_string(wire).unwrap_err();
    assert_eq!(err(""), "Empty FIX message");
    assert_eq!(err("\x01\x01"), "Empty FIX message");
    assert_eq!(err("abc"), "Missing MsgType (35)");
    assert_eq!(err("x7=1\x0135=0\x01"), "Invalid tag: x7");
    assert_eq!(err("=1\x01"), "Invalid tag: ");
    assert_eq!(err("4294967296=1\x01"), "Invalid tag: 4294967296");
    assert_eq!(err("35=0\x01"), "Missing SenderCompID (49)");
    assert_eq!(err("35=0\x0149=S\x01"), "Missing TargetCompID (56)");
    assert_eq!(err("35=0\x0149=S\x0156=T\x01"), "Missing MsgSeqNum (34)");
    assert_eq!(err("35=0\x0149=S\x0156=T\x0134=-1\x01"), "Invalid MsgSeqNum");
    assert_eq!(err("35=0\x0149=S\x0156=T\x0134=1\x018=FIX.4.4\x01"), "Header parse error: Unsupported FIX version: FIX.4.4");
    assert_eq!(err("35=0\x0149=S\x0156=T\x0134=1\x019=x\x01"), "Header parse error: Invalid BodyLength");
    assert_eq!(
        err("35=0\x0149=S\x0156=T\x0134=1\x0152=20241301-12:34:56\x01"),
        "Header parse error: Invalid month: 20241301-12:34:56"
    );
    assert_eq!(err("35=0\x0149=S\x0156=T\x0134=1\x0193=x\x01"), "Trailer parse error: Invalid SignatureLength");
    assert_eq!(err("35=A\x0149=S\x0156=T\x0134=1\x0198=9\x01"), "Body parse error: Invalid EncryptMethod");
    assert_eq!(err("35=D\x0149=S\x0156=T\x0134=1\x0154=3\x01"), "Body parse error: Invalid side");
    assert_eq!(err("35=D\x0149=S\x0156=T\x0134=1\x0144=1e5\x01"), "Body parse error: Invalid price");
    assert_eq!(err("35=0\x0149=S\x0156=T\x0134=1\x01"), "Invalid checksum");
    assert_eq!(err("35=0\x0149=S\x0156=T\x0134=1\x0110=12a\x01"), "Invalid checksum");
    assert_eq!(err("35=0\x0149=\x0156=T\x0134=1\x0110=123\x01"), "Empty message");
    assert_eq!(err("35=0\x0149=S\x0156=T\x0134=0\x0110=123\x01"), "Empty message");
    assert_eq!(err("35=0\x0149=S\x0156=T\x0134=1\x0152=19691231-23:59:59\x0110=123\x01"), "Empty message");
    assert_eq!(err("35=A\x0149=S\x0156=T\x0134=1\x01108=0\x0110=123\x01"), "Invalid value '0' for field 'HeartBtInt'");
    assert_eq!(err("35=D\x0149=S\x0156=T\x0134=1\x0110=123\x01"), "Missing required field: OrderQty or CashOrderQty");
    assert_eq!(err("35=8\x0149=S\x0156=T\x0134=1\x0110=123\x01"), "Missing required field: OrderID");
    assert_eq!(
        err("35=8\x0149=S\x0156=T\x0134=1\x0137=O\x0117=E\x0155=S\x0114=-1.50\x0110=123\x01"),
        "Invalid value '-1.50' for field 'CumQty'"
    );
}

#[test]
fn validation_gating_on_sequence_number_sender_and_target() {
    let good = FixMessage::builder(MsgType::Heartbeat, "SENDER", "TARGET", 1).build();
    assert_eq!(good.validate(), Ok(()));

    let mut bad = good.clone();
    bad.header.msg_seq_num = 0;
    assert_eq!(bad.validate(), Err(ValidationError::EmptyMessage));
    bad.header.msg_seq_num = 9;
    assert!(bad.is_valid());

    let mut bad = good.clone();
    bad.header.sender_comp_id = String::new();
    assert_eq!(bad.validate(), Err(ValidationError::EmptyMessage));
    bad.header.sender_comp_id = "S".to_string();
    assert!(bad.is_valid());

    let mut bad = good.clone();
    bad.header.target_comp_id = String::new();
    assert_eq!(bad.validate(), Err(ValidationError::EmptyMessage));
    bad.header.target_comp_id = "T".to_string();
    assert!(bad.is_valid());
}

#[test]
fn validation_errors_of_each_component() {
    let good = FixMessage::builder(MsgType::Heartbeat, "SENDER", "TARGET", 1).build();

    let mut bad = good.clone();
    bad.header.begin_string = "FIX.4.4";
    assert_eq!(bad.validate(), Err(ValidationError::VersionMismatch));

    let mut bad = good.clone();
    bad.header.sending_time = at(1969, 12, 31, 23, 59, 59, 999);
    assert_eq!(bad.header.validate(), Err(ValidationError::EmptyMessage));

    for checksum in ["", "12", "1234", "12x", "١٢٣"] {
        let mut bad = good.clone();
        bad.trailer.checksum = checksum.to_string();
        assert_eq!(bad.validate(), Err(ValidationError::InvalidChecksum));
        assert_eq!(bad.trailer.validate(), Err(ValidationError::InvalidChecksum));
    }
    assert_eq!(FixTrailer::default().validate(), Err(ValidationError::InvalidChecksum));
    assert!(!FixMessage::default().is_valid());

    assert_eq!(
        LogonBody::new(EncryptMethod::Des, 0).validate(),
        Err(ValidationError::InvalidFieldValue("HeartBtInt".to_string(), "0".to_string()))
    );
    assert_eq!(
        NewOrderSingleBody::new().validate(),
        Err(ValidationError::MissingRequiredField("OrderQty or CashOrderQty".to_string()))
    );

    let mut report = ExecutionReportBody::new("O", "");
    assert_eq!(report.validate(), Err(ValidationError::MissingRequiredField("ExecID".to_string())));
    report.exec_id = "E".to_string();
    assert_eq!(report.validate(), Err(ValidationError::MissingRequiredField("Symbol".to_string())));
    report.symbol = "S".to_string();
    assert_eq!(report.validate(), Ok(()));
    report.avg_px = Decimal::new(true, 1, 2).unwrap();
    assert_eq!(
        report.validate(),
        Err(ValidationError::InvalidFieldValue("AvgPx".to_string(), "-0.01".to_string()))
    );
    report.leaves_qty = Decimal::new(true, 7, 0).unwrap();
    assert_eq!(
        report.validate(),
        Err(ValidationError::InvalidFieldValue("LeavesQty".to_string(), "-7".to_string()))
    );
    report.leaves_qty = Decimal::new(true, 0, 0).unwrap();
    report.avg_px = Decimal::zero();
    assert_eq!(report.validate(), Ok(()));

    let mut cancel = OrderCancelRequestBody::default();
    assert_eq!(cancel.validate(), Err(ValidationError::MissingRequiredField("OrigClOrdID".to_string())));
    cancel.orig_cl_ord_id = "O".to_string();
    assert_eq!(cancel.validate(), Err(ValidationError::MissingRequiredField("ClOrdID".to_string())));
    cancel.cl_ord_id = "C".to_string();
    assert_eq!(cancel.validate(), Err(ValidationError::MissingRequiredField("Symbol".to_string())));
    cancel.symbol = "S".to_string();
    assert_eq!(
        cancel.validate(),
        Err(ValidationError::MissingRequiredField("OrderQty or CashOrderQty".to_string()))
    );
    cancel.cash_order_qty = Some(Decimal::from_integer(1));
    assert_eq!(cancel.validate(), Ok(()));
}

#[test]
fn component_parse_field_errors_and_no_change_on_failure() {
    let mut header = FixHeader::sent_at(MsgType::Heartbeat, "S", "T", 1, at(2024, 1, 1, 0, 0, 0, 0));
    let before = header.clone();
    assert_eq!(header.parse_field(8, "FIX.4.2"), Ok(()));
    assert_eq!(header.parse_field(35, "A"), Ok(()));
    assert_eq!(header, before);
    assert_eq!(header.parse_field(8, "FIX.5.0"), Err("Unsupported FIX version: FIX.5.0".to_string()));
    assert_eq!(header.parse_field(34, "4294967296"), Err("Invalid MsgSeqNum".to_string()));
    assert_eq!(header.parse_field(52, "2024"), Err("Timestamp too short: 2024".to_string()));
    assert_eq!(header.parse_field(11, "x"), Err("Unknown header field: 11".to_string()));
    assert_eq!(header, before);
    assert_eq!(header.parse_field(34, "+42"), Ok(()));
    assert_eq!(header.msg_seq_num, 42);
    assert_eq!(header.parse_field(9, "0012"), Ok(()));
    assert_eq!(header.body_length, 12);
    assert_eq!(header.parse_field(43, "Y"), Ok(()));
    assert_eq!(header.parse_field(97, "yes"), Ok(()));
    assert_eq!(header.poss_dup_flag, Some(true));
    assert_eq!(header.poss_resend, Some(false));
    assert_eq!(header.parse_field(122, "20240101-00:00:60"), Ok(()));
    assert_eq!(header.orig_sending_time, Some(at(2024, 1, 1, 0, 1, 0, 0)));

    let mut trailer = FixTrailer::default();
    assert_eq!(trailer.parse_field(10, "045"), Ok(()));
    assert_eq!(trailer.parse_field(93, "3"), Ok(()));
    assert_eq!(trailer.parse_field(89, "sig"), Ok(()));
    assert_eq!(trailer.parse_field(93, ""), Err("Invalid SignatureLength".to_string()));
    assert_eq!(trailer.parse_field(8, "x"), Err("Unknown trailer field: 8".to_string()));
    assert_eq!(
        trailer,
        FixTrailer { checksum: "045".to_string(), signature_length: Some(3), signature: Some("sig".to_string()) }
    );
    let mut text = String::new();
    trailer.write_body_fields(&mut text);
    assert_eq!(text, "93=3\x0189=sig\x01");
    trailer.write_to(&mut text);
    assert_eq!(text, "93=3\x0189=sig\x0193=3\x0189=sig\x0110=045\x01");

    let mut heartbeat = HeartbeatBody::new();
    assert_eq!(heartbeat.parse_field(35, "0"), Err("Unknown heartbeat field: 35".to_string()));
    let mut logon = LogonBody::default();
    assert_eq!(logon.parse_field(1, "x"), Err("Unknown logon field: 1".to_string()));
    assert_eq!(logon.parse_field(108, "x"), Err("Invalid HeartBtInt".to_string()));
    assert_eq!(logon.parse_field(789, "x"), Err("Invalid NextExpectedMsgSeqNum".to_string()));
    assert_eq!(logon.parse_field(383, "x"), Err("Invalid MaxMessageSize".to_string()));
    assert_eq!(logon, LogonBody::default());

    let mut order = NewOrderSingleBody::created_at(at(2024, 1, 1, 0, 0, 0, 0));
    assert_eq!(order.parse_field(152, "12.50"), Ok(()));
    assert_eq!(order.cash_order_qty, Some(Decimal::new(false, 1250, 2).unwrap()));
    assert_eq!(order.parse_field(38, "abc"), Err("Invalid order quantity".to_string()));
    assert_eq!(order.parse_field(152, ""), Err("Invalid cash order quantity".to_string()));
    assert_eq!(order.parse_field(60, "20240101"), Err("Timestamp too short: 20240101".to_string()));
    assert_eq!(order.parse_field(112, "x"), Err("Unknown new order single field: 112".to_string()));

    let mut report = ExecutionReportBody::default();
    assert_eq!(report.parse_field(20, "4"), Err("Invalid ExecTransType".to_string()));
    assert_eq!(report.parse_field(150, "F"), Err("Invalid ExecType".to_string()));
    assert_eq!(report.parse_field(39, "F"), Err("Invalid OrdStatus".to_string()));
    assert_eq!(report.parse_field(54, ""), Err("Invalid Side".to_string()));
    assert_eq!(report.parse_field(151, "."), Err("Invalid LeavesQty".to_string()));
    assert_eq!(report.parse_field(14, "1.2.3"), Err("Invalid CumQty".to_string()));
    assert_eq!(report.parse_field(6, "--1"), Err("Invalid AvgPx".to_string()));
    assert_eq!(report.parse_field(32, "1,5"), Err("Invalid LastShares".to_string()));
    assert_eq!(report.parse_field(31, "NaN"), Err("Invalid LastPx".to_string()));
    assert_eq!(report.parse_field(103, "-1"), Err("Invalid OrdRejReason".to_string()));
    assert_eq!(report.parse_field(38, "1"), Err("Unknown execution report field: 38".to_string()));
    assert_eq!(report, ExecutionReportBody::default());

    let mut cancel = OrderCancelRequestBody::created_at(at(2024, 1, 1, 0, 0, 0, 0));
    assert_eq!(cancel.parse_field(38, "x"), Err("Invalid OrderQty".to_string()));
    assert_eq!(cancel.parse_field(152, "x"), Err("Invalid CashOrderQty".to_string()));
    assert_eq!(cancel.parse_field(54, "B"), Err("Invalid Side".to_string()));
    assert_eq!(cancel.parse_field(44, "1"), Err("Unknown order cancel request field: 44".to_string()));
}

#[test]
fn builder_setters_leave_other_bodies_alone() {
    let sent = at(2024, 12, 1, 12, 34, 56, 789);
    let heartbeat = FixMessage::builder(MsgType::Heartbeat, "S", "T", 1)
        .sending_time(sent)
        .encrypt_method(EncryptMethod::Des)
        .heart_bt_int(5)
        .reset_seq_num_flag(true)
        .next_expected_msg_seq_num(2)
        .max_message_size(3)
        .build();
    assert_eq!(heartbeat.body, FixMessageBody::Heartbeat(HeartbeatBody::new()));
    let logon = FixMessage::builder(MsgType::Logon, "S", "T", 1).sending_time(sent).test_req_id("x").build();
    assert_eq!(logon.body, FixMessageBody::Logon(LogonBody::default()));
    let rebuilt = FixMessageBuilder::from_message(logon.clone()).build();
    assert_eq!(rebuilt, logon);
}

#[test]
fn fields_are_read_in_wire_order() {
    let fields = read_fields("8=FIX.4.2\x01\x01+35=a=b\x01noequals\x0110=\x01").unwrap();
    let seen: Vec<(u32, &str)> = fields.iter().map(|f| (f.tag, f.value.as_str())).collect();
    assert_eq!(seen, vec![(8, "FIX.4.2"), (35, "a=b"), (10, "")]);
    assert_eq!(read_fields("").unwrap_err(), "Empty FIX message");
    assert_eq!(read_fields("1=a\x01b2=c").unwrap_err(), "Invalid tag: b2");
    assert_eq!(read_fields("junk").unwrap().len(), 0);
}

#[test]
fn numbers_and_fields_as_text() {
    assert_eq!(parse_u32("0"), Some(0));
    assert_eq!(parse_u32("4294967295"), Some(u32::MAX));
    assert_eq!(parse_u32("4294967296"), None);
    assert_eq!(parse_u32("+7"), Some(7));
    assert_eq!(parse_u32("007"), Some(7));
    assert_eq!(parse_u32(""), None);
    assert_eq!(parse_u32("+"), None);
    assert_eq!(parse_u32("-7"), None);
    assert_eq!(parse_u32("7 "), None);
    assert_eq!(parse_u32("٧"), None);
    assert_eq!(parse_decimal("18446744073709551615", u64::MAX), Some(u64::MAX));
    assert_eq!(parse_decimal("18446744073709551616", u64::MAX), None);
    assert_eq!(parse_decimal("9", 8), None);
    assert_eq!(parse_decimal("8", 8), Some(8));
    assert!(same_text("abc", "abc"));
    assert!(!same_text("abc", "abd"));
    assert!(!same_text("abc", "ab"));
    let mut text = String::from(">");
    write_field(&mut text, 49, "SENDER");
    write_number_field(&mut text, 4294967295, 18446744073709551615);
    write_number_field(&mut text, 0, 0);
    assert_eq!(text, ">49=SENDER\x014294967295=18446744073709551615\x010=0\x01");
}

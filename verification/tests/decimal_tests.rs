//! Tests of decimal numbers and of the enumerated fields.

use fix_learning::{Decimal, EncryptMethod, ExecTransType, ExecType, MsgType, OrdStatus, Side};
use std::str::FromStr;

fn dec(negative: bool, mantissa: u64, scale: u8) -> Decimal {
    Decimal::new(negative, mantissa, scale).unwrap()
}

#[test]
fn decimal_text_is_exact() {
    assert_eq!(Decimal::zero().to_string(), "0");
    assert_eq!(Decimal::from_integer(100).to_string(), "100");
    assert_eq!(dec(false, 15025, 2).to_string(), "150.25");
    assert_eq!(dec(false, 1000, 1).to_string(), "100.0");
    assert_eq!(dec(false, 5, 3).to_string(), "0.005");
    assert_eq!(dec(true, 5, 1).to_string(), "-0.5");
    assert_eq!(dec(true, 0, 0).to_string(), "-0");
    assert_eq!(dec(false, u64::MAX, 0).to_string(), "18446744073709551615");
    assert_eq!(dec(false, u64::MAX, 19).to_string(), "1.8446744073709551615");
    assert_eq!(dec(false, 1, 19).to_string(), "0.0000000000000000001");
    let mut buffer = String::from("44=");
    dec(false, 42005, 3).write(&mut buffer);
    assert_eq!(buffer, "44=42.005");
}

#[test]
fn decimal_reads_the_forms_of_a_number() {
    assert_eq!(Decimal::parse("100"), Some(Decimal::from_integer(100)));
    assert_eq!(Decimal::parse("150.25"), Some(dec(false, 15025, 2)));
    assert_eq!(Decimal::parse("00023.230"), Some(dec(false, 23230, 3)));
    assert_eq!(Decimal::parse("-0.5"), Some(dec(true, 5, 1)));
    assert_eq!(Decimal::parse("+7"), Some(dec(false, 7, 0)));
    assert_eq!(Decimal::parse(".5"), Some(dec(false, 5, 1)));
    assert_eq!(Decimal::parse("23."), Some(dec(false, 23, 0)));
    assert_eq!(Decimal::parse("-0"), Some(dec(true, 0, 0)));
    assert_eq!(Decimal::parse("18446744073709551615"), Some(dec(false, u64::MAX, 0)));
    assert_eq!(Decimal::parse("0.0000000000000000001"), Some(dec(false, 1, 19)));
    assert_eq!(Decimal::from_str("1.5"), Ok(dec(false, 15, 1)));
    for bad in ["", "-", "+", ".", "-.", "1e5", "inf", "NaN", "1.2.3", "1,5", " 1", "1 ", "--1", "1-", "٣",
        "18446744073709551616", "1844674407370955161.6", "0.00000000000000000001"] {
        assert_eq!(Decimal::parse(bad), None, "{:?}", bad);
        assert_eq!(Decimal::from_str(bad), Err(()));
    }
}

#[test]
fn decimal_round_trips_through_its_text() {
    for d in [
        Decimal::zero(),
        dec(true, 0, 0),
        dec(false, 1, 19),
        dec(true, u64::MAX, 19),
        dec(false, u64::MAX, 0),
        dec(false, 1000, 3),
        dec(true, 999, 2),
        dec(false, 10, 1),
    ] {
        assert_eq!(Decimal::parse(&d.to_string()), Some(d));
    }
}

#[test]
fn decimal_parts_and_sign() {
    assert!(Decimal::new(false, 1, 20).is_none());
    assert!(Decimal::new(false, 1, 19).is_some());
    let d = dec(true, 15025, 2);
    assert_eq!((d.mantissa(), d.scale()), (15025, 2));
    assert!(d.is_negative());
    assert!(!dec(true, 0, 2).is_negative());
    assert!(!dec(false, 1, 0).is_negative());
}

#[test]
fn closed_types_know_every_code_and_refuse_the_rest() {
    let sides = [(Side::Buy, "1"), (Side::Sell, "2")];
    for (value, code) in sides {
        assert_eq!(value.to_string(), code);
        assert_eq!(Side::parse_code(code), Ok(value));
        assert_eq!(Side::from_str(&value.to_string()), Ok(value));
    }
    let statuses = [
        (OrdStatus::New, "0"), (OrdStatus::PartiallyFilled, "1"), (OrdStatus::Filled, "2"),
        (OrdStatus::DoneForDay, "3"), (OrdStatus::Canceled, "4"), (OrdStatus::Replaced, "5"),
        (OrdStatus::PendingCancel, "6"), (OrdStatus::Stopped, "7"), (OrdStatus::Rejected, "8"),
        (OrdStatus::Suspended, "9"), (OrdStatus::PendingNew, "A"), (OrdStatus::Calculated, "B"),
        (OrdStatus::Expired, "C"), (OrdStatus::AcceptedForBidding, "D"), (OrdStatus::PendingReplace, "E"),
    ];
    for (value, code) in statuses {
        assert_eq!(value.to_string(), code);
        assert_eq!(OrdStatus::parse_code(code), Ok(value));
    }
    let methods = [
        (EncryptMethod::NoEncryption, "0"), (EncryptMethod::Pkcs, "1"), (EncryptMethod::Des, "2"),
        (EncryptMethod::PkcsAndDes, "3"), (EncryptMethod::PgpAndDes, "4"), (EncryptMethod::PgpAndMd5, "5"),
        (EncryptMethod::PemAndMd5, "6"),
    ];
    for (value, code) in methods {
        assert_eq!(value.to_string(), code);
        assert_eq!(EncryptMethod::parse_code(code), Ok(value));
    }
    let trans = [
        (ExecTransType::New, "0"), (ExecTransType::Cancel, "1"), (ExecTransType::Correct, "2"),
        (ExecTransType::Status, "3"),
    ];
    for (value, code) in trans {
        assert_eq!(value.to_string(), code);
        assert_eq!(ExecTransType::parse_code(code), Ok(value));
    }
    let types = [
        (ExecType::New, "0"), (ExecType::PartialFill, "1"), (ExecType::Fill, "2"),
        (ExecType::DoneForDay, "3"), (ExecType::Canceled, "4"), (ExecType::Replace, "5"),
        (ExecType::PendingCancel, "6"), (ExecType::Stopped, "7"), (ExecType::Rejected, "8"),
        (ExecType::Suspended, "9"), (ExecType::PendingNew, "A"), (ExecType::Calculated, "B"),
        (ExecType::Expired, "C"), (ExecType::Restated, "D"), (ExecType::PendingReplace, "E"),
    ];
    for (value, code) in types {
        assert_eq!(value.to_string(), code);
        assert_eq!(ExecType::parse_code(code), Ok(value));
        assert_eq!(value.code().to_string(), code);
    }
    for bad in ["", "3", "11", "b", "é", " 1"] {
        assert_eq!(Side::parse_code(bad), Err(()));
    }
    for bad in ["", "F", "a", "00"] {
        assert_eq!(OrdStatus::parse_code(bad), Err(()));
        assert_eq!(ExecType::parse_code(bad), Err(()));
    }
    assert_eq!(EncryptMethod::parse_code("7"), Err(()));
    assert_eq!(ExecTransType::parse_code("4"), Err(()));
}

#[test]
fn open_type_keeps_a_code_without_a_name() {
    let named = [
        (MsgType::Heartbeat, "0"), (MsgType::Logon, "A"), (MsgType::NewOrderSingle, "D"),
        (MsgType::ExecutionReport, "8"), (MsgType::OrderCancelRequest, "F"),
        (MsgType::MarketDataRequest, "V"),
    ];
    for (value, code) in named {
        assert_eq!(value.to_string(), code);
        assert_eq!(MsgType::parse_code(code), value);
        assert_eq!(MsgType::from_str(code), Ok(value));
    }
    for code in ["", "1", "AA", "d", "é🚀", "0 ", "BUSINESS"] {
        let value = MsgType::parse_code(code);
        assert_eq!(value, MsgType::Other(code.to_string()));
        assert_eq!(value.to_string(), code);
        let mut buffer = String::from("35=");
        value.write_code(&mut buffer);
        assert_eq!(buffer, format!("35={}", code));
    }
}

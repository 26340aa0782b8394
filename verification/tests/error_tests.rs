//! Tests of the sentences that describe errors.

use fix_learning::{FixError, ValidationError};

#[test]
fn validation_error_sentences() {
    let s = |x: &str| x.to_string();
    assert_eq!(ValidationError::MissingRequiredField(s("Symbol")).to_string(), "Missing required field: Symbol");
    assert_eq!(
        ValidationError::InvalidFieldValue(s("HeartBtInt"), s("0")).to_string(),
        "Invalid value '0' for field 'HeartBtInt'"
    );
    assert_eq!(ValidationError::InvalidChecksum.to_string(), "Invalid checksum");
    assert_eq!(ValidationError::InvalidBodyLength.to_string(), "Invalid body length");
    assert_eq!(ValidationError::EmptyMessage.to_string(), "Empty message");
    assert_eq!(ValidationError::VersionMismatch.to_string(), "FIX Version Not Supported");
    assert_eq!(
        ValidationError::ValueOutOfRange(s("Price"), s("-1")).to_string(),
        "Value '-1' for field 'Price' is out of acceptable range"
    );
    assert_eq!(
        ValidationError::InvalidFormat(s("SendingTime"), s("x")).to_string(),
        "Invalid format 'x' for field 'SendingTime'"
    );
}

#[test]
fn fix_error_sentences() {
    let s = |x: &str| x.to_string();
    assert_eq!(FixError::InvalidTimestamp(s("2024")).to_string(), "Invalid timestamp: 2024");
    assert_eq!(FixError::MissingField(s("49")).to_string(), "Missing required field: 49");
    assert_eq!(FixError::InvalidValue(s("54"), s("3")).to_string(), "Invalid value for 54: 3");
    assert_eq!(FixError::ChecksumMismatch(101, 7).to_string(), "Checksum mismatch: expected 101, got 7");
    assert_eq!(
        FixError::BodyLengthMismatch(55, 60).to_string(),
        "Body length mismatch: expected 55, calculated 60"
    );
    assert_eq!(FixError::UnsupportedBeginString(s("FIX.4.4")).to_string(), "Unsupported BeginString: FIX.4.4");
}

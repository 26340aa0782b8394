//! Types and wire-format primitives shared by every message.

pub mod decimal;
pub mod enums;
pub mod header;
pub mod scan;
pub mod text;
pub mod timestamp;
pub mod trailer;
pub mod validation;
pub mod writer;

use crate::common::text::{
    field_text, padded_decimal, push_decimal, push_four_digits, push_three_digits, push_two_digits,
};
use crate::common::timestamp::{lemma_text_shape, UtcTimestamp};
use vstd::prelude::*;

verus! {

/// The Start of Heading control character, value 0x01, which ends every field.
pub const SOH: &'static str = "\x01";

/// Appends a timestamp without its milliseconds, `YYYYMMDD-HH:MM:SS`: 17
/// characters, every number padded with zeros.
///
/// The digits go straight into the buffer: nothing is allocated but what
/// the buffer itself may need to grow.
pub fn write_timestamp_seconds(buf: &mut String, time: UtcTimestamp)
    ensures
        final(buf)@ == old(buf)@ + time@.seconds_text(),
        time@.seconds_text().len() == 17,
{
    let ghost start = buf@;
    let ghost t = time@;
    push_four_digits(buf, time.year());
    let ghost a = padded_decimal(t.year as nat, 4);
    assert(buf@ =~= start + a);
    push_two_digits(buf, time.month());
    let ghost b = a + padded_decimal(t.month as nat, 2);
    assert(buf@ =~= start + b);
    push_two_digits(buf, time.day());
    buf.push('-');
    let ghost c = b + padded_decimal(t.day as nat, 2).push('-');
    assert(buf@ =~= start + c);
    push_two_digits(buf, time.hour());
    buf.push(':');
    let ghost d = c + padded_decimal(t.hour as nat, 2).push(':');
    assert(buf@ =~= start + d);
    push_two_digits(buf, time.minute());
    buf.push(':');
    let ghost e = d + padded_decimal(t.minute as nat, 2).push(':');
    assert(buf@ =~= start + e);
    push_two_digits(buf, time.second());
    let ghost f = e + padded_decimal(t.second as nat, 2);
    assert(buf@ =~= start + f);
    assert(f == t.seconds_text());
    proof {
        lemma_text_shape(t);
    }
}

/// Appends a timestamp as it is written on the wire,
/// `YYYYMMDD-HH:MM:SS.sss`: 21 characters, every number padded with zeros.
pub fn write_timestamp(buf: &mut String, time: UtcTimestamp)
    ensures
        final(buf)@ == old(buf)@ + time@.text(),
        time@.text().len() == 21,
{
    write_timestamp_seconds(buf, time);
    buf.push('.');
    push_three_digits(buf, time.millisecond());
    assert(buf@ =~= old(buf)@ + time@.text());
    proof {
        lemma_text_shape(time@);
    }
}

/// Appends a timestamp field: the tag, `=`, the 21 characters of the
/// timestamp and the separator.
pub fn write_tag_timestamp(buf: &mut String, tag: u16, time: UtcTimestamp)
    ensures
        final(buf)@ == old(buf)@ + field_text(tag as nat, time@.text()),
        time@.text().len() == 21,
{
    push_decimal(buf, tag as u64);
    buf.push('=');
    write_timestamp(buf, time);
    buf.push('\u{1}');
    assert(buf@ =~= old(buf)@ + field_text(tag as nat, time@.text()));
}

} // verus!

//! Writing one field after another, with the list of what was written kept
//! beside the buffer.

use crate::common::decimal::{Decimal, optional_decimal, optional_decimal_text};
use crate::common::text::{
    decimal_text, Field, field_text, fields_text, lemma_field_appended, push_decimal, write_field,
    write_number_field,
};
use crate::common::timestamp::{Civil, UtcTimestamp};
use crate::common::write_tag_timestamp;
use vstd::prelude::*;
use vstd::string::*;

verus! {

/// A list of fields that is put together one field at a time, in wire order.
pub struct FieldList {
    pub fields: Seq<Field>,
}

impl FieldList {
    /// The list without a field.
    pub open spec fn new() -> FieldList {
        FieldList { fields: Seq::empty() }
    }

    /// The list with one more field at its end.
    pub open spec fn with(self, tag: nat, value: Seq<char>) -> FieldList {
        FieldList { fields: self.fields.push(Field { tag, value }) }
    }

    /// The list with one more field at its end where there is a value, and
    /// the list as it is where there is none.
    pub open spec fn with_optional(self, tag: nat, value: Option<Seq<char>>) -> FieldList {
        match value {
            Some(v) => self.with(tag, v),
            None => self,
        }
    }
}

/// The text of a flag on the wire: `Y` or `N`.
pub open spec fn flag_text(flag: bool) -> Seq<char> {
    if flag {
        seq!['Y']
    } else {
        seq!['N']
    }
}

/// The view of a string that may be absent.
pub open spec fn optional_text(s: Option<String>) -> Option<Seq<char>> {
    match s {
        Some(s) => Some(s@),
        None => None,
    }
}

/// The decimal text of a number that may be absent.
pub open spec fn optional_number_text(n: Option<u32>) -> Option<Seq<char>> {
    match n {
        Some(n) => Some(decimal_text(n as nat)),
        None => None,
    }
}

/// The text of a flag that may be absent.
pub open spec fn optional_flag_text(flag: Option<bool>) -> Option<Seq<char>> {
    match flag {
        Some(f) => Some(flag_text(f)),
        None => None,
    }
}

/// The view of a timestamp that may be absent.
pub open spec fn optional_time(t: Option<UtcTimestamp>) -> Option<Civil> {
    match t {
        Some(t) => Some(t@),
        None => None,
    }
}

/// The text of a timestamp that may be absent.
pub open spec fn optional_time_text(t: Option<Civil>) -> Option<Seq<char>> {
    match t {
        Some(t) => Some(t.text()),
        None => None,
    }
}

/// Where a writer stands: what the buffer held when it began, and the
/// fields it has written since.
pub open spec fn written_so_far(buffer: Seq<char>, start: Seq<char>, written: FieldList) -> bool {
    buffer == start + fields_text(written.fields)
}

/// A writer that has written nothing yet.
pub proof fn lemma_nothing_written(buffer: Seq<char>)
    ensures
        written_so_far(buffer, buffer, FieldList::new()),
{
    assert(buffer =~= buffer + fields_text(FieldList::new().fields));
}

/// Appends a field whose value is a text.
pub(crate) fn put_text(
    buffer: &mut String,
    tag: u32,
    value: &str,
    Ghost(start): Ghost<Seq<char>>,
    Ghost(written): Ghost<FieldList>,
) -> (r: Ghost<FieldList>)
    requires
        written_so_far(old(buffer)@, start, written),
    ensures
        r@ == written.with(tag as nat, value@),
        written_so_far(final(buffer)@, start, r@),
{
    write_field(buffer, tag, value);
    proof {
        lemma_field_appended(
            start,
            written.fields,
            Field { tag: tag as nat, value: value@ },
            buffer@,
        );
    }
    Ghost(written.with(tag as nat, value@))
}

/// Appends a field whose value is a number.
pub(crate) fn put_number(
    buffer: &mut String,
    tag: u32,
    value: u32,
    Ghost(start): Ghost<Seq<char>>,
    Ghost(written): Ghost<FieldList>,
) -> (r: Ghost<FieldList>)
    requires
        written_so_far(old(buffer)@, start, written),
    ensures
        r@ == written.with(tag as nat, decimal_text(value as nat)),
        written_so_far(final(buffer)@, start, r@),
{
    write_number_field(buffer, tag, value as u64);
    let ghost f = Field { tag: tag as nat, value: decimal_text(value as nat) };
    proof {
        lemma_field_appended(start, written.fields, f, buffer@);
    }
    Ghost(written.with(tag as nat, decimal_text(value as nat)))
}

/// Appends a field whose value is a single character.
pub(crate) fn put_code(
    buffer: &mut String,
    tag: u32,
    code: char,
    Ghost(start): Ghost<Seq<char>>,
    Ghost(written): Ghost<FieldList>,
) -> (r: Ghost<FieldList>)
    requires
        written_so_far(old(buffer)@, start, written),
    ensures
        r@ == written.with(tag as nat, seq![code]),
        written_so_far(final(buffer)@, start, r@),
{
    push_decimal(buffer, tag as u64);
    buffer.push('=');
    buffer.push(code);
    buffer.push('\u{1}');
    let ghost f = Field { tag: tag as nat, value: seq![code] };
    proof {
        assert(buffer@ =~= start + fields_text(written.fields) + field_text(f.tag, f.value));
        lemma_field_appended(start, written.fields, f, buffer@);
    }
    Ghost(written.with(tag as nat, seq![code]))
}

/// Appends a field whose value is a flag.
pub(crate) fn put_flag(
    buffer: &mut String,
    tag: u32,
    flag: bool,
    Ghost(start): Ghost<Seq<char>>,
    Ghost(written): Ghost<FieldList>,
) -> (r: Ghost<FieldList>)
    requires
        written_so_far(old(buffer)@, start, written),
    ensures
        r@ == written.with(tag as nat, flag_text(flag)),
        written_so_far(final(buffer)@, start, r@),
{
    let code = if flag {
        'Y'
    } else {
        'N'
    };
    assert(seq![code] =~= flag_text(flag));
    put_code(buffer, tag, code, Ghost(start), Ghost(written))
}

/// Appends a field whose value is a timestamp.
pub(crate) fn put_time(
    buffer: &mut String,
    tag: u16,
    time: UtcTimestamp,
    Ghost(start): Ghost<Seq<char>>,
    Ghost(written): Ghost<FieldList>,
) -> (r: Ghost<FieldList>)
    requires
        written_so_far(old(buffer)@, start, written),
    ensures
        r@ == written.with(tag as nat, time@.text()),
        written_so_far(final(buffer)@, start, r@),
{
    write_tag_timestamp(buffer, tag, time);
    let ghost f = Field { tag: tag as nat, value: time@.text() };
    proof {
        lemma_field_appended(start, written.fields, f, buffer@);
    }
    Ghost(written.with(tag as nat, time@.text()))
}

/// Appends a field whose value is a decimal number.
pub(crate) fn put_decimal(
    buffer: &mut String,
    tag: u32,
    value: Decimal,
    Ghost(start): Ghost<Seq<char>>,
    Ghost(written): Ghost<FieldList>,
) -> (r: Ghost<FieldList>)
    requires
        written_so_far(old(buffer)@, start, written),
    ensures
        r@ == written.with(tag as nat, value@.text()),
        written_so_far(final(buffer)@, start, r@),
{
    push_decimal(buffer, tag as u64);
    buffer.push('=');
    value.write(buffer);
    buffer.push('\u{1}');
    let ghost f = Field { tag: tag as nat, value: value@.text() };
    proof {
        assert(buffer@ =~= start + fields_text(written.fields) + field_text(f.tag, f.value));
        lemma_field_appended(start, written.fields, f, buffer@);
    }
    Ghost(written.with(tag as nat, value@.text()))
}

/// Appends a text field where there is a value.
pub(crate) fn put_optional_text(
    buffer: &mut String,
    tag: u32,
    value: &Option<String>,
    Ghost(start): Ghost<Seq<char>>,
    Ghost(written): Ghost<FieldList>,
) -> (r: Ghost<FieldList>)
    requires
        written_so_far(old(buffer)@, start, written),
    ensures
        r@ == written.with_optional(tag as nat, optional_text(*value)),
        written_so_far(final(buffer)@, start, r@),
{
    match value {
        Some(v) => put_text(buffer, tag, v.as_str(), Ghost(start), Ghost(written)),
        None => Ghost(written),
    }
}

/// Appends a number field where there is a value.
pub(crate) fn put_optional_number(
    buffer: &mut String,
    tag: u32,
    value: Option<u32>,
    Ghost(start): Ghost<Seq<char>>,
    Ghost(written): Ghost<FieldList>,
) -> (r: Ghost<FieldList>)
    requires
        written_so_far(old(buffer)@, start, written),
    ensures
        r@ == written.with_optional(tag as nat, optional_number_text(value)),
        written_so_far(final(buffer)@, start, r@),
{
    match value {
        Some(v) => put_number(buffer, tag, v, Ghost(start), Ghost(written)),
        None => Ghost(written),
    }
}

/// Appends a flag field where there is a value.
pub(crate) fn put_optional_flag(
    buffer: &mut String,
    tag: u32,
    value: Option<bool>,
    Ghost(start): Ghost<Seq<char>>,
    Ghost(written): Ghost<FieldList>,
) -> (r: Ghost<FieldList>)
    requires
        written_so_far(old(buffer)@, start, written),
    ensures
        r@ == written.with_optional(tag as nat, optional_flag_text(value)),
        written_so_far(final(buffer)@, start, r@),
{
    match value {
        Some(v) => put_flag(buffer, tag, v, Ghost(start), Ghost(written)),
        None => Ghost(written),
    }
}

/// Appends a timestamp field where there is a value.
pub(crate) fn put_optional_time(
    buffer: &mut String,
    tag: u16,
    value: Option<UtcTimestamp>,
    Ghost(start): Ghost<Seq<char>>,
    Ghost(written): Ghost<FieldList>,
) -> (r: Ghost<FieldList>)
    requires
        written_so_far(old(buffer)@, start, written),
    ensures
        r@ == written.with_optional(tag as nat, optional_time_text(optional_time(value))),
        written_so_far(final(buffer)@, start, r@),
{
    match value {
        Some(v) => put_time(buffer, tag, v, Ghost(start), Ghost(written)),
        None => Ghost(written),
    }
}

/// Appends a decimal field where there is a value.
pub(crate) fn put_optional_decimal(
    buffer: &mut String,
    tag: u32,
    value: Option<Decimal>,
    Ghost(start): Ghost<Seq<char>>,
    Ghost(written): Ghost<FieldList>,
) -> (r: Ghost<FieldList>)
    requires
        written_so_far(old(buffer)@, start, written),
    ensures
        r@ == written.with_optional(tag as nat, optional_decimal_text(optional_decimal(value))),
        written_so_far(final(buffer)@, start, r@),
{
    match value {
        Some(v) => put_decimal(buffer, tag, v, Ghost(start), Ghost(written)),
        None => Ghost(written),
    }
}

/// The message for a tag that a component does not know: the name of the
/// component's fields, then the tag.
pub(crate) fn unknown_field(prefix: &str, tag: u32) -> (message: String)
    ensures
        message@ == prefix@ + decimal_text(tag as nat),
{
    let mut message = String::from_str(prefix);
    push_decimal(&mut message, tag as u64);
    message
}

} // verus!

//! Wire-format primitives: decimal numbers, `tag=value` fields and lists of
//! fields, as mathematical text and as the code that writes and reads it.

use vstd::arithmetic::div_mod::lemma_mod_breakdown;
use vstd::prelude::*;
use vstd::string::*;

verus! {

/// The field separator, as a character.
pub open spec fn soh_char() -> char {
    '\u{1}'
}

/// The character of one decimal digit.
pub open spec fn digit_char(d: nat) -> char
    recommends
        d < 10,
{
    if d == 0 {
        '0'
    } else if d == 1 {
        '1'
    } else if d == 2 {
        '2'
    } else if d == 3 {
        '3'
    } else if d == 4 {
        '4'
    } else if d == 5 {
        '5'
    } else if d == 6 {
        '6'
    } else if d == 7 {
        '7'
    } else if d == 8 {
        '8'
    } else {
        '9'
    }
}

/// Whether a character is a decimal digit.
pub open spec fn is_digit(c: char) -> bool {
    '0' <= c && c <= '9'
}

/// The number a digit character stands for.
pub open spec fn digit_value(c: char) -> nat
    recommends
        is_digit(c),
{
    (c as u32 - '0' as u32) as nat
}

/// The decimal representation of a number, without leading zeros.
pub open spec fn decimal_text(n: nat) -> Seq<char>
    decreases n,
{
    if n < 10 {
        seq![digit_char(n)]
    } else {
        decimal_text(n / 10).push(digit_char(n % 10))
    }
}

/// Whether every character of a text is a decimal digit.
pub open spec fn all_digits(s: Seq<char>) -> bool {
    forall|i: int| 0 <= i < s.len() ==> is_digit(#[trigger] s[i])
}

/// The number that a sequence of digits denotes; leading zeros are allowed.
pub open spec fn decimal_value(s: Seq<char>) -> nat
    decreases s.len(),
{
    if s.len() == 0 {
        0
    } else {
        decimal_value(s.drop_last()) * 10 + digit_value(s.last())
    }
}

/// What is left of a number's text once an optional leading `+` is taken off.
pub open spec fn unsigned_digits(s: Seq<char>) -> Seq<char> {
    if s.len() > 0 && s[0] == '+' {
        s.skip(1)
    } else {
        s
    }
}

/// Reading of an unsigned decimal number that must not exceed `max`:
/// an optional `+`, then one or more digits.
pub open spec fn parse_unsigned(s: Seq<char>, max: nat) -> Option<nat> {
    let digits = unsigned_digits(s);
    if digits.len() > 0 && all_digits(digits) && decimal_value(digits) <= max {
        Some(decimal_value(digits))
    } else {
        None
    }
}

/// A number written with at least `width` digits, zeros in front.
pub open spec fn padded_decimal(n: nat, width: nat) -> Seq<char> {
    let digits = decimal_text(n);
    if digits.len() >= width {
        digits
    } else {
        Seq::new((width - digits.len()) as nat, |i: int| '0') + digits
    }
}

/// One field of a message: its tag and the text of its value.
pub struct Field {
    pub tag: nat,
    pub value: Seq<char>,
}

/// The wire text of one field: `tag=value` and the separator.
pub open spec fn field_text(tag: nat, value: Seq<char>) -> Seq<char> {
    decimal_text(tag).push('=') + value.push(soh_char())
}

/// The wire text of a list of fields, in order.
pub open spec fn fields_text(fields: Seq<Field>) -> Seq<char>
    decreases fields.len(),
{
    if fields.len() == 0 {
        Seq::empty()
    } else {
        field_text(fields[0].tag, fields[0].value) + fields_text(fields.skip(1))
    }
}

/// A digit character is a digit, stands for its number, and is none of the
/// characters that have a meaning of their own on the wire.
pub proof fn lemma_digit_char(d: nat)
    requires
        d < 10,
    ensures
        is_digit(digit_char(d)),
        digit_value(digit_char(d)) == d,
        digit_char(d) != '=',
        digit_char(d) != '+',
        digit_char(d) != soh_char(),
{
}

/// The decimal text of a number is one digit at least, digits throughout,
/// and denotes the number.
pub proof fn lemma_decimal_text(n: nat)
    ensures
        decimal_text(n).len() >= 1,
        all_digits(decimal_text(n)),
        decimal_value(decimal_text(n)) == n,
        decimal_text(n)[0] != '+',
    decreases n,
{
    if n < 10 {
        lemma_digit_char(n);
        let s = decimal_text(n);
        assert(s.drop_last() =~= Seq::<char>::empty());
        assert(decimal_value(s.drop_last()) == 0);
    } else {
        lemma_decimal_text(n / 10);
        lemma_digit_char(n % 10);
        let s = decimal_text(n);
        assert(s.drop_last() =~= decimal_text(n / 10));
        assert(s[0] == decimal_text(n / 10)[0]);
    }
}

/// A number's decimal text reads back as the number.
pub proof fn lemma_parse_decimal_text(n: nat, max: nat)
    requires
        n <= max,
    ensures
        parse_unsigned(decimal_text(n), max) == Some(n),
{
    lemma_decimal_text(n);
}

/// How many digits the decimal text of a number below ten thousand has.
pub proof fn lemma_decimal_text_len(n: nat)
    ensures
        n < 10 ==> decimal_text(n).len() == 1,
        10 <= n < 100 ==> decimal_text(n).len() == 2,
        100 <= n < 1000 ==> decimal_text(n).len() == 3,
        1000 <= n < 10000 ==> decimal_text(n).len() == 4,
{
    if n >= 10 {
        let a = n / 10;
        if a >= 10 {
            let b = a / 10;
            if b >= 10 {
                let c = b / 10;
                assert(decimal_text(b).len() == decimal_text(c).len() + 1);
            }
            assert(decimal_text(a).len() == decimal_text(b).len() + 1);
        }
        assert(decimal_text(n).len() == decimal_text(a).len() + 1);
    }
}

/// The text of a list of one field is the text of the field.
pub proof fn lemma_fields_text_single(f: Field)
    ensures
        fields_text(seq![f]) == field_text(f.tag, f.value),
{
    let s = seq![f];
    assert(s.skip(1) =~= Seq::<Field>::empty());
    assert(fields_text(s.skip(1)) =~= Seq::<char>::empty());
    assert(fields_text(s) =~= field_text(f.tag, f.value));
}

/// The text of two lists joined is the two texts joined.
pub proof fn lemma_fields_text_concat(a: Seq<Field>, b: Seq<Field>)
    ensures
        fields_text(a + b) == fields_text(a) + fields_text(b),
    decreases a.len(),
{
    if a.len() == 0 {
        assert(a + b =~= b);
        assert(fields_text(a) + fields_text(b) =~= fields_text(b));
    } else {
        lemma_fields_text_concat(a.skip(1), b);
        assert((a + b).skip(1) =~= a.skip(1) + b);
        assert((a + b)[0] == a[0]);
        assert(fields_text(a + b) =~= fields_text(a) + fields_text(b));
    }
}

/// The text of a list with one more field is the text of the list, then
/// the text of the field.
pub proof fn lemma_fields_text_push(a: Seq<Field>, f: Field)
    ensures
        fields_text(a.push(f)) == fields_text(a) + field_text(f.tag, f.value),
{
    lemma_fields_text_single(f);
    lemma_fields_text_concat(a, seq![f]);
    assert(a.push(f) =~= a + seq![f]);
}

/// The place of the first `c` in `s`, or the length of `s` where it holds none.
pub open spec fn first_index(s: Seq<char>, c: char) -> int
    decreases s.len(),
{
    if s.len() == 0 || s[0] == c {
        0
    } else {
        1 + first_index(s.skip(1), c)
    }
}

/// The first `c` lies within the text, is a `c` where there is one, and has
/// no `c` before it.
pub proof fn lemma_first_index(s: Seq<char>, c: char)
    ensures
        0 <= first_index(s, c) <= s.len(),
        first_index(s, c) < s.len() ==> s[first_index(s, c)] == c,
        forall|i: int| 0 <= i < first_index(s, c) ==> s[i] != c,
    decreases s.len(),
{
    if s.len() > 0 && s[0] != c {
        lemma_first_index(s.skip(1), c);
        assert forall|i: int| 0 <= i < first_index(s, c) implies s[i] != c by {
            if i > 0 {
                assert(s[i] == s.skip(1)[i - 1]);
            }
        }
    }
}

/// The first `c` is where a `c` stands with none before it.
pub proof fn lemma_first_index_is(s: Seq<char>, c: char, k: int)
    requires
        0 <= k <= s.len(),
        forall|i: int| 0 <= i < k ==> s[i] != c,
        k < s.len() ==> s[k] == c,
    ensures
        first_index(s, c) == k,
{
    lemma_first_index(s, c);
    let f = first_index(s, c);
    if f < k {
        assert(s[f] == c);
    } else if f > k {
        assert(s[k] != c);
    }
}

/// Ten to the power `e`.
pub open spec fn pow10(e: nat) -> nat
    decreases e,
{
    if e == 0 {
        1
    } else {
        10 * pow10((e - 1) as nat)
    }
}

/// The last `width` digits of a number, zeros in front where it has fewer.
pub open spec fn fixed_digits(n: nat, width: nat) -> Seq<char>
    decreases width,
{
    if width == 0 {
        Seq::empty()
    } else {
        fixed_digits(n / 10, (width - 1) as nat).push(digit_char(n % 10))
    }
}

/// The last `width` digits of a number are that many digits, and denote
/// the number modulo ten to the power `width`.
pub proof fn lemma_fixed_digits(n: nat, width: nat)
    ensures
        fixed_digits(n, width).len() == width,
        all_digits(fixed_digits(n, width)),
        decimal_value(fixed_digits(n, width)) == n % pow10(width),
    decreases width,
{
    if width > 0 {
        let w = (width - 1) as nat;
        lemma_fixed_digits(n / 10, w);
        lemma_digit_char(n % 10);
        let s = fixed_digits(n, width);
        assert(s.drop_last() =~= fixed_digits(n / 10, w));
        let p = pow10(w);
        lemma_pow10_positive(w);
        lemma_mod_breakdown(n as int, 10, p as int);
    } else {
        assert(n % 1 == 0);
    }
}

/// A power of ten is positive.
pub proof fn lemma_pow10_positive(e: nat)
    ensures
        pow10(e) > 0,
    decreases e,
{
    if e > 0 {
        lemma_pow10_positive((e - 1) as nat);
    }
}

/// What two digit sequences denote when one follows the other.
pub proof fn lemma_decimal_value_concat(a: Seq<char>, b: Seq<char>)
    ensures
        decimal_value(a + b) == decimal_value(a) * pow10(b.len()) + decimal_value(b),
    decreases b.len(),
{
    if b.len() == 0 {
        assert(a + b =~= a);
        assert(pow10(0) == 1);
        assert(decimal_value(b) == 0);
        assert(decimal_value(a) * 1 == decimal_value(a));
    } else {
        lemma_decimal_value_concat(a, b.drop_last());
        assert((a + b).drop_last() =~= a + b.drop_last());
        assert((a + b).last() == b.last());
        let x = decimal_value(a);
        let y = decimal_value(b.drop_last());
        let p = pow10(b.drop_last().len());
        let d = digit_value(b.last());
        assert(pow10(b.len()) == 10 * p);
        assert(decimal_value(a + b) == (x * p + y) * 10 + d);
        assert(decimal_value(b) == y * 10 + d);
        assert((x * p + y) * 10 + d == x * (10 * p) + (y * 10 + d)) by (nonlinear_arith);
    }
}

/// Two sequences joined are digits throughout where each of them is, and
/// the first alone denotes no more than both together.
pub proof fn lemma_all_digits_concat(a: Seq<char>, b: Seq<char>)
    ensures
        all_digits(a + b) <==> all_digits(a) && all_digits(b),
        decimal_value(a) <= decimal_value(a + b),
{
    if all_digits(a + b) {
        assert forall|i: int| 0 <= i < a.len() implies is_digit(#[trigger] a[i]) by {
            assert((a + b)[i] == a[i]);
        }
        assert forall|i: int| 0 <= i < b.len() implies is_digit(#[trigger] b[i]) by {
            assert((a + b)[a.len() + i] == b[i]);
        }
    }
    if all_digits(a) && all_digits(b) {
        assert forall|i: int| 0 <= i < (a + b).len() implies is_digit(#[trigger] (a + b)[i]) by {
            if i < a.len() {
                assert((a + b)[i] == a[i]);
            } else {
                assert((a + b)[i] == b[i - a.len()]);
            }
        }
    }
    lemma_decimal_value_prefix(a + b, a.len() as int);
    assert((a + b).take(a.len() as int) =~= a);
}

/// Zeros in front change nothing of what a digit sequence denotes.
pub proof fn lemma_leading_zeros(zeros: Seq<char>, digits: Seq<char>)
    requires
        forall|i: int| 0 <= i < zeros.len() ==> zeros[i] == '0',
        all_digits(digits),
    ensures
        all_digits(zeros + digits),
        decimal_value(zeros + digits) == decimal_value(digits),
    decreases digits.len(),
{
    if digits.len() == 0 {
        assert(zeros + digits =~= zeros);
        lemma_zeros_value(zeros);
    } else {
        lemma_leading_zeros(zeros, digits.drop_last());
        assert((zeros + digits).drop_last() =~= zeros + digits.drop_last());
    }
}

/// Zeros denote zero.
pub proof fn lemma_zeros_value(zeros: Seq<char>)
    requires
        forall|i: int| 0 <= i < zeros.len() ==> zeros[i] == '0',
    ensures
        decimal_value(zeros) == 0,
    decreases zeros.len(),
{
    if zeros.len() > 0 {
        lemma_zeros_value(zeros.drop_last());
    }
}

/// One more field written after a list of fields is the list with that
/// field at its end.
pub proof fn lemma_field_appended(start: Seq<char>, fields: Seq<Field>, f: Field, now: Seq<char>)
    requires
        now == start + fields_text(fields) + field_text(f.tag, f.value),
    ensures
        now == start + fields_text(fields.push(f)),
{
    lemma_fields_text_push(fields, f);
    assert(start + fields_text(fields) + field_text(f.tag, f.value) =~= start + (fields_text(fields)
        + field_text(f.tag, f.value)));
}

/// A list of fields written after another is the two lists joined.
pub proof fn lemma_fields_appended(
    start: Seq<char>,
    fields: Seq<Field>,
    more: Seq<Field>,
    now: Seq<char>,
)
    requires
        now == start + fields_text(fields) + fields_text(more),
    ensures
        now == start + fields_text(fields + more),
{
    lemma_fields_text_concat(fields, more);
    assert(start + fields_text(fields) + fields_text(more) =~= start + (fields_text(fields)
        + fields_text(more)));
}

pub assume_specification[ String::push ](s: &mut String, c: char)
    ensures
        final(s)@ == old(s)@.push(c),
;

/// Appends the decimal text of `value`: `itoa::Buffer::format` prints an
/// unsigned integer in base ten, most significant digit first, with no sign
/// and no leading zeros.
#[verifier::external_body]
pub(crate) fn push_decimal(buf: &mut String, value: u64)
    ensures
        final(buf)@ == old(buf)@ + decimal_text(value as nat),
{
    buf.push_str(itoa::Buffer::new().format(value));
}

/// The characters of a string, in a vector.
pub fn chars_of(s: &str) -> (v: Vec<char>)
    ensures
        v@ == s@,
{
    let mut v: Vec<char> = Vec::new();
    for c in it: s.chars()
        invariant
            v@ == it.seq().take(it.index() as int),
            it.seq() == s@,
    {
        v.push(c);
    }
    v
}

/// The string made of the characters `chars[from..to]`.
pub(crate) fn string_of(chars: &Vec<char>, from: usize, to: usize) -> (s: String)
    requires
        from <= to <= chars.len(),
    ensures
        s@ == chars@.subrange(from as int, to as int),
{
    let mut s = String::new();
    let mut i: usize = from;
    while i < to
        invariant
            from <= i <= to <= chars.len(),
            s@ == chars@.subrange(from as int, i as int),
        decreases to - i,
    {
        s.push(chars[i]);
        i += 1;
        assert(chars@.subrange(from as int, i as int) =~= chars@.subrange(
            from as int,
            i as int - 1,
        ).push(chars@[i as int - 1]));
    }
    s
}

/// Whether two strings hold the same text.
pub fn same_text(a: &str, b: &str) -> (r: bool)
    ensures
        r == (a@ == b@),
{
    let x = chars_of(a);
    let y = chars_of(b);
    if x.len() != y.len() {
        return false;
    }
    let mut i: usize = 0;
    while i < x.len()
        invariant
            i <= x.len(),
            x.len() == y.len(),
            x@ == a@,
            y@ == b@,
            forall|j: int| 0 <= j < i ==> x@[j] == y@[j],
        decreases x.len() - i,
    {
        if x[i] != y[i] {
            return false;
        }
        i += 1;
    }
    assert(x@ =~= y@);
    true
}

/// Whether a character is a decimal digit.
pub fn char_is_digit(c: char) -> (r: bool)
    ensures
        r == is_digit(c),
{
    '0' <= c && c <= '9'
}

/// Reads the digits `chars[from..to]` as the continuation of a number whose
/// first digits, `before`, have the value `value`. Gives the value of all
/// the digits together, unless a character is not a digit or the value
/// exceeds `max`.
pub(crate) fn accumulate_digits(
    chars: &Vec<char>,
    from: usize,
    to: usize,
    value: u64,
    max: u64,
    Ghost(before): Ghost<Seq<char>>,
) -> (r: Option<u64>)
    requires
        from <= to <= chars.len(),
        value as nat == decimal_value(before),
        value <= max,
    ensures
        r == ({
            let digits = chars@.subrange(from as int, to as int);
            if all_digits(digits) && decimal_value(before + digits) <= max {
                Some(decimal_value(before + digits) as u64)
            } else {
                None
            }
        }),
{
    let ghost digits = chars@.subrange(from as int, to as int);
    let mut acc: u64 = value;
    let mut i: usize = from;
    assert(before + digits.take(0) =~= before);
    while i < to
        invariant
            from <= i <= to <= chars.len(),
            digits == chars@.subrange(from as int, to as int),
            all_digits(digits.take(i - from)),
            acc as nat == decimal_value(before + digits.take(i - from)),
            acc <= max,
        decreases to - i,
    {
        let c = chars[i];
        let ghost seen = before + digits.take(i - from);
        let ghost next = before + digits.take(i - from + 1);
        assert(next.drop_last() =~= seen);
        assert(next.last() == c);
        if !char_is_digit(c) {
            assert(!is_digit(digits[i - from]));
            return None;
        }
        let d: u64 = (c as u32 - '0' as u32) as u64;
        if acc > max / 10 || d > max - acc * 10 {
            proof {
                assert(decimal_value(next) > max);
                lemma_decimal_value_prefix(before + digits, before.len() + i - from + 1);
                assert((before + digits).take(before.len() + i - from + 1) =~= next);
            }
            return None;
        }
        acc = acc * 10 + d;
        i += 1;
    }
    assert(digits.take(to - from) =~= digits);
    Some(acc)
}

/// Reads `chars[from..to]` as an unsigned decimal number of at most `max`.
pub(crate) fn parse_decimal_range(
    chars: &Vec<char>,
    from: usize,
    to: usize,
    max: u64,
) -> (r: Option<u64>)
    requires
        from <= to <= chars.len(),
    ensures
        r == match parse_unsigned(chars@.subrange(from as int, to as int), max as nat) {
            Some(n) => Some(n as u64),
            None => None,
        },
{
    let ghost text = chars@.subrange(from as int, to as int);
    let start: usize = if from < to && chars[from] == '+' {
        from + 1
    } else {
        from
    };
    assert(unsigned_digits(text) =~= chars@.subrange(start as int, to as int));
    if start == to {
        return None;
    }
    assert(Seq::<char>::empty() + chars@.subrange(start as int, to as int) =~= chars@.subrange(
        start as int,
        to as int,
    ));
    accumulate_digits(chars, start, to, 0, max, Ghost(Seq::empty()))
}

/// A prefix of a digit sequence denotes no more than the whole.
pub proof fn lemma_decimal_value_prefix(s: Seq<char>, k: int)
    requires
        0 <= k <= s.len(),
    ensures
        decimal_value(s.take(k)) <= decimal_value(s),
    decreases s.len() - k,
{
    if k < s.len() {
        lemma_decimal_value_prefix(s, k + 1);
        assert(s.take(k + 1).drop_last() =~= s.take(k));
    } else {
        assert(s.take(k) =~= s);
    }
}

/// Reads a whole string as an unsigned decimal number of at most `max`.
pub fn parse_decimal(s: &str, max: u64) -> (r: Option<u64>)
    ensures
        r == match parse_unsigned(s@, max as nat) {
            Some(n) => Some(n as u64),
            None => None,
        },
{
    let chars = chars_of(s);
    assert(chars@.subrange(0, chars.len() as int) =~= s@);
    parse_decimal_range(&chars, 0, chars.len(), max)
}

/// Reads a whole string as a number that fits in 32 bits.
pub fn parse_u32(s: &str) -> (r: Option<u32>)
    ensures
        r == match parse_unsigned(s@, u32::MAX as nat) {
            Some(n) => Some(n as u32),
            None => None,
        },
{
    match parse_decimal(s, 0xffff_ffff) {
        Some(n) => Some(n as u32),
        None => None,
    }
}

/// Appends one field, `tag=value` and the separator.
pub fn write_field(buffer: &mut String, tag: u32, value: &str)
    ensures
        final(buffer)@ == old(buffer)@ + field_text(tag as nat, value@),
{
    push_decimal(buffer, tag as u64);
    buffer.push('=');
    buffer.append(value);
    buffer.push('\u{1}');
    assert(buffer@ =~= old(buffer)@ + field_text(tag as nat, value@));
}

/// Appends one field whose value is a number.
pub fn write_number_field(buffer: &mut String, tag: u32, value: u64)
    ensures
        final(buffer)@ == old(buffer)@ + field_text(tag as nat, decimal_text(value as nat)),
{
    push_decimal(buffer, tag as u64);
    buffer.push('=');
    push_decimal(buffer, value);
    buffer.push('\u{1}');
    assert(buffer@ =~= old(buffer)@ + field_text(tag as nat, decimal_text(value as nat)));
}

/// Appends a number below 100 as two digits.
pub(crate) fn push_two_digits(buffer: &mut String, value: u8)
    requires
        value < 100,
    ensures
        final(buffer)@ == old(buffer)@ + padded_decimal(value as nat, 2),
{
    proof {
        lemma_decimal_text_len(value as nat);
    }
    if value < 10 {
        buffer.push('0');
    }
    push_decimal(buffer, value as u64);
    assert(buffer@ =~= old(buffer)@ + padded_decimal(value as nat, 2));
}

/// Appends a number below 1000 as three digits.
pub(crate) fn push_three_digits(buffer: &mut String, value: u16)
    requires
        value < 1000,
    ensures
        final(buffer)@ == old(buffer)@ + padded_decimal(value as nat, 3),
{
    proof {
        lemma_decimal_text_len(value as nat);
    }
    if value < 100 {
        buffer.push('0');
    }
    if value < 10 {
        buffer.push('0');
    }
    push_decimal(buffer, value as u64);
    assert(buffer@ =~= old(buffer)@ + padded_decimal(value as nat, 3));
}

/// Appends a number below 10000 as four digits.
pub(crate) fn push_four_digits(buffer: &mut String, value: u16)
    requires
        value < 10000,
    ensures
        final(buffer)@ == old(buffer)@ + padded_decimal(value as nat, 4),
{
    proof {
        lemma_decimal_text_len(value as nat);
    }
    if value < 1000 {
        buffer.push('0');
    }
    if value < 100 {
        buffer.push('0');
    }
    if value < 10 {
        buffer.push('0');
    }
    push_decimal(buffer, value as u64);
    assert(buffer@ =~= old(buffer)@ + padded_decimal(value as nat, 4));
}

} // verus!

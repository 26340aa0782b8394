//! Decimal numbers for quantities and prices: an integer and the number of
//! its digits that stand after the decimal point.

use crate::common::text::{
    accumulate_digits, all_digits, chars_of, decimal_text, decimal_value, digit_char, first_index,
    fixed_digits, is_digit, lemma_all_digits_concat, lemma_decimal_text, lemma_decimal_value_concat,
    lemma_first_index_is, lemma_fixed_digits, lemma_pow10_positive, pow10, push_decimal,
};
use std::str::FromStr;
use vstd::arithmetic::div_mod::{lemma_div_denominator, lemma_fundamental_div_mod};
use vstd::prelude::*;

verus! {

/// What a decimal number holds: its sign, all its digits as one number, and
/// how many of them stand after the point. Its value is
/// `mantissa / 10^scale`, negated where `negative` is set.
pub struct DecimalView {
    pub negative: bool,
    pub mantissa: nat,
    pub scale: nat,
}

impl DecimalView {
    /// The numbers that a `Decimal` can hold.
    pub open spec fn wf(self) -> bool {
        self.mantissa <= u64::MAX && self.scale <= 19
    }

    /// Whether the number is below zero.
    pub open spec fn below_zero(self) -> bool {
        self.negative && self.mantissa > 0
    }

    /// The number without its sign: the whole part, then, where there are
    /// digits after the point, the point and exactly that many digits.
    pub open spec fn unsigned_text(self) -> Seq<char> {
        let whole = decimal_text(self.mantissa / pow10(self.scale));
        if self.scale == 0 {
            whole
        } else {
            whole.push('.') + fixed_digits(self.mantissa % pow10(self.scale), self.scale)
        }
    }

    /// The number as it is written on the wire.
    pub open spec fn text(self) -> Seq<char> {
        if self.negative {
            seq!['-'] + self.unsigned_text()
        } else {
            self.unsigned_text()
        }
    }
}

/// What is left of a number's text once a leading sign is taken off.
pub open spec fn without_sign(s: Seq<char>) -> Seq<char> {
    if s.len() > 0 && (s[0] == '-' || s[0] == '+') {
        s.skip(1)
    } else {
        s
    }
}

/// The digits of a number's text after its first point.
pub open spec fn after_point(body: Seq<char>) -> Seq<char> {
    let dot = first_index(body, '.');
    if dot < body.len() {
        body.skip(dot + 1)
    } else {
        Seq::empty()
    }
}

/// The number that a text stands for, if it stands for one: an optional
/// sign, digits, and optionally a point and more digits. There must be a
/// digit, no more than 19 after the point, and the digits together must fit
/// in 64 bits.
pub open spec fn parse_number(s: Seq<char>) -> Option<DecimalView> {
    let body = without_sign(s);
    let whole = body.take(first_index(body, '.'));
    let fraction = after_point(body);
    let digits = whole + fraction;
    if digits.len() > 0 && all_digits(digits) && fraction.len() <= 19 && decimal_value(digits)
        <= u64::MAX {
        Some(
            DecimalView {
                negative: s.len() > 0 && s[0] == '-',
                mantissa: decimal_value(digits),
                scale: fraction.len(),
            },
        )
    } else {
        None
    }
}

/// A number reads back from its own text.
pub proof fn lemma_number_round_trip(d: DecimalView)
    requires
        d.wf(),
    ensures
        parse_number(d.text()) == Some(d),
{
    let p = pow10(d.scale);
    lemma_pow10_positive(d.scale);
    let whole = decimal_text(d.mantissa / p);
    let frac = fixed_digits(d.mantissa % p, d.scale);
    lemma_decimal_text(d.mantissa / p);
    lemma_fixed_digits(d.mantissa % p, d.scale);
    let body = d.unsigned_text();
    let s = d.text();
    assert(is_digit(whole[0]));
    assert(body[0] == whole[0]);
    if d.negative {
        assert(s.skip(1) =~= body);
    }
    assert(without_sign(s) == body);
    if d.scale == 0 {
        lemma_first_index_is(body, '.', body.len() as int);
        assert(body.take(body.len() as int) =~= whole);
        assert(whole + after_point(body) =~= whole);
        assert(pow10(0) == 1);
        assert(d.mantissa / 1 == d.mantissa);
    } else {
        assert(body[whole.len() as int] == '.');
        assert forall|i: int| 0 <= i < whole.len() implies body[i] != '.' by {
            assert(body[i] == whole[i]);
        }
        lemma_first_index_is(body, '.', whole.len() as int);
        assert(body.take(whole.len() as int) =~= whole);
        assert(after_point(body) =~= frac);
        lemma_decimal_value_concat(whole, frac);
        assert forall|i: int| 0 <= i < (whole + frac).len() implies is_digit(
            #[trigger] (whole + frac)[i],
        ) by {
            if i < whole.len() {
                assert((whole + frac)[i] == whole[i]);
            } else {
                assert((whole + frac)[i] == frac[i - whole.len()]);
            }
        }
        lemma_fundamental_div_mod(d.mantissa as int, p as int);
        assert((d.mantissa % p) % p == d.mantissa % p) by (nonlinear_arith)
            requires
                p > 0,
        ;
        assert((d.mantissa / p) * p == p * (d.mantissa / p)) by (nonlinear_arith);
    }
}

/// The text of a number holds no field separator.
pub proof fn lemma_number_text_plain(d: DecimalView)
    ensures
        forall|i: int| 0 <= i < d.text().len() ==> #[trigger] d.text()[i] != '\u{1}',
{
    let p = pow10(d.scale);
    let whole = decimal_text(d.mantissa / p);
    let frac = fixed_digits(d.mantissa % p, d.scale);
    lemma_decimal_text(d.mantissa / p);
    lemma_fixed_digits(d.mantissa % p, d.scale);
    let body = d.unsigned_text();
    assert forall|i: int| 0 <= i < body.len() implies #[trigger] body[i] != '\u{1}' by {
        if i < whole.len() {
            assert(is_digit(whole[i]));
        } else if i > whole.len() {
            assert(is_digit(frac[i - whole.len() - 1]));
        }
    }
    assert forall|i: int| 0 <= i < d.text().len() implies #[trigger] d.text()[i] != '\u{1}' by {
        if d.negative && i > 0 {
            assert(d.text()[i] == body[i - 1]);
        }
    }
}

/// The view of a number that may be absent.
pub open spec fn optional_decimal(d: Option<Decimal>) -> Option<DecimalView> {
    match d {
        Some(d) => Some(d@),
        None => None,
    }
}

/// The text of a number that may be absent.
pub open spec fn optional_decimal_text(d: Option<DecimalView>) -> Option<Seq<char>> {
    match d {
        Some(d) => Some(d.text()),
        None => None,
    }
}

/// A decimal number, exact in every digit that it was given.
#[derive(Clone, Copy, Debug, PartialEq, Eq, Hash)]
pub struct Decimal {
    negative: bool,
    mantissa: u64,
    scale: u8,
}

impl View for Decimal {
    type V = DecimalView;

    closed spec fn view(&self) -> DecimalView {
        DecimalView {
            negative: self.negative,
            mantissa: self.mantissa as nat,
            scale: self.scale as nat,
        }
    }
}

/// Ten to the power `e`, for the powers that fit in 64 bits.
pub(crate) fn ten_to(e: u8) -> (r: u64)
    requires
        e <= 19,
    ensures
        r == pow10(e as nat),
        r >= 1,
{
    let mut r: u64 = 1;
    let mut i: u8 = 0;
    while i < e
        invariant
            i <= e <= 19,
            r == pow10(i as nat),
            r >= 1,
        decreases e - i,
    {
        proof {
            lemma_pow10_bound((i + 1) as nat);
        }
        r = r * 10;
        i += 1;
    }
    r
}

/// The powers of ten up to the nineteenth fit in 64 bits.
pub proof fn lemma_pow10_bound(e: nat)
    requires
        e <= 19,
    ensures
        pow10(e) <= 10_000_000_000_000_000_000,
    decreases 19 - e,
{
    if e < 19 {
        lemma_pow10_bound(e + 1);
    } else {
        reveal_with_fuel(pow10, 20);
    }
}

/// The character of one decimal digit.
pub(crate) fn digit_to_char(d: u64) -> (c: char)
    requires
        d < 10,
    ensures
        c == digit_char(d as nat),
{
    if d == 0 {
        '0'
    } else if d == 1 {
        '1'
    } else if d == 2 {
        '2'
    } else if d == 3 {
        '3'
    } else if d == 4 {
        '4'
    } else if d == 5 {
        '5'
    } else if d == 6 {
        '6'
    } else if d == 7 {
        '7'
    } else if d == 8 {
        '8'
    } else {
        '9'
    }
}

impl Decimal {
    /// Every number has at most 19 digits after the point.
    #[verifier::type_invariant]
    pub open spec fn inv(self) -> bool {
        self@.wf()
    }

    /// The number `mantissa / 10^scale`, negated where `negative` is set.
    /// There is none with more than 19 digits after the point.
    pub fn new(negative: bool, mantissa: u64, scale: u8) -> (r: Option<Decimal>)
        ensures
            r is Some <==> scale <= 19,
            r is Some ==> r->0@ == (DecimalView {
                negative,
                mantissa: mantissa as nat,
                scale: scale as nat,
            }),
    {
        if scale <= 19 {
            Some(Decimal { negative, mantissa, scale })
        } else {
            None
        }
    }

    /// A whole number.
    pub fn from_integer(n: u64) -> (r: Decimal)
        ensures
            r@ == (DecimalView { negative: false, mantissa: n as nat, scale: 0 }),
    {
        Decimal { negative: false, mantissa: n, scale: 0 }
    }

    /// Zero.
    pub fn zero() -> (r: Decimal)
        ensures
            r@ == (DecimalView { negative: false, mantissa: 0, scale: 0 }),
    {
        Decimal::from_integer(0)
    }

    /// Whether the number is below zero.
    pub fn is_negative(&self) -> (r: bool)
        ensures
            r == self@.below_zero(),
    {
        self.negative && self.mantissa > 0
    }

    /// All the digits of the number, as one integer.
    pub fn mantissa(&self) -> (r: u64)
        ensures
            r == self@.mantissa,
    {
        self.mantissa
    }

    /// How many digits stand after the point.
    pub fn scale(&self) -> (r: u8)
        ensures
            r == self@.scale,
            self@.wf(),
    {
        proof {
            use_type_invariant(self);
        }
        self.scale
    }

    /// Reads a number: an optional sign, digits, and optionally a point and
    /// more digits.
    pub fn parse(s: &str) -> (r: Option<Decimal>)
        ensures
            match parse_number(s@) {
                Some(d) => r is Some && r->0@ == d,
                None => r is None,
            },
    {
        let chars = chars_of(s);
        let len = chars.len();
        let negative = len > 0 && chars[0] == '-';
        let start: usize = if len > 0 && (chars[0] == '-' || chars[0] == '+') {
            1
        } else {
            0
        };
        let ghost body = without_sign(s@);
        assert(body =~= chars@.subrange(start as int, len as int));
        let mut dot: usize = start;
        while dot < len && chars[dot] != '.'
            invariant
                start <= dot <= len,
                len == chars.len(),
                body == chars@.subrange(start as int, len as int),
                forall|i: int| 0 <= i < dot - start ==> body[i] != '.',
            decreases len - dot,
        {
            dot += 1;
        }
        proof {
            lemma_first_index_is(body, '.', dot - start);
        }
        let ghost whole = body.take(dot - start);
        let ghost fraction = after_point(body);
        assert(whole =~= chars@.subrange(start as int, dot as int));
        assert(fraction =~= if dot < len {
            chars@.subrange(dot + 1, len as int)
        } else {
            Seq::empty()
        });
        proof {
            lemma_all_digits_concat(whole, fraction);
            assert(Seq::<char>::empty() + whole =~= whole);
        }
        let whole_value = match accumulate_digits(
            &chars,
            start,
            dot,
            0,
            0xffff_ffff_ffff_ffff,
            Ghost(Seq::empty()),
        ) {
            Some(n) => n,
            None => {
                return None;
            },
        };
        if dot == len {
            assert(whole + fraction =~= whole);
            if dot == start {
                return None;
            }
            return Some(Decimal { negative, mantissa: whole_value, scale: 0 });
        }
        if len - dot - 1 > 19 {
            return None;
        }
        if len - start - 1 == 0 {
            assert((whole + fraction).len() == 0);
            return None;
        }
        match accumulate_digits(
            &chars,
            dot + 1,
            len,
            whole_value,
            0xffff_ffff_ffff_ffff,
            Ghost(whole),
        ) {
            Some(n) => Some(Decimal { negative, mantissa: n, scale: (len - dot - 1) as u8 }),
            None => None,
        }
    }

    /// Appends the number as it is written on the wire.
    pub fn write(&self, buffer: &mut String)
        ensures
            final(buffer)@ == old(buffer)@ + self@.text(),
    {
        proof {
            use_type_invariant(self);
        }
        let ghost start = buffer@;
        if self.negative {
            buffer.push('-');
        }
        let ghost signed = buffer@;
        let p = ten_to(self.scale);
        push_decimal(buffer, self.mantissa / p);
        if self.scale > 0 {
            buffer.push('.');
            let ghost base = buffer@;
            let frac = self.mantissa % p;
            let mut div: u64 = p / 10;
            let mut k: u8 = 0;
            assert(
                fixed_digits((frac as nat) / pow10(self.scale as nat), 0) =~= Seq::<char>::empty()
            );
            assert(buffer@ =~= base + fixed_digits((frac as nat) / pow10(self.scale as nat), 0));
            while k < self.scale
                invariant
                    k <= self.scale <= 19,
                    k < self.scale ==> div == pow10((self.scale - k - 1) as nat),
                    buffer@ == base + fixed_digits(
                        (frac as nat) / pow10((self.scale - k) as nat),
                        k as nat,
                    ),
                decreases self.scale - k,
            {
                let ghost e = (self.scale - k) as nat;
                proof {
                    lemma_pow10_positive((e - 1) as nat);
                    lemma_div_denominator(frac as int, pow10((e - 1) as nat) as int, 10);
                    assert(pow10(e) == 10 * pow10((e - 1) as nat));
                    assert(pow10((e - 1) as nat) * 10 == pow10(e));
                }
                let q = frac / div;
                buffer.push(digit_to_char(q % 10));
                proof {
                    assert((q as nat) / 10 == (frac as nat) / pow10(e));
                    assert(fixed_digits(q as nat, (k + 1) as nat) =~= fixed_digits(
                        (q as nat) / 10,
                        k as nat,
                    ).push(digit_char((q as nat) % 10)));
                }
                if k + 1 < self.scale {
                    proof {
                        assert(pow10((e - 1) as nat) == 10 * pow10((e - 2) as nat));
                    }
                    div = div / 10;
                }
                k += 1;
            }
            assert(pow10(0) == 1);
            assert((frac as nat) / 1 == frac as nat);
            assert(buffer@ == base + fixed_digits(frac as nat, self.scale as nat));
            assert(base == signed + decimal_text((self.mantissa / p) as nat).push('.'));
            assert(self@.unsigned_text() == decimal_text((self.mantissa / p) as nat).push('.')
                + fixed_digits(frac as nat, self.scale as nat));
            assert(buffer@ =~= signed + self@.unsigned_text());
            assert(buffer@ =~= start + self@.text());
        } else {
            assert(buffer@ =~= start + self@.text());
        }
    }

    /// The number as it is written on the wire.
    pub fn to_string(&self) -> (s: String)
        ensures
            s@ == self@.text(),
    {
        let mut s = String::new();
        self.write(&mut s);
        assert(s@ =~= self@.text());
        s
    }
}

impl FromStr for Decimal {
    type Err = ();

    fn from_str(s: &str) -> (r: Result<Self, Self::Err>)
        ensures
            match parse_number(s@) {
                Some(d) => r is Ok && r->Ok_0@ == d,
                None => r is Err,
            },
    {
        match Decimal::parse(s) {
            Some(d) => Ok(d),
            None => Err(()),
        }
    }
}

} // verus!

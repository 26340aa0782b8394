//! Reading the wire text back into fields: the text is cut at the field
//! separators, each piece at its first `=`, and each tag is read as a number.

use crate::common::text::{
    chars_of, decimal_text, Field, field_text, fields_text, first_index, is_digit,
    lemma_decimal_text, lemma_first_index_is, lemma_parse_decimal_text, parse_decimal_range,
    parse_unsigned, soh_char, string_of,
};
use vstd::prelude::*;
use vstd::string::*;

verus! {

/// The pieces between the separators of `text`, the empty ones left out,
/// when the piece that is being read began with `current`.
pub open spec fn split_from(text: Seq<char>, current: Seq<char>) -> Seq<Seq<char>>
    decreases text.len(),
{
    let done = if current.len() > 0 {
        seq![current]
    } else {
        Seq::empty()
    };
    if text.len() == 0 {
        done
    } else if text[0] == soh_char() {
        done + split_from(text.skip(1), Seq::empty())
    } else {
        split_from(text.skip(1), current.push(text[0]))
    }
}

/// The pieces between the separators of a wire text, the empty ones left out.
pub open spec fn fragments(text: Seq<char>) -> Seq<Seq<char>> {
    split_from(text, Seq::empty())
}

/// The fields read so far and one more piece: a piece without `=` is passed
/// over, one whose tag is no number that fits in 32 bits is an error, and
/// any other adds a field.
pub open spec fn with_fragment(fields: Seq<Field>, fragment: Seq<char>) -> Result<
    Seq<Field>,
    Seq<char>,
> {
    let eq = first_index(fragment, '=');
    if eq >= fragment.len() {
        Ok(fields)
    } else {
        match parse_unsigned(fragment.take(eq), u32::MAX as nat) {
            Some(tag) => Ok(fields.push(Field { tag, value: fragment.skip(eq + 1) })),
            None => Err("Invalid tag: "@ + fragment.take(eq)),
        }
    }
}

/// The fields of a list of pieces, in order, or the first error.
pub open spec fn fields_of_fragments(pieces: Seq<Seq<char>>) -> Result<Seq<Field>, Seq<char>>
    decreases pieces.len(),
{
    if pieces.len() == 0 {
        Ok(Seq::empty())
    } else {
        match fields_of_fragments(pieces.drop_last()) {
            Ok(fields) => with_fragment(fields, pieces.last()),
            Err(e) => Err(e),
        }
    }
}

/// The fields of a wire text, in order. A text without a piece is an
/// empty message.
pub open spec fn wire_fields(text: Seq<char>) -> Result<Seq<Field>, Seq<char>> {
    if fragments(text).len() == 0 {
        Err("Empty FIX message"@)
    } else {
        fields_of_fragments(fragments(text))
    }
}

/// The value that a list of fields gives a tag: that of its last
/// occurrence.
pub open spec fn last_value(fields: Seq<Field>, tag: nat) -> Option<Seq<char>>
    decreases fields.len(),
{
    if fields.len() == 0 {
        None
    } else if fields.last().tag == tag {
        Some(fields.last().value)
    } else {
        last_value(fields.drop_last(), tag)
    }
}

/// Whether a list of fields holds the tag.
pub open spec fn has_tag(fields: Seq<Field>, tag: nat) -> bool {
    exists|i: int| 0 <= i < fields.len() && (#[trigger] fields[i]).tag == tag
}

/// A field as it was read from the wire.
#[derive(Debug, Clone, PartialEq, Eq)]
pub struct WireField {
    pub tag: u32,
    pub value: String,
}

impl View for WireField {
    type V = Field;

    open spec fn view(&self) -> Field {
        Field { tag: self.tag as nat, value: self.value@ }
    }
}

/// The fields that a vector of fields holds, as mathematical values.
pub open spec fn fields_view(fields: Seq<WireField>) -> Seq<Field> {
    Seq::new(fields.len(), |i: int| fields[i]@)
}

/// Reads one piece of the wire text, `chars[from..to]`, and adds its field
/// to `fields` where it has one.
fn read_fragment(chars: &Vec<char>, from: usize, to: usize, fields: &mut Vec<WireField>) -> (r:
    Result<(), String>)
    requires
        from <= to <= chars.len(),
    ensures
        match with_fragment(fields_view(old(fields)@), chars@.subrange(from as int, to as int)) {
            Ok(fs) => r is Ok && fields_view(final(fields)@) == fs,
            Err(e) => r is Err && r->Err_0@ == e,
        },
{
    let ghost fragment = chars@.subrange(from as int, to as int);
    let mut eq: usize = from;
    while eq < to && chars[eq] != '='
        invariant
            from <= eq <= to <= chars.len(),
            fragment == chars@.subrange(from as int, to as int),
            forall|i: int| 0 <= i < eq - from ==> fragment[i] != '=',
        decreases to - eq,
    {
        eq += 1;
    }
    proof {
        lemma_first_index_is(fragment, '=', eq - from);
    }
    if eq == to {
        return Ok(());
    }
    assert(fragment.take(eq - from) =~= chars@.subrange(from as int, eq as int));
    assert(fragment.skip(eq - from + 1) =~= chars@.subrange(eq + 1, to as int));
    match parse_decimal_range(chars, from, eq, 0xffff_ffff) {
        Some(tag) => {
            let value = string_of(chars, eq + 1, to);
            let ghost before = fields_view(fields@);
            fields.push(WireField { tag: tag as u32, value });
            assert(fields_view(fields@) =~= before.push(
                Field { tag: tag as nat, value: fragment.skip(eq - from + 1) },
            ));
            Ok(())
        },
        None => {
            let tag_text = string_of(chars, from, eq);
            Err(String::from_str("Invalid tag: ").concat(tag_text.as_str()))
        },
    }
}

/// Reads the fields of a wire text, in order.
pub fn read_fields(text: &str) -> (r: Result<Vec<WireField>, String>)
    ensures
        match wire_fields(text@) {
            Ok(fs) => r is Ok && fields_view(r->Ok_0@) == fs,
            Err(e) => r is Err && r->Err_0@ == e,
        },
{
    let chars = chars_of(text);
    let len = chars.len();
    let mut fields: Vec<WireField> = Vec::new();
    let mut start: usize = 0;
    let mut i: usize = 0;
    let mut any = false;
    let ghost mut pieces: Seq<Seq<char>> = Seq::empty();
    assert(fields_view(fields@) =~= Seq::<Field>::empty());
    assert(chars@.skip(0) =~= chars@);
    assert(chars@.subrange(0, 0) =~= Seq::<char>::empty());
    assert(pieces + split_from(chars@, Seq::empty()) =~= fragments(chars@));
    while i < len
        invariant
            start <= i <= len,
            len == chars.len(),
            chars@ == text@,
            fragments(chars@) == pieces + split_from(
                chars@.skip(i as int),
                chars@.subrange(start as int, i as int),
            ),
            fields_of_fragments(pieces) == Ok::<Seq<Field>, Seq<char>>(fields_view(fields@)),
            any == (pieces.len() > 0),
        decreases len - i,
    {
        let ghost rest = chars@.skip(i as int);
        let ghost current = chars@.subrange(start as int, i as int);
        assert(rest[0] == chars@[i as int]);
        assert(rest.skip(1) =~= chars@.skip(i + 1));
        if chars[i] == '\u{1}' {
            if i > start {
                proof {
                    assert(pieces + (seq![current] + split_from(rest.skip(1), Seq::empty()))
                        =~= pieces.push(current) + split_from(rest.skip(1), Seq::empty()));
                    assert(pieces.push(current).drop_last() =~= pieces);
                }
                match read_fragment(&chars, start, i, &mut fields) {
                    Ok(()) => {},
                    Err(e) => {
                        proof {
                            lemma_fragments_error(
                                pieces.push(current),
                                split_from(rest.skip(1), Seq::empty()),
                            );
                        }
                        return Err(e);
                    },
                }
                proof {
                    pieces = pieces.push(current);
                }
                any = true;
            } else {
                assert(current.len() == 0);
                assert(pieces + (Seq::<Seq<char>>::empty() + split_from(rest.skip(1), Seq::empty()))
                    =~= pieces + split_from(rest.skip(1), Seq::empty()));
            }
            start = i + 1;
            assert(chars@.subrange(start as int, start as int) =~= Seq::<char>::empty());
        } else {
            assert(current.push(rest[0]) =~= chars@.subrange(start as int, i + 1));
        }
        i += 1;
    }
    let ghost current = chars@.subrange(start as int, len as int);
    assert(chars@.skip(len as int) =~= Seq::<char>::empty());
    if len > start {
        proof {
            assert(pieces + seq![current] =~= pieces.push(current));
            assert(pieces.push(current).drop_last() =~= pieces);
        }
        match read_fragment(&chars, start, len, &mut fields) {
            Ok(()) => {},
            Err(e) => {
                return Err(e);
            },
        }
        any = true;
    } else {
        assert(pieces + Seq::<Seq<char>>::empty() =~= pieces);
    }
    if !any {
        return Err(String::from_str("Empty FIX message"));
    }
    Ok(fields)
}

/// An error in the first pieces is the error of the whole list.
pub proof fn lemma_fragments_error(first: Seq<Seq<char>>, more: Seq<Seq<char>>)
    requires
        fields_of_fragments(first) is Err,
    ensures
        fields_of_fragments(first + more) == fields_of_fragments(first),
    decreases more.len(),
{
    if more.len() == 0 {
        assert(first + more =~= first);
    } else {
        lemma_fragments_error(first, more.drop_last());
        assert((first + more).drop_last() =~= first + more.drop_last());
    }
}

/// Whether a text holds no field separator.
pub open spec fn plain(text: Seq<char>) -> bool {
    forall|i: int| 0 <= i < text.len() ==> #[trigger] text[i] != soh_char()
}

/// Whether a text that may be absent holds no field separator.
pub open spec fn plain_optional(text: Option<Seq<char>>) -> bool {
    match text {
        Some(t) => plain(t),
        None => true,
    }
}

/// The fields that can be read back from their wire text: the tag fits in
/// 32 bits and the value holds no field separator.
pub open spec fn readable_fields(fields: Seq<Field>) -> bool {
    forall|i: int|
        0 <= i < fields.len() ==> (#[trigger] fields[i]).tag <= u32::MAX && plain(fields[i].value)
}

/// The piece of wire text that a field makes: its text without the separator.
pub open spec fn fragment_text(f: Field) -> Seq<char> {
    decimal_text(f.tag).push('=') + f.value
}

/// A piece without a separator, then a separator, is cut off as one piece.
pub proof fn lemma_split_piece(piece: Seq<char>, tail: Seq<char>, current: Seq<char>)
    requires
        plain(piece),
        (current + piece).len() > 0,
    ensures
        split_from(piece.push(soh_char()) + tail, current) == seq![current + piece] + split_from(
            tail,
            Seq::empty(),
        ),
    decreases piece.len(),
{
    let text = piece.push(soh_char()) + tail;
    if piece.len() == 0 {
        assert(text[0] == soh_char());
        assert(text.skip(1) =~= tail);
        assert(current + piece =~= current);
    } else {
        assert(text[0] == piece[0]);
        assert(text.skip(1) =~= piece.skip(1).push(soh_char()) + tail);
        assert forall|i: int| 0 <= i < piece.skip(1).len() implies #[trigger] piece.skip(1)[i]
            != soh_char() by {
            assert(piece.skip(1)[i] == piece[i + 1]);
        }
        assert(current.push(piece[0]) + piece.skip(1) =~= current + piece);
        lemma_split_piece(piece.skip(1), tail, current.push(piece[0]));
    }
}

/// The wire text of a list of fields is cut into the pieces of its fields.
pub proof fn lemma_fragments_of_fields(fields: Seq<Field>)
    requires
        readable_fields(fields),
    ensures
        fragments(fields_text(fields)) == Seq::new(fields.len(), |i: int| fragment_text(fields[i])),
    decreases fields.len(),
{
    let pieces = Seq::new(fields.len(), |i: int| fragment_text(fields[i]));
    if fields.len() == 0 {
        assert(fragments(fields_text(fields)) =~= pieces);
    } else {
        let f = fields[0];
        let rest = fields.skip(1);
        assert forall|i: int| 0 <= i < rest.len() implies (#[trigger] rest[i]).tag <= u32::MAX
            && plain(rest[i].value) by {
            assert(rest[i] == fields[i + 1]);
        }
        lemma_fragments_of_fields(rest);
        let piece = fragment_text(f);
        lemma_decimal_text(f.tag);
        assert forall|i: int| 0 <= i < piece.len() implies #[trigger] piece[i] != soh_char() by {
            if i < decimal_text(f.tag).len() {
                assert(is_digit(decimal_text(f.tag)[i]));
            } else if i > decimal_text(f.tag).len() {
                assert(piece[i] == f.value[i - decimal_text(f.tag).len() - 1]);
            }
        }
        assert(field_text(f.tag, f.value) =~= piece.push(soh_char()));
        assert(Seq::<char>::empty() + piece =~= piece);
        lemma_split_piece(piece, fields_text(rest), Seq::empty());
        assert(fragments(fields_text(fields)) =~= pieces);
    }
}

/// The pieces of a list of fields read as those fields.
pub proof fn lemma_fields_of_pieces(fields: Seq<Field>)
    requires
        readable_fields(fields),
    ensures
        fields_of_fragments(Seq::new(fields.len(), |i: int| fragment_text(fields[i]))) == Ok::<
            Seq<Field>,
            Seq<char>,
        >(fields),
    decreases fields.len(),
{
    let pieces = Seq::new(fields.len(), |i: int| fragment_text(fields[i]));
    if fields.len() == 0 {
        assert(fields =~= Seq::<Field>::empty());
    } else {
        let before = fields.drop_last();
        let f = fields.last();
        assert forall|i: int| 0 <= i < before.len() implies (#[trigger] before[i]).tag
            <= u32::MAX && plain(before[i].value) by {
            assert(before[i] == fields[i]);
        }
        lemma_fields_of_pieces(before);
        assert(pieces.drop_last() =~= Seq::new(before.len(), |i: int| fragment_text(before[i])));
        let piece = fragment_text(f);
        assert(pieces.last() == piece);
        let digits = decimal_text(f.tag);
        lemma_decimal_text(f.tag);
        assert forall|i: int| 0 <= i < digits.len() implies piece[i] != '=' by {
            assert(is_digit(digits[i]));
        }
        lemma_first_index_is(piece, '=', digits.len() as int);
        assert(piece.take(digits.len() as int) =~= digits);
        assert(piece.skip(digits.len() as int + 1) =~= f.value);
        lemma_parse_decimal_text(f.tag, u32::MAX as nat);
        assert(before.push(f) =~= fields);
    }
}

/// A list of fields reads back from its own wire text.
pub proof fn lemma_fields_round_trip(fields: Seq<Field>)
    requires
        readable_fields(fields),
        fields.len() > 0,
    ensures
        wire_fields(fields_text(fields)) == Ok::<Seq<Field>, Seq<char>>(fields),
{
    lemma_fragments_of_fields(fields);
    lemma_fields_of_pieces(fields);
}

/// Whether no tag stands twice in a list of fields.
pub open spec fn distinct_tags(fields: Seq<Field>) -> bool {
    forall|i: int, j: int|
        0 <= i < j < fields.len() ==> (#[trigger] fields[i]).tag != (#[trigger] fields[j]).tag
}

/// Where no tag stands twice, the value of a tag is that of the field
/// that has it.
pub proof fn lemma_last_value_distinct(fields: Seq<Field>, i: int)
    requires
        distinct_tags(fields),
        0 <= i < fields.len(),
    ensures
        last_value(fields, fields[i].tag) == Some(fields[i].value),
    decreases fields.len(),
{
    if i < fields.len() - 1 {
        let before = fields.drop_last();
        assert(fields.last() == fields[fields.len() - 1]);
        assert(fields[i].tag != fields[fields.len() - 1].tag);
        assert forall|a: int, b: int| 0 <= a < b < before.len() implies (#[trigger] before[a]).tag
            != (#[trigger] before[b]).tag by {
            assert(before[a] == fields[a] && before[b] == fields[b]);
        }
        assert(before[i] == fields[i]);
        lemma_last_value_distinct(before, i);
    }
}

} // verus!

//! Text in payloads: UTF-8 in both directions, and records whose fields are
//! set apart by single spaces.

use vstd::prelude::*;
use vstd::slice::{slice_subrange, slice_to_vec};
use vstd::utf8::{
    char_is_scalar, char_u32_cast, decode_utf8, encode_scalar, encode_utf8, has_width_1_encoding,
    has_width_2_encoding, has_width_3_encoding, is_char_boundary_iff_not_is_continuation_byte,
    last_continuation_byte, leading_byte_width_1, leading_byte_width_2, leading_byte_width_3,
    leading_byte_width_4, pop_first_scalar, second_last_continuation_byte,
    third_last_continuation_byte, valid_first_scalar, valid_utf8, valid_utf8_concat,
    valid_utf8_split,
};

verus! {

/// The byte that sets the fields of a record apart.
pub const SPACE: u8 = 0x20;

/// The error of `core::str::from_utf8`; nothing of it is read.
#[verifier::external_type_specification]
#[verifier::external_body]
pub struct ExUtf8Error(core::str::Utf8Error);

/// `core::str::from_utf8` succeeds exactly on well-formed UTF-8, and the
/// string it then returns holds the characters those bytes encode.
pub assume_specification[ core::str::from_utf8 ](v: &[u8]) -> (r: Result<
    &str,
    core::str::Utf8Error,
>)
    ensures
        r is Ok <==> valid_utf8(v@),
        r matches Ok(s) ==> s@ == decode_utf8(v@),
;

/// The text that `bytes` encode, if they are well-formed UTF-8.
pub fn text_of(bytes: &[u8]) -> (r: Option<String>)
    ensures
        r is Some <==> valid_utf8(bytes@),
        r matches Some(s) ==> s@ == decode_utf8(bytes@),
{
    match core::str::from_utf8(bytes) {
        Ok(s) => Some(s.to_owned()),
        Err(_) => None,
    }
}

/// The UTF-8 bytes of `text`.
pub fn bytes_of(text: &String) -> (out: Vec<u8>)
    ensures
        out@ == encode_utf8(text@),
{
    slice_to_vec(text.as_str().as_bytes())
}

/// The first index at or after `i` that holds a space, or the length of `b`
/// if there is none.
pub open spec fn space_from(b: Seq<u8>, i: int) -> int
    decreases b.len() - i,
{
    if i < 0 || i >= b.len() {
        b.len() as int
    } else if b[i] == SPACE {
        i
    } else {
        space_from(b, i + 1)
    }
}

/// The fields of a record: the stretches of `b` between its spaces. A
/// record without a space is one field; two spaces in a row hold an empty
/// field between them.
pub open spec fn fields_of(b: Seq<u8>) -> Seq<Seq<u8>>
    decreases b.len(),
{
    let i = space_from(b, 0);
    if 0 <= i < b.len() {
        seq![b.take(i)] + fields_of(b.skip(i + 1))
    } else {
        seq![b]
    }
}

/// `space_from` finds an index in range, which holds a space unless it is
/// the end, and before which (from `i` on) there is none.
pub proof fn lemma_space_from_bounds(b: Seq<u8>, i: int)
    requires
        0 <= i <= b.len(),
    ensures
        i <= space_from(b, i) <= b.len(),
        space_from(b, i) < b.len() ==> b[space_from(b, i)] == SPACE,
        forall|j: int| i <= j < space_from(b, i) ==> b[j] != SPACE,
    decreases b.len() - i,
{
    if i < b.len() && b[i] != SPACE {
        lemma_space_from_bounds(b, i + 1);
    }
}

/// An index with the properties of the first space is the first space.
pub proof fn lemma_space_from_unique(b: Seq<u8>, n: int)
    requires
        0 <= n <= b.len(),
        n < b.len() ==> b[n] == SPACE,
        forall|j: int| 0 <= j < n ==> b[j] != SPACE,
    ensures
        space_from(b, 0) == n,
{
    lemma_space_from_bounds(b, 0);
}

/// A record that begins with a field free of spaces, then a space, splits
/// into that field and the fields of what follows the space.
pub proof fn lemma_fields_of_joined(head: Seq<u8>, rest: Seq<u8>)
    requires
        !head.contains(SPACE),
    ensures
        fields_of(head + seq![SPACE] + rest) == seq![head] + fields_of(rest),
{
    let b = head + seq![SPACE] + rest;
    let n = head.len() as int;
    assert forall|j: int| 0 <= j < n implies b[j] != SPACE by {
        assert(head.contains(head[j]));
    }
    lemma_space_from_unique(b, n);
    assert(b.take(n) =~= head);
    assert(b.skip(n + 1) =~= rest);
}

/// A record free of spaces is a single field.
pub proof fn lemma_fields_of_single(field: Seq<u8>)
    requires
        !field.contains(SPACE),
    ensures
        fields_of(field) == seq![field],
{
    assert forall|j: int| 0 <= j < field.len() implies field[j] != SPACE by {
        assert(field.contains(field[j]));
    }
    lemma_space_from_unique(field, field.len() as int);
}

/// A record with a space is its first field, the space, and the record that
/// follows the space.
pub proof fn lemma_fields_of_split(b: Seq<u8>)
    requires
        b.contains(SPACE),
    ensures
        ({
            let i = space_from(b, 0);
            &&& 0 <= i < b.len()
            &&& b[i] == SPACE
            &&& !b.take(i).contains(SPACE)
            &&& b == b.take(i) + seq![SPACE] + b.skip(i + 1)
            &&& fields_of(b) == seq![b.take(i)] + fields_of(b.skip(i + 1))
        }),
{
    lemma_space_from_bounds(b, 0);
    let i = space_from(b, 0);
    let k = choose|k: int| 0 <= k < b.len() && b[k] == SPACE;
    assert(i <= k);
    assert(b =~= b.take(i) + seq![SPACE] + b.skip(i + 1));
}

/// The number of fields is one more than the number of spaces, so a record
/// without a space is the only one with a single field.
pub proof fn lemma_fields_of_len(b: Seq<u8>)
    ensures
        fields_of(b).len() >= 1,
        fields_of(b).len() == 1 <==> !b.contains(SPACE),
        fields_of(b).len() == 1 ==> fields_of(b)[0] == b,
    decreases b.len(),
{
    lemma_space_from_bounds(b, 0);
    let i = space_from(b, 0);
    if 0 <= i < b.len() {
        lemma_fields_of_len(b.skip(i + 1));
        assert(b.contains(b[i]));
    } else {
        assert forall|j: int| 0 <= j < b.len() implies b[j] != SPACE by {}
    }
}

/// A record is well-formed UTF-8 exactly when each of its fields is: a space
/// is a character of its own and never part of another one's encoding.
pub proof fn lemma_record_valid_iff_fields_valid(b: Seq<u8>)
    ensures
        valid_utf8(b) <==> forall|k: int|
            0 <= k < fields_of(b).len() ==> valid_utf8(#[trigger] fields_of(b)[k]),
    decreases b.len(),
{
    lemma_space_from_bounds(b, 0);
    let i = space_from(b, 0);
    let fields = fields_of(b);
    if 0 <= i < b.len() {
        let head = b.take(i);
        let from_space = b.skip(i);
        let rest = b.skip(i + 1);
        let space = seq![SPACE];
        lemma_record_valid_iff_fields_valid(rest);
        assert(fields[0] == head);
        assert forall|k: int| 0 <= k < fields_of(rest).len() implies fields[k + 1] == fields_of(
            rest,
        )[k] by {}
        assert(from_space =~= space + rest);
        assert(b =~= head + from_space);
        assert(valid_first_scalar(from_space) && pop_first_scalar(from_space) =~= rest);
        assert(valid_utf8(from_space) <==> valid_utf8(rest)) by {
            reveal_with_fuel(valid_utf8, 2);
        }
        if valid_utf8(b) {
            is_char_boundary_iff_not_is_continuation_byte(b, i);
            valid_utf8_split(b, i);
            assert(b.subrange(0, i) =~= head);
            assert(b.subrange(i, b.len() as int) =~= from_space);
            assert forall|k: int| 0 <= k < fields.len() implies valid_utf8(
                #[trigger] fields[k],
            ) by {
                if k > 0 {
                    assert(fields[k] == fields_of(rest)[k - 1]);
                }
            }
        }
        if forall|k: int| 0 <= k < fields.len() ==> valid_utf8(#[trigger] fields[k]) {
            assert(valid_utf8(fields[0]));
            assert forall|k: int| 0 <= k < fields_of(rest).len() implies valid_utf8(
                #[trigger] fields_of(rest)[k],
            ) by {
                assert(valid_utf8(fields[k + 1]));
            }
            valid_utf8_concat(head, from_space);
        }
    } else {
        assert(fields[0] == b);
    }
}

/// The views of a list of byte vectors.
pub open spec fn field_views(fields: Seq<Vec<u8>>) -> Seq<Seq<u8>> {
    Seq::new(fields.len(), |i: int| fields[i]@)
}

/// Splits a record into its fields.
pub fn split_spaces(record: &[u8]) -> (fields: Vec<Vec<u8>>)
    ensures
        field_views(fields@) == fields_of(record@),
{
    let len: usize = record.len();
    let mut fields: Vec<Vec<u8>> = Vec::new();
    let mut start: usize = 0;
    let mut i: usize = 0;
    assert(record@.skip(0) =~= record@);
    assert(field_views(fields@) =~= Seq::<Seq<u8>>::empty());
    while i < len
        invariant
            start <= i <= len,
            len == record.len(),
            forall|j: int| start <= j < i ==> record@[j] != SPACE,
            fields_of(record@) == field_views(fields@) + fields_of(record@.skip(start as int)),
        decreases len - i,
    {
        if record[i] == SPACE {
            let ghost before = fields@;
            let ghost rest = record@.skip(start as int);
            fields.push(slice_to_vec(slice_subrange(record, start, i)));
            proof {
                lemma_space_from_unique(rest, i - start);
                assert(rest.take(i - start) =~= record@.subrange(start as int, i as int));
                assert(rest.skip(i - start + 1) =~= record@.skip(i + 1));
                assert(field_views(fields@) =~= field_views(before) + seq![
                    record@.subrange(start as int, i as int),
                ]);
                assert(field_views(before) + (seq![record@.subrange(start as int, i as int)]
                    + fields_of(record@.skip(i + 1))) =~= field_views(fields@) + fields_of(
                    record@.skip(i + 1),
                ));
            }
            start = i + 1;
        }
        i += 1;
    }
    let ghost before = fields@;
    let ghost rest = record@.skip(start as int);
    fields.push(slice_to_vec(slice_subrange(record, start, len)));
    proof {
        lemma_space_from_unique(rest, rest.len() as int);
        assert(record@.subrange(start as int, len as int) =~= rest);
        assert(field_views(fields@) =~= field_views(before) + seq![rest]);
    }
    fields
}

/// No byte of a character's encoding is a space, unless the character is one.
proof fn lemma_encode_scalar_no_space(c: u32)
    requires
        vstd::utf8::is_scalar(c),
        c != 0x20,
    ensures
        !encode_scalar(c).contains(SPACE),
{
    let e = encode_scalar(c);
    if has_width_1_encoding(c) {
        assert(leading_byte_width_1(c) != 0x20u8) by (bit_vector)
            requires
                c <= 0x7F && c != 0x20,
        ;
    } else if has_width_2_encoding(c) {
        assert(leading_byte_width_2(c) != 0x20u8 && last_continuation_byte(c) != 0x20u8)
            by (bit_vector);
    } else if has_width_3_encoding(c) {
        assert(leading_byte_width_3(c) != 0x20u8 && second_last_continuation_byte(c) != 0x20u8
            && last_continuation_byte(c) != 0x20u8) by (bit_vector);
    } else {
        assert(leading_byte_width_4(c) != 0x20u8 && third_last_continuation_byte(c) != 0x20u8
            && second_last_continuation_byte(c) != 0x20u8 && last_continuation_byte(c)
            != 0x20u8) by (bit_vector);
    }
    assert forall|j: int| 0 <= j < e.len() implies e[j] != SPACE by {}
}

/// Text without a space character encodes to bytes without a space.
pub proof fn lemma_encode_utf8_no_space(chars: Seq<char>)
    requires
        !chars.contains(' '),
    ensures
        !encode_utf8(chars).contains(SPACE),
    decreases chars.len(),
{
    if chars.len() > 0 {
        let head = encode_scalar(chars[0] as u32);
        let tail = encode_utf8(chars.drop_first());
        assert(chars.contains(chars[0]));
        char_is_scalar(chars[0]);
        assert(chars[0] as u32 != 0x20) by {
            if chars[0] as u32 == 0x20 {
                char_u32_cast(chars[0], 0x20u32);
                char_u32_cast(' ', 0x20u32);
            }
        }
        lemma_encode_scalar_no_space(chars[0] as u32);
        assert forall|c: char| chars.drop_first().contains(c) implies chars.contains(c) by {
            let j = choose|j: int| 0 <= j < chars.drop_first().len() && chars.drop_first()[j] == c;
            assert(chars[j + 1] == c);
        }
        lemma_encode_utf8_no_space(chars.drop_first());
        assert forall|j: int| 0 <= j < (head + tail).len() implies (head + tail)[j] != SPACE by {
            if j < head.len() {
                assert(head.contains(head[j]));
            } else {
                assert(tail.contains(tail[j - head.len()]));
            }
        }
    }
}

} // verus!

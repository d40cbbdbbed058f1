//! What holds of the wire decoder on every buffer: the laws that its
//! callers may rely on.

use crate::encoding::base64_encodable;
use crate::encoding::base64_encoding;
use crate::protobuf::DecodeError;
use crate::protobuf::MAX_NESTING_DEPTH;
use crate::protobuf::WireType;
use crate::protobuf::lemma_tag_bounds;
use crate::protobuf::lemma_value_span_bounds;
use crate::protobuf::lemma_varint_end_bounds;
use crate::protobuf::lemma_varint_in_span;
use crate::protobuf::spec_content_value;
use crate::protobuf::spec_decode_tag;
use crate::protobuf::spec_decode_value;
use crate::protobuf::spec_decode_varint;
use crate::protobuf::spec_deserialize;
use crate::protobuf::spec_deserialize_within;
use crate::protobuf::spec_fields;
use crate::protobuf::spec_nested_message;
use crate::protobuf::spec_payload_value;
use crate::protobuf::spec_value_span;
use crate::protobuf::spec_varint_end;
use crate::protobuf::spec_varint_value;
use crate::protobuf::two_to_64;
use crate::value::SpecValue;
use crate::value::Tree;
use crate::value::spec_insert;
use vstd::prelude::*;
use vstd::utf8::decode_utf8;
use vstd::utf8::valid_utf8;

verus! {

/// The varint that spells `v`: seven bits a byte, least significant group
/// first, the top bit set on every byte but the last.
pub open spec fn spec_encode_varint(v: nat) -> Seq<u8>
    decreases v,
{
    if v < 128 {
        seq![v as u8]
    } else {
        seq![(v % 128 + 128) as u8] + spec_encode_varint(v / 128)
    }
}

/// Whether `id` can stand in a tag: the tag holds three more bits, and is
/// a 64-bit number.
pub open spec fn spec_fits_tag(id: u64) -> bool {
    id < 0x2000_0000_0000_0000
}

/// Whether every identifier among `pairs` can stand in a tag.
pub open spec fn spec_fit_tags(pairs: Seq<(u64, u64)>) -> bool {
    forall|i: int| 0 <= i < pairs.len() ==> spec_fits_tag((#[trigger] pairs[i]).0)
}

/// The bytes of one varint field: the tag of `id` for a varint, then
/// `value`.
pub open spec fn spec_encode_integer_field(id: u64, value: u64) -> Seq<u8> {
    spec_encode_varint(id as nat * 8) + spec_encode_varint(value as nat)
}

/// The bytes of a message of varint fields, in the order given.
pub open spec fn spec_encode_integer_fields(pairs: Seq<(u64, u64)>) -> Seq<u8>
    decreases pairs.len(),
{
    if pairs.len() == 0 {
        Seq::empty()
    } else {
        spec_encode_integer_field(pairs[0].0, pairs[0].1) + spec_encode_integer_fields(
            pairs.drop_first(),
        )
    }
}

/// The mapping `acc` after the integer fields `pairs`, entered in order.
pub open spec fn spec_collect_integers(acc: Map<u64, SpecValue>, pairs: Seq<(u64, u64)>) -> Map<
    u64,
    SpecValue,
>
    decreases pairs.len(),
{
    if pairs.len() == 0 {
        acc
    } else {
        spec_collect_integers(
            spec_insert(acc, pairs[0].0, SpecValue::Integer(pairs[0].1)),
            pairs.drop_first(),
        )
    }
}

/// The mapping `acc` after the occurrences `values` of field `id`, entered
/// in order.
pub open spec fn spec_insert_all(acc: Map<u64, SpecValue>, id: u64, values: Seq<SpecValue>) -> Map<
    u64,
    SpecValue,
>
    decreases values.len(),
{
    if values.len() == 0 {
        acc
    } else {
        spec_insert(spec_insert_all(acc, id, values.drop_last()), id, values.last())
    }
}

/// Decoding is a function of the bytes: two decodings of the same buffer
/// give the same tree.
pub proof fn lemma_deserialize_deterministic(first: Seq<u8>, second: Seq<u8>, a: Tree, b: Tree)
    requires
        first == second,
        spec_deserialize(first) == Ok::<Map<u64, SpecValue>, DecodeError>(a@),
        spec_deserialize(second) == Ok::<Map<u64, SpecValue>, DecodeError>(b@),
    ensures
        a@ == b@,
{
}

/// Whether the bytes `part` stand in `data` from `pos` on.
pub open spec fn spec_holds_at(data: Seq<u8>, pos: int, part: Seq<u8>) -> bool {
    &&& 0 <= pos
    &&& pos + part.len() <= data.len()
    &&& forall|i: int| 0 <= i < part.len() ==> data[pos + i] == #[trigger] part[i]
}

/// An encoded varint, wherever it stands in a buffer, is read back as the
/// number it spells and ends where its bytes end.
pub proof fn lemma_varint_round_trip(data: Seq<u8>, pos: int, v: nat)
    requires
        spec_holds_at(data, pos, spec_encode_varint(v)),
    ensures
        spec_varint_end(data, pos) == Some(pos + spec_encode_varint(v).len()),
        spec_varint_value(data, pos) == v,
    decreases v,
{
    let bytes = spec_encode_varint(v);
    assert(data[pos] == bytes[0]);
    if v >= 128 {
        let rest = spec_encode_varint(v / 128);
        assert forall|i: int| 0 <= i < rest.len() implies data[pos + 1 + i] == #[trigger] rest[i] by {
            assert(data[pos + (i + 1)] == bytes[i + 1]);
        }
        lemma_varint_round_trip(data, pos + 1, v / 128);
    }
}

/// Two parts, one behind the other, stand where their concatenation stands.
proof fn lemma_holds_at_parts(data: Seq<u8>, pos: int, first: Seq<u8>, second: Seq<u8>)
    requires
        spec_holds_at(data, pos, first + second),
    ensures
        spec_holds_at(data, pos, first),
        spec_holds_at(data, pos + first.len(), second),
{
    let whole = first + second;
    assert forall|i: int| 0 <= i < first.len() implies data[pos + i] == #[trigger] first[i] by {
        assert(data[pos + i] == whole[i]);
    }
    assert forall|i: int| 0 <= i < second.len() implies data[pos + first.len() + i]
        == #[trigger] second[i] by {
        assert(data[pos + (first.len() + i)] == whole[first.len() + i]);
    }
}

/// What the tag of a varint field `id` is read back as.
proof fn lemma_integer_tag_round_trip(data: Seq<u8>, pos: int, id: u64)
    requires
        spec_fits_tag(id),
        spec_holds_at(data, pos, spec_encode_varint(id as nat * 8)),
    ensures
        spec_decode_tag(data, pos) == Ok::<(u64, WireType, int), DecodeError>(
            (id, WireType::Varint, pos + spec_encode_varint(id as nat * 8).len()),
        ),
{
    lemma_varint_round_trip(data, pos, id as nat * 8);
    let tag = ((id as nat * 8) % two_to_64()) as u64;
    assert(tag == id as nat * 8);
    assert(tag % 8 == 0);
    assert(tag / 8 == id);
}

/// One encoded integer field, wherever it stands in a buffer, is read back
/// as its identifier and its value.
proof fn lemma_integer_field_round_trip(data: Seq<u8>, pos: int, id: u64, value: u64, depth: nat)
    requires
        spec_fits_tag(id),
        spec_holds_at(data, pos, spec_encode_integer_field(id, value)),
    ensures
        ({
            let at = pos + spec_encode_varint(id as nat * 8).len();
            let end = pos + spec_encode_integer_field(id, value).len();
            &&& pos < end
            &&& spec_decode_tag(data, pos) == Ok::<(u64, WireType, int), DecodeError>(
                (id, WireType::Varint, at),
            )
            &&& spec_value_span(data, at, WireType::Varint) == Ok::<(int, int), DecodeError>(
                (at, end),
            )
            &&& spec_content_value(WireType::Varint, data.subrange(at, end), depth) == Ok::<
                SpecValue,
                DecodeError,
            >(SpecValue::Integer(value))
        }),
{
    let tag = spec_encode_varint(id as nat * 8);
    let body = spec_encode_varint(value as nat);
    let at = pos + tag.len();
    let end = at + body.len();
    lemma_holds_at_parts(data, pos, tag, body);
    lemma_integer_tag_round_trip(data, pos, id);
    lemma_varint_round_trip(data, at, value as nat);
    lemma_varint_in_span(data, at, at, end);
    assert(spec_varint_value(data.subrange(at, end), 0) == value as nat);
    assert((value as nat % two_to_64()) as u64 == value);
}

/// Encoded integer fields at the end of a buffer are read back one by one,
/// each entered under its identifier.
proof fn lemma_integer_fields_round_trip(
    data: Seq<u8>,
    pos: int,
    pairs: Seq<(u64, u64)>,
    acc: Map<u64, SpecValue>,
    depth: nat,
)
    requires
        spec_fit_tags(pairs),
        spec_holds_at(data, pos, spec_encode_integer_fields(pairs)),
        pos + spec_encode_integer_fields(pairs).len() == data.len(),
    ensures
        spec_fields(data, pos, acc, depth) == Ok::<Map<u64, SpecValue>, DecodeError>(
            spec_collect_integers(acc, pairs),
        ),
    decreases pairs.len(),
{
    if pairs.len() > 0 {
        let field = spec_encode_integer_field(pairs[0].0, pairs[0].1);
        let rest = spec_encode_integer_fields(pairs.drop_first());
        lemma_holds_at_parts(data, pos, field, rest);
        lemma_integer_field_round_trip(data, pos, pairs[0].0, pairs[0].1, depth);
        assert(spec_fit_tags(pairs.drop_first())) by {
            assert forall|i: int| 0 <= i < pairs.drop_first().len() implies spec_fits_tag(
                (#[trigger] pairs.drop_first()[i]).0,
            ) by {
                assert(pairs.drop_first()[i] == pairs[i + 1]);
            }
        }
        lemma_integer_fields_round_trip(
            data,
            pos + field.len(),
            pairs.drop_first(),
            spec_insert(acc, pairs[0].0, SpecValue::Integer(pairs[0].1)),
            depth,
        );
    }
}

/// Round trip: a message of integer fields, encoded and decoded again, is
/// the mapping that holds those integers under their identifiers.
pub proof fn lemma_integer_round_trip(pairs: Seq<(u64, u64)>)
    requires
        spec_fit_tags(pairs),
    ensures
        spec_deserialize(spec_encode_integer_fields(pairs)) == Ok::<
            Map<u64, SpecValue>,
            DecodeError,
        >(spec_collect_integers(Map::empty(), pairs)),
{
    lemma_integer_fields_round_trip(
        spec_encode_integer_fields(pairs),
        0,
        pairs,
        Map::empty(),
        MAX_NESTING_DEPTH as nat,
    );
}

/// Whether one of `pairs` carries the identifier `id`.
pub open spec fn spec_names(pairs: Seq<(u64, u64)>, id: u64) -> bool {
    exists|j: int| 0 <= j < pairs.len() && (#[trigger] pairs[j]).0 == id
}

/// Whether the identifiers of `pairs` differ from one another.
pub open spec fn spec_distinct(pairs: Seq<(u64, u64)>) -> bool {
    forall|j: int, k: int|
        0 <= j < k < pairs.len() ==> (#[trigger] pairs[j]).0 != (#[trigger] pairs[k]).0
}

/// Where the identifiers differ from one another, each integer is found
/// again under its own identifier, and nothing else is in the mapping.
pub proof fn lemma_collect_distinct_integers(pairs: Seq<(u64, u64)>)
    requires
        spec_distinct(pairs),
    ensures
        forall|j: int|
            0 <= j < pairs.len() ==> {
                &&& spec_collect_integers(Map::empty(), pairs).contains_key((#[trigger] pairs[j]).0)
                &&& spec_collect_integers(Map::empty(), pairs)[pairs[j].0] == SpecValue::Integer(
                    pairs[j].1,
                )
            },
        forall|id: u64| #[trigger]
            spec_collect_integers(Map::empty(), pairs).contains_key(id) ==> spec_names(pairs, id),
{
    lemma_collect_distinct_from(Map::empty(), pairs);
}

/// What [`spec_collect_integers`] yields from a mapping that holds none of
/// the identifiers, where the identifiers differ from one another.
proof fn lemma_collect_distinct_from(acc: Map<u64, SpecValue>, pairs: Seq<(u64, u64)>)
    requires
        spec_distinct(pairs),
        forall|j: int| 0 <= j < pairs.len() ==> !acc.contains_key((#[trigger] pairs[j]).0),
    ensures
        forall|j: int|
            0 <= j < pairs.len() ==> {
                &&& spec_collect_integers(acc, pairs).contains_key((#[trigger] pairs[j]).0)
                &&& spec_collect_integers(acc, pairs)[pairs[j].0] == SpecValue::Integer(pairs[j].1)
            },
        forall|id: u64| #[trigger]
            spec_collect_integers(acc, pairs).contains_key(id) ==> acc.contains_key(id)
                || spec_names(pairs, id),
        forall|id: u64| #[trigger]
            acc.contains_key(id) ==> spec_collect_integers(acc, pairs).contains_key(id)
                && spec_collect_integers(acc, pairs)[id] == acc[id],
    decreases pairs.len(),
{
    if pairs.len() > 0 {
        let rest = pairs.drop_first();
        let first = pairs[0];
        let next = spec_insert(acc, first.0, SpecValue::Integer(first.1));
        let all = spec_collect_integers(acc, pairs);
        assert(all == spec_collect_integers(next, rest));
        assert(next == acc.insert(first.0, SpecValue::Integer(first.1)));
        assert forall|j: int| 0 <= j < rest.len() implies !next.contains_key(
            (#[trigger] rest[j]).0,
        ) by {
            assert(rest[j] == pairs[j + 1]);
        }
        assert(spec_distinct(rest)) by {
            assert forall|j: int, k: int| 0 <= j < k < rest.len() implies (#[trigger] rest[j]).0 != (
            #[trigger] rest[k]).0 by {
                assert(rest[j] == pairs[j + 1]);
                assert(rest[k] == pairs[k + 1]);
            }
        }
        lemma_collect_distinct_from(next, rest);
        assert forall|j: int| 0 <= j < pairs.len() implies {
            &&& all.contains_key((#[trigger] pairs[j]).0)
            &&& all[pairs[j].0] == SpecValue::Integer(pairs[j].1)
        } by {
            if j > 0 {
                assert(rest[j - 1] == pairs[j]);
            } else {
                assert(next.contains_key(first.0));
            }
        }
        assert forall|id: u64| #[trigger] all.contains_key(id) implies acc.contains_key(id)
            || spec_names(pairs, id) by {
            if next.contains_key(id) {
                if id == first.0 {
                    assert(pairs[0].0 == id);
                }
            } else {
                assert(spec_names(rest, id));
                let j = choose|j: int| 0 <= j < rest.len() && (#[trigger] rest[j]).0 == id;
                assert(pairs[j + 1].0 == id);
            }
        }
        assert forall|id: u64| #[trigger] acc.contains_key(id) implies all.contains_key(id)
            && all[id] == acc[id] by {
            assert(next.contains_key(id));
        }
    }
}

/// The value that the decoder enters for a field is never an array: arrays
/// come from repetition alone.
pub proof fn lemma_content_value_not_array(kind: WireType, content: Seq<u8>, depth: nat)
    ensures
        spec_content_value(kind, content, depth) matches Ok(v) ==> !(v is Array),
{
}

/// Repetition: from the second occurrence on, a field holds the array of
/// all its occurrences, in the order in which they were entered.
pub proof fn lemma_repeated_field(acc: Map<u64, SpecValue>, id: u64, values: Seq<SpecValue>)
    requires
        !acc.contains_key(id),
        values.len() >= 2,
        !(values[0] is Array),
    ensures
        spec_insert_all(acc, id, values).contains_key(id),
        spec_insert_all(acc, id, values)[id] == SpecValue::Array(values),
    decreases values.len(),
{
    let earlier = values.drop_last();
    if values.len() == 2 {
        reveal_with_fuel(spec_insert_all, 3);
        assert(earlier.drop_last() =~= Seq::<SpecValue>::empty());
        assert(seq![values[0], values[1]] =~= values);
    } else {
        lemma_repeated_field(acc, id, earlier);
        assert(earlier.push(values.last()) =~= values);
    }
}

/// A field that occurs three times holds an array of length three, in the
/// order of the occurrences.
pub proof fn lemma_field_seen_three_times(
    acc: Map<u64, SpecValue>,
    id: u64,
    first: SpecValue,
    second: SpecValue,
    third: SpecValue,
)
    requires
        !acc.contains_key(id),
        !(first is Array),
    ensures
        spec_insert(spec_insert(spec_insert(acc, id, first), id, second), id, third)[id]
            == SpecValue::Array(seq![first, second, third]),
{
    assert(seq![first, second].push(third) =~= seq![first, second, third]);
}

/// A buffer in which one integer field occurs three times decodes to an
/// array of the three integers, in the order of the occurrences: no
/// occurrence overwrites another.
pub proof fn lemma_decode_field_three_times(id: u64, first: u64, second: u64, third: u64)
    requires
        spec_fits_tag(id),
    ensures
        spec_deserialize(
            spec_encode_integer_fields(seq![(id, first), (id, second), (id, third)]),
        ) == Ok::<Map<u64, SpecValue>, DecodeError>(
            Map::<u64, SpecValue>::empty().insert(
                id,
                SpecValue::Array(
                    seq![
                        SpecValue::Integer(first),
                        SpecValue::Integer(second),
                        SpecValue::Integer(third),
                    ],
                ),
            ),
        ),
{
    let pairs = seq![(id, first), (id, second), (id, third)];
    lemma_integer_round_trip(pairs);
    let one = pairs.drop_first();
    let two = one.drop_first();
    assert(two.drop_first() =~= Seq::<(u64, u64)>::empty());
    reveal_with_fuel(spec_collect_integers, 4);
    let empty = Map::<u64, SpecValue>::empty();
    lemma_field_seen_three_times(
        empty,
        id,
        SpecValue::Integer(first),
        SpecValue::Integer(second),
        SpecValue::Integer(third),
    );
    let all = spec_insert(
        spec_insert(spec_insert(empty, id, SpecValue::Integer(first)), id, SpecValue::Integer(second)),
        id,
        SpecValue::Integer(third),
    );
    assert(spec_collect_integers(empty, pairs) == all);
    assert(all =~= empty.insert(
        id,
        SpecValue::Array(
            seq![SpecValue::Integer(first), SpecValue::Integer(second), SpecValue::Integer(third)],
        ),
    ));
}

/// The bytes of one length-delimited field: its tag, the length of the
/// payload, the payload.
pub open spec fn spec_encode_payload_field(id: u64, payload: Seq<u8>) -> Seq<u8> {
    spec_encode_varint(id as nat * 8 + 2) + spec_encode_varint(payload.len()) + payload
}

/// A buffer that holds one length-delimited field decodes to the mapping
/// that holds, under the field's identifier, what the payload is taken
/// for.
pub proof fn lemma_payload_field_round_trip(id: u64, payload: Seq<u8>, depth: nat)
    requires
        spec_fits_tag(id),
        payload.len() <= u64::MAX,
    ensures
        spec_deserialize_within(spec_encode_payload_field(id, payload), depth)
            == match spec_payload_value(payload, depth) {
            Ok(v) => Ok::<Map<u64, SpecValue>, DecodeError>(
                Map::<u64, SpecValue>::empty().insert(id, v),
            ),
            Err(e) => Err::<Map<u64, SpecValue>, DecodeError>(e),
        },
{
    let tag = spec_encode_varint(id as nat * 8 + 2);
    let length = spec_encode_varint(payload.len());
    let data = spec_encode_payload_field(id, payload);
    let at = tag.len() as int;
    let start = at + length.len();
    let end = start + payload.len();
    lemma_holds_at_parts(data, 0, tag + length, payload);
    lemma_holds_at_parts(data, 0, tag, length);
    lemma_varint_round_trip(data, 0, id as nat * 8 + 2);
    lemma_varint_round_trip(data, at, payload.len());
    let tag_value = ((id as nat * 8 + 2) % two_to_64()) as u64;
    assert(tag_value == id as nat * 8 + 2);
    assert(tag_value % 8 == 2);
    assert(tag_value / 8 == id);
    assert(spec_decode_tag(data, 0) == Ok::<(u64, WireType, int), DecodeError>(
        (id, WireType::LengthDelimited, at),
    ));
    assert((payload.len() % two_to_64()) as u64 == payload.len());
    assert(spec_value_span(data, at, WireType::LengthDelimited) == Ok::<(int, int), DecodeError>(
        (start, end),
    ));
    assert(data.subrange(start, end) =~= payload);
    assert(end == data.len());
    assert(spec_content_value(WireType::LengthDelimited, payload, depth) == spec_payload_value(
        payload,
        depth,
    ));
    match spec_payload_value(payload, depth) {
        Ok(v) => {
            let filled = spec_insert(Map::<u64, SpecValue>::empty(), id, v);
            assert(spec_fields(data, end, filled, depth) == Ok::<Map<u64, SpecValue>, DecodeError>(
                filled,
            ));
            assert(spec_fields(data, 0, Map::empty(), depth) == spec_fields(
                data,
                end,
                filled,
                depth,
            ));
        },
        Err(_) => {},
    }
}

/// Whether the bytes are laid out as a message: a run of fields, each a
/// tag and a whole value, to the end of the buffer.
pub open spec fn spec_is_message(data: Seq<u8>) -> bool {
    spec_deserialize_within(data, 0) is Ok
}

/// Whether a buffer decodes, and why it does not, is a matter of its
/// layout alone: it does not depend on how deep nested messages are
/// followed, nor on what was decoded before.
pub proof fn lemma_failure_ignores_depth(
    data: Seq<u8>,
    pos: int,
    first: Map<u64, SpecValue>,
    second: Map<u64, SpecValue>,
    shallow: nat,
    deep: nat,
)
    requires
        base64_encodable(data.len()),
    ensures
        spec_fields(data, pos, first, shallow) is Ok <==> spec_fields(data, pos, second, deep) is Ok,
        spec_fields(data, pos, first, shallow) matches Err(e) ==> spec_fields(
            data,
            pos,
            second,
            deep,
        ) == Err::<Map<u64, SpecValue>, DecodeError>(e),
    decreases data.len() - pos,
{
    if 0 <= pos < data.len() {
        match spec_decode_tag(data, pos) {
            Err(_) => {},
            Ok((id, kind, at)) => match spec_value_span(data, at, kind) {
                Err(_) => {},
                Ok((start, end)) => {
                    lemma_tag_bounds(data, pos);
                    lemma_value_span_bounds(data, at, kind);
                    let content = data.subrange(start, end);
                    assert(base64_encodable(content.len()));
                    let one = spec_content_value(kind, content, shallow);
                    let other = spec_content_value(kind, content, deep);
                    assert(one is Ok && other is Ok);
                    lemma_failure_ignores_depth(
                        data,
                        end,
                        spec_insert(first, id, one->Ok_0),
                        spec_insert(second, id, other->Ok_0),
                        shallow,
                        deep,
                    );
                },
            },
        }
    }
}

/// Ambiguity resolution, for a buffer that holds one length-delimited
/// field: a payload that is laid out as a message decodes to a tree; one
/// that is not, but is valid UTF-8, to a string; one that is neither to a
/// blob.
pub proof fn lemma_payload_field_resolution(id: u64, payload: Seq<u8>)
    requires
        spec_fits_tag(id),
        payload.len() <= u64::MAX,
        base64_encodable(payload.len()),
    ensures
        spec_is_message(payload) ==> spec_deserialize(spec_encode_payload_field(id, payload))
            == Ok::<Map<u64, SpecValue>, DecodeError>(
            Map::<u64, SpecValue>::empty().insert(
                id,
                SpecValue::Tree(
                    spec_deserialize_within(payload, (MAX_NESTING_DEPTH - 1) as nat)->Ok_0,
                ),
            ),
        ),
        !spec_is_message(payload) && valid_utf8(payload) ==> spec_deserialize(
            spec_encode_payload_field(id, payload),
        ) == Ok::<Map<u64, SpecValue>, DecodeError>(
            Map::<u64, SpecValue>::empty().insert(id, SpecValue::String(decode_utf8(payload))),
        ),
        !spec_is_message(payload) && !valid_utf8(payload) ==> spec_deserialize(
            spec_encode_payload_field(id, payload),
        ) == Ok::<Map<u64, SpecValue>, DecodeError>(
            Map::<u64, SpecValue>::empty().insert(id, SpecValue::Bytes(base64_encoding(payload))),
        ),
{
    lemma_payload_field_round_trip(id, payload, MAX_NESTING_DEPTH as nat);
    lemma_failure_ignores_depth(
        payload,
        0,
        Map::empty(),
        Map::empty(),
        0,
        (MAX_NESTING_DEPTH - 1) as nat,
    );
}

/// How a length-delimited payload is resolved where `depth` more levels of
/// nesting are allowed: a payload that holds a message is a tree; any
/// other payload is a string if it is valid UTF-8, and a blob if it is
/// not.
pub proof fn lemma_payload_resolution(payload: Seq<u8>, depth: nat)
    ensures
        spec_content_value(WireType::LengthDelimited, payload, depth) == spec_payload_value(
            payload,
            depth,
        ),
        spec_nested_message(payload, depth) matches Some(fields) ==> spec_payload_value(
            payload,
            depth,
        ) == Ok::<SpecValue, DecodeError>(SpecValue::Tree(fields)),
        spec_nested_message(payload, depth) is None && valid_utf8(payload) ==> spec_payload_value(
            payload,
            depth,
        ) == Ok::<SpecValue, DecodeError>(SpecValue::String(decode_utf8(payload))),
        spec_nested_message(payload, depth) is None && !valid_utf8(payload) && base64_encodable(
            payload.len(),
        ) ==> spec_payload_value(payload, depth) == Ok::<SpecValue, DecodeError>(
            SpecValue::Bytes(base64_encoding(payload)),
        ),
{
}

/// A payload holds a message exactly where nesting is still allowed and
/// the payload decodes as a message with one level less.
pub proof fn lemma_nested_message(payload: Seq<u8>, depth: nat)
    ensures
        spec_nested_message(payload, depth) is Some <==> depth > 0 && spec_deserialize_within(
            payload,
            (depth - 1) as nat,
        ) is Ok,
        spec_nested_message(payload, depth) matches Some(fields) ==> spec_deserialize_within(
            payload,
            (depth - 1) as nat,
        ) == Ok::<Map<u64, SpecValue>, DecodeError>(fields),
{
}

/// What reading a length-delimited value at `pos` comes to, for every
/// buffer. It fails where no whole varint stands at `pos`, and where the
/// length that the varint declares is more than the bytes left behind it.
/// Else the value is what the declared bytes are taken for, the reading
/// ends behind them, and neither depends on any other byte of the buffer.
/// A payload whose base64 text fits an allocation is always taken for
/// something.
pub proof fn lemma_length_delimited_value(data: Seq<u8>, pos: int, depth: nat)
    ensures
        spec_decode_varint(data, pos) is None ==> spec_decode_value(
            data,
            pos,
            WireType::LengthDelimited,
            depth,
        ) == Err::<(SpecValue, int), DecodeError>(DecodeError::TruncatedVarint),
        spec_decode_varint(data, pos) matches Some((declared, start)) ==> {
            &&& pos < start <= data.len()
            &&& declared > data.len() - start ==> spec_decode_value(
                data,
                pos,
                WireType::LengthDelimited,
                depth,
            ) == Err::<(SpecValue, int), DecodeError>(DecodeError::TruncatedPayload)
            &&& declared <= data.len() - start ==> spec_decode_value(
                data,
                pos,
                WireType::LengthDelimited,
                depth,
            ) == match spec_payload_value(data.subrange(start, start + declared), depth) {
                Ok(v) => Ok::<(SpecValue, int), DecodeError>((v, start + declared)),
                Err(e) => Err::<(SpecValue, int), DecodeError>(e),
            }
            &&& declared <= data.len() - start && base64_encodable(declared as nat)
                ==> spec_decode_value(data, pos, WireType::LengthDelimited, depth) is Ok
        },
{
    lemma_varint_end_bounds(data, pos);
}

/// A length-delimited field that declares more bytes than the buffer has
/// left makes the decoding fail, whatever was decoded before it.
pub proof fn lemma_overlong_payload_fails(
    data: Seq<u8>,
    pos: int,
    acc: Map<u64, SpecValue>,
    depth: nat,
    id: u64,
    at: int,
    declared: u64,
    start: int,
)
    requires
        0 <= pos < data.len(),
        spec_decode_tag(data, pos) == Ok::<(u64, WireType, int), DecodeError>(
            (id, WireType::LengthDelimited, at),
        ),
        spec_decode_varint(data, at) == Some((declared, start)),
        start + declared > data.len(),
    ensures
        spec_fields(data, pos, acc, depth) == Err::<Map<u64, SpecValue>, DecodeError>(
            DecodeError::TruncatedPayload,
        ),
        pos == 0 ==> spec_deserialize_within(data, depth) == Err::<
            Map<u64, SpecValue>,
            DecodeError,
        >(DecodeError::TruncatedPayload),
{
}

} // verus!

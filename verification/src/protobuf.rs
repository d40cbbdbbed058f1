//! The schema-less wire decoder: bytes in, a generic value tree out.
//!
//! A buffer is a run of fields; a field is a tag and a value. What the
//! bytes of a length-delimited value are is not written on the wire: the
//! decoder takes them for a message where they are laid out as one, for
//! text where they are valid UTF-8, and for a blob otherwise. Nested
//! messages are followed down to a fixed depth.

use crate::encoding::base64_encodable;
use crate::encoding::base64_encode;
use crate::encoding::base64_encoding;
use crate::encoding::utf8_decode;
use crate::value::SpecValue;
use crate::value::Tree;
use crate::value::Value;
use crate::value::lemma_tree_model;
use crate::value::spec_insert;
use vstd::prelude::*;
use vstd::slice::slice_subrange;
use vstd::utf8::decode_utf8;
use vstd::utf8::valid_utf8;

verus! {

/// How a field's value is laid out on the wire.
#[derive(Debug, Clone, Copy, PartialEq, Eq, Structural)]
pub enum WireType {
    /// Code 0: a base-128 variable-length integer.
    Varint,
    /// Code 1: eight bytes, little-endian.
    Bit64,
    /// Code 2: a varint length, then that many bytes.
    LengthDelimited,
    /// Code 5: four bytes, little-endian.
    Bit32,
}

/// Why a buffer could not be decoded.
#[derive(Debug, Clone, Copy, PartialEq, Eq, Structural)]
pub enum DecodeError {
    /// The buffer ends inside a varint.
    TruncatedVarint,
    /// Fewer than eight bytes are left for a 64-bit value.
    TruncatedFixed64,
    /// Fewer than four bytes are left for a 32-bit value.
    TruncatedFixed32,
    /// A length-delimited field declares more bytes than are left.
    TruncatedPayload,
    /// The tag carries a wire-kind code other than 0, 1, 2 and 5.
    UnsupportedWireType(u8),
    /// An opaque payload is too long for its base64 text to be held in
    /// memory.
    BlobTooLarge,
}

/// The number of values of a `u64`.
pub open spec fn two_to_64() -> nat {
    0x1_0000_0000_0000_0000
}

/// 128 to the power `k`.
pub open spec fn pow128(k: nat) -> nat
    decreases k,
{
    if k == 0 {
        1
    } else {
        128 * pow128((k - 1) as nat)
    }
}

/// The position after the varint that starts at `pos`: after the first byte
/// from `pos` on whose top bit is clear. `None` where the buffer ends before
/// such a byte.
pub open spec fn spec_varint_end(data: Seq<u8>, pos: int) -> Option<int>
    decreases data.len() - pos,
{
    if pos < 0 || pos >= data.len() {
        None
    } else if data[pos] < 0x80 {
        Some(pos + 1)
    } else {
        spec_varint_end(data, pos + 1)
    }
}

/// The base-128 number that the varint at `pos` spells: seven bits a byte,
/// least significant group first.
pub open spec fn spec_varint_value(data: Seq<u8>, pos: int) -> nat
    decreases data.len() - pos,
{
    if pos < 0 || pos >= data.len() {
        0
    } else if data[pos] < 0x80 {
        data[pos] as nat
    } else {
        (data[pos] - 0x80) as nat + 128 * spec_varint_value(data, pos + 1)
    }
}

/// The varint at `pos`: its value, of which the low 64 bits are kept, and
/// the position after it.
pub open spec fn spec_decode_varint(data: Seq<u8>, pos: int) -> Option<(u64, int)> {
    match spec_varint_end(data, pos) {
        Some(end) => Some(((spec_varint_value(data, pos) % two_to_64()) as u64, end)),
        None => None,
    }
}

/// The number that `width` bytes from `pos` on spell, least significant byte
/// first.
pub open spec fn spec_le_value(data: Seq<u8>, pos: int, width: nat) -> nat
    decreases width,
{
    if width == 0 {
        0
    } else {
        data[pos] as nat + 256 * spec_le_value(data, pos + 1, (width - 1) as nat)
    }
}

impl WireType {
    /// The wire kind with the given code.
    pub open spec fn spec_from_u8(code: u8) -> Option<WireType> {
        if code == 0 {
            Some(WireType::Varint)
        } else if code == 1 {
            Some(WireType::Bit64)
        } else if code == 2 {
            Some(WireType::LengthDelimited)
        } else if code == 5 {
            Some(WireType::Bit32)
        } else {
            None
        }
    }

    /// The wire kind with the given code; a code other than 0, 1, 2 and 5 is
    /// refused.
    pub fn from_u8(value: u8) -> (r: Result<WireType, DecodeError>)
        ensures
            match r {
                Ok(kind) => WireType::spec_from_u8(value) == Some(kind),
                Err(e) => WireType::spec_from_u8(value) is None
                    && e == DecodeError::UnsupportedWireType(value),
            },
    {
        match value {
            0 => Ok(WireType::Varint),
            1 => Ok(WireType::Bit64),
            2 => Ok(WireType::LengthDelimited),
            5 => Ok(WireType::Bit32),
            _ => Err(DecodeError::UnsupportedWireType(value)),
        }
    }
}

/// The tag at `pos`: the field identifier (the tag without its low three
/// bits), the wire kind (the low three bits) and the position after the
/// tag.
pub open spec fn spec_decode_tag(data: Seq<u8>, pos: int) -> Result<
    (u64, WireType, int),
    DecodeError,
> {
    match spec_decode_varint(data, pos) {
        None => Err(DecodeError::TruncatedVarint),
        Some((tag, next)) => match WireType::spec_from_u8((tag % 8) as u8) {
            None => Err(DecodeError::UnsupportedWireType((tag % 8) as u8)),
            Some(kind) => Ok((tag / 8, kind, next)),
        },
    }
}

/// The bytes that hold the content of the value of kind `kind` at `pos`, as
/// the positions of the first of them and after the last. For a
/// length-delimited value the content is the payload behind the length.
pub open spec fn spec_value_span(data: Seq<u8>, pos: int, kind: WireType) -> Result<
    (int, int),
    DecodeError,
> {
    match kind {
        WireType::Varint => match spec_varint_end(data, pos) {
            Some(end) => Ok((pos, end)),
            None => Err(DecodeError::TruncatedVarint),
        },
        WireType::Bit64 => if 0 <= pos && pos + 8 <= data.len() {
            Ok((pos, pos + 8))
        } else {
            Err(DecodeError::TruncatedFixed64)
        },
        WireType::Bit32 => if 0 <= pos && pos + 4 <= data.len() {
            Ok((pos, pos + 4))
        } else {
            Err(DecodeError::TruncatedFixed32)
        },
        WireType::LengthDelimited => match spec_decode_varint(data, pos) {
            Some((len, start)) => if start + len <= data.len() {
                Ok((start, start + len))
            } else {
                Err(DecodeError::TruncatedPayload)
            },
            None => Err(DecodeError::TruncatedVarint),
        },
    }
}

/// A varint ends behind where it starts, and inside the buffer.
pub proof fn lemma_varint_end_bounds(data: Seq<u8>, pos: int)
    ensures
        spec_varint_end(data, pos) matches Some(end) ==> 0 <= pos < end <= data.len(),
    decreases data.len() - pos,
{
    if 0 <= pos < data.len() && data[pos] >= 0x80 {
        lemma_varint_end_bounds(data, pos + 1);
    }
}

/// The content of a value lies inside the buffer, and behind where the
/// value starts unless the value is a fixed-width one.
pub proof fn lemma_value_span_bounds(data: Seq<u8>, pos: int, kind: WireType)
    ensures
        spec_value_span(data, pos, kind) matches Ok((start, end)) ==> {
            &&& 0 <= pos <= start <= end <= data.len()
            &&& pos < end
            &&& (kind == WireType::LengthDelimited ==> pos < start)
        },
{
    lemma_varint_end_bounds(data, pos);
}

/// A tag ends behind where it starts, and inside the buffer.
pub proof fn lemma_tag_bounds(data: Seq<u8>, pos: int)
    ensures
        spec_decode_tag(data, pos) matches Ok((_, _, next)) ==> 0 <= pos < next <= data.len(),
{
    lemma_varint_end_bounds(data, pos);
}

/// How many messages may lie one inside another below the outermost one.
/// A payload at that depth is not tried as a message any more: it is text
/// or a blob.
pub const MAX_NESTING_DEPTH: u32 = 100;

/// The message that a payload holds, where `depth` more levels of nesting
/// are allowed: none at depth zero, and none where the payload does not
/// decode as a message to its end.
pub open spec fn spec_nested_message(payload: Seq<u8>, depth: nat) -> Option<Map<u64, SpecValue>>
    decreases depth, 1nat,
{
    if depth == 0 {
        None
    } else {
        match spec_fields(payload, 0, Map::empty(), (depth - 1) as nat) {
            Ok(fields) => Some(fields),
            Err(_) => None,
        }
    }
}

/// What a length-delimited payload is taken for, where `depth` more levels
/// of nesting are allowed. The readings are tried in a fixed order: a
/// nested message; else text, if the payload is valid UTF-8; else a blob,
/// kept as its base64 text.
pub open spec fn spec_payload_value(payload: Seq<u8>, depth: nat) -> Result<SpecValue, DecodeError>
    decreases depth, 2nat,
{
    match spec_nested_message(payload, depth) {
        Some(fields) => Ok(SpecValue::Tree(fields)),
        None => if valid_utf8(payload) {
            Ok(SpecValue::String(decode_utf8(payload)))
        } else if base64_encodable(payload.len()) {
            Ok(SpecValue::Bytes(base64_encoding(payload)))
        } else {
            Err(DecodeError::BlobTooLarge)
        },
    }
}

/// The value that the bytes `content` hold under wire kind `kind`, where
/// `content` is what [`spec_value_span`] delimits.
pub open spec fn spec_content_value(kind: WireType, content: Seq<u8>, depth: nat) -> Result<
    SpecValue,
    DecodeError,
>
    decreases depth, 3nat,
{
    match kind {
        WireType::Varint => Ok(
            SpecValue::Integer((spec_varint_value(content, 0) % two_to_64()) as u64),
        ),
        WireType::Bit64 => Ok(SpecValue::Integer(spec_le_value(content, 0, 8) as u64)),
        WireType::Bit32 => Ok(SpecValue::Integer(spec_le_value(content, 0, 4) as u64)),
        WireType::LengthDelimited => spec_payload_value(content, depth),
    }
}

/// The fields from `pos` to the end of the buffer, added one by one to the
/// mapping `acc`.
pub open spec fn spec_fields(
    data: Seq<u8>,
    pos: int,
    acc: Map<u64, SpecValue>,
    depth: nat,
) -> Result<Map<u64, SpecValue>, DecodeError>
    decreases depth, 4nat, data.len() - pos,
{
    if pos < 0 || pos >= data.len() {
        Ok(acc)
    } else {
        match spec_decode_tag(data, pos) {
            Err(e) => Err(e),
            Ok((id, kind, at)) => match spec_value_span(data, at, kind) {
                Err(e) => Err(e),
                Ok((start, end)) => {
                    proof {
                        lemma_tag_bounds(data, pos);
                        lemma_value_span_bounds(data, at, kind);
                    }
                    match spec_content_value(kind, data.subrange(start, end), depth) {
                        Err(e) => Err(e),
                        Ok(v) => spec_fields(data, end, spec_insert(acc, id, v), depth),
                    }
                },
            },
        }
    }
}

/// The value of kind `kind` at `pos`, and the position after it.
pub open spec fn spec_decode_value(data: Seq<u8>, pos: int, kind: WireType, depth: nat) -> Result<
    (SpecValue, int),
    DecodeError,
> {
    match spec_value_span(data, pos, kind) {
        Err(e) => Err(e),
        Ok((start, end)) => match spec_content_value(kind, data.subrange(start, end), depth) {
            Err(e) => Err(e),
            Ok(v) => Ok((v, end)),
        },
    }
}

/// The message that `data` holds where `depth` levels of nesting are
/// allowed below it, or why it holds none.
pub open spec fn spec_deserialize_within(data: Seq<u8>, depth: nat) -> Result<
    Map<u64, SpecValue>,
    DecodeError,
> {
    spec_fields(data, 0, Map::empty(), depth)
}

/// The message that `data` holds, or why it holds none.
pub open spec fn spec_deserialize(data: Seq<u8>) -> Result<Map<u64, SpecValue>, DecodeError> {
    spec_deserialize_within(data, MAX_NESTING_DEPTH as nat)
}

/// Merging a seven-bit group into the bits below `shift` adds the group
/// times two to the `shift`, of which the low 64 bits are kept.
proof fn lemma_merge_group(value: u64, group: u64, shift: u32)
    by (bit_vector)
    requires
        shift < 64,
        group < 128,
        value < (1u64 << shift),
    ensures
        (value | (group << shift)) == (value + group * (1u64 << shift)) % 0x1_0000_0000_0000_0000,
{
}

/// Seven more bits of shift multiply by 128.
proof fn lemma_shift_step(shift: u32)
    by (bit_vector)
    requires
        shift <= 56,
    ensures
        (1u64 << ((shift + 7) as u32)) == 128 * (1u64 << shift),
{
}

/// What the loop of `decode_varint` has read so far stands to the whole
/// varint as a prefix: the step from one byte to the next.
proof fn lemma_varint_step(scale: nat, prefix: nat, group: nat, rest: nat)
    by (nonlinear_arith)
    requires
        prefix < scale,
        group < 128,
    ensures
        prefix + scale * (group + 128 * rest) == (prefix + group * scale) + (128 * scale) * rest,
        prefix + group * scale < 128 * scale,
{
}

/// A multiple of two to the 64 does not change the low 64 bits.
proof fn lemma_high_group_vanishes(scale: nat, prefix: nat, group: nat)
    requires
        scale % two_to_64() == 0,
    ensures
        (prefix + group * scale) % two_to_64() == prefix % two_to_64(),
        (128 * scale) % two_to_64() == 0,
{
    let m = two_to_64() as int;
    let q = scale as int / m;
    assert(scale == m * q) by {
        vstd::arithmetic::div_mod::lemma_fundamental_div_mod(scale as int, m);
    }
    assert(group * scale == m * (group * q)) by (nonlinear_arith)
        requires
            scale == m * q,
    ;
    vstd::arithmetic::div_mod::lemma_mod_multiples_vanish(group * q, prefix as int, m);
    assert(128 * scale == m * (128 * q)) by (nonlinear_arith)
        requires
            scale == m * q,
    ;
    vstd::arithmetic::div_mod::lemma_mod_multiples_vanish(128 * q, 0, m);
}

/// The varint that ends at `end` reads the same inside the bytes from `pos`
/// to `end` as inside the buffer.
pub proof fn lemma_varint_in_span(data: Seq<u8>, pos: int, at: int, end: int)
    requires
        0 <= pos <= at,
        spec_varint_end(data, at) == Some(end),
    ensures
        spec_varint_value(data.subrange(pos, end), at - pos) == spec_varint_value(data, at),
        spec_varint_end(data.subrange(pos, end), at - pos) == Some(end - pos),
    decreases data.len() - at,
{
    lemma_varint_end_bounds(data, at);
    if data[at] >= 0x80 {
        lemma_varint_in_span(data, pos, at + 1, end);
    }
}

/// A fixed-width number reads the same inside a span that holds it as
/// inside the buffer.
pub proof fn lemma_le_value_in_span(data: Seq<u8>, pos: int, end: int, at: int, width: nat)
    requires
        0 <= pos <= at,
        at + width <= end <= data.len(),
    ensures
        spec_le_value(data.subrange(pos, end), at - pos, width) == spec_le_value(data, at, width),
    decreases width,
{
    if width > 0 {
        lemma_le_value_in_span(data, pos, end, at + 1, (width - 1) as nat);
    }
}

/// The wire decoder.
pub struct Protobuf;

impl Protobuf {
    /// Decodes a whole buffer as one message.
    ///
    /// The buffer is read field by field, left to right; each field is a
    /// tag and a value of the wire kind that the tag names, and is entered
    /// in the result under the tag's field identifier (see
    /// [`spec_insert`] for repeated fields). Decoding fails where the buffer
    /// ends inside a varint, where a fixed-width or length-delimited value
    /// needs more bytes than are left, and on a wire kind other than 0, 1, 2
    /// and 5. Messages are followed [`MAX_NESTING_DEPTH`] levels deep.
    pub fn deserialize(data: &[u8]) -> (r: Result<Tree, DecodeError>)
        ensures
            match r {
                Ok(tree) => spec_deserialize(data@) == Ok::<Map<u64, SpecValue>, DecodeError>(
                    tree@,
                ),
                Err(e) => spec_deserialize(data@) == Err::<Map<u64, SpecValue>, DecodeError>(e),
            },
    {
        Self::deserialize_within(data, MAX_NESTING_DEPTH)
    }

    /// Decodes a whole buffer as one message, following nested messages
    /// `depth` levels deep.
    pub fn deserialize_within(data: &[u8], depth: u32) -> (r: Result<Tree, DecodeError>)
        ensures
            match r {
                Ok(tree) => spec_deserialize_within(data@, depth as nat) == Ok::<
                    Map<u64, SpecValue>,
                    DecodeError,
                >(tree@),
                Err(e) => spec_deserialize_within(data@, depth as nat) == Err::<
                    Map<u64, SpecValue>,
                    DecodeError,
                >(e),
            },
        decreases depth, 2nat,
    {
        let mut result = Tree::new();
        let mut offset: usize = 0;
        while offset < data.len()
            invariant
                offset <= data.len(),
                spec_fields(data@, offset as int, result@, depth as nat) == spec_deserialize_within(
                    data@,
                    depth as nat,
                ),
            decreases data.len() - offset,
        {
            let (id, kind, at) = match Self::decode_tag(data, offset) {
                Ok(tag) => tag,
                Err(e) => {
                    return Err(e);
                },
            };
            proof {
                lemma_tag_bounds(data@, offset as int);
            }
            let (value, next) = match Self::decode_value(data, at, kind, depth) {
                Ok(decoded) => decoded,
                Err(e) => {
                    return Err(e);
                },
            };
            proof {
                lemma_value_span_bounds(data@, at as int, kind);
            }
            result.insert(id, value);
            offset = next;
        }
        Ok(result)
    }

    /// Reads the tag at `offset`: the field identifier, the wire kind and
    /// the offset after the tag.
    pub fn decode_tag(data: &[u8], offset: usize) -> (r: Result<
        (u64, WireType, usize),
        DecodeError,
    >)
        ensures
            match r {
                Ok((id, kind, next)) => spec_decode_tag(data@, offset as int) == Ok::<
                    (u64, WireType, int),
                    DecodeError,
                >((id, kind, next as int)),
                Err(e) => spec_decode_tag(data@, offset as int) == Err::<
                    (u64, WireType, int),
                    DecodeError,
                >(e),
            },
    {
        let (tag, next) = match Self::decode_varint(data, offset) {
            Ok(varint) => varint,
            Err(e) => {
                return Err(e);
            },
        };
        let field_number = tag >> 3;
        let code = #[verifier::truncate] ((tag & 0x07) as u8);
        assert(field_number == tag / 8 && code == (tag % 8) as u8) by (bit_vector)
            requires
                field_number == tag >> 3,
                code == ((tag & 0x07) as u8),
        ;
        match WireType::from_u8(code) {
            Ok(kind) => Ok((field_number, kind, next)),
            Err(e) => Err(e),
        }
    }

    /// Reads the varint at `offset`: its value and the offset after it.
    ///
    /// A varint is a run of bytes of which the last, and only the last, has
    /// its top bit clear; the low seven bits of each byte are a group of
    /// the number, least significant group first. Of a number of more than
    /// 64 bits the low 64 are returned.
    pub fn decode_varint(data: &[u8], offset: usize) -> (r: Result<(u64, usize), DecodeError>)
        ensures
            match r {
                Ok((value, next)) => spec_decode_varint(data@, offset as int) == Some(
                    (value, next as int),
                ),
                Err(e) => e == DecodeError::TruncatedVarint && spec_decode_varint(
                    data@,
                    offset as int,
                ) is None,
            },
    {
        let mut value: u64 = 0;
        let mut shift: u32 = 0;
        let mut pos: usize = offset;
        let ghost mut groups: nat = 0;
        let ghost mut prefix: nat = 0;
        proof {
            assert((1u64 << 0u32) == 1) by (bit_vector);
            assert(pow128(0) == 1);
        }
        loop
            invariant
                offset <= pos,
                pos <= data.len() || pos == offset,
                groups == pos - offset,
                shift == if groups <= 9 {
                    7 * groups
                } else {
                    70
                },
                groups <= 9 ==> pow128(groups) == (1u64 << shift),
                groups >= 10 ==> pow128(groups) % two_to_64() == 0,
                prefix < pow128(groups),
                value == prefix % two_to_64(),
                spec_varint_end(data@, offset as int) == spec_varint_end(data@, pos as int),
                spec_varint_value(data@, offset as int) == prefix + pow128(groups)
                    * spec_varint_value(data@, pos as int),
            decreases data.len() - pos,
        {
            if pos >= data.len() {
                return Err(DecodeError::TruncatedVarint);
            }
            let byte = data[pos];
            let group = (byte & 0x7f) as u64;
            let last = (byte & 0x80) == 0;
            proof {
                assert(group == byte % 128 && last == (byte < 0x80)) by (bit_vector)
                    requires
                        group == (byte & 0x7f) as u64,
                        last == ((byte & 0x80) == 0),
                ;
                let scale = pow128(groups);
                let rest = spec_varint_value(data@, pos as int + 1);
                if last {
                    lemma_varint_step(scale, prefix, group as nat, 0);
                } else {
                    lemma_varint_step(scale, prefix, group as nat, rest);
                }
                if groups <= 9 {
                    assert((1u64 << shift) <= 0x8000_0000_0000_0000) by (bit_vector)
                        requires
                            shift < 64,
                    ;
                    lemma_merge_group(value, group, shift);
                    if groups <= 8 {
                        lemma_shift_step(shift);
                    } else {
                        assert((1u64 << 63u32) == 0x8000_0000_0000_0000) by (bit_vector);
                        assert(pow128(10) % two_to_64() == 0);
                    }
                } else {
                    lemma_high_group_vanishes(scale, prefix, group as nat);
                }
                prefix = prefix + group as nat * scale;
                groups = groups + 1;
            }
            pos += 1;
            if shift < 64 {
                value = value | (group << shift);
                shift += 7;
            }
            if last {
                return Ok((value, pos));
            }
        }
    }

    /// Reads eight bytes at `offset` as a little-endian number.
    fn decode_64bit(data: &[u8], offset: usize) -> (r: Result<(Value, usize), DecodeError>)
        ensures
            match r {
                Ok((value, next)) => {
                    &&& offset + 8 <= data.len()
                    &&& next == offset + 8
                    &&& value@ == SpecValue::Integer(spec_le_value(data@, offset as int, 8) as u64)
                },
                Err(e) => offset + 8 > data.len() && e == DecodeError::TruncatedFixed64,
            },
    {
        if offset > data.len() || data.len() - offset < 8 {
            return Err(DecodeError::TruncatedFixed64);
        }
        let b0 = data[offset] as u64;
        let b1 = data[offset + 1] as u64;
        let b2 = data[offset + 2] as u64;
        let b3 = data[offset + 3] as u64;
        let b4 = data[offset + 4] as u64;
        let b5 = data[offset + 5] as u64;
        let b6 = data[offset + 6] as u64;
        let b7 = data[offset + 7] as u64;
        let value = b0 | b1 << 8 | b2 << 16 | b3 << 24 | b4 << 32 | b5 << 40 | b6 << 48 | b7 << 56;
        proof {
            assert(value == b0 + 256 * (b1 + 256 * (b2 + 256 * (b3 + 256 * (b4 + 256 * (b5 + 256 * (b6
                + 256 * b7))))))) by (bit_vector)
                requires
                    b0 < 256,
                    b1 < 256,
                    b2 < 256,
                    b3 < 256,
                    b4 < 256,
                    b5 < 256,
                    b6 < 256,
                    b7 < 256,
                    value == b0 | b1 << 8 | b2 << 16 | b3 << 24 | b4 << 32 | b5 << 40 | b6 << 48 | b7
                        << 56,
            ;
            reveal_with_fuel(spec_le_value, 9);
        }
        Ok((Value::Integer(value), offset + 8))
    }

    /// Reads four bytes at `offset` as a little-endian number.
    fn decode_32bit(data: &[u8], offset: usize) -> (r: Result<(Value, usize), DecodeError>)
        ensures
            match r {
                Ok((value, next)) => {
                    &&& offset + 4 <= data.len()
                    &&& next == offset + 4
                    &&& value@ == SpecValue::Integer(spec_le_value(data@, offset as int, 4) as u64)
                },
                Err(e) => offset + 4 > data.len() && e == DecodeError::TruncatedFixed32,
            },
    {
        if offset > data.len() || data.len() - offset < 4 {
            return Err(DecodeError::TruncatedFixed32);
        }
        let b0 = data[offset] as u64;
        let b1 = data[offset + 1] as u64;
        let b2 = data[offset + 2] as u64;
        let b3 = data[offset + 3] as u64;
        let value = b0 | b1 << 8 | b2 << 16 | b3 << 24;
        proof {
            assert(value == b0 + 256 * (b1 + 256 * (b2 + 256 * b3))) by (bit_vector)
                requires
                    b0 < 256,
                    b1 < 256,
                    b2 < 256,
                    b3 < 256,
                    value == b0 | b1 << 8 | b2 << 16 | b3 << 24,
            ;
            reveal_with_fuel(spec_le_value, 5);
        }
        Ok((Value::Integer(value), offset + 4))
    }

    /// Reads the length-delimited value at `offset` and decides what its
    /// payload is: a nested message, text or a blob, tried in that order.
    fn decode_length_delimited(data: &[u8], offset: usize, depth: u32) -> (r: Result<
        (Value, usize),
        DecodeError,
    >)
        ensures
            match r {
                Ok((value, next)) => spec_decode_value(
                    data@,
                    offset as int,
                    WireType::LengthDelimited,
                    depth as nat,
                ) == Ok::<(SpecValue, int), DecodeError>((value@, next as int)),
                Err(e) => spec_decode_value(
                    data@,
                    offset as int,
                    WireType::LengthDelimited,
                    depth as nat,
                ) == Err::<(SpecValue, int), DecodeError>(e),
            },
        decreases depth, 0nat,
    {
        let (length, start) = match Self::decode_varint(data, offset) {
            Ok(varint) => varint,
            Err(e) => {
                return Err(e);
            },
        };
        proof {
            lemma_varint_end_bounds(data@, offset as int);
        }
        if length > (data.len() - start) as u64 {
            return Err(DecodeError::TruncatedPayload);
        }
        let end = start + length as usize;
        let payload = slice_subrange(data, start, end);
        if depth > 0 {
            match Self::deserialize_within(payload, depth - 1) {
                Ok(tree) => {
                    proof {
                        lemma_tree_model(tree);
                    }
                    return Ok((Value::Tree(tree), end));
                },
                Err(_) => {},
            }
        }
        match utf8_decode(payload) {
            Some(text) => Ok((Value::String(text), end)),
            None => {
                if payload.len() / 3 <= (usize::MAX / 2 - 4) / 4 {
                    Ok((Value::Bytes(base64_encode(payload)), end))
                } else {
                    Err(DecodeError::BlobTooLarge)
                }
            },
        }
    }

    /// Reads the value of wire kind `wire_type` at `offset`.
    fn decode_value(data: &[u8], offset: usize, wire_type: WireType, depth: u32) -> (r: Result<
        (Value, usize),
        DecodeError,
    >)
        ensures
            match r {
                Ok((value, next)) => spec_decode_value(
                    data@,
                    offset as int,
                    wire_type,
                    depth as nat,
                ) == Ok::<(SpecValue, int), DecodeError>((value@, next as int)),
                Err(e) => spec_decode_value(data@, offset as int, wire_type, depth as nat) == Err::<
                    (SpecValue, int),
                    DecodeError,
                >(e),
            },
        decreases depth, 1nat,
    {
        match wire_type {
            WireType::Varint => {
                match Self::decode_varint(data, offset) {
                    Ok((value, next)) => {
                        proof {
                            lemma_varint_in_span(data@, offset as int, offset as int, next as int);
                        }
                        Ok((Value::Integer(value), next))
                    },
                    Err(e) => Err(e),
                }
            },
            WireType::Bit64 => {
                proof {
                    if offset + 8 <= data.len() {
                        lemma_le_value_in_span(data@, offset as int, offset + 8, offset as int, 8);
                    }
                }
                Self::decode_64bit(data, offset)
            },
            WireType::LengthDelimited => Self::decode_length_delimited(data, offset, depth),
            WireType::Bit32 => {
                proof {
                    if offset + 4 <= data.len() {
                        lemma_le_value_in_span(data@, offset as int, offset + 4, offset as int, 4);
                    }
                }
                Self::decode_32bit(data, offset)
            },
        }
    }
}

} // verus!

//! Protocol buffer wire encoding (proto3) of the fields this library writes.
//!
//! A field is written as its key (`field_number << 3 | wire_type`, as a varint)
//! followed by its value. Scalar fields that hold their default value (zero,
//! `false`, empty) are left out, as proto3 prescribes; present sub-messages are
//! always written, as a length-delimited field.
use vstd::prelude::*;
use vstd::utf8::encode_utf8;

verus! {

/// Wire type of varint-encoded scalars.
pub const WIRE_VARINT: u64 = 0;

/// Wire type of length-delimited values (bytes, strings, messages, packed lists).
pub const WIRE_LEN: u64 = 2;

#[via_fn]
proof fn varint_decreases(v: u64) {
    assert(v >= 0x80 ==> (v >> 7u64) < v) by (bit_vector);
}

/// LEB128 encoding of an unsigned 64-bit value: seven bits per byte, least
/// significant group first, the high bit set on every byte but the last.
pub open spec fn varint(v: u64) -> Seq<u8>
    decreases v via varint_decreases
{
    if v < 0x80 {
        seq![v as u8]
    } else {
        seq![((v & 0x7f) | 0x80) as u8] + varint(v >> 7u64)
    }
}

/// The key of a field.
pub open spec fn key(field: u64, wire_type: u64) -> Seq<u8> {
    varint((field * 8 + wire_type) as u64)
}

/// An `int32` (or enumeration) field; negative values are sign-extended to 64 bits.
pub open spec fn int32_field(field: u64, v: i32) -> Seq<u8> {
    if v == 0 {
        seq![]
    } else {
        key(field, WIRE_VARINT) + varint(v as u64)
    }
}

/// A `uint32` field.
pub open spec fn uint32_field(field: u64, v: u32) -> Seq<u8> {
    if v == 0 {
        seq![]
    } else {
        key(field, WIRE_VARINT) + varint(v as u64)
    }
}

/// A `bool` field.
pub open spec fn bool_field(field: u64, b: bool) -> Seq<u8> {
    if b {
        key(field, WIRE_VARINT) + seq![1u8]
    } else {
        seq![]
    }
}

/// A length-delimited value, written whatever its length.
pub open spec fn len_delimited(field: u64, body: Seq<u8>) -> Seq<u8> {
    key(field, WIRE_LEN) + varint(body.len() as u64) + body
}

/// A `bytes` field.
pub open spec fn bytes_field(field: u64, b: Seq<u8>) -> Seq<u8> {
    if b.len() == 0 {
        seq![]
    } else {
        len_delimited(field, b)
    }
}

/// A `string` field, as its UTF-8 bytes.
pub open spec fn string_field(field: u64, s: Seq<char>) -> Seq<u8> {
    bytes_field(field, encode_utf8(s))
}

/// The varints of a list of `int32` values, one after the other.
pub open spec fn packed_payload(vs: Seq<i32>) -> Seq<u8>
    decreases vs.len(),
{
    if vs.len() == 0 {
        seq![]
    } else {
        packed_payload(vs.drop_last()) + varint(vs.last() as u64)
    }
}

/// A packed repeated `int32` (or enumeration) field.
pub open spec fn packed_int32_field(field: u64, vs: Seq<i32>) -> Seq<u8> {
    if vs.len() == 0 {
        seq![]
    } else {
        len_delimited(field, packed_payload(vs))
    }
}

/// The number that a little-endian base-128 byte string stands for: seven bits
/// per byte (the byte modulo 128), least significant group first.
pub open spec fn leb128_value(b: Seq<u8>) -> nat
    decreases b.len(),
{
    if b.len() == 0 {
        0
    } else {
        (b[0] % 128) as nat + 128 * leb128_value(b.drop_first())
    }
}

/// Whether bytes form exactly one complete varint: every byte but the last has
/// its high bit set, and the last has it clear.
pub open spec fn is_complete_varint(b: Seq<u8>) -> bool {
    &&& b.len() > 0
    &&& b.last() < 128
    &&& forall|i: int| 0 <= i < b.len() - 1 ==> #[trigger] b[i] >= 128
}

/// A varint is one complete varint, and a decoder reads back the value it encodes.
pub proof fn lemma_varint_decodes(v: u64)
    ensures
        is_complete_varint(varint(v)),
        leb128_value(varint(v)) == v,
    decreases v,
{
    if v < 0x80 {
        assert((v as u8) as u64 == v && (v as u8) % 128 == v) by (bit_vector)
            requires
                v < 0x80,
        ;
        let b = varint(v);
        assert(b[0] == v as u8);
        assert(b.drop_first() =~= Seq::<u8>::empty());
        assert(leb128_value(b.drop_first()) == 0);
    } else {
        let x: u8 = ((v & 0x7f) | 0x80) as u8;
        let w: u64 = v >> 7u64;
        assert(x >= 128 && x % 128 == v % 128 && v == v % 128 + 128 * w && w < v) by (bit_vector)
            requires
                v >= 0x80,
                x == ((v & 0x7f) | 0x80) as u8,
                w == v >> 7u64,
        ;
        lemma_varint_decodes(w);
        let b = varint(v);
        assert(b == seq![x] + varint(w));
        assert(b.drop_first() =~= varint(w));
        assert(b[0] == x);
        assert(leb128_value(b) == (x % 128) as nat + 128 * leb128_value(varint(w)));
        assert forall|i: int| 0 <= i < b.len() - 1 implies #[trigger] b[i] >= 128 by {
            if i > 0 {
                assert(b[i] == varint(w)[i - 1]);
            }
        }
    }
}

/// A length-delimited field reads back as its key (a varint of the field number
/// and wire type 2), then a varint of the body's length, then the body itself.
pub proof fn lemma_len_delimited_decodes(field: u64, body: Seq<u8>)
    requires
        field < 0x2000_0000,
        body.len() <= u64::MAX,
    ensures
        is_complete_varint(key(field, WIRE_LEN)),
        leb128_value(key(field, WIRE_LEN)) == field * 8 + 2,
        exists|p: Seq<u8>|
            #![trigger leb128_value(p)]
            is_complete_varint(p) && leb128_value(p) == body.len() && len_delimited(field, body)
                == key(field, WIRE_LEN) + p + body,
{
    lemma_varint_decodes((field * 8 + WIRE_LEN) as u64);
    let p = varint(body.len() as u64);
    lemma_varint_decodes(body.len() as u64);
    assert(leb128_value(p) == body.len());
}

/// Appends the LEB128 encoding of `value`.
///
/// Trusted: calls `prost::encoding::encode_varint`, which puts the low seven
/// bits of the value with the high bit set while the value is at least `0x80`,
/// shifting it right by seven each time, and then the last byte.
#[verifier::external_body]
pub(crate) fn put_varint(value: u64, buf: &mut Vec<u8>)
    ensures
        final(buf)@ == old(buf)@ + varint(value),
{
    prost::encoding::encode_varint(value, buf);
}

fn put_key(field: u64, wire_type: u64, buf: &mut Vec<u8>)
    requires
        field < 0x2000_0000,
        wire_type < 8,
    ensures
        final(buf)@ == old(buf)@ + key(field, wire_type),
{
    put_varint(field * 8 + wire_type, buf);
}

fn append_bytes(buf: &mut Vec<u8>, b: &[u8])
    ensures
        final(buf)@ == old(buf)@ + b@,
{
    let ghost start = buf@;
    let n = b.len();
    for i in 0..n
        invariant
            n == b@.len(),
            buf@ == start + b@.take(i as int),
    {
        buf.push(b[i]);
        assert(b@.take(i + 1) =~= b@.take(i as int).push(b@[i as int]));
        assert(start + b@.take(i + 1) =~= (start + b@.take(i as int)).push(b@[i as int]));
    }
    assert(b@.take(n as int) =~= b@);
}

/// Appends an `int32` field.
pub fn put_int32_field(field: u64, v: i32, buf: &mut Vec<u8>)
    requires
        field < 0x2000_0000,
    ensures
        final(buf)@ == old(buf)@ + int32_field(field, v),
{
    if v != 0 {
        put_key(field, WIRE_VARINT, buf);
        put_varint(v as u64, buf);
    } else {
        assert(old(buf)@ + int32_field(field, v) =~= old(buf)@);
    }
}

/// Appends a `uint32` field.
pub fn put_uint32_field(field: u64, v: u32, buf: &mut Vec<u8>)
    requires
        field < 0x2000_0000,
    ensures
        final(buf)@ == old(buf)@ + uint32_field(field, v),
{
    if v != 0 {
        put_key(field, WIRE_VARINT, buf);
        put_varint(v as u64, buf);
    } else {
        assert(old(buf)@ + uint32_field(field, v) =~= old(buf)@);
    }
}

/// Appends a `bool` field.
pub fn put_bool_field(field: u64, b: bool, buf: &mut Vec<u8>)
    requires
        field < 0x2000_0000,
    ensures
        final(buf)@ == old(buf)@ + bool_field(field, b),
{
    if b {
        put_key(field, WIRE_VARINT, buf);
        buf.push(1u8);
    } else {
        assert(old(buf)@ + bool_field(field, b) =~= old(buf)@);
    }
}

/// Appends a length-delimited value (a sub-message), whatever its length.
pub fn put_len_delimited(field: u64, body: &[u8], buf: &mut Vec<u8>)
    requires
        field < 0x2000_0000,
    ensures
        final(buf)@ == old(buf)@ + len_delimited(field, body@),
{
    put_key(field, WIRE_LEN, buf);
    put_varint(body.len() as u64, buf);
    append_bytes(buf, body);
}

/// Appends a `bytes` field.
pub fn put_bytes_field(field: u64, b: &[u8], buf: &mut Vec<u8>)
    requires
        field < 0x2000_0000,
    ensures
        final(buf)@ == old(buf)@ + bytes_field(field, b@),
{
    if b.len() != 0 {
        put_len_delimited(field, b, buf);
    } else {
        assert(old(buf)@ + bytes_field(field, b@) =~= old(buf)@);
    }
}

/// Appends a `string` field.
pub fn put_string_field(field: u64, s: &str, buf: &mut Vec<u8>)
    requires
        field < 0x2000_0000,
    ensures
        final(buf)@ == old(buf)@ + string_field(field, s@),
{
    put_bytes_field(field, s.as_bytes(), buf);
}

/// Appends a packed repeated `int32` field.
pub fn put_packed_int32_field(field: u64, vs: &[i32], buf: &mut Vec<u8>)
    requires
        field < 0x2000_0000,
    ensures
        final(buf)@ == old(buf)@ + packed_int32_field(field, vs@),
{
    if vs.len() == 0 {
        assert(old(buf)@ + packed_int32_field(field, vs@) =~= old(buf)@);
        return;
    }
    let mut payload: Vec<u8> = Vec::new();
    let n = vs.len();
    for i in 0..n
        invariant
            n == vs@.len(),
            payload@ == packed_payload(vs@.take(i as int)),
    {
        put_varint(vs[i] as u64, &mut payload);
        assert(vs@.take(i + 1).drop_last() =~= vs@.take(i as int));
    }
    assert(vs@.take(n as int) =~= vs@);
    put_len_delimited(field, payload.as_slice(), buf);
}

} // verus!

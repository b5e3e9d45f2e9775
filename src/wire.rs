//! Little-endian integer layouts and the variable-width length prefix of a frame.

use vstd::prelude::*;

verus! {

/// The largest frame length that the two-byte length prefix can express.
pub const MAX_FRAME_LEN: usize = 16383;

/// The largest payload that still fits in a frame of at most `MAX_FRAME_LEN` bytes.
pub const MAX_PAYLOAD_LEN: usize = 16379;

/// The hub id byte: a session always addresses its single logical hub.
pub const HUB_ID: u8 = 0;

/// The byte of an `i8` in two's complement.
pub open spec fn i8_byte(v: i8) -> u8 {
    if v >= 0 { v as u8 } else { (v + 256) as u8 }
}

/// The value of a byte read as an `i8` in two's complement.
pub open spec fn byte_i8(b: u8) -> i8 {
    if b < 128 { b as i8 } else { (b - 256) as i8 }
}

/// The `u32` whose bits are those of an `i32` in two's complement.
pub open spec fn i32_bits(v: i32) -> u32 {
    if v >= 0 { v as u32 } else { (v + 4294967296) as u32 }
}

/// The `i32` whose two's-complement bits are those of a `u32`.
pub open spec fn bits_i32(u: u32) -> i32 {
    if u < 2147483648 { u as i32 } else { (u - 4294967296) as i32 }
}

/// Two bytes, least significant first.
pub open spec fn le16(v: u16) -> Seq<u8> {
    seq![(v % 256) as u8, (v / 256) as u8]
}

/// Four bytes, least significant first.
pub open spec fn le32(v: u32) -> Seq<u8> {
    seq![(v % 256) as u8, ((v / 256) % 256) as u8, ((v / 65536) % 256) as u8, (v / 16777216) as u8]
}

/// A sequence of 16-bit values laid out one after another, each little-endian.
pub open spec fn le16_seq(s: Seq<u16>) -> Seq<u8>
    decreases s.len(),
{
    if s.len() == 0 {
        Seq::empty()
    } else {
        le16_seq(s.drop_last()) + le16(s.last())
    }
}

/// The length prefix of a frame of `n` bytes: one byte below 128, two bytes from there on,
/// seven bits each, the first with its top bit set.
pub open spec fn length_prefix(n: nat) -> Seq<u8> {
    if n < 128 {
        seq![n as u8]
    } else {
        seq![(n % 128 + 128) as u8, (n / 128) as u8]
    }
}

/// The whole frame of a message of type `ty` whose payload is `payload`.
pub open spec fn frame(ty: u8, payload: Seq<u8>) -> Seq<u8> {
    let n = if payload.len() + 3 < 128 { payload.len() + 3 } else { payload.len() + 4 };
    length_prefix(n) + seq![HUB_ID, ty] + payload
}

/// How many bytes the length prefix at the start of `b` takes.
pub open spec fn prefix_len(b: Seq<u8>) -> int {
    if b[0] < 128 { 1 } else { 2 }
}

/// The frame length that the prefix at the start of `b` declares.
pub open spec fn declared_len(b: Seq<u8>) -> int {
    if b[0] < 128 { b[0] as int } else { (b[0] - 128) + 128 * b[1] }
}

/// `b` starts with a well-formed header: a length prefix in the form that `frame` gives, declaring
/// a length that `b` holds and that covers the prefix, the hub id and the type byte; then
/// the hub id.
pub open spec fn header_ok(b: Seq<u8>) -> bool {
    &&& b.len() >= 1
    &&& b[0] >= 128 ==> b.len() >= 2 && b[1] < 128 && declared_len(b) >= 129
    &&& declared_len(b) >= prefix_len(b) + 2
    &&& declared_len(b) <= b.len()
    &&& b[prefix_len(b)] == HUB_ID
}

/// The type byte of a frame whose header is well formed.
pub open spec fn frame_type(b: Seq<u8>) -> u8 {
    b[prefix_len(b) + 1]
}

/// The payload of a frame whose header is well formed.
pub open spec fn frame_payload(b: Seq<u8>) -> Seq<u8> {
    b.subrange(prefix_len(b) + 2, declared_len(b))
}

pub proof fn lemma_le16_seq_push(s: Seq<u16>, v: u16)
    ensures
        le16_seq(s.push(v)) == le16_seq(s) + le16(v),
{
    assert(s.push(v).drop_last() =~= s);
}

pub proof fn lemma_le16_seq_len(s: Seq<u16>)
    ensures
        le16_seq(s).len() == 2 * s.len(),
    decreases s.len(),
{
    if s.len() > 0 {
        lemma_le16_seq_len(s.drop_last());
    }
}

/// A frame built by `frame` has a well-formed header that gives back its type and payload.
pub proof fn lemma_frame_header(ty: u8, payload: Seq<u8>)
    requires
        payload.len() <= MAX_PAYLOAD_LEN,
    ensures
        header_ok(frame(ty, payload)),
        declared_len(frame(ty, payload)) == frame(ty, payload).len(),
        frame_type(frame(ty, payload)) == ty,
        frame_payload(frame(ty, payload)) =~= payload,
{
    let f = frame(ty, payload);
    let n = if payload.len() + 3 < 128 { payload.len() + 3 } else { payload.len() + 4 };
    if n < 128 {
        assert(f[0] == n);
    } else {
        assert(f[0] == n % 128 + 128);
        assert(f[1] == n / 128);
    }
}

/// A frame whose header is well formed is the frame of its own type and payload, up to
/// the declared length.
pub proof fn lemma_header_frame(b: Seq<u8>)
    requires
        header_ok(b),
    ensures
        frame(frame_type(b), frame_payload(b)) =~= b.take(declared_len(b)),
        frame_payload(b).len() <= MAX_PAYLOAD_LEN,
{
    let p = frame_payload(b);
    let n = declared_len(b);
    if b[0] >= 128 {
        let b0 = b[0] as int;
        let b1 = b[1] as int;
        assert(n % 128 + 128 == b0 && n / 128 == b1) by (nonlinear_arith)
            requires
                n == (b0 - 128) + 128 * b1,
                128 <= b0 < 256,
        ;
        assert(length_prefix(n as nat) =~= b.take(2));
    } else {
        assert(length_prefix(n as nat) =~= b.take(1));
    }
}

pub proof fn lemma_le16_injective(a: u16, b: u16)
    requires
        le16(a) == le16(b),
    ensures
        a == b,
{
    assert(le16(a)[0] == le16(b)[0] && le16(a)[1] == le16(b)[1]);
}

pub proof fn lemma_le32_injective(a: u32, b: u32)
    requires
        le32(a) == le32(b),
    ensures
        a == b,
{
    assert(le32(a)[0] == le32(b)[0] && le32(a)[1] == le32(b)[1] && le32(a)[2] == le32(b)[2]
        && le32(a)[3] == le32(b)[3]);
    let x = a as int;
    let y = b as int;
    assert(x == x % 256 + 256 * ((x / 256) % 256) + 65536 * ((x / 65536) % 256) + 16777216 * (x
        / 16777216)) by (nonlinear_arith)
        requires
            0 <= x,
    ;
    assert(y == y % 256 + 256 * ((y / 256) % 256) + 65536 * ((y / 65536) % 256) + 16777216 * (y
        / 16777216)) by (nonlinear_arith)
        requires
            0 <= y,
    ;
}

pub proof fn lemma_le16_seq_injective(s: Seq<u16>, t: Seq<u16>)
    requires
        le16_seq(s) == le16_seq(t),
    ensures
        s == t,
    decreases s.len(),
{
    lemma_le16_seq_len(s);
    lemma_le16_seq_len(t);
    if s.len() > 0 {
        let a = le16_seq(s.drop_last());
        let b = le16_seq(t.drop_last());
        lemma_le16_seq_len(s.drop_last());
        lemma_le16_seq_len(t.drop_last());
        assert(le16_seq(s).subrange(0, a.len() as int) =~= a);
        assert(le16_seq(t).subrange(0, b.len() as int) =~= b);
        assert(le16_seq(s).subrange(a.len() as int, le16_seq(s).len() as int) =~= le16(s.last()));
        assert(le16_seq(t).subrange(b.len() as int, le16_seq(t).len() as int) =~= le16(t.last()));
        lemma_le16_seq_injective(s.drop_last(), t.drop_last());
        lemma_le16_injective(s.last(), t.last());
        assert(s =~= s.drop_last().push(s.last()));
        assert(t =~= t.drop_last().push(t.last()));
    } else {
        assert(s =~= t);
    }
}

pub fn to_byte_i8(v: i8) -> (r: u8)
    ensures
        r == i8_byte(v),
{
    if v >= 0 {
        v as u8
    } else {
        (v as i16 + 256) as u8
    }
}

pub fn from_byte_i8(b: u8) -> (r: i8)
    ensures
        r == byte_i8(b),
        i8_byte(r) == b,
{
    if b < 128 {
        b as i8
    } else {
        (b as i16 - 256) as i8
    }
}

pub fn to_bits_i32(v: i32) -> (r: u32)
    ensures
        r == i32_bits(v),
{
    if v >= 0 {
        v as u32
    } else {
        (v as i64 + 4294967296) as u32
    }
}

pub fn from_bits_i32(u: u32) -> (r: i32)
    ensures
        r == bits_i32(u),
        i32_bits(r) == u,
{
    if u < 2147483648 {
        u as i32
    } else {
        (u as i64 - 4294967296) as i32
    }
}

pub fn push_le16(out: &mut Vec<u8>, v: u16)
    ensures
        final(out)@ == old(out)@ + le16(v),
{
    out.push((v % 256) as u8);
    out.push((v / 256) as u8);
    assert(final(out)@ =~= old(out)@ + le16(v));
}

pub fn push_le32(out: &mut Vec<u8>, v: u32)
    ensures
        final(out)@ == old(out)@ + le32(v),
{
    out.push((v % 256) as u8);
    out.push(((v / 256) % 256) as u8);
    out.push(((v / 65536) % 256) as u8);
    out.push((v / 16777216) as u8);
    assert(final(out)@ =~= old(out)@ + le32(v));
}

pub fn read_le16(b: &[u8], i: usize) -> (r: u16)
    requires
        i + 2 <= b@.len(),
    ensures
        le16(r) == b@.subrange(i as int, i + 2),
{
    let b0 = b[i];
    let b1 = b[i + 1];
    let r = (b0 as u16) + 256 * (b1 as u16);
    assert(le16(r) =~= b@.subrange(i as int, i + 2));
    r
}

pub fn read_le32(b: &[u8], i: usize) -> (r: u32)
    requires
        i + 4 <= b@.len(),
    ensures
        le32(r) == b@.subrange(i as int, i + 4),
{
    let b0 = b[i] as u32;
    let b1 = b[i + 1] as u32;
    let b2 = b[i + 2] as u32;
    let b3 = b[i + 3] as u32;
    let r = b0 + 256 * b1 + 65536 * b2 + 16777216 * b3;
    assert(r % 256 == b0 && (r / 256) % 256 == b1 && (r / 65536) % 256 == b2 && r / 16777216 == b3)
        by (nonlinear_arith)
        requires
            r == b0 + 256 * b1 + 65536 * b2 + 16777216 * b3,
            b0 < 256,
            b1 < 256,
            b2 < 256,
            b3 < 256,
    ;
    assert(le32(r) =~= b@.subrange(i as int, i + 4));
    r
}

/// Appends `b[s..e]` to `out`.
pub fn push_range(out: &mut Vec<u8>, b: &[u8], s: usize, e: usize)
    requires
        s <= e <= b@.len(),
    ensures
        final(out)@ == old(out)@ + b@.subrange(s as int, e as int),
{
    let mut i = s;
    while i < e
        invariant
            s <= i <= e <= b@.len(),
            out@ == old(out)@ + b@.subrange(s as int, i as int),
        decreases e - i,
    {
        out.push(b[i]);
        assert(b@.subrange(s as int, i + 1) =~= b@.subrange(s as int, i as int).push(b@[i as int]));
        i = i + 1;
    }
}

/// Appends all of `src` to `out`.
pub fn push_all(out: &mut Vec<u8>, src: &Vec<u8>)
    ensures
        final(out)@ == old(out)@ + src@,
{
    let ghost before = out@;
    push_range(out, src.as_slice(), 0, src.len());
    assert(src@.subrange(0, src@.len() as int) =~= src@);
}

/// A fresh vector holding `b[s..e]`.
pub fn copy_range(b: &[u8], s: usize, e: usize) -> (r: Vec<u8>)
    requires
        s <= e <= b@.len(),
    ensures
        r@ == b@.subrange(s as int, e as int),
{
    let mut r: Vec<u8> = Vec::new();
    push_range(&mut r, b, s, e);
    assert(Seq::<u8>::empty() + b@.subrange(s as int, e as int) =~= b@.subrange(s as int, e as int));
    r
}

/// Wraps a payload into a frame of type `ty`.
pub fn build_frame(ty: u8, payload: &Vec<u8>) -> (r: Vec<u8>)
    requires
        payload@.len() <= MAX_PAYLOAD_LEN,
    ensures
        r@ == frame(ty, payload@),
{
    let mut r: Vec<u8> = Vec::new();
    let p = payload.len();
    if p + 3 < 128 {
        r.push((p + 3) as u8);
    } else {
        let n = p + 4;
        r.push((n % 128 + 128) as u8);
        r.push((n / 128) as u8);
    }
    r.push(HUB_ID);
    r.push(ty);
    push_all(&mut r, payload);
    assert(r@ =~= frame(ty, payload@));
    r
}

/// Reads the header of a frame: where its payload starts and ends, or `None` when the
/// header is not well formed.
pub fn read_header(b: &[u8]) -> (r: Option<(usize, usize)>)
    ensures
        r is Some <==> header_ok(b@),
        r matches Some((s, e)) ==> s == prefix_len(b@) + 2 && e == declared_len(b@),
{
    if b.len() < 1 {
        return None;
    }
    let b0 = b[0];
    let (p, n): (usize, usize) = if b0 < 128 {
        (1, b0 as usize)
    } else {
        if b.len() < 2 {
            return None;
        }
        if b[1] >= 128 {
            return None;
        }
        let n = (b0 as usize - 128) + 128 * (b[1] as usize);
        if n < 129 {
            return None;
        }
        (2, n)
    };
    if n < p + 2 || n > b.len() || b[p] != HUB_ID {
        return None;
    }
    Some((p + 2, n))
}

} // verus!

//! Big-endian integer fields and byte-buffer helpers shared by the codecs.
use vstd::prelude::*;

verus! {

/// The two octets of `x` in network (big-endian) order.
pub open spec fn u16_be(x: u16) -> Seq<u8> {
    seq![(x / 256) as u8, (x % 256) as u8]
}

/// The four octets of `x` in network (big-endian) order.
pub open spec fn u32_be(x: u32) -> Seq<u8> {
    seq![(x / 0x100_0000) as u8, ((x / 0x1_0000) % 256) as u8, ((x / 256) % 256) as u8, (x % 256) as u8]
}

/// The 16-bit value whose big-endian octets are `hi`, `lo`.
pub open spec fn be_u16(hi: u8, lo: u8) -> u16 {
    (hi * 256 + lo) as u16
}

/// The 32-bit value read big-endian from the first four octets of `b`.
pub open spec fn be_u32(b: Seq<u8>) -> u32 {
    (b[0] * 0x100_0000 + b[1] * 0x1_0000 + b[2] * 256 + b[3]) as u32
}

/// `n` zero octets.
pub open spec fn zeros(n: nat) -> Seq<u8> {
    Seq::new(n, |i: int| 0u8)
}

/// Reading back the octets of a 16-bit value gives the value.
pub proof fn lemma_u16_round_trip(x: u16)
    ensures
        be_u16(u16_be(x)[0], u16_be(x)[1]) == x,
{
    assert(x == (x / 256) * 256 + x % 256) by (nonlinear_arith);
}

/// Reading back the octets of a 32-bit value gives the value.
pub proof fn lemma_u32_round_trip(x: u32)
    ensures
        be_u32(u32_be(x)) == x,
{
    let b = u32_be(x);
    assert(b[0] * 0x100_0000 + b[1] * 0x1_0000 + b[2] * 256 + b[3] == x) by (nonlinear_arith)
        requires
            b[0] == x / 0x100_0000,
            b[1] == (x / 0x1_0000) % 256,
            b[2] == (x / 256) % 256,
            b[3] == x % 256,
            x < 0x1_0000_0000,
    {
    }
}

/// Octets read as a 16-bit value and written back are the same octets.
pub proof fn lemma_be_u16_octets(hi: u8, lo: u8)
    ensures
        u16_be(be_u16(hi, lo)) == seq![hi, lo],
{
    let x = hi * 256 + lo;
    assert(x / 256 == hi && x % 256 == lo) by (nonlinear_arith)
        requires
            x == hi * 256 + lo,
            hi < 256,
            lo < 256,
    ;
    assert(u16_be(be_u16(hi, lo)) =~= seq![hi, lo]);
}

/// Octets read as a 32-bit value and written back are the same octets.
pub proof fn lemma_be_u32_octets(b: Seq<u8>)
    requires
        b.len() == 4,
    ensures
        u32_be(be_u32(b)) == b,
{
    let (b0, b1, b2, b3) = (b[0] as int, b[1] as int, b[2] as int, b[3] as int);
    let x = b0 * 0x100_0000 + b1 * 0x1_0000 + b2 * 256 + b3;
    assert(x / 0x100_0000 == b0 && (x / 0x1_0000) % 256 == b1 && (x / 256) % 256 == b2 && x % 256
        == b3) by (nonlinear_arith)
        requires
            x == b0 * 0x100_0000 + b1 * 0x1_0000 + b2 * 256 + b3,
            0 <= b0 < 256,
            0 <= b1 < 256,
            0 <= b2 < 256,
            0 <= b3 < 256,
    ;
    assert(u32_be(be_u32(b)) =~= b);
}

/// The two octets written for a 16-bit value are its high and low octet:
/// `256 * b[0] + b[1]` is the value.
pub proof fn lemma_u16_be_layout(x: u16)
    ensures
        u16_be(x).len() == 2,
        u16_be(x)[0] * 256 + u16_be(x)[1] == x,
{
    assert(x == (x / 256) * 256 + x % 256) by (nonlinear_arith);
}

/// The four octets written for a 32-bit value are its octets from the most
/// significant down: `2^24 * b[0] + 2^16 * b[1] + 2^8 * b[2] + b[3]` is the value.
pub proof fn lemma_u32_be_layout(x: u32)
    ensures
        u32_be(x).len() == 4,
        u32_be(x)[0] * 0x100_0000 + u32_be(x)[1] * 0x1_0000 + u32_be(x)[2] * 256 + u32_be(x)[3]
            == x,
{
    lemma_u32_round_trip(x);
    let b = u32_be(x);
    assert(b[0] * 0x100_0000 + b[1] * 0x1_0000 + b[2] * 256 + b[3] < 0x1_0000_0000);
}

/// Reading 16 or 32 bits big-endian gives the value whose octets, most
/// significant first, are the octets read.
pub proof fn lemma_be_read_layout(hi: u8, lo: u8, b: Seq<u8>)
    requires
        b.len() >= 4,
    ensures
        be_u16(hi, lo) == hi * 256 + lo,
        be_u32(b) == b[0] * 0x100_0000 + b[1] * 0x1_0000 + b[2] * 256 + b[3],
{
}

/// Appends the big-endian octets of `x` to `buf`.
pub fn push_u16_be(buf: &mut Vec<u8>, x: u16)
    ensures
        final(buf)@ == old(buf)@ + u16_be(x),
{
    buf.push((x / 256) as u8);
    buf.push((x % 256) as u8);
    assert(final(buf)@ =~= old(buf)@ + u16_be(x));
}

/// Appends the big-endian octets of `x` to `buf`.
pub fn push_u32_be(buf: &mut Vec<u8>, x: u32)
    ensures
        final(buf)@ == old(buf)@ + u32_be(x),
{
    buf.push((x / 0x100_0000) as u8);
    buf.push(((x / 0x1_0000) % 256) as u8);
    buf.push(((x / 256) % 256) as u8);
    buf.push((x % 256) as u8);
    assert(final(buf)@ =~= old(buf)@ + u32_be(x));
}

/// Reads a big-endian 16-bit value at `pos`.
pub fn read_u16_be(bytes: &[u8], pos: usize) -> (r: u16)
    requires
        pos + 2 <= bytes@.len(),
    ensures
        r == be_u16(bytes@[pos as int], bytes@[pos + 1]),
{
    let hi = bytes[pos] as u16;
    let lo = bytes[pos + 1] as u16;
    hi * 256 + lo
}

/// Reads a big-endian 32-bit value at `pos`.
pub fn read_u32_be(bytes: &[u8], pos: usize) -> (r: u32)
    requires
        pos + 4 <= bytes@.len(),
    ensures
        r == be_u32(bytes@.subrange(pos as int, pos + 4)),
{
    let b0 = bytes[pos] as u32;
    let b1 = bytes[pos + 1] as u32;
    let b2 = bytes[pos + 2] as u32;
    let b3 = bytes[pos + 3] as u32;
    b0 * 0x100_0000 + b1 * 0x1_0000 + b2 * 256 + b3
}

/// Appends every octet of `src` to `buf`.
pub fn append_bytes(buf: &mut Vec<u8>, src: &[u8])
    ensures
        final(buf)@ == old(buf)@ + src@,
{
    let ghost start = buf@;
    let mut i: usize = 0;
    while i < src.len()
        invariant
            i <= src@.len(),
            buf@ == start + src@.subrange(0, i as int),
        decreases src@.len() - i,
    {
        buf.push(src[i]);
        i = i + 1;
        assert(buf@ =~= start + src@.subrange(0, i as int));
    }
    assert(src@.subrange(0, src@.len() as int) =~= src@);
}

/// Appends `n` zero octets to `buf`.
pub fn push_zeros(buf: &mut Vec<u8>, n: usize)
    ensures
        final(buf)@ == old(buf)@ + zeros(n as nat),
{
    let ghost start = buf@;
    let mut i: usize = 0;
    while i < n
        invariant
            i <= n,
            buf@ == start + zeros(i as nat),
        decreases n - i,
    {
        buf.push(0u8);
        i = i + 1;
        assert(buf@ =~= start + zeros(i as nat));
    }
}

/// A fresh vector holding the octets `bytes[from..to]`.
pub fn copy_range(bytes: &[u8], from: usize, to: usize) -> (r: Vec<u8>)
    requires
        from <= to <= bytes@.len(),
    ensures
        r@ == bytes@.subrange(from as int, to as int),
{
    let mut r: Vec<u8> = Vec::new();
    let mut i: usize = from;
    while i < to
        invariant
            from <= i <= to,
            to <= bytes@.len(),
            r@ == bytes@.subrange(from as int, i as int),
        decreases to - i,
    {
        r.push(bytes[i]);
        i = i + 1;
        assert(r@ =~= bytes@.subrange(from as int, i as int));
    }
    r
}

} // verus!

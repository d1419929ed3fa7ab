//! SHA-256, used to fingerprint public keys.
use vstd::prelude::*;

verus! {

/// Round constants: the first 32 bits of the fractional parts of the cube roots
/// of the first 64 primes.
pub const K: [u32; 64] = [
    0x428a2f98, 0x71374491, 0xb5c0fbcf, 0xe9b5dba5, 0x3956c25b, 0x59f111f1, 0x923f82a4, 0xab1c5ed5,
    0xd807aa98, 0x12835b01, 0x243185be, 0x550c7dc3, 0x72be5d74, 0x80deb1fe, 0x9bdc06a7, 0xc19bf174,
    0xe49b69c1, 0xefbe4786, 0x0fc19dc6, 0x240ca1cc, 0x2de92c6f, 0x4a7484aa, 0x5cb0a9dc, 0x76f988da,
    0x983e5152, 0xa831c66d, 0xb00327c8, 0xbf597fc7, 0xc6e00bf3, 0xd5a79147, 0x06ca6351, 0x14292967,
    0x27b70a85, 0x2e1b2138, 0x4d2c6dfc, 0x53380d13, 0x650a7354, 0x766a0abb, 0x81c2c92e, 0x92722c85,
    0xa2bfe8a1, 0xa81a664b, 0xc24b8b70, 0xc76c51a3, 0xd192e819, 0xd6990624, 0xf40e3585, 0x106aa070,
    0x19a4c116, 0x1e376c08, 0x2748774c, 0x34b0bcb5, 0x391c0cb3, 0x4ed8aa4a, 0x5b9cca4f, 0x682e6ff3,
    0x748f82ee, 0x78a5636f, 0x84c87814, 0x8cc70208, 0x90befffa, 0xa4506ceb, 0xbef9a3f7, 0xc67178f2,
];

/// Initial hash value: the first 32 bits of the fractional parts of the square
/// roots of the first 8 primes.
pub const H0: [u32; 8] = [
    0x6a09e667, 0xbb67ae85, 0x3c6ef372, 0xa54ff53a, 0x510e527f, 0x9b05688c, 0x1f83d9ab, 0x5be0cd19,
];

/// Addition modulo 2^32.
pub open spec fn wadd(a: u32, b: u32) -> u32 {
    vstd::wrapping::u32_specs::wrapping_add(a, b)
}

/// Rotation to the right by `n` bits (0 < n < 32).
pub open spec fn rotr(x: u32, n: u32) -> u32 {
    (x >> n) | (x << (32 - n) as u32)
}

pub open spec fn big_sigma0(a: u32) -> u32 {
    rotr(a, 2) ^ rotr(a, 13) ^ rotr(a, 22)
}

pub open spec fn big_sigma1(e: u32) -> u32 {
    rotr(e, 6) ^ rotr(e, 11) ^ rotr(e, 25)
}

pub open spec fn small_sigma0(x: u32) -> u32 {
    rotr(x, 7) ^ rotr(x, 18) ^ (x >> 3)
}

pub open spec fn small_sigma1(x: u32) -> u32 {
    rotr(x, 17) ^ rotr(x, 19) ^ (x >> 10)
}

pub open spec fn choose_bits(e: u32, f: u32, g: u32) -> u32 {
    (e & f) ^ ((!e) & g)
}

pub open spec fn majority(a: u32, b: u32, c: u32) -> u32 {
    (a & b) ^ (a & c) ^ (b & c)
}

/// Number of zero bytes between the `0x80` marker and the length field, so that
/// the padded message is a whole number of 64-byte blocks.
pub open spec fn zero_pad_len(len: nat) -> nat {
    ((119 - (len % 64) as int) % 64) as nat
}

/// Big-endian bytes of a 64-bit value.
pub open spec fn be64(v: u64) -> Seq<u8> {
    seq![
        (v >> 56u64) as u8, (v >> 48u64) as u8, (v >> 40u64) as u8, (v >> 32u64) as u8,
        (v >> 24u64) as u8, (v >> 16u64) as u8, (v >> 8u64) as u8, v as u8,
    ]
}

/// The padded message: data, `0x80`, zeros, and the bit length in big-endian.
pub open spec fn padded(data: Seq<u8>) -> Seq<u8> {
    data + seq![0x80u8] + Seq::new(zero_pad_len(data.len()), |i: int| 0u8) + be64(
        (data.len() * 8) as u64,
    )
}

/// The `j`-th big-endian 32-bit word of a block.
pub open spec fn word(block: Seq<u8>, j: int) -> u32 {
    ((block[4 * j] as u32) << 24u32) | ((block[4 * j + 1] as u32) << 16u32) | ((block[4 * j
        + 2] as u32) << 8u32) | (block[4 * j + 3] as u32)
}

/// The message schedule `W_i` of a block.
pub open spec fn schedule(block: Seq<u8>, i: int) -> u32
    decreases i,
{
    if i < 16 {
        word(block, i)
    } else {
        wadd(
            wadd(
                wadd(schedule(block, i - 16), small_sigma0(schedule(block, i - 15))),
                schedule(block, i - 7),
            ),
            small_sigma1(schedule(block, i - 2)),
        )
    }
}

/// One compression round on the working variables `a..h`.
pub open spec fn round(s: Seq<u32>, w: u32, k: u32) -> Seq<u32> {
    let t1 = wadd(wadd(wadd(wadd(s[7], big_sigma1(s[4])), choose_bits(s[4], s[5], s[6])), k), w);
    let t2 = wadd(big_sigma0(s[0]), majority(s[0], s[1], s[2]));
    seq![wadd(t1, t2), s[0], s[1], s[2], wadd(s[3], t1), s[4], s[5], s[6]]
}

/// The working variables after the first `i` rounds on a block.
pub open spec fn rounds(s: Seq<u32>, block: Seq<u8>, i: int) -> Seq<u32>
    decreases i,
{
    if i <= 0 {
        s
    } else {
        round(rounds(s, block, i - 1), schedule(block, i - 1), K@[i - 1])
    }
}

/// The hash value after processing one block.
pub open spec fn compress(h: Seq<u32>, block: Seq<u8>) -> Seq<u32> {
    let s = rounds(h, block, 64);
    Seq::new(8, |j: int| wadd(h[j], s[j]))
}

/// The `c`-th 64-byte block of a message.
pub open spec fn block_at(p: Seq<u8>, c: int) -> Seq<u8> {
    p.subrange(64 * c, 64 * c + 64)
}

/// The hash value after processing the first `n` blocks of a padded message.
pub open spec fn hash_blocks(p: Seq<u8>, n: int) -> Seq<u32>
    decreases n,
{
    if n <= 0 {
        H0@
    } else {
        compress(hash_blocks(p, n - 1), block_at(p, n - 1))
    }
}

/// The big-endian bytes of the eight hash words.
pub open spec fn digest_bytes(h: Seq<u32>) -> Seq<u8> {
    Seq::new(32, |i: int| (h[i / 4] >> (24 - 8 * (i % 4)) as u32) as u8)
}

/// The SHA-256 digest of a byte string.
pub open spec fn sha256_spec(data: Seq<u8>) -> Seq<u8> {
    let p = padded(data);
    digest_bytes(hash_blocks(p, (p.len() / 64) as int))
}

proof fn lemma_padded_len(len: nat)
    ensures
        (len + 1 + zero_pad_len(len) + 8) % 64 == 0,
        len + 1 + zero_pad_len(len) + 8 >= 64,
{
    let r = len % 64;
    assert(len == 64 * (len / 64) + r) by (nonlinear_arith)
        requires r == len % 64;
    assert(0 <= r < 64);
    if r <= 55 {
        assert(zero_pad_len(len) == 55 - r);
    } else {
        assert(zero_pad_len(len) == 119 - r);
    }
    assert((len + 1 + zero_pad_len(len) + 8) % 64 == 0) by (nonlinear_arith)
        requires
            len == 64 * (len / 64) + r,
            r <= 55 ==> zero_pad_len(len) == 55 - r,
            r > 55 ==> zero_pad_len(len) == 119 - r,
            0 <= r < 64,
    ;
}

fn rotr_exec(x: u32, n: u32) -> (r: u32)
    requires
        0 < n < 32,
    ensures
        r == rotr(x, n),
{
    (x >> n) | (x << (32 - n))
}

/// Builds the padded message.
fn pad(data: &[u8]) -> (p: Vec<u8>)
    requires
        data@.len() * 8 <= u64::MAX,
    ensures
        p@ == padded(data@),
        p@.len() % 64 == 0,
{
    let mut p: Vec<u8> = Vec::new();
    let n = data.len();
    for i in 0..n
        invariant
            n == data@.len(),
            p@ == data@.take(i as int),
    {
        p.push(data[i]);
        assert(data@.take(i + 1) =~= data@.take(i as int).push(data@[i as int]));
    }
    assert(data@.take(n as int) =~= data@);
    p.push(0x80u8);
    let z: usize = (119 - n % 64) % 64;
    assert(z == zero_pad_len(data@.len()));
    for j in 0..z
        invariant
            p@ == data@ + seq![0x80u8] + Seq::new(j as nat, |i: int| 0u8),
    {
        p.push(0u8);
        assert(Seq::new((j + 1) as nat, |i: int| 0u8) =~= Seq::new(j as nat, |i: int| 0u8).push(
            0u8,
        ));
        assert(data@ + seq![0x80u8] + Seq::new((j + 1) as nat, |i: int| 0u8) =~= (data@ + seq![
            0x80u8,
        ] + Seq::new(j as nat, |i: int| 0u8)).push(0u8));
    }
    let ml: u64 = (n as u64) * 8;
    p.push((ml >> 56u64) as u8);
    p.push((ml >> 48u64) as u8);
    p.push((ml >> 40u64) as u8);
    p.push((ml >> 32u64) as u8);
    p.push((ml >> 24u64) as u8);
    p.push((ml >> 16u64) as u8);
    p.push((ml >> 8u64) as u8);
    p.push(ml as u8);
    assert(p@ =~= padded(data@));
    proof {
        lemma_padded_len(data@.len());
    }
    p
}

/// Computes the message schedule of the block starting at `off`.
fn message_schedule(p: &Vec<u8>, off: usize) -> (w: Vec<u32>)
    requires
        off + 64 <= p@.len(),
    ensures
        w@.len() == 64,
        forall|i: int| 0 <= i < 64 ==> w@[i] == schedule(p@.subrange(off as int, off + 64), i),
{
    let ghost block = p@.subrange(off as int, off + 64);
    let plen = p.len();
    let mut w: Vec<u32> = Vec::new();
    for j in 0..16
        invariant
            plen == p@.len(),
            off + 64 <= p@.len(),
            block == p@.subrange(off as int, off + 64),
            w@.len() == j,
            forall|i: int| 0 <= i < j ==> w@[i] == schedule(block, i),
    {
        let b0 = p[off + 4 * j];
        let b1 = p[off + 4 * j + 1];
        let b2 = p[off + 4 * j + 2];
        let b3 = p[off + 4 * j + 3];
        let v: u32 = ((b0 as u32) << 24u32) | ((b1 as u32) << 16u32) | ((b2 as u32) << 8u32) | (
        b3 as u32);
        assert(v == word(block, j as int));
        w.push(v);
    }
    for i in 16..64
        invariant
            w@.len() == i,
            forall|t: int| 0 <= t < i ==> w@[t] == schedule(block, t),
    {
        let x15 = w[i - 15];
        let x2 = w[i - 2];
        let s0 = rotr_exec(x15, 7) ^ rotr_exec(x15, 18) ^ (x15 >> 3u32);
        let s1 = rotr_exec(x2, 17) ^ rotr_exec(x2, 19) ^ (x2 >> 10u32);
        let v = w[i - 16].wrapping_add(s0).wrapping_add(w[i - 7]).wrapping_add(s1);
        assert(x15 == schedule(block, i - 15));
        assert(x2 == schedule(block, i - 2));
        assert(w@[i - 16] == schedule(block, i - 16));
        assert(w@[i - 7] == schedule(block, i - 7));
        assert(s0 == small_sigma0(x15));
        assert(s1 == small_sigma1(x2));
        assert(v == schedule(block, i as int));
        w.push(v);
    }
    w
}

/// Runs the 64 rounds and adds the result into `h`.
fn compress_block(h: &mut Vec<u32>, p: &Vec<u8>, off: usize)
    requires
        old(h)@.len() == 8,
        off + 64 <= p@.len(),
    ensures
        final(h)@ == compress(old(h)@, p@.subrange(off as int, off + 64)),
{
    let ghost block = p@.subrange(off as int, off + 64);
    let w = message_schedule(p, off);
    let mut a = h[0];
    let mut b = h[1];
    let mut c = h[2];
    let mut d = h[3];
    let mut e = h[4];
    let mut f = h[5];
    let mut g = h[6];
    let mut hh = h[7];
    assert(seq![a, b, c, d, e, f, g, hh] =~= rounds(h@, block, 0));
    for i in 0..64
        invariant
            h@.len() == 8,
            w@.len() == 64,
            forall|t: int| 0 <= t < 64 ==> w@[t] == schedule(block, t),
            seq![a, b, c, d, e, f, g, hh] == rounds(h@, block, i as int),
    {
        let s1 = rotr_exec(e, 6) ^ rotr_exec(e, 11) ^ rotr_exec(e, 25);
        let ch = (e & f) ^ ((!e) & g);
        let temp1 = hh.wrapping_add(s1).wrapping_add(ch).wrapping_add(K[i]).wrapping_add(w[i]);
        let s0 = rotr_exec(a, 2) ^ rotr_exec(a, 13) ^ rotr_exec(a, 22);
        let maj = (a & b) ^ (a & c) ^ (b & c);
        let temp2 = s0.wrapping_add(maj);
        let ghost prev = seq![a, b, c, d, e, f, g, hh];
        hh = g;
        g = f;
        f = e;
        e = d.wrapping_add(temp1);
        d = c;
        c = b;
        b = a;
        a = temp1.wrapping_add(temp2);
        assert(seq![a, b, c, d, e, f, g, hh] =~= round(prev, schedule(block, i as int), K@[i as int]));
    }
    let ghost s = rounds(old(h)@, block, 64);
    let ghost h_in = h@;
    h.set(0, h[0].wrapping_add(a));
    h.set(1, h[1].wrapping_add(b));
    h.set(2, h[2].wrapping_add(c));
    h.set(3, h[3].wrapping_add(d));
    h.set(4, h[4].wrapping_add(e));
    h.set(5, h[5].wrapping_add(f));
    h.set(6, h[6].wrapping_add(g));
    h.set(7, h[7].wrapping_add(hh));
    assert(h@ =~= compress(h_in, block));
}

/// Computes the SHA-256 digest of `data`.
pub fn sha256(data: &[u8]) -> (r: [u8; 32])
    requires
        data@.len() * 8 <= u64::MAX,
    ensures
        r@ == sha256_spec(data@),
{
    let p = pad(data);
    let nblocks = p.len() / 64;
    let mut h: Vec<u32> = Vec::new();
    for j in 0..8
        invariant
            h@ == H0@.take(j as int),
    {
        h.push(H0[j]);
        assert(H0@.take(j + 1) =~= H0@.take(j as int).push(H0@[j as int]));
    }
    assert(H0@.take(8) =~= H0@);
    let plen = p.len();
    for c in 0..nblocks
        invariant
            plen == p@.len(),
            nblocks == p@.len() / 64,
            p@.len() % 64 == 0,
            h@ == hash_blocks(p@, c as int),
            h@.len() == 8,
    {
        assert(64 * c + 64 <= p@.len()) by (nonlinear_arith)
            requires
                c < nblocks,
                plen == p@.len(),
                nblocks == p@.len() / 64,
                p@.len() % 64 == 0,
        ;
        compress_block(&mut h, &p, 64 * c);
    }
    let mut r = [0u8; 32];
    for i in 0..8
        invariant
            h@.len() == 8,
            h@ == hash_blocks(p@, nblocks as int),
            forall|t: int| 0 <= t < 4 * i ==> r@[t] == digest_bytes(h@)[t],
    {
        let v = h[i];
        r[4 * i] = (v >> 24u32) as u8;
        r[4 * i + 1] = (v >> 16u32) as u8;
        r[4 * i + 2] = (v >> 8u32) as u8;
        r[4 * i + 3] = v as u8;
        assert forall|t: int| 0 <= t < 4 * i + 4 implies r@[t] == digest_bytes(h@)[t] by {
            if t >= 4 * i {
                assert(t / 4 == i);
                assert(t % 4 == t - 4 * i);
                if t == 4 * i {
                    assert((24 - 8 * (t % 4)) as u32 == 24u32);
                } else if t == 4 * i + 1 {
                    assert((24 - 8 * (t % 4)) as u32 == 16u32);
                } else if t == 4 * i + 2 {
                    assert((24 - 8 * (t % 4)) as u32 == 8u32);
                } else {
                    assert((24 - 8 * (t % 4)) as u32 == 0u32);
                    assert(v >> 0u32 == v) by (bit_vector);
                }
            }
        }
    }
    assert(r@ =~= digest_bytes(h@));
    r
}

} // verus!

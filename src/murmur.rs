use vstd::prelude::*;

verus! {

/// Initial state of the hash before the length is mixed in (`-1756908916` as `i32`).
pub const SEED: u32 = 0x9747_b28c;

/// Multiplier used by every mixing step.
pub const M: u32 = 0x5bd1_e995;

/// Right shift applied when scrambling a block.
pub const R: u32 = 24;

/// The little-endian value of four bytes, `b0` least significant.
pub open spec fn le_word(b0: u8, b1: u8, b2: u8, b3: u8) -> u32 {
    (b0 + 0x100 * b1 + 0x1_0000 * b2 + 0x100_0000 * b3) as u32
}

/// The `i`-th four-byte block of `s`, read little-endian.
pub open spec fn block_word(s: Seq<u8>, i: int) -> u32 {
    le_word(s[4 * i], s[4 * i + 1], s[4 * i + 2], s[4 * i + 3])
}

/// Scrambles one block before it is folded into the hash.
pub open spec fn scramble(k: u32) -> u32 {
    let k1 = k.wrapping_mul(M);
    let k2 = k1 ^ (k1 >> R);
    k2.wrapping_mul(M)
}

/// Folds a block word into the running hash.
pub open spec fn mix_block(h: u32, k: u32) -> u32 {
    h.wrapping_mul(M) ^ scramble(k)
}

/// The running hash after the first `n` whole blocks of `s`.
pub open spec fn hash_blocks(s: Seq<u8>, n: nat) -> u32
    decreases n,
{
    if n == 0 {
        SEED ^ (s.len() as u32)
    } else {
        mix_block(hash_blocks(s, (n - 1) as nat), block_word(s, n - 1))
    }
}

/// Folds the `s.len() % 4` bytes after the last whole block into `h`,
/// highest offset first, then multiplies once if there were any.
pub open spec fn mix_tail(h: u32, s: Seq<u8>) -> u32 {
    let rem = s.len() % 4;
    let base = s.len() - rem;
    if rem == 3 {
        (h ^ ((s[base + 2] as u32) << 16u32) ^ ((s[base + 1] as u32) << 8u32) ^ (
        s[base] as u32)).wrapping_mul(M)
    } else if rem == 2 {
        (h ^ ((s[base + 1] as u32) << 8u32) ^ (s[base] as u32)).wrapping_mul(M)
    } else if rem == 1 {
        (h ^ (s[base] as u32)).wrapping_mul(M)
    } else {
        h
    }
}

/// Final avalanche of the hash bits.
pub open spec fn finalize(h: u32) -> u32 {
    let h1 = h ^ (h >> 13u32);
    let h2 = h1.wrapping_mul(M);
    h2 ^ (h2 >> 15u32)
}

/// The 32-bit MurmurHash2 of `s`, as an unsigned bit pattern.
pub open spec fn murmur2_bits(s: Seq<u8>) -> u32 {
    finalize(mix_tail(hash_blocks(s, s.len() / 4), s))
}

/// The 32-bit MurmurHash2 of `s`, read as a two's-complement signed value.
pub open spec fn hash32(s: Seq<u8>) -> i32 {
    murmur2_bits(s) as i32
}

/// Reads four bytes as a little-endian word, summing the shifted bytes.
fn read_le_word(b0: u8, b1: u8, b2: u8, b3: u8) -> (w: u32)
    ensures
        w == le_word(b0, b1, b2, b3),
{
    let p1 = b0 as u32;
    let p2 = (b1 as u32) << 8u32;
    let p3 = (b2 as u32) << 16u32;
    let p4 = (b3 as u32) << 24u32;
    proof {
        assert(p2 == 0x100 * b1) by (bit_vector)
            requires
                p2 == (b1 as u32) << 8u32,
        ;
        assert(p3 == 0x1_0000 * b2) by (bit_vector)
            requires
                p3 == (b2 as u32) << 16u32,
        ;
        assert(p4 == 0x100_0000 * b3) by (bit_vector)
            requires
                p4 == (b3 as u32) << 24u32,
        ;
    }
    p1 + p2 + p3 + p4
}

/// Computes the 32-bit MurmurHash2 of `data`, with seed `0x9747b28c`,
/// as used by Kafka's default partitioner.
pub fn murmur2(data: &[u8]) -> (hash: i32)
    ensures
        hash == hash32(data@),
{
    let length = data.len();
    let nblocks = length / 4;
    let mut h: u32 = SEED ^ (length as u32);
    let mut i: usize = 0;
    while i < nblocks
        invariant
            length == data@.len(),
            nblocks == length / 4,
            i <= nblocks,
            h == hash_blocks(data@, i as nat),
        decreases nblocks - i,
    {
        let j = 4 * i;
        let mut k = read_le_word(data[j], data[j + 1], data[j + 2], data[j + 3]);
        k = k.wrapping_mul(M);
        k = k ^ (k >> R);
        k = k.wrapping_mul(M);
        h = h.wrapping_mul(M);
        h = h ^ k;
        i = i + 1;
    }
    let rem = length % 4;
    let base = length - rem;
    if rem == 3 {
        h = h ^ ((data[base + 2] as u32) << 16u32);
        h = h ^ ((data[base + 1] as u32) << 8u32);
        h = h ^ (data[base] as u32);
        h = h.wrapping_mul(M);
    } else if rem == 2 {
        h = h ^ ((data[base + 1] as u32) << 8u32);
        h = h ^ (data[base] as u32);
        h = h.wrapping_mul(M);
    } else if rem == 1 {
        h = h ^ (data[base] as u32);
        h = h.wrapping_mul(M);
    }
    h = h ^ (h >> 13u32);
    h = h.wrapping_mul(M);
    h = h ^ (h >> 15u32);
    h as i32
}

} // verus!

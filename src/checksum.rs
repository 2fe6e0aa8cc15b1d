//! Adler-32 and CRC-32 as incremental folds over byte sequences.

use vstd::prelude::*;

verus! {

/// The modulus of both Adler-32 sums.
pub const ADLER_MOD: u64 = 65521;

/// The two running sums of Adler-32 after folding `data` onto `(s1, s2)`.
pub open spec fn adler_sums(s1: int, s2: int, data: Seq<u8>) -> (int, int)
    decreases data.len(),
{
    if data.len() == 0 {
        (s1, s2)
    } else {
        let prev = adler_sums(s1, s2, data.drop_last());
        let a = (prev.0 + data.last()) % 65521;
        (a, (a + prev.1) % 65521)
    }
}

/// Adler-32 of `data`, continuing from the packed checksum `adler`
/// (high half: second sum, low half: first sum).
pub open spec fn adler32_spec(adler: u64, data: Seq<u8>) -> u64 {
    if data.len() == 0 {
        adler
    } else {
        let s = adler_sums((adler & 0xffff) as int, (adler >> 16) as int, data);
        (s.1 * 65536 + s.0) as u64
    }
}

proof fn lemma_adler_sums_bounded(s1: int, s2: int, data: Seq<u8>)
    requires
        data.len() > 0,
    ensures
        0 <= adler_sums(s1, s2, data).0 < 65521,
        0 <= adler_sums(s1, s2, data).1 < 65521,
    decreases data.len(),
{
}

proof fn lemma_adler_sums_append(s1: int, s2: int, a: Seq<u8>, b: Seq<u8>)
    ensures
        adler_sums(s1, s2, a + b) == ({
            let m = adler_sums(s1, s2, a);
            adler_sums(m.0, m.1, b)
        }),
    decreases b.len(),
{
    if b.len() == 0 {
        assert(a + b =~= a);
    } else {
        assert((a + b).drop_last() =~= a + b.drop_last());
        lemma_adler_sums_append(s1, s2, a, b.drop_last());
    }
}

proof fn lemma_pack_sums(s1: u64, s2: u64)
    requires
        s1 < 0x10000,
        s2 < 0x10000,
    ensures
        ((s2 * 65536 + s1) as u64) & 0xffff == s1,
        ((s2 * 65536 + s1) as u64) >> 16 == s2,
{
    let p: u64 = ((s2 * 65536 + s1) as u64);
    assert(p == ((s2 << 16) + s1) as u64) by (bit_vector)
        requires
            s1 < 0x10000,
            s2 < 0x10000,
            p == ((s2 * 65536 + s1) as u64),
    ;
    assert(p & 0xffff == s1 && p >> 16 == s2) by (bit_vector)
        requires
            s1 < 0x10000,
            s2 < 0x10000,
            p == ((s2 << 16) + s1) as u64,
    ;
}

/// Adler-32 over two chunks, the second continuing from the first's result,
/// equals Adler-32 over their concatenation in one call.
pub proof fn lemma_adler32_chunked(adler: u64, a: Seq<u8>, b: Seq<u8>)
    ensures
        adler32_spec(adler32_spec(adler, a), b) == adler32_spec(adler, a + b),
{
    if a.len() == 0 {
        assert(a + b =~= b);
    } else if b.len() == 0 {
        assert(a + b =~= a);
    } else {
        let s1 = (adler & 0xffff) as int;
        let s2 = (adler >> 16) as int;
        let m = adler_sums(s1, s2, a);
        lemma_adler_sums_bounded(s1, s2, a);
        lemma_pack_sums(m.0 as u64, m.1 as u64);
        lemma_adler_sums_append(s1, s2, a, b);
    }
}

/// Folds `data` into the Adler-32 checksum `adler` (1 starts a new checksum).
pub fn mz_adler32_oxide(adler: u64, data: &[u8]) -> (r: u64)
    ensures
        r == adler32_spec(adler, data@),
{
    let mut s1: u64 = adler & 0xffff;
    let mut s2: u64 = adler >> 16;
    proof {
        assert(s1 < 0x10000 && s2 < 0x1_0000_0000_0000) by (bit_vector)
            requires
                s1 == adler & 0xffff,
                s2 == adler >> 16,
        ;
        assert(data@.take(0) =~= Seq::<u8>::empty());
    }
    let mut i: usize = 0;
    while i < data.len()
        invariant
            i <= data@.len(),
            s1 < 0x10000,
            s2 < 0x1_0000_0000_0000,
            (s1 as int, s2 as int) == adler_sums(
                (adler & 0xffff) as int,
                (adler >> 16) as int,
                data@.take(i as int),
            ),
        decreases data@.len() - i,
    {
        s1 = (s1 + data[i] as u64) % ADLER_MOD;
        s2 = (s1 + s2) % ADLER_MOD;
        proof {
            assert(data@.take(i + 1).drop_last() =~= data@.take(i as int));
        }
        i = i + 1;
    }
    proof {
        assert(data@.take(i as int) =~= data@);
    }
    if data.len() == 0 {
        proof {
            assert(((adler >> 16) << 16) + (adler & 0xffff) == adler) by (bit_vector);
        }
        (s2 << 16) + s1
    } else {
        proof {
            assert((s2 << 16) + s1 == s2 * 65536 + s1) by (bit_vector)
                requires
                    s1 < 0x10000,
                    s2 < 0x10000,
            ;
        }
        (s2 << 16) + s1
    }
}

/// The nibble table of the reflected CRC-32 polynomial 0xEDB88320: entry
/// `i` is four register steps from `i`.
pub open spec fn crc_table_spec(i: u32) -> u32 {
    if i == 0 { 0 }
    else if i == 1 { 0x1db71064 }
    else if i == 2 { 0x3b6e20c8 }
    else if i == 3 { 0x26d930ac }
    else if i == 4 { 0x76dc4190 }
    else if i == 5 { 0x6b6b51f4 }
    else if i == 6 { 0x4db26158 }
    else if i == 7 { 0x5005713c }
    else if i == 8 { 0xedb88320 }
    else if i == 9 { 0xf00f9344 }
    else if i == 10 { 0xd6d6a3e8 }
    else if i == 11 { 0xcb61b38c }
    else if i == 12 { 0x9b64c2b0 }
    else if i == 13 { 0x86d3d2d4 }
    else if i == 14 { 0xa00ae278 }
    else { 0xbdbdf21c }
}

fn crc_table(i: u32) -> (r: u32)
    requires
        i < 16,
    ensures
        r == crc_table_spec(i),
{
    if i == 0 { 0 }
    else if i == 1 { 0x1db71064 }
    else if i == 2 { 0x3b6e20c8 }
    else if i == 3 { 0x26d930ac }
    else if i == 4 { 0x76dc4190 }
    else if i == 5 { 0x6b6b51f4 }
    else if i == 6 { 0x4db26158 }
    else if i == 7 { 0x5005713c }
    else if i == 8 { 0xedb88320 }
    else if i == 9 { 0xf00f9344 }
    else if i == 10 { 0xd6d6a3e8 }
    else if i == 11 { 0xcb61b38c }
    else if i == 12 { 0x9b64c2b0 }
    else if i == 13 { 0x86d3d2d4 }
    else if i == 14 { 0xa00ae278 }
    else { 0xbdbdf21c }
}

/// One shift-and-reduce step of the CRC register by the reflected
/// polynomial 0xEDB88320.
#[verifier::inline]
pub open spec fn crc_bit(c: u32) -> u32 {
    if c & 1 == 1 {
        (c >> 1) ^ 0xedb88320u32
    } else {
        c >> 1
    }
}

/// Four register steps.
#[verifier::inline]
pub open spec fn crc_bits4(c: u32) -> u32 {
    crc_bit(crc_bit(crc_bit(crc_bit(c))))
}

/// The CRC register after one byte: the byte enters the low end of the
/// register, then eight register steps.
pub open spec fn crc_byte(c: u32, b: u8) -> u32 {
    crc_bits4(crc_bits4(c ^ (b as u32)))
}

proof fn lemma_crc_table(i: u32)
    requires
        i < 16,
    ensures
        crc_table_spec(i) == crc_bits4(i),
{
    if i == 0 { assert(crc_bits4(0u32) == 0u32) by (bit_vector); }
    else if i == 1 { assert(crc_bits4(1u32) == 0x1db71064u32) by (bit_vector); }
    else if i == 2 { assert(crc_bits4(2u32) == 0x3b6e20c8u32) by (bit_vector); }
    else if i == 3 { assert(crc_bits4(3u32) == 0x26d930acu32) by (bit_vector); }
    else if i == 4 { assert(crc_bits4(4u32) == 0x76dc4190u32) by (bit_vector); }
    else if i == 5 { assert(crc_bits4(5u32) == 0x6b6b51f4u32) by (bit_vector); }
    else if i == 6 { assert(crc_bits4(6u32) == 0x4db26158u32) by (bit_vector); }
    else if i == 7 { assert(crc_bits4(7u32) == 0x5005713cu32) by (bit_vector); }
    else if i == 8 { assert(crc_bits4(8u32) == 0xedb88320u32) by (bit_vector); }
    else if i == 9 { assert(crc_bits4(9u32) == 0xf00f9344u32) by (bit_vector); }
    else if i == 10 { assert(crc_bits4(10u32) == 0xd6d6a3e8u32) by (bit_vector); }
    else if i == 11 { assert(crc_bits4(11u32) == 0xcb61b38cu32) by (bit_vector); }
    else if i == 12 { assert(crc_bits4(12u32) == 0x9b64c2b0u32) by (bit_vector); }
    else if i == 13 { assert(crc_bits4(13u32) == 0x86d3d2d4u32) by (bit_vector); }
    else if i == 14 { assert(crc_bits4(14u32) == 0xa00ae278u32) by (bit_vector); }
    else { assert(crc_bits4(15u32) == 0xbdbdf21cu32) by (bit_vector); }
}

/// A table step with nibble `n` is four register steps after `n` enters
/// the register.
proof fn lemma_crc_nibble(c: u32, n: u32)
    requires
        n < 16,
    ensures
        (c >> 4) ^ crc_table_spec((c & 0xf) ^ n) == crc_bits4(c ^ n),
{
    assert((c & 0xf) ^ n < 16) by (bit_vector)
        requires
            n < 16,
    ;
    lemma_crc_table((c & 0xf) ^ n);
    let x: u32 = c ^ n;
    assert((c & 0xf) ^ n == x & 0xf && c >> 4 == x >> 4) by (bit_vector)
        requires
            n < 16,
            x == c ^ n,
    ;
    assert(crc_bits4(x) == (x >> 4) ^ crc_bits4(x & 0xf)) by (bit_vector);
}

/// The two table steps of a byte are its eight register steps.
proof fn lemma_crc_byte_by_table(c: u32, b: u8)
    ensures
        ({
            let c1 = (c >> 4) ^ crc_table_spec((c & 0xf) ^ ((b & 0xf) as u32));
            (c1 >> 4) ^ crc_table_spec((c1 & 0xf) ^ ((b >> 4) as u32))
        }) == crc_byte(c, b),
{
    let lo: u32 = (b & 0xf) as u32;
    let hi: u32 = (b >> 4) as u32;
    assert(lo < 16 && hi < 16 && (b as u32) == lo ^ (hi << 4)) by (bit_vector)
        requires
            lo == (b & 0xf) as u32,
            hi == (b >> 4) as u32,
    ;
    lemma_crc_nibble(c, lo);
    let c1 = crc_bits4(c ^ lo);
    lemma_crc_nibble(c1, hi);
    let y: u32 = c ^ lo;
    assert(crc_bits4(y ^ (hi << 4)) == crc_bits4(y) ^ hi) by (bit_vector)
        requires
            hi < 16,
    ;
    assert(c ^ (b as u32) == y ^ (hi << 4)) by (bit_vector)
        requires
            y == c ^ lo,
            (b as u32) == lo ^ (hi << 4),
    ;
}

/// The CRC register after folding `data` onto `c`.
pub open spec fn crc_fold(c: u32, data: Seq<u8>) -> u32
    decreases data.len(),
{
    if data.len() == 0 {
        c
    } else {
        crc_byte(crc_fold(c, data.drop_last()), data.last())
    }
}

/// CRC-32 of `data`, continuing from the finished checksum `crc` (0 starts a
/// new checksum): the register holds the complement of the checksum.
pub open spec fn crc32_spec(crc: u32, data: Seq<u8>) -> u32 {
    !crc_fold(!crc, data)
}

proof fn lemma_crc_fold_append(c: u32, a: Seq<u8>, b: Seq<u8>)
    ensures
        crc_fold(c, a + b) == crc_fold(crc_fold(c, a), b),
    decreases b.len(),
{
    if b.len() == 0 {
        assert(a + b =~= a);
    } else {
        assert((a + b).drop_last() =~= a + b.drop_last());
        lemma_crc_fold_append(c, a, b.drop_last());
    }
}

/// CRC-32 over two chunks, the second continuing from the first's result,
/// equals CRC-32 over their concatenation in one call.
pub proof fn lemma_crc32_chunked(crc: u32, a: Seq<u8>, b: Seq<u8>)
    ensures
        crc32_spec(crc32_spec(crc, a), b) == crc32_spec(crc, a + b),
{
    let m = crc_fold(!crc, a);
    assert(!(!m) == m) by (bit_vector);
    lemma_crc_fold_append(!crc, a, b);
}

/// Folds `data` into the CRC-32 checksum `crc32` (0 starts a new checksum).
pub fn mz_crc32_oxide(crc32: u32, data: &[u8]) -> (r: u32)
    ensures
        r == crc32_spec(crc32, data@),
{
    let mut c: u32 = !crc32;
    let mut i: usize = 0;
    proof {
        assert(data@.take(0) =~= Seq::<u8>::empty());
    }
    while i < data.len()
        invariant
            i <= data@.len(),
            c == crc_fold(!crc32, data@.take(i as int)),
        decreases data@.len() - i,
    {
        let b: u8 = data[i];
        let lo: u32 = ((c & 0xf) ^ ((b & 0xf) as u32));
        proof {
            assert((c & 0xf) ^ ((b & 0xf) as u32) < 16) by (bit_vector);
        }
        let ghost c0 = c;
        c = (c >> 4) ^ crc_table(lo);
        let hi: u32 = ((c & 0xf) ^ ((b >> 4) as u32));
        proof {
            assert((c & 0xf) ^ ((b >> 4) as u32) < 16) by (bit_vector);
        }
        c = (c >> 4) ^ crc_table(hi);
        proof {
            lemma_crc_byte_by_table(c0, b);
            assert(data@.take(i + 1).drop_last() =~= data@.take(i as int));
        }
        i = i + 1;
    }
    proof {
        assert(data@.take(i as int) =~= data@);
    }
    !c
}

} // verus!

//! The DEFLATE engines of `miniz_oxide`, seen through the few calls that the
//! stream layer makes. Both engine states are opaque: what the stream layer
//! relies on is stated over the counts and buffers each call hands back.

use vstd::prelude::*;

verus! {

#[verifier::external_type_specification]
#[verifier::external_body]
pub struct ExDecompressorOxide(miniz_oxide::inflate::core::DecompressorOxide);

#[verifier::external_type_specification]
#[verifier::external_body]
pub struct ExCompressorOxide(miniz_oxide::deflate::core::CompressorOxide);

/// The dictionary probe count for each compression level 0 to 10.
pub open spec fn num_probes_spec(i: int) -> u32 {
    if i == 0 { 0 }
    else if i == 1 { 1 }
    else if i == 2 { 6 }
    else if i == 3 { 32 }
    else if i == 4 { 16 }
    else if i == 5 { 32 }
    else if i == 6 { 128 }
    else if i == 7 { 256 }
    else if i == 8 { 512 }
    else if i == 9 { 768 }
    else { 1500 }
}

/// The compressor flags derived from zlib-style parameters: the probe count
/// of the level (clamped to 10, default level 6 when negative), greedy
/// parsing up to level 3, the zlib header for positive window bits, then
/// stored blocks only at level 0, or else the strategy's flag (filtered 1,
/// Huffman-only 2 clears the probe count, RLE 3, fixed blocks 4).
pub open spec fn comp_flags_spec(level: i32, window_bits: i32, strategy: i32) -> u32 {
    let idx = if level >= 0 {
        if level > 10 { 10 } else { level as int }
    } else {
        6
    };
    let base = num_probes_spec(idx) | (if level <= 3 { 0x4000u32 } else { 0u32 }) | (
    if window_bits > 0 { 0x1000u32 } else { 0u32 });
    if level == 0 {
        base | 0x8_0000
    } else if strategy == 1 {
        base | 0x2_0000
    } else if strategy == 2 {
        base & !0xfffu32
    } else if strategy == 4 {
        base | 0x4_0000
    } else if strategy == 3 {
        base | 0x1_0000
    } else {
        base
    }
}

/// Relies on `DecompressorOxide::new`: a decompressor at the start of a stream.
#[verifier::external_body]
pub(crate) fn new_decompressor() -> (r: miniz_oxide::inflate::core::DecompressorOxide) {
    miniz_oxide::inflate::core::DecompressorOxide::new()
}

/// Relies on `miniz_oxide::inflate::core::decompress`, handed `out` from
/// `start` on with write position `pos`: the engine sees the bytes from
/// `start` to `start + pos` as the output decoded before, and nothing earlier.
/// It reads a prefix of `input`, writes only over the bytes it reports as
/// written, from `start + pos` on, and reports the engine status (-4 to 2),
/// the bytes read and the bytes written. "Needs more input" (1) comes only
/// once the whole input is read; "has more output" (2) only once the output
/// is full.
#[verifier::external_body]
pub(crate) fn decompress_into(
    r: &mut miniz_oxide::inflate::core::DecompressorOxide,
    input: &[u8],
    out: &mut Vec<u8>,
    start: usize,
    pos: usize,
    flags: u32,
) -> (res: (i32, usize, usize))
    requires
        start <= old(out)@.len(),
        pos <= old(out)@.len() - start,
    ensures
        -4 <= res.0 <= 2,
        res.1 <= input@.len(),
        res.2 <= old(out)@.len() - start - pos,
        res.0 == 1 ==> res.1 == input@.len(),
        res.0 == 2 ==> res.2 == old(out)@.len() - start - pos,
        final(out)@.len() == old(out)@.len(),
        final(out)@.subrange(0, start + pos) == old(out)@.subrange(0, start + pos),
        final(out)@.subrange(start + pos + res.2, old(out)@.len() as int) == old(out)@.subrange(
            start + pos + res.2,
            old(out)@.len() as int,
        ),
{
    let (status, in_bytes, out_bytes) = miniz_oxide::inflate::core::decompress(
        r,
        input,
        &mut out[start..],
        pos,
        flags,
    );
    (status as i32, in_bytes, out_bytes)
}

/// Relies on `DecompressorOxide::adler32`: the running Adler-32 of the
/// decompressed data, once a zlib header has been read.
#[verifier::external_body]
pub(crate) fn decompressor_adler32(r: &miniz_oxide::inflate::core::DecompressorOxide) -> (res: Option<u32>) {
    r.adler32()
}

/// Relies on `create_comp_flags_from_zip_params`: the flags as
/// `comp_flags_spec` derives them, which carry the zlib-header flag (0x1000)
/// exactly when `window_bits` is positive.
#[verifier::external_body]
pub(crate) fn comp_flags_from_zip_params(level: i32, window_bits: i32, strategy: i32) -> (r: u32)
    ensures
        r == comp_flags_spec(level, window_bits, strategy),
        (r & 0x1000 != 0) == (window_bits > 0),
{
    miniz_oxide::deflate::core::create_comp_flags_from_zip_params(level, window_bits, strategy)
}

/// Relies on `CompressorOxide::new`: a compressor at the start of a stream.
#[verifier::external_body]
pub(crate) fn new_compressor(flags: u32) -> (r: miniz_oxide::deflate::core::CompressorOxide) {
    miniz_oxide::deflate::core::CompressorOxide::new(flags)
}

/// Relies on `miniz_oxide::deflate::core::compress`: it reads a prefix of
/// `input`, writes into `out` from `out_pos` on, and reports the engine
/// status (-2 to 1), the bytes read and the bytes written. `flush` is one of
/// the zlib flush modes 0 (none) to 4 (finish). The engine may use the whole
/// of `out` past `out_pos` as scratch space, so nothing is claimed of the
/// bytes there beyond those it reports.
#[verifier::external_body]
pub(crate) fn compress_into(
    d: &mut miniz_oxide::deflate::core::CompressorOxide,
    input: &[u8],
    out: &mut Vec<u8>,
    out_pos: usize,
    flush: i32,
) -> (res: (i32, usize, usize))
    requires
        out_pos <= old(out)@.len(),
        0 <= flush <= 4,
    ensures
        -2 <= res.0 <= 1,
        res.1 <= input@.len(),
        res.2 <= old(out)@.len() - out_pos,
        final(out)@.len() == old(out)@.len(),
        final(out)@.subrange(0, out_pos as int) == old(out)@.subrange(0, out_pos as int),
{
    let mode = match flush {
        0 => miniz_oxide::deflate::core::TDEFLFlush::None,
        1 => miniz_oxide::deflate::core::TDEFLFlush::Partial,
        2 => miniz_oxide::deflate::core::TDEFLFlush::Sync,
        3 => miniz_oxide::deflate::core::TDEFLFlush::Full,
        _ => miniz_oxide::deflate::core::TDEFLFlush::Finish,
    };
    let (status, in_bytes, out_bytes) = miniz_oxide::deflate::core::compress(
        d,
        input,
        &mut out[out_pos..],
        mode,
    );
    (status as i32, in_bytes, out_bytes)
}

/// Relies on `CompressorOxide::adler32`: the running Adler-32 of the input
/// compressed so far.
#[verifier::external_body]
pub(crate) fn compressor_adler32(d: &miniz_oxide::deflate::core::CompressorOxide) -> (r: u32) {
    d.adler32()
}

/// Relies on `CompressorOxide::reset`: back to the start of a stream, with
/// the same parameters.
#[verifier::external_body]
pub(crate) fn compressor_reset(d: &mut miniz_oxide::deflate::core::CompressorOxide) {
    d.reset()
}

} // verus!

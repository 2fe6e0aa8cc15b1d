//! Compression over a stream handle: init, the process call that drives the
//! encoder engine over the caller's buffers, reset, end, and a one-shot
//! helper.

use vstd::prelude::*;
use crate::engine::comp_flags_from_zip_params;
use crate::engine::comp_flags_spec;
use crate::engine::compress_into;
use crate::engine::compressor_adler32;
use crate::engine::compressor_reset;
use crate::engine::new_compressor;
use crate::stream::MZ_OK;
use crate::stream::MZ_STREAM_END;
use crate::stream::MZ_STREAM_ERROR;
use crate::stream::MZ_MEM_ERROR;
use crate::stream::MZ_BUF_ERROR;
use crate::stream::MZ_PARAM_ERROR;
use crate::stream::MZ_NO_FLUSH;
use crate::stream::MZ_PARTIAL_FLUSH;
use crate::stream::MZ_SYNC_FLUSH;
use crate::stream::MZ_FINISH;
use crate::stream::MZ_DEFLATED;
use crate::stream::MZ_DEFAULT_WINDOW_BITS;
use crate::stream::MZ_DEFAULT_STRATEGY;
use crate::stream::MZ_ADLER32_INIT;
use crate::stream::TDEFL_STATUS_DONE;
use crate::stream::TDEFL_STATUS_OKAY;
use crate::stream::TDEFL_COMPUTE_ADLER32;
use crate::stream::TDEFL_WRITE_ZLIB_HEADER;
use crate::stream::AllocFunc;
use crate::stream::FreeFunc;
use crate::stream::DeflateState;
use crate::stream::LoopStep;
use crate::stream::StreamOxide;
use crate::stream::ended;
use crate::stream::advanced;
use crate::stream::miniz_def_alloc_func;
use crate::stream::miniz_def_free_func;
use crate::stream::alloc_state;

verus! {

/// The init parameters that are refused: a method other than DEFLATE, a
/// memory level outside 1 to 9, window bits other than 15 (zlib) or -15 (raw).
pub open spec fn deflate_params_invalid(method: i32, window_bits: i32, mem_level: i32) -> bool {
    method != MZ_DEFLATED || mem_level < 1 || mem_level > 9 || (window_bits
        != MZ_DEFAULT_WINDOW_BITS && window_bits != -MZ_DEFAULT_WINDOW_BITS)
}

/// Prepares `stream` for compression at `level` with the given framing and
/// strategy. Refused parameters give `MZ_PARAM_ERROR`. A fresh encoder is
/// asked of the allocation hook (the default one where none is set); if the
/// hook has no memory the result is `MZ_MEM_ERROR`. Both failures leave the
/// stream untouched. On success the checksum restarts, the totals are zeroed,
/// the default hooks are installed where none is set, and the stream owns a
/// fresh encoder made with the flags `miniz_oxide` derives from the
/// parameters, plus a running Adler-32.
pub fn mz_deflate_init2_oxide(
    stream: &mut StreamOxide<DeflateState>,
    level: i32,
    method: i32,
    window_bits: i32,
    mem_level: i32,
    strategy: i32,
) -> (r: i32)
    ensures
        deflate_params_invalid(method, window_bits, mem_level) ==> r == MZ_PARAM_ERROR,
        !deflate_params_invalid(method, window_bits, mem_level) ==> (r == MZ_OK || r
            == MZ_MEM_ERROR) && ((r == MZ_OK) == (old(stream).alloc != Some(
            AllocFunc::Exhausted,
        ))),
        r != MZ_OK ==> *final(stream) == *old(stream),
        r == MZ_OK ==> deflate_initialized(
            *old(stream),
            *final(stream),
            TDEFL_COMPUTE_ADLER32 | comp_flags_spec(level, window_bits, strategy),
        ),
        r == MZ_OK ==> (final(stream).state->Some_0.flags & TDEFL_WRITE_ZLIB_HEADER != 0) == (
        window_bits > 0),
{
    if method != MZ_DEFLATED || mem_level < 1 || mem_level > 9 || (window_bits
        != MZ_DEFAULT_WINDOW_BITS && window_bits != -MZ_DEFAULT_WINDOW_BITS) {
        return MZ_PARAM_ERROR;
    }
    let alloc = match stream.alloc {
        Some(a) => a,
        None => miniz_def_alloc_func(),
    };
    if !alloc_state(alloc) {
        return MZ_MEM_ERROR;
    }
    let zip_flags: u32 = comp_flags_from_zip_params(level, window_bits, strategy);
    let comp_flags: u32 = TDEFL_COMPUTE_ADLER32 | zip_flags;
    assert((comp_flags & 0x1000 != 0) == (zip_flags & 0x1000 != 0)) by (bit_vector)
        requires
            comp_flags == 0x2000 | zip_flags,
    ;
    stream.adler = MZ_ADLER32_INIT;
    stream.total_in = 0;
    stream.total_out = 0;
    stream.set_alloc_if_none(miniz_def_alloc_func());
    stream.set_free_if_none(miniz_def_free_func());
    stream.state = Some(
        DeflateState {
            comp: new_compressor(comp_flags),
            flags: comp_flags,
            last_status: TDEFL_STATUS_OKAY,
        },
    );
    MZ_OK
}

/// `s1` is `s0` after a successful init with encoder flags `flags`: the
/// checksum of no data, zero totals, the same buffers and positions, default
/// hooks where none was set, and a fresh encoder.
pub open spec fn deflate_initialized(
    s0: StreamOxide<DeflateState>,
    s1: StreamOxide<DeflateState>,
    flags: u32,
) -> bool {
    &&& s1.adler == MZ_ADLER32_INIT
    &&& s1.total_in == 0
    &&& s1.total_out == 0
    &&& s1.next_in == s0.next_in
    &&& s1.in_pos == s0.in_pos
    &&& s1.next_out == s0.next_out
    &&& s1.out_pos == s0.out_pos
    &&& s1.alloc == if s0.alloc is None {
        Some(AllocFunc::Heap)
    } else {
        s0.alloc
    }
    &&& s1.free == if s0.free is None {
        Some(FreeFunc::Heap)
    } else {
        s0.free
    }
    &&& s1.state matches Some(st)
    &&& st.flags == flags
    &&& st.last_status == TDEFL_STATUS_OKAY
}

/// `mz_deflate_init2_oxide` with zlib framing, the default memory level and
/// the default strategy.
pub fn mz_deflate_init_oxide(stream: &mut StreamOxide<DeflateState>, level: i32) -> (r: i32)
    ensures
        r == MZ_OK || r == MZ_MEM_ERROR,
        (r == MZ_OK) == (old(stream).alloc != Some(AllocFunc::Exhausted)),
        r != MZ_OK ==> *final(stream) == *old(stream),
        r == MZ_OK ==> deflate_initialized(
            *old(stream),
            *final(stream),
            TDEFL_COMPUTE_ADLER32 | comp_flags_spec(level, MZ_DEFAULT_WINDOW_BITS, MZ_DEFAULT_STRATEGY),
        ),
        r == MZ_OK ==> (final(stream).state->Some_0.flags & TDEFL_WRITE_ZLIB_HEADER != 0),
{
    mz_deflate_init2_oxide(stream, level, MZ_DEFLATED, MZ_DEFAULT_WINDOW_BITS, 9, MZ_DEFAULT_STRATEGY)
}

/// The flush mode handed to the encoder engine: `MZ_PARTIAL_FLUSH` counts as
/// `MZ_SYNC_FLUSH`.
pub open spec fn deflate_engine_flush_spec(flush: i32) -> i32 {
    if flush == MZ_PARTIAL_FLUSH {
        MZ_SYNC_FLUSH
    } else {
        flush
    }
}

/// The encoder engine's flush mode for a process call.
pub fn deflate_engine_flush(flush: i32) -> (r: i32)
    ensures
        r == deflate_engine_flush_spec(flush),
{
    if flush == MZ_PARTIAL_FLUSH {
        MZ_SYNC_FLUSH
    } else {
        flush
    }
}

/// The result of a call on a stream whose encoder has already finished: the
/// end again for `MZ_FINISH`, a buffer error otherwise.
pub open spec fn deflate_done_spec(flush: i32) -> i32 {
    if flush == MZ_FINISH {
        MZ_STREAM_END
    } else {
        MZ_BUF_ERROR
    }
}

/// The process result once the encoder has finished.
pub fn deflate_done_status(flush: i32) -> (r: i32)
    ensures
        r == deflate_done_spec(flush),
{
    if flush == MZ_FINISH {
        MZ_STREAM_END
    } else {
        MZ_BUF_ERROR
    }
}

/// What the encode loop does after an engine call that left status `status`,
/// given what is left of input and output, the flush mode, whether the
/// process call has moved any bytes yet, and whether this engine call moved
/// any: a failure is a stream error, the engine's end is the stream's end, a
/// full output is success short of `MZ_FINISH` and a buffer error with it,
/// and a loop that would go on after a call that moved nothing reports a
/// buffer error.
pub open spec fn deflate_step_spec(
    status: i32,
    avail_in: usize,
    avail_out: usize,
    flush: i32,
    progressed: bool,
    moved: bool,
) -> LoopStep {
    if status < 0 {
        LoopStep::Return(MZ_STREAM_ERROR)
    } else if status == TDEFL_STATUS_DONE {
        LoopStep::Return(MZ_STREAM_END)
    } else if avail_out == 0 {
        LoopStep::Return(if flush == MZ_FINISH { MZ_BUF_ERROR } else { MZ_OK })
    } else if avail_in == 0 && flush != MZ_FINISH {
        if flush != MZ_NO_FLUSH || progressed {
            LoopStep::Return(MZ_OK)
        } else {
            LoopStep::Return(MZ_BUF_ERROR)
        }
    } else if !moved {
        LoopStep::Return(MZ_BUF_ERROR)
    } else {
        LoopStep::Continue
    }
}

/// The encode loop's decision after one engine call.
pub fn deflate_loop_step(
    status: i32,
    avail_in: usize,
    avail_out: usize,
    flush: i32,
    progressed: bool,
    moved: bool,
) -> (r: LoopStep)
    ensures
        r == deflate_step_spec(status, avail_in, avail_out, flush, progressed, moved),
{
    if status < 0 {
        LoopStep::Return(MZ_STREAM_ERROR)
    } else if status == TDEFL_STATUS_DONE {
        LoopStep::Return(MZ_STREAM_END)
    } else if avail_out == 0 {
        LoopStep::Return(if flush == MZ_FINISH { MZ_BUF_ERROR } else { MZ_OK })
    } else if avail_in == 0 && flush != MZ_FINISH {
        if flush != MZ_NO_FLUSH || progressed {
            LoopStep::Return(MZ_OK)
        } else {
            LoopStep::Return(MZ_BUF_ERROR)
        }
    } else if !moved {
        LoopStep::Return(MZ_BUF_ERROR)
    } else {
        LoopStep::Continue
    }
}

/// The reason an encode call is refused before any work, if there is one.
pub open spec fn deflate_refusal(s: StreamOxide<DeflateState>, flush: i32) -> Option<i32> {
    if s.state is None {
        Some(MZ_STREAM_ERROR)
    } else if flush < 0 || flush > MZ_FINISH || s.next_in is None || s.next_out is None {
        Some(MZ_STREAM_ERROR)
    } else if s.avail_out() == 0 {
        Some(MZ_BUF_ERROR)
    } else {
        None
    }
}

/// The encode work of one process call, on buffers taken out of the stream,
/// with an encoder that has not finished.
fn deflate_buffers(
    stream: &mut StreamOxide<DeflateState>,
    st: &mut DeflateState,
    input: &Vec<u8>,
    out: &mut Vec<u8>,
    flush: i32,
) -> (r: i32)
    requires
        0 <= flush <= MZ_FINISH,
        flush != MZ_PARTIAL_FLUSH,
        old(st).last_status != TDEFL_STATUS_DONE,
        old(stream).in_pos <= input@.len(),
        old(stream).out_pos < old(out)@.len(),
        old(stream).total_in + (input@.len() - old(stream).in_pos) <= u64::MAX,
        old(stream).total_out + (old(out)@.len() - old(stream).out_pos) <= u64::MAX,
    ensures
        advanced(*old(stream), *final(stream), input@.len() as int, old(out)@, final(out)@),
        final(st).flags == old(st).flags,
        r == MZ_OK || r == MZ_STREAM_END || r == MZ_BUF_ERROR || r == MZ_STREAM_ERROR,
        r == MZ_STREAM_END <==> final(st).last_status == TDEFL_STATUS_DONE,
        r == MZ_STREAM_ERROR ==> final(st).last_status < 0,
        r == MZ_OK ==> flush != MZ_FINISH && (final(stream).out_pos == final(out)@.len() || final(stream).in_pos == input@.len()),
{
    let ghost s0 = *stream;
    let ghost out0 = out@;
    let in_len: usize = input.len();
    let out_len: usize = out.len();
    let original_total_in: u64 = stream.total_in;
    let original_total_out: u64 = stream.total_out;
    loop
        invariant
            in_len == input@.len(),
            out_len == out@.len(),
            0 <= flush <= MZ_FINISH,
            s0 == *old(stream),
            out0 == old(out)@,
            st.flags == old(st).flags,
            st.last_status != TDEFL_STATUS_DONE,
            original_total_in == s0.total_in,
            original_total_out == s0.total_out,
            advanced(s0, *stream, in_len as int, out0, out@),
            stream.out_pos < out_len,
            s0.total_in + (in_len - s0.in_pos) <= u64::MAX,
            s0.total_out + (out_len - s0.out_pos) <= u64::MAX,
        decreases (in_len - stream.in_pos) + (out_len - stream.out_pos),
    {
        let rest = vstd::slice::slice_subrange(input.as_slice(), stream.in_pos, in_len);
        let ghost prev = out@;
        let (status, in_bytes, out_bytes) = compress_into(
            &mut st.comp,
            rest,
            out,
            stream.out_pos,
            flush,
        );
        proof {
            assert(out@.subrange(0, s0.out_pos as int) =~= prev.subrange(0, s0.out_pos as int));
        }
        st.last_status = status;
        stream.in_pos = stream.in_pos + in_bytes;
        stream.total_in = stream.total_in + in_bytes as u64;
        stream.out_pos = stream.out_pos + out_bytes;
        stream.total_out = stream.total_out + out_bytes as u64;
        stream.adler = compressor_adler32(&st.comp) as u64;
        let progressed: bool = stream.total_in != original_total_in || stream.total_out
            != original_total_out;
        match deflate_loop_step(
            status,
            in_len - stream.in_pos,
            out_len - stream.out_pos,
            flush,
            progressed,
            in_bytes != 0 || out_bytes != 0,
        ) {
            LoopStep::Return(code) => {
                return code;
            },
            LoopStep::Stop => {
                return MZ_OK;
            },
            LoopStep::Continue => {},
        }
    }
}

/// Compresses from the stream's input, from its read position, into its
/// output, from its write position, under flush mode `flush` (`MZ_NO_FLUSH`
/// to `MZ_FINISH`, handed to the engine as `deflate_engine_flush` says). The
/// engine is called until it fails, finishes, fills the output, or (short of
/// `MZ_FINISH`) runs out of input, and the result follows
/// `deflate_loop_step`; `MZ_OK` means the output filled or the input ran out
/// short of `MZ_FINISH`. Calls that cannot be served are refused as
/// `deflate_refusal` says, leaving the stream as it was; among them a
/// zero-length output buffer, which gives `MZ_BUF_ERROR`. Once the encoder
/// has finished, every call gives `deflate_done_status` and changes nothing.
pub fn mz_deflate_oxide(stream: &mut StreamOxide<DeflateState>, flush: i32) -> (r: i32)
    requires
        old(stream).wf(),
        old(stream).total_in + old(stream).avail_in() <= u64::MAX,
        old(stream).total_out + old(stream).avail_out() <= u64::MAX,
    ensures
        final(stream).wf(),
        r == MZ_OK || r == MZ_STREAM_END || r == MZ_BUF_ERROR || r == MZ_STREAM_ERROR,
        deflate_refusal(*old(stream), flush) matches Some(code) ==> r == code && *final(stream)
            == *old(stream),
        deflate_refusal(*old(stream), flush) is None && old(stream).state->Some_0.last_status
            == TDEFL_STATUS_DONE ==> r == deflate_done_spec(flush) && *final(stream) == *old(stream),
        r == MZ_STREAM_END ==> (final(stream).state matches Some(st) && st.last_status
            == TDEFL_STATUS_DONE),
        r == MZ_STREAM_ERROR ==> deflate_refusal(*old(stream), flush) is Some || (final(
            stream).state matches Some(st) && st.last_status < 0),
        r == MZ_OK ==> flush != MZ_FINISH && (final(stream).avail_out() == 0 || final(stream).avail_in() == 0),
        final(stream).alloc == old(stream).alloc,
        final(stream).free == old(stream).free,
        final(stream).next_in == old(stream).next_in,
        final(stream).state is Some == old(stream).state is Some,
        final(stream).state matches Some(st) ==> st.flags == old(stream).state->Some_0.flags,
        old(stream).in_pos <= final(stream).in_pos,
        final(stream).total_in - old(stream).total_in == final(stream).in_pos - old(stream).in_pos,
        old(stream).out_pos <= final(stream).out_pos,
        final(stream).total_out - old(stream).total_out == final(stream).out_pos - old(
            stream,
        ).out_pos,
        old(stream).next_out is None ==> final(stream).next_out is None,
        old(stream).next_out matches Some(o) ==> (final(stream).next_out matches Some(f) && f@.len()
            == o@.len() && f@.subrange(0, old(stream).out_pos as int) == o@.subrange(
            0,
            old(stream).out_pos as int,
        )),
{
    if stream.state.is_none() {
        return MZ_STREAM_ERROR;
    }
    if flush < 0 || flush > MZ_FINISH || stream.next_in.is_none() || stream.next_out.is_none() {
        return MZ_STREAM_ERROR;
    }
    let out_len: usize = match &stream.next_out {
        Some(v) => v.len(),
        None => 0,
    };
    if out_len == stream.out_pos {
        return MZ_BUF_ERROR;
    }
    let done: bool = match &stream.state {
        Some(st) => st.last_status == TDEFL_STATUS_DONE,
        None => false,
    };
    if done {
        return deflate_done_status(flush);
    }
    let f: i32 = deflate_engine_flush(flush);
    let mut st = stream.state.take().unwrap();
    let input = stream.next_in.take().unwrap();
    let mut out = stream.next_out.take().unwrap();
    let r = deflate_buffers(stream, &mut st, &input, &mut out, f);
    stream.next_in = Some(input);
    stream.next_out = Some(out);
    stream.state = Some(st);
    r
}

/// Releases the encoder state. Always succeeds; on a stream with no state
/// (never initialized, or already ended) it changes nothing.
pub fn mz_deflate_end_oxide(stream: &mut StreamOxide<DeflateState>) -> (r: i32)
    ensures
        r == MZ_OK,
        *final(stream) == ended(*old(stream)),
{
    stream.state = None;
    MZ_OK
}

/// Restarts the encoder of an initialized stream with its parameters kept,
/// and zeroes the totals. A stream without state or hooks is refused with
/// `MZ_STREAM_ERROR` and left untouched.
pub fn mz_deflate_reset_oxide(stream: &mut StreamOxide<DeflateState>) -> (r: i32)
    ensures
        old(stream).state is Some && old(stream).alloc is Some && old(stream).free is Some ==> {
            &&& r == MZ_OK
            &&& final(stream).state matches Some(st)
            &&& st.flags == old(stream).state->Some_0.flags
            &&& st.last_status == TDEFL_STATUS_OKAY
            &&& *final(stream) == (StreamOxide {
                total_in: 0,
                total_out: 0,
                state: final(stream).state,
                ..*old(stream)
            })
        },
        !(old(stream).state is Some && old(stream).alloc is Some && old(stream).free is Some)
            ==> r == MZ_STREAM_ERROR && *final(stream) == *old(stream),
{
    if stream.state.is_some() && stream.alloc.is_some() && stream.free.is_some() {
        stream.total_in = 0;
        stream.total_out = 0;
        let mut st = stream.state.take().unwrap();
        compressor_reset(&mut st.comp);
        st.last_status = TDEFL_STATUS_OKAY;
        stream.state = Some(st);
        MZ_OK
    } else {
        MZ_STREAM_ERROR
    }
}

/// The result of a one-shot compress from the status of its finishing call:
/// the stream's end is success, success short of it means the output was
/// too small, anything else stands.
pub open spec fn compress2_status_spec(finish: i32) -> i32 {
    if finish == MZ_STREAM_END {
        MZ_OK
    } else if finish == MZ_OK {
        MZ_BUF_ERROR
    } else {
        finish
    }
}

/// The one-shot compress result for a finishing call's status.
pub fn compress2_status(finish: i32) -> (r: i32)
    ensures
        r == compress2_status_spec(finish),
        (r == MZ_OK) == (finish == MZ_STREAM_END),
{
    if finish == MZ_STREAM_END {
        MZ_OK
    } else if finish == MZ_OK {
        MZ_BUF_ERROR
    } else {
        finish
    }
}

/// Compresses the whole input into the output in one call at `level` with
/// zlib framing: init, one `MZ_FINISH` call on the fresh encoder, end. The
/// result follows `compress2_status` from that call's status; on success
/// (`MZ_OK`, only when the call reached the stream's end) `dest_len` receives
/// the compressed length, and an output that fills first gives
/// `MZ_BUF_ERROR`.
pub fn mz_compress2_oxide(
    stream: &mut StreamOxide<DeflateState>,
    level: i32,
    dest_len: &mut u64,
) -> (r: i32)
    requires
        old(stream).wf(),
    ensures
        final(stream).wf(),
        r == MZ_OK || r == MZ_MEM_ERROR || r == MZ_BUF_ERROR || r == MZ_STREAM_ERROR,
        (r == MZ_MEM_ERROR) == (old(stream).alloc == Some(AllocFunc::Exhausted)),
        r == MZ_MEM_ERROR ==> *final(stream) == *old(stream),
        r != MZ_MEM_ERROR ==> final(stream).state is None,
        final(stream).next_in == old(stream).next_in,
        r != MZ_MEM_ERROR ==> final(stream).total_in == final(stream).in_pos - old(stream).in_pos,
        r != MZ_MEM_ERROR ==> final(stream).total_out == final(stream).out_pos - old(
            stream,
        ).out_pos,
        r == MZ_OK ==> *final(dest_len) == final(stream).total_out,
        r != MZ_OK ==> *final(dest_len) == *old(dest_len),
        (old(stream).next_in is None || old(stream).next_out is None) && r != MZ_MEM_ERROR ==> r
            == MZ_STREAM_ERROR,
{
    let status = mz_deflate_init_oxide(stream, level);
    if status != MZ_OK {
        return status;
    }
    proof {
        if stream.next_in is Some {
            assert(stream.next_in->Some_0.len() == stream.next_in->Some_0@.len());
        }
        if stream.next_out is Some {
            assert(stream.next_out->Some_0.len() == stream.next_out->Some_0@.len());
        }
    }
    let finish = mz_deflate_oxide(stream, MZ_FINISH);
    mz_deflate_end_oxide(stream);
    let r = compress2_status(finish);
    if r == MZ_OK {
        *dest_len = stream.total_out;
    }
    r
}

} // verus!

//! Decompression over a stream handle: init, the resumable process call that
//! drives the decoder engine through the 32 KiB ring dictionary, end, and a
//! one-shot helper.

use vstd::prelude::*;
use crate::engine::decompress_into;
use crate::engine::decompressor_adler32;
use crate::engine::new_decompressor;
use crate::stream::MZ_OK;
use crate::stream::MZ_STREAM_END;
use crate::stream::MZ_STREAM_ERROR;
use crate::stream::MZ_DATA_ERROR;
use crate::stream::MZ_MEM_ERROR;
use crate::stream::MZ_BUF_ERROR;
use crate::stream::MZ_PARAM_ERROR;
use crate::stream::MZ_NO_FLUSH;
use crate::stream::MZ_PARTIAL_FLUSH;
use crate::stream::MZ_SYNC_FLUSH;
use crate::stream::MZ_FINISH;
use crate::stream::MZ_DEFAULT_WINDOW_BITS;
use crate::stream::TINFL_LZ_DICT_SIZE;
use crate::stream::TINFL_STATUS_FAILED;
use crate::stream::TINFL_STATUS_DONE;
use crate::stream::TINFL_STATUS_NEEDS_MORE_INPUT;
use crate::stream::TINFL_FLAG_PARSE_ZLIB_HEADER;
use crate::stream::TINFL_FLAG_HAS_MORE_INPUT;
use crate::stream::TINFL_FLAG_USING_NON_WRAPPING_OUTPUT_BUF;
use crate::stream::TINFL_FLAG_COMPUTE_ADLER32;
use crate::stream::AllocFunc;
use crate::stream::FreeFunc;
use crate::stream::InflateState;
use crate::stream::LoopStep;
use crate::stream::StreamOxide;
use crate::stream::ended;
use crate::stream::advanced;
use crate::stream::miniz_def_alloc_func;
use crate::stream::miniz_def_free_func;
use crate::stream::alloc_state;

verus! {

/// The status a first `MZ_FINISH` call reports from the one engine call it
/// makes over the caller's whole output buffer.
pub open spec fn inflate_finish_spec(status: i32) -> i32 {
    if status < 0 {
        MZ_DATA_ERROR
    } else if status != TINFL_STATUS_DONE {
        MZ_BUF_ERROR
    } else {
        MZ_STREAM_END
    }
}

/// Status of a single-call decode from the engine status.
pub fn inflate_finish_status(status: i32) -> (r: i32)
    ensures
        r == inflate_finish_spec(status),
{
    if status < 0 {
        MZ_DATA_ERROR
    } else if status != TINFL_STATUS_DONE {
        MZ_BUF_ERROR
    } else {
        MZ_STREAM_END
    }
}

/// What the decode loop does after an engine call that left status `status`,
/// given the input there was at the start of the call, the flush mode, what
/// is left of input and output, the decoded bytes still in the dictionary,
/// and whether the call read or wrote any byte: a loop that would go on
/// after a call that moved nothing reports `MZ_BUF_ERROR` instead.
pub open spec fn inflate_step_spec(
    status: i32,
    orig_avail_in: usize,
    flush: i32,
    avail_in: usize,
    avail_out: usize,
    dict_avail: u32,
    moved: bool,
) -> LoopStep {
    if status < 0 {
        LoopStep::Return(MZ_DATA_ERROR)
    } else if status == TINFL_STATUS_NEEDS_MORE_INPUT && orig_avail_in == 0 {
        LoopStep::Return(MZ_BUF_ERROR)
    } else if flush == MZ_FINISH {
        if status == TINFL_STATUS_DONE {
            LoopStep::Return(if dict_avail != 0 { MZ_BUF_ERROR } else { MZ_STREAM_END })
        } else if avail_out == 0 {
            LoopStep::Return(MZ_BUF_ERROR)
        } else if !moved {
            LoopStep::Return(MZ_BUF_ERROR)
        } else {
            LoopStep::Continue
        }
    } else if status == TINFL_STATUS_DONE || avail_in == 0 || avail_out == 0 || dict_avail != 0 {
        LoopStep::Stop
    } else if !moved {
        LoopStep::Return(MZ_BUF_ERROR)
    } else {
        LoopStep::Continue
    }
}

/// The decode loop's decision after one engine call; `moved` says whether
/// that call read or wrote any byte.
pub fn inflate_loop_step(
    status: i32,
    orig_avail_in: usize,
    flush: i32,
    avail_in: usize,
    avail_out: usize,
    dict_avail: u32,
    moved: bool,
) -> (r: LoopStep)
    ensures
        r == inflate_step_spec(status, orig_avail_in, flush, avail_in, avail_out, dict_avail, moved),
{
    if status < 0 {
        LoopStep::Return(MZ_DATA_ERROR)
    } else if status == TINFL_STATUS_NEEDS_MORE_INPUT && orig_avail_in == 0 {
        LoopStep::Return(MZ_BUF_ERROR)
    } else if flush == MZ_FINISH {
        if status == TINFL_STATUS_DONE {
            LoopStep::Return(if dict_avail != 0 { MZ_BUF_ERROR } else { MZ_STREAM_END })
        } else if avail_out == 0 {
            LoopStep::Return(MZ_BUF_ERROR)
        } else if !moved {
            LoopStep::Return(MZ_BUF_ERROR)
        } else {
            LoopStep::Continue
        }
    } else if status == TINFL_STATUS_DONE || avail_in == 0 || avail_out == 0 || dict_avail != 0 {
        LoopStep::Stop
    } else if !moved {
        LoopStep::Return(MZ_BUF_ERROR)
    } else {
        LoopStep::Continue
    }
}

/// The flags a process call hands the decoder engine: always a running
/// Adler-32; zlib header and trailer exactly when the window bits are
/// positive; more input to come unless the call finishes; and, for a first
/// call that finishes, the caller's buffer as the whole output.
pub open spec fn inflate_flags_spec(window_bits: i32, first_call: bool, flush: i32) -> u32 {
    TINFL_FLAG_COMPUTE_ADLER32 | (if window_bits > 0 {
        TINFL_FLAG_PARSE_ZLIB_HEADER
    } else {
        0
    }) | (if flush != MZ_FINISH {
        TINFL_FLAG_HAS_MORE_INPUT
    } else if first_call {
        TINFL_FLAG_USING_NON_WRAPPING_OUTPUT_BUF
    } else {
        0
    })
}

/// The decoder engine flags for a process call.
pub fn inflate_flags(window_bits: i32, first_call: bool, flush: i32) -> (r: u32)
    ensures
        r == inflate_flags_spec(window_bits, first_call, flush),
        (r & TINFL_FLAG_PARSE_ZLIB_HEADER != 0) == (window_bits > 0),
        (r & TINFL_FLAG_HAS_MORE_INPUT != 0) == (flush != MZ_FINISH),
        (r & TINFL_FLAG_USING_NON_WRAPPING_OUTPUT_BUF != 0) == (flush == MZ_FINISH && first_call),
{
    let header: u32 = if window_bits > 0 { TINFL_FLAG_PARSE_ZLIB_HEADER } else { 0 };
    let mode: u32 = if flush != MZ_FINISH {
        TINFL_FLAG_HAS_MORE_INPUT
    } else if first_call {
        TINFL_FLAG_USING_NON_WRAPPING_OUTPUT_BUF
    } else {
        0
    };
    let r: u32 = TINFL_FLAG_COMPUTE_ADLER32 | header | mode;
    assert(((r & 1 != 0) == (header == 1)) && ((r & 2 != 0) == (mode == 2)) && ((r & 4 != 0) == (
    mode == 4))) by (bit_vector)
        requires
            header == 0 || header == 1,
            mode == 0 || mode == 2 || mode == 4,
            r == 8 | header | mode,
    ;
    r
}

/// Copies `n` dictionary bytes from `ofs` into `out` at `out_pos`.
fn copy_out(dict: &Vec<u8>, ofs: usize, out: &mut Vec<u8>, out_pos: usize, n: usize)
    requires
        ofs + n <= dict@.len(),
        out_pos + n <= old(out)@.len(),
    ensures
        final(out)@ == old(out)@.subrange(0, out_pos as int) + dict@.subrange(
            ofs as int,
            ofs + n,
        ) + old(out)@.subrange(out_pos + n, old(out)@.len() as int),
{
    let dict_len: usize = dict.len();
    let out_len: usize = out.len();
    let mut i: usize = 0;
    while i < n
        invariant
            i <= n,
            ofs + n <= dict_len == dict@.len(),
            out_pos + n <= out_len == old(out)@.len(),
            ofs + n <= dict@.len(),
            out_pos + n <= old(out)@.len(),
            out@.len() == old(out)@.len(),
            forall|k: int| 0 <= k < out_pos ==> out@[k] == old(out)@[k],
            forall|k: int| out_pos + i <= k < out@.len() ==> out@[k] == old(out)@[k],
            forall|k: int| out_pos <= k < out_pos + i ==> out@[k] == dict@[ofs + k - out_pos],
        decreases n - i,
    {
        out[out_pos + i] = dict[ofs + i];
        i = i + 1;
    }
    assert(out@ =~= old(out)@.subrange(0, out_pos as int) + dict@.subrange(ofs as int, ofs + n)
        + old(out)@.subrange(out_pos + n, old(out)@.len() as int));
}

/// The reason a decode call is refused before any work, if there is one.
pub open spec fn inflate_refusal(s: StreamOxide<InflateState>, flush: i32) -> Option<i32> {
    let f = if flush == MZ_PARTIAL_FLUSH { MZ_SYNC_FLUSH } else { flush };
    match s.state {
        None => Some(MZ_STREAM_ERROR),
        Some(st) => {
            if f != MZ_NO_FLUSH && f != MZ_SYNC_FLUSH && f != MZ_FINISH {
                Some(MZ_STREAM_ERROR)
            } else if st.last_status < 0 {
                Some(MZ_DATA_ERROR)
            } else if st.has_flushed && f != MZ_FINISH {
                Some(MZ_STREAM_ERROR)
            } else if s.next_in is None || s.next_out is None {
                Some(MZ_STREAM_ERROR)
            } else if s.avail_out() == 0 {
                Some(MZ_BUF_ERROR)
            } else {
                None
            }
        },
    }
}

/// Prepares `stream` for decoding. `window_bits` 15 reads a zlib header and
/// trailer, -15 raw DEFLATE; anything else is a parameter error. A fresh
/// decoder state is asked of the allocation hook (the default one where none
/// is set); if the hook has no memory the result is `MZ_MEM_ERROR`. Both
/// failures leave the stream untouched. On success the checksum and totals
/// are zeroed, the default hooks are installed where none is set, and the
/// stream owns a fresh decoder state.
pub fn mz_inflate_init2_oxide(stream: &mut StreamOxide<InflateState>, window_bits: i32) -> (r: i32)
    ensures
        window_bits != MZ_DEFAULT_WINDOW_BITS && window_bits != -MZ_DEFAULT_WINDOW_BITS ==> r
            == MZ_PARAM_ERROR,
        window_bits == MZ_DEFAULT_WINDOW_BITS || window_bits == -MZ_DEFAULT_WINDOW_BITS ==> (r
            == MZ_OK || r == MZ_MEM_ERROR) && ((r == MZ_OK) == (old(stream).alloc != Some(
            AllocFunc::Exhausted,
        ))),
        r != MZ_OK ==> *final(stream) == *old(stream),
        r == MZ_OK ==> inflate_initialized(*old(stream), *final(stream), window_bits),
{
    if window_bits != MZ_DEFAULT_WINDOW_BITS && window_bits != -MZ_DEFAULT_WINDOW_BITS {
        return MZ_PARAM_ERROR;
    }
    let alloc = match stream.alloc {
        Some(a) => a,
        None => miniz_def_alloc_func(),
    };
    if !alloc_state(alloc) {
        return MZ_MEM_ERROR;
    }
    stream.adler = 0;
    stream.total_in = 0;
    stream.total_out = 0;
    stream.set_alloc_if_none(miniz_def_alloc_func());
    stream.set_free_if_none(miniz_def_free_func());
    let st = InflateState {
        decomp: new_decompressor(),
        dict: vec![0u8; TINFL_LZ_DICT_SIZE],
        dict_ofs: 0,
        dict_avail: 0,
        produced: Ghost(Seq::empty()),
        last_status: TINFL_STATUS_NEEDS_MORE_INPUT,
        first_call: true,
        has_flushed: false,
        window_bits,
    };
    proof {
        assert(st.dict@.subrange(0, 0) =~= st.produced@.subrange(0, 0));
    }
    stream.state = Some(st);
    MZ_OK
}

/// `s1` is `s0` after a successful init: zero checksum and totals, the same
/// buffers and positions, default hooks where none was set, and a fresh
/// decoder state: nothing decoded or pending, waiting for input, before the
/// first process call.
pub open spec fn inflate_initialized(
    s0: StreamOxide<InflateState>,
    s1: StreamOxide<InflateState>,
    window_bits: i32,
) -> bool {
    &&& s1.adler == 0
    &&& s1.total_in == 0
    &&& s1.total_out == 0
    &&& s1.next_in == s0.next_in
    &&& s1.in_pos == s0.in_pos
    &&& s1.next_out == s0.next_out
    &&& s1.out_pos == s0.out_pos
    &&& s1.alloc == if s0.alloc is None {
        Some(AllocFunc::Heap)
    } else {
        s0.alloc
    }
    &&& s1.free == if s0.free is None {
        Some(FreeFunc::Heap)
    } else {
        s0.free
    }
    &&& s1.state matches Some(st)
    &&& st.wf()
    &&& st.dict_ofs == 0
    &&& st.dict_avail == 0
    &&& st.produced@.len() == 0
    &&& st.last_status == TINFL_STATUS_NEEDS_MORE_INPUT
    &&& st.first_call
    &&& !st.has_flushed
    &&& st.window_bits == window_bits
}

/// `mz_inflate_init2_oxide` with zlib framing.
pub fn mz_inflate_init_oxide(stream: &mut StreamOxide<InflateState>) -> (r: i32)
    ensures
        r == MZ_OK || r == MZ_MEM_ERROR,
        (r == MZ_OK) == (old(stream).alloc != Some(AllocFunc::Exhausted)),
        r != MZ_OK ==> *final(stream) == *old(stream),
        r == MZ_OK ==> inflate_initialized(*old(stream), *final(stream), MZ_DEFAULT_WINDOW_BITS),
{
    mz_inflate_init2_oxide(stream, MZ_DEFAULT_WINDOW_BITS)
}


/// Sets the stream's checksum from the decoder's running Adler-32, once the
/// decoder has one.
fn refresh_adler(stream: &mut StreamOxide<InflateState>, decomp: &miniz_oxide::inflate::core::DecompressorOxide)
    ensures
        *final(stream) == (StreamOxide { adler: final(stream).adler, ..*old(stream) }),
{
    match decompressor_adler32(decomp) {
        Some(a) => {
            stream.adler = a as u64;
        },
        None => {},
    }
}

/// What a process call hands out: the engine's record of decoded bytes only
/// grows; the output gained, at the old write position, exactly the decoded
/// bytes from the first one not yet handed out up to the first one still
/// pending; and the output past the new write position is untouched.
pub open spec fn inflate_delivered(
    st0: InflateState,
    st1: InflateState,
    out0: Seq<u8>,
    out1: Seq<u8>,
    p0: int,
    p1: int,
) -> bool {
    &&& st0.produced@.len() <= st1.produced@.len()
    &&& st1.produced@.subrange(0, st0.produced@.len() as int) == st0.produced@
    &&& st0.delivered() <= st1.delivered()
    &&& p1 - p0 == st1.delivered() - st0.delivered()
    &&& out1.subrange(p0, p1) == st1.produced@.subrange(st0.delivered(), st1.delivered())
    &&& out1.len() == out0.len()
    &&& out1.subrange(p1, out1.len() as int) == out0.subrange(p1, out0.len() as int)
}

/// A call that finds decoded bytes pending in the dictionary hands out as
/// many as fit, from the dictionary offset, and calls no engine: the stream
/// ends there exactly when the engine had finished and all pending bytes fit.
pub open spec fn inflate_drained(
    st0: InflateState,
    st1: InflateState,
    out0: Seq<u8>,
    out1: Seq<u8>,
    p0: int,
    p1: int,
    r: i32,
) -> bool {
    let space = out0.len() - p0;
    let n = if st0.dict_avail < space { st0.dict_avail as int } else { space };
    &&& p1 == p0 + n
    &&& out1.subrange(p0, p1) == st0.dict@.subrange(st0.dict_ofs as int, st0.dict_ofs + n)
    &&& st1.dict_avail == st0.dict_avail - n
    &&& st1.dict_ofs == (st0.dict_ofs + n) % (TINFL_LZ_DICT_SIZE as int)
    &&& r == if st0.last_status == TINFL_STATUS_DONE && st0.dict_avail <= space {
        MZ_STREAM_END
    } else {
        MZ_OK
    }
}

/// What both decode paths keep: the stream advanced as `advanced` says, the
/// output as `inflate_delivered` says, a well-formed state, and the state's
/// call-pattern fields.
pub open spec fn inflate_progress(
    s0: StreamOxide<InflateState>,
    s1: StreamOxide<InflateState>,
    st0: InflateState,
    st1: InflateState,
    in_len: int,
    out0: Seq<u8>,
    out1: Seq<u8>,
) -> bool {
    &&& advanced(s0, s1, in_len, out0, out1)
    &&& inflate_delivered(st0, st1, out0, out1, s0.out_pos as int, s1.out_pos as int)
    &&& st1.wf()
    &&& st1.first_call == st0.first_call
    &&& st1.has_flushed == st0.has_flushed
    &&& st1.window_bits == st0.window_bits
}

proof fn lemma_ring_wrap(a: int)
    requires
        0 <= a <= TINFL_LZ_DICT_SIZE,
    ensures
        a % (TINFL_LZ_DICT_SIZE as int) == if a == TINFL_LZ_DICT_SIZE { 0 } else { a },
{
}

/// The decode work of one process call, on buffers taken out of the stream.
#[verifier::rlimit(60)]
fn inflate_buffers(
    stream: &mut StreamOxide<InflateState>,
    st: &mut InflateState,
    input: &Vec<u8>,
    out: &mut Vec<u8>,
    flush: i32,
    first_call: bool,
) -> (r: i32)
    requires
        old(st).wf(),
        !old(st).first_call,
        first_call ==> old(st).dict_avail == 0,
        flush == MZ_NO_FLUSH || flush == MZ_SYNC_FLUSH || flush == MZ_FINISH,
        old(stream).in_pos <= input@.len(),
        old(stream).out_pos < old(out)@.len(),
        old(stream).total_in + (input@.len() - old(stream).in_pos) <= u64::MAX,
        old(stream).total_out + (old(out)@.len() - old(stream).out_pos) <= u64::MAX,
    ensures
        inflate_progress(
            *old(stream),
            *final(stream),
            *old(st),
            *final(st),
            input@.len() as int,
            old(out)@,
            final(out)@,
        ),
        r == MZ_OK || r == MZ_STREAM_END || r == MZ_BUF_ERROR || r == MZ_DATA_ERROR,
        r == MZ_DATA_ERROR ==> final(st).last_status < 0,
        r == MZ_STREAM_END ==> final(st).last_status == TINFL_STATUS_DONE && final(st).dict_avail
            == 0,
        flush == MZ_FINISH && first_call ==> r != MZ_OK,
        r == MZ_BUF_ERROR ==> final(stream).in_pos == input@.len() || final(stream).out_pos
            == final(out)@.len(),
        r == MZ_OK && old(st).dict_avail == 0 ==> final(stream).in_pos == input@.len() || final(
            stream).out_pos == final(out)@.len() || final(st).dict_avail != 0,
        old(st).dict_avail != 0 ==> final(stream).in_pos == old(stream).in_pos && inflate_drained(
            *old(st),
            *final(st),
            old(out)@,
            final(out)@,
            old(stream).out_pos as int,
            final(stream).out_pos as int,
            r,
        ),
{
    let ghost s0 = *stream;
    let ghost st0 = *st;
    let ghost out0 = out@;
    let in_len: usize = input.len();
    let out_len: usize = out.len();
    let decomp_flags: u32 = inflate_flags(st.window_bits, first_call, flush);
    let orig_avail_in: usize = in_len - stream.in_pos;
    if flush == MZ_FINISH && first_call {
        let rest = vstd::slice::slice_subrange(input.as_slice(), stream.in_pos, in_len);
        let pos: usize = stream.out_pos;
        let (status, in_bytes, out_bytes) = decompress_into(
            &mut st.decomp,
            rest,
            out,
            pos,
            0,
            decomp_flags,
        );
        st.produced = Ghost(st.produced@ + out@.subrange(pos as int, pos + out_bytes));
        proof {
            let p0 = st0.produced@;
            assert(st.produced@.subrange(0, p0.len() as int) =~= p0);
            assert(st.produced@.subrange(p0.len() as int, st.produced@.len() as int)
                =~= out@.subrange(pos as int, pos + out_bytes));
            assert(st.dict@.subrange(st.dict_ofs as int, st.dict_ofs as int) =~= st.produced@.subrange(
                st.produced@.len() as int,
                st.produced@.len() as int,
            ));
        }
        st.last_status = status;
        stream.in_pos = stream.in_pos + in_bytes;
        stream.total_in = stream.total_in + in_bytes as u64;
        stream.out_pos = stream.out_pos + out_bytes;
        stream.total_out = stream.total_out + out_bytes as u64;
        refresh_adler(stream, &st.decomp);
        let r = inflate_finish_status(status);
        if r == MZ_BUF_ERROR {
            st.last_status = TINFL_STATUS_FAILED;
        }
        return r;
    }
    if st.dict_avail != 0 {
        let ofs: usize = st.dict_ofs as usize;
        let avail: usize = st.dict_avail as usize;
        let pos: usize = stream.out_pos;
        let space: usize = out_len - pos;
        let n: usize = if avail < space { avail } else { space };
        let ghost prev = out@;
        copy_out(&st.dict, ofs, out, pos, n);
        proof {
            let pr = st.produced@;
            let d0 = st0.delivered();
            assert(out@.subrange(0, pos as int) =~= prev.subrange(0, pos as int));
            assert(out@.subrange(pos as int, pos + n) =~= st.dict@.subrange(ofs as int, ofs + n));
            assert(st.dict@.subrange(ofs as int, ofs + n) =~= st.dict@.subrange(
                ofs as int,
                ofs + avail,
            ).subrange(0, n as int));
            assert(pr.subrange(d0, d0 + n) =~= pr.subrange(d0, pr.len() as int).subrange(0, n as int));
            assert(out@.subrange(pos + n, out@.len() as int) =~= prev.subrange(
                pos + n,
                prev.len() as int,
            ));
            assert(pr.subrange(0, pr.len() as int) =~= pr);
            lemma_ring_wrap(ofs + n);
            if ofs + n < TINFL_LZ_DICT_SIZE {
                assert(st.dict@.subrange(ofs + n, ofs + avail) =~= st.dict@.subrange(
                    ofs as int,
                    ofs + avail,
                ).subrange(n as int, avail as int));
                assert(pr.subrange(d0 + n, pr.len() as int) =~= pr.subrange(
                    d0,
                    pr.len() as int,
                ).subrange(n as int, avail as int));
            } else {
                assert(st.dict@.subrange(0, 0) =~= pr.subrange(pr.len() as int, pr.len() as int));
            }
        }
        stream.out_pos = pos + n;
        stream.total_out = stream.total_out + n as u64;
        st.dict_avail = (avail - n) as u32;
        st.dict_ofs = ((ofs + n) % TINFL_LZ_DICT_SIZE) as u32;
        return if st.last_status == TINFL_STATUS_DONE && st.dict_avail == 0 {
            MZ_STREAM_END
        } else {
            MZ_OK
        };
    }
    proof {
        assert(out@.subrange(s0.out_pos as int, s0.out_pos as int) =~= st.produced@.subrange(
            st0.delivered(),
            st0.delivered(),
        ));
        assert(st.produced@.subrange(0, st.produced@.len() as int) =~= st.produced@);
        assert(out@.subrange(s0.out_pos as int, out@.len() as int) =~= out0.subrange(
            s0.out_pos as int,
            out0.len() as int,
        ));
    }
    loop
        invariant_except_break
            st.dict_avail == 0,
        invariant
            in_len == input@.len(),
            out_len == out@.len(),
            flush == MZ_NO_FLUSH || flush == MZ_SYNC_FLUSH || flush == MZ_FINISH,
            inflate_progress(s0, *stream, st0, *st, in_len as int, out0, out@),
            st0.dict_avail == 0,
            !st0.first_call,
            s0 == *old(stream),
            st0 == *old(st),
            out0 == old(out)@,
            s0.total_in + (in_len - s0.in_pos) <= u64::MAX,
            s0.total_out + (out_len - s0.out_pos) <= u64::MAX,
        ensures
            st.last_status == TINFL_STATUS_DONE || stream.in_pos == in_len || stream.out_pos
                == out_len || st.dict_avail != 0,
        decreases (in_len - stream.in_pos) + (out_len - stream.out_pos),
    {
        let rest = vstd::slice::slice_subrange(input.as_slice(), stream.in_pos, in_len);
        let ofs: usize = st.dict_ofs as usize;
        let pos: usize = stream.out_pos;
        let ghost pr = st.produced@;
        let (status, in_bytes, out_bytes) = decompress_into(
            &mut st.decomp,
            rest,
            &mut st.dict,
            0,
            ofs,
            decomp_flags,
        );
        st.produced = Ghost(pr + st.dict@.subrange(ofs as int, ofs + out_bytes));
        st.last_status = status;
        stream.in_pos = stream.in_pos + in_bytes;
        stream.total_in = stream.total_in + in_bytes as u64;
        refresh_adler(stream, &st.decomp);
        let space: usize = out_len - pos;
        let n: usize = if out_bytes < space { out_bytes } else { space };
        let ghost prev = out@;
        copy_out(&st.dict, ofs, out, pos, n);
        proof {
            let d = st.dict@;
            let np = st.produced@;
            let d0 = st0.delivered();
            assert(out@.subrange(0, s0.out_pos as int) =~= prev.subrange(0, s0.out_pos as int));
            assert(np.subrange(0, st0.produced@.len() as int) =~= pr.subrange(
                0,
                st0.produced@.len() as int,
            ));
            assert(out@.subrange(s0.out_pos as int, pos + n) =~= prev.subrange(
                s0.out_pos as int,
                pos as int,
            ) + d.subrange(ofs as int, ofs + n));
            assert(np.subrange(d0, pr.len() + n) =~= pr.subrange(d0, pr.len() as int) + d.subrange(
                ofs as int,
                ofs + n,
            ));
            assert(out@.subrange(pos + n, out@.len() as int) =~= prev.subrange(
                pos + n,
                prev.len() as int,
            ));
            assert(prev.subrange(pos + n, prev.len() as int) =~= prev.subrange(
                pos as int,
                prev.len() as int,
            ).subrange(n as int, prev.len() - pos));
            assert(out0.subrange(pos + n, out0.len() as int) =~= out0.subrange(
                pos as int,
                out0.len() as int,
            ).subrange(n as int, out0.len() - pos));
            lemma_ring_wrap(ofs + n);
            if ofs + n < TINFL_LZ_DICT_SIZE {
                assert(d.subrange(ofs + n, ofs + out_bytes) =~= np.subrange(
                    pr.len() + n,
                    np.len() as int,
                ));
            } else {
                assert(d.subrange(0, 0) =~= np.subrange(np.len() as int, np.len() as int));
            }
        }
        stream.out_pos = pos + n;
        stream.total_out = stream.total_out + n as u64;
        st.dict_avail = (out_bytes - n) as u32;
        st.dict_ofs = ((ofs + n) % TINFL_LZ_DICT_SIZE) as u32;
        match inflate_loop_step(
            status,
            orig_avail_in,
            flush,
            in_len - stream.in_pos,
            out_len - stream.out_pos,
            st.dict_avail,
            in_bytes != 0 || out_bytes != 0,
        ) {
            LoopStep::Return(code) => {
                return code;
            },
            LoopStep::Stop => {
                break ;
            },
            LoopStep::Continue => {},
        }
    }
    if st.last_status == TINFL_STATUS_DONE && st.dict_avail == 0 {
        MZ_STREAM_END
    } else {
        MZ_OK
    }
}

/// Decodes from the stream's input into its output. `flush` is
/// `MZ_NO_FLUSH`, `MZ_SYNC_FLUSH` (`MZ_PARTIAL_FLUSH` counts as it) or
/// `MZ_FINISH`; the engine flags follow `inflate_flags`. A first call with
/// `MZ_FINISH` decodes straight into the caller's buffer and must finish
/// there; every other call first hands out decoded bytes still pending in
/// the ring dictionary (and then returns), or else decodes through the
/// dictionary and hands out what fits, keeping the rest for the next call.
/// Either way the output receives the decoded bytes in order, as
/// `inflate_delivered` says. Calls that cannot be served are refused as
/// `inflate_refusal` says, leaving the stream as it was; after an `MZ_FINISH`
/// call only `MZ_FINISH` calls are served; a data error is reported again by
/// every later call. A buffer error means the call was refused or ran out of
/// input or output; success short of the end (with nothing pending before the
/// call) means input or output ran out, or decoded bytes are left pending.
/// The stream's checksum follows the engine's running
/// Adler-32, which the engine reports only for zlib streams: on a raw stream
/// it keeps the value init gave it.
pub fn mz_inflate_oxide(stream: &mut StreamOxide<InflateState>, flush: i32) -> (r: i32)
    requires
        old(stream).wf(),
        old(stream).state matches Some(st) ==> st.wf(),
        old(stream).total_in + old(stream).avail_in() <= u64::MAX,
        old(stream).total_out + old(stream).avail_out() <= u64::MAX,
    ensures
        final(stream).wf(),
        final(stream).state matches Some(st) ==> st.wf(),
        r == MZ_OK || r == MZ_STREAM_END || r == MZ_BUF_ERROR || r == MZ_DATA_ERROR || r
            == MZ_STREAM_ERROR,
        inflate_refusal(*old(stream), flush) matches Some(code) ==> r == code && *final(stream)
            == *old(stream),
        inflate_refusal(*old(stream), flush) is None ==> inflate_served(
            *old(stream),
            *final(stream),
            flush,
            r,
        ),
        final(stream).alloc == old(stream).alloc,
        final(stream).free == old(stream).free,
        final(stream).next_in == old(stream).next_in,
        final(stream).state is Some == old(stream).state is Some,
        old(stream).in_pos <= final(stream).in_pos,
        final(stream).total_in - old(stream).total_in == final(stream).in_pos - old(stream).in_pos,
        old(stream).out_pos <= final(stream).out_pos,
        final(stream).total_out - old(stream).total_out == final(stream).out_pos - old(
            stream,
        ).out_pos,
        old(stream).next_out is None ==> final(stream).next_out is None,
        old(stream).next_out matches Some(o) ==> (final(stream).next_out matches Some(f) && f@.len()
            == o@.len() && f@.subrange(0, old(stream).out_pos as int) == o@.subrange(
            0,
            old(stream).out_pos as int,
        )),
        r == MZ_DATA_ERROR ==> (final(stream).state matches Some(st) && st.last_status < 0),
        r == MZ_STREAM_END ==> (final(stream).state matches Some(st) && st.last_status
            == TINFL_STATUS_DONE && st.dict_avail == 0),
        (old(stream).state matches Some(st) && st.first_call) && flush == MZ_FINISH ==> r != MZ_OK,
        r == MZ_BUF_ERROR ==> inflate_refusal(*old(stream), flush) is Some || final(stream).avail_in()
            == 0 || final(stream).avail_out() == 0,
        r == MZ_OK && old(stream).state->Some_0.dict_avail == 0 ==> final(stream).avail_in() == 0
            || final(stream).avail_out() == 0 || final(stream).state->Some_0.dict_avail != 0,
{
    let f: i32 = if flush == MZ_PARTIAL_FLUSH { MZ_SYNC_FLUSH } else { flush };
    match &stream.state {
        None => {
            return MZ_STREAM_ERROR;
        },
        Some(st) => {
            if f != MZ_NO_FLUSH && f != MZ_SYNC_FLUSH && f != MZ_FINISH {
                return MZ_STREAM_ERROR;
            }
            if st.last_status < 0 {
                return MZ_DATA_ERROR;
            }
            if st.has_flushed && f != MZ_FINISH {
                return MZ_STREAM_ERROR;
            }
        },
    }
    if stream.next_in.is_none() || stream.next_out.is_none() {
        return MZ_STREAM_ERROR;
    }
    let out_len: usize = match &stream.next_out {
        Some(v) => v.len(),
        None => 0,
    };
    if out_len == stream.out_pos {
        return MZ_BUF_ERROR;
    }
    let mut st = stream.state.take().unwrap();
    let input = stream.next_in.take().unwrap();
    let mut out = stream.next_out.take().unwrap();
    let first_call = st.first_call;
    st.first_call = false;
    if f == MZ_FINISH {
        st.has_flushed = true;
    }
    let r = inflate_buffers(stream, &mut st, &input, &mut out, f, first_call);
    stream.next_in = Some(input);
    stream.next_out = Some(out);
    stream.state = Some(st);
    r
}

/// What a served decode call (one not refused) guarantees: the call-pattern
/// flags updated (no longer a first call; flushed once an `MZ_FINISH` call
/// came), the decoded bytes handed out in order, and, where bytes were
/// pending, the exact outcome `inflate_drained` gives.
pub open spec fn inflate_served(
    s0: StreamOxide<InflateState>,
    s1: StreamOxide<InflateState>,
    flush: i32,
    r: i32,
) -> bool {
    let st0 = s0.state->Some_0;
    let st1 = s1.state->Some_0;
    let out0 = s0.next_out->Some_0@;
    let out1 = s1.next_out->Some_0@;
    &&& s1.state is Some
    &&& s1.next_out is Some
    &&& !st1.first_call
    &&& st1.has_flushed == (st0.has_flushed || flush == MZ_FINISH)
    &&& st1.window_bits == st0.window_bits
    &&& inflate_delivered(st0, st1, out0, out1, s0.out_pos as int, s1.out_pos as int)
    &&& st0.dict_avail != 0 ==> s1.in_pos == s0.in_pos && inflate_drained(
        st0,
        st1,
        out0,
        out1,
        s0.out_pos as int,
        s1.out_pos as int,
        r,
    )
}

/// The pieces joined in order.
pub open spec fn joined(pieces: Seq<Seq<u8>>) -> Seq<u8>
    decreases pieces.len(),
{
    if pieces.len() == 0 {
        Seq::empty()
    } else {
        joined(pieces.drop_last()) + pieces.last()
    }
}

/// One process call's piece of output, as `inflate_delivered` gives it: the
/// decoded record only grew, and the piece is the decoded bytes from the
/// first not yet handed out to the first still pending.
pub open spec fn delivery_step(st0: InflateState, st1: InflateState, piece: Seq<u8>) -> bool {
    &&& st0.produced@.len() <= st1.produced@.len()
    &&& st1.produced@.subrange(0, st0.produced@.len() as int) == st0.produced@
    &&& st0.delivered() <= st1.delivered()
    &&& st1.dict_avail <= st1.produced@.len()
    &&& piece == st1.produced@.subrange(st0.delivered(), st1.delivered())
}

/// Decoding through any number of process calls, whatever the size of each
/// call's output buffer, hands out the decoded bytes in order: starting from
/// a fresh state, the pieces the calls wrote, joined, are exactly the first
/// bytes the engine decoded, all but those still pending (none, once the
/// stream has ended).
pub proof fn lemma_pieces_in_order(states: Seq<InflateState>, pieces: Seq<Seq<u8>>)
    requires
        states.len() == pieces.len() + 1,
        states[0].produced@.len() == 0,
        states[0].dict_avail == 0,
        forall|i: int| 0 <= i < pieces.len() ==> delivery_step(states[i], states[i + 1], pieces[i]),
    ensures
        joined(pieces) == states.last().produced@.subrange(0, states.last().delivered()),
    decreases pieces.len(),
{
    if pieces.len() == 0 {
        assert(states.last() == states[0]);
        assert(joined(pieces) =~= states.last().produced@.subrange(0, states.last().delivered()));
    } else {
        let n = pieces.len() - 1;
        let ss = states.drop_last();
        let ps = pieces.drop_last();
        assert forall|i: int| 0 <= i < ps.len() implies delivery_step(ss[i], ss[i + 1], ps[i]) by {
            assert(delivery_step(states[i], states[i + 1], pieces[i]));
        }
        lemma_pieces_in_order(ss, ps);
        let a = states[n];
        let b = states[n + 1];
        assert(delivery_step(a, b, pieces[n]));
        assert(ss.last() == a);
        assert(states.last() == b);
        assert(a.produced@.subrange(0, a.delivered()) =~= b.produced@.subrange(0, a.delivered()));
        assert(joined(pieces) =~= b.produced@.subrange(0, b.delivered()));
    }
}

/// Releases the decoder state. Always succeeds; on a stream with no state
/// (never initialized, or already ended) it changes nothing.
pub fn mz_inflate_end_oxide(stream: &mut StreamOxide<InflateState>) -> (r: i32)
    ensures
        r == MZ_OK,
        *final(stream) == ended(*old(stream)),
{
    stream.state = None;
    MZ_OK
}


/// The result of a one-shot decode from the status of its finishing call and
/// the input left after it: the stream's end is success, a buffer error with
/// no input left means the data ended early, anything else stands.
pub open spec fn uncompress2_status_spec(finish: i32, in_left: usize) -> i32 {
    if finish == MZ_STREAM_END {
        MZ_OK
    } else if finish == MZ_BUF_ERROR && in_left == 0 {
        MZ_DATA_ERROR
    } else {
        finish
    }
}

/// The one-shot decode result for a finishing call's status.
pub fn uncompress2_status(finish: i32, in_left: usize) -> (r: i32)
    ensures
        r == uncompress2_status_spec(finish, in_left),
        (r == MZ_OK) == (finish == MZ_STREAM_END || finish == MZ_OK),
{
    if finish == MZ_STREAM_END {
        MZ_OK
    } else if finish == MZ_BUF_ERROR && in_left == 0 {
        MZ_DATA_ERROR
    } else {
        finish
    }
}

/// Decodes the whole input into the output in one call: init with zlib
/// framing, one `MZ_FINISH` decode (which, on a fresh stream, decodes
/// straight into the output and must finish there), end. The result follows
/// `uncompress2_status` from that call's status; on success (`MZ_OK`, only
/// when the call reached the stream's end) `dest_len` receives the decoded
/// length.
pub fn mz_uncompress2_oxide(stream: &mut StreamOxide<InflateState>, dest_len: &mut u64) -> (r: i32)
    requires
        old(stream).wf(),
    ensures
        final(stream).wf(),
        r == MZ_OK || r == MZ_MEM_ERROR || r == MZ_BUF_ERROR || r == MZ_DATA_ERROR || r
            == MZ_STREAM_ERROR,
        (r == MZ_MEM_ERROR) == (old(stream).alloc == Some(AllocFunc::Exhausted)),
        r == MZ_MEM_ERROR ==> *final(stream) == *old(stream),
        r != MZ_MEM_ERROR ==> final(stream).state is None,
        final(stream).next_in == old(stream).next_in,
        r != MZ_MEM_ERROR ==> final(stream).total_in == final(stream).in_pos - old(stream).in_pos,
        r != MZ_MEM_ERROR ==> final(stream).total_out == final(stream).out_pos - old(
            stream,
        ).out_pos,
        r == MZ_OK ==> *final(dest_len) == final(stream).total_out,
        r != MZ_OK ==> *final(dest_len) == *old(dest_len),
        r == MZ_BUF_ERROR ==> final(stream).avail_in() > 0,
        (old(stream).next_in is None || old(stream).next_out is None) && r != MZ_MEM_ERROR ==> r
            == MZ_STREAM_ERROR,
{
    let status = mz_inflate_init_oxide(stream);
    if status != MZ_OK {
        return status;
    }
    proof {
        assert(stream.state->Some_0.wf());
        if stream.next_in is Some {
            assert(stream.next_in->Some_0.len() == stream.next_in->Some_0@.len());
        }
        if stream.next_out is Some {
            assert(stream.next_out->Some_0.len() == stream.next_out->Some_0@.len());
        }
    }
    let finish = mz_inflate_oxide(stream, MZ_FINISH);
    mz_inflate_end_oxide(stream);
    let in_left: usize = match &stream.next_in {
        None => 0,
        Some(data) => data.len() - stream.in_pos,
    };
    let r = uncompress2_status(finish, in_left);
    if r == MZ_OK {
        *dest_len = stream.total_out;
    }
    r
}

} // verus!

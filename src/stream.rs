//! The stream handle shared by both directions: caller-owned input and
//! output buffers with their read / write positions, running totals, the
//! running checksum, the allocation hooks and the engine state it owns.

use vstd::prelude::*;

verus! {

/// Success.
pub const MZ_OK: i32 = 0;
/// The stream reached its end.
pub const MZ_STREAM_END: i32 = 1;
/// A preset dictionary is needed (never produced here).
pub const MZ_NEED_DICT: i32 = 2;
/// A stream was used in a state that does not allow the call.
pub const MZ_STREAM_ERROR: i32 = -2;
/// The compressed data is malformed.
pub const MZ_DATA_ERROR: i32 = -3;
/// Memory for the engine state could not be had.
pub const MZ_MEM_ERROR: i32 = -4;
/// No progress was possible with the buffers given.
pub const MZ_BUF_ERROR: i32 = -5;
/// Incompatible interface version (never produced here).
pub const MZ_VERSION_ERROR: i32 = -6;
/// An init parameter is out of range.
pub const MZ_PARAM_ERROR: i32 = -10000;

/// Flush modes.
pub const MZ_NO_FLUSH: i32 = 0;
pub const MZ_PARTIAL_FLUSH: i32 = 1;
pub const MZ_SYNC_FLUSH: i32 = 2;
pub const MZ_FULL_FLUSH: i32 = 3;
pub const MZ_FINISH: i32 = 4;

/// The one compression method: DEFLATE.
pub const MZ_DEFLATED: i32 = 8;
/// Window bits for a 32 KiB window; negated, it asks for raw DEFLATE.
pub const MZ_DEFAULT_WINDOW_BITS: i32 = 15;
pub const MZ_DEFAULT_STRATEGY: i32 = 0;
/// The Adler-32 of no data.
pub const MZ_ADLER32_INIT: u64 = 1;

/// Size of the decoder's ring dictionary.
pub const TINFL_LZ_DICT_SIZE: usize = 32768;

/// Decoder engine statuses.
pub const TINFL_STATUS_FAILED: i32 = -1;
pub const TINFL_STATUS_DONE: i32 = 0;
pub const TINFL_STATUS_NEEDS_MORE_INPUT: i32 = 1;
pub const TINFL_STATUS_HAS_MORE_OUTPUT: i32 = 2;

/// Decoder engine flags.
pub const TINFL_FLAG_PARSE_ZLIB_HEADER: u32 = 1;
pub const TINFL_FLAG_HAS_MORE_INPUT: u32 = 2;
pub const TINFL_FLAG_USING_NON_WRAPPING_OUTPUT_BUF: u32 = 4;
pub const TINFL_FLAG_COMPUTE_ADLER32: u32 = 8;

/// Encoder engine statuses.
pub const TDEFL_STATUS_OKAY: i32 = 0;
pub const TDEFL_STATUS_DONE: i32 = 1;

/// Encoder flag: keep a running Adler-32 of the input.
pub const TDEFL_COMPUTE_ADLER32: u32 = 0x2000;
/// Encoder flag: frame the output with a zlib header and trailer.
pub const TDEFL_WRITE_ZLIB_HEADER: u32 = 0x1000;

/// An allocation hook for engine state: `Heap` always hands out memory,
/// `Exhausted` stands for a caller allocator that has none left.
#[derive(Clone, Copy, Debug, PartialEq, Eq, Structural)]
pub enum AllocFunc {
    Heap,
    Exhausted,
}

/// A release hook for engine state.
#[derive(Clone, Copy, Debug, PartialEq, Eq, Structural)]
pub enum FreeFunc {
    Heap,
}

/// The default allocation hook.
pub fn miniz_def_alloc_func() -> (r: AllocFunc)
    ensures
        r == AllocFunc::Heap,
{
    AllocFunc::Heap
}

/// The default release hook.
pub fn miniz_def_free_func() -> (r: FreeFunc)
    ensures
        r == FreeFunc::Heap,
{
    FreeFunc::Heap
}

/// Asks `alloc` for one engine state; true when it was granted.
pub fn alloc_state(alloc: AllocFunc) -> (r: bool)
    ensures
        r == (alloc == AllocFunc::Heap),
{
    match alloc {
        AllocFunc::Heap => true,
        AllocFunc::Exhausted => false,
    }
}

/// What a process loop does after one engine call: return a status, leave
/// the loop and derive the status from the state, or call the engine again.
#[derive(Clone, Copy, Debug, PartialEq, Eq, Structural)]
pub enum LoopStep {
    Return(i32),
    Stop,
    Continue,
}

/// The engine states a stream can own.
pub trait StateType {}

/// Persistent decoder state: the engine, its 32 KiB ring dictionary with the
/// offset and count of decoded bytes not yet handed out, the last engine
/// status, and the call-pattern flags of the stream. `produced` records every
/// byte the engine has decoded on this stream, in order.
pub struct InflateState {
    pub decomp: miniz_oxide::inflate::core::DecompressorOxide,
    pub dict: Vec<u8>,
    pub dict_ofs: u32,
    pub dict_avail: u32,
    pub produced: Ghost<Seq<u8>>,
    pub last_status: i32,
    pub first_call: bool,
    pub has_flushed: bool,
    pub window_bits: i32,
}

impl InflateState {
    /// The dictionary is full size, and the pending bytes lie inside it.
    pub open spec fn wf(&self) -> bool {
        &&& self.dict@.len() == TINFL_LZ_DICT_SIZE
        &&& self.dict_ofs < TINFL_LZ_DICT_SIZE
        &&& self.dict_ofs + self.dict_avail <= TINFL_LZ_DICT_SIZE
        &&& (self.first_call ==> self.dict_avail == 0)
        &&& self.dict_avail <= self.produced@.len()
        &&& self.dict@.subrange(self.dict_ofs as int, self.dict_ofs + self.dict_avail)
            == self.produced@.subrange(self.delivered(), self.produced@.len() as int)
    }

    /// How many of the decoded bytes have been handed out: all but the ones
    /// still pending in the dictionary.
    pub open spec fn delivered(&self) -> int {
        self.produced@.len() - self.dict_avail
    }
}

impl StateType for InflateState {}

/// Persistent encoder state: the engine, the flags it was made with, and the
/// status its last call returned (`TDEFL_STATUS_OKAY` before any call).
pub struct DeflateState {
    pub comp: miniz_oxide::deflate::core::CompressorOxide,
    pub flags: u32,
    pub last_status: i32,
}

impl StateType for DeflateState {}

/// A stream handle. `next_in` is read from `in_pos` on; `next_out` is
/// written from `out_pos` on. `None` buffers stand for absent ones.
pub struct StreamOxide<ST> {
    pub next_in: Option<Vec<u8>>,
    pub in_pos: usize,
    pub total_in: u64,
    pub next_out: Option<Vec<u8>>,
    pub out_pos: usize,
    pub total_out: u64,
    pub state: Option<ST>,
    pub alloc: Option<AllocFunc>,
    pub free: Option<FreeFunc>,
    pub adler: u64,
}

/// A snapshot of a stream in the legacy field layout.
#[derive(Clone, Copy, Debug, PartialEq, Eq, Structural)]
pub struct MzStream {
    pub avail_in: usize,
    pub total_in: u64,
    pub avail_out: usize,
    pub total_out: u64,
    pub has_state: bool,
    pub zalloc: Option<AllocFunc>,
    pub zfree: Option<FreeFunc>,
    pub data_type: i32,
    pub adler: u64,
    pub reserved: u64,
}

/// The handle after `end`: the same buffers, totals and checksum, with no
/// engine state.
pub open spec fn ended<ST>(s: StreamOxide<ST>) -> StreamOxide<ST> {
    StreamOxide { state: None, ..s }
}

/// Ending a stream a second time changes nothing more.
pub proof fn lemma_end_idempotent<ST>(s: StreamOxide<ST>)
    ensures
        ended(ended(s)) == ended(s),
        ended(s).state is None,
{
}

/// `s1` is `s0` after a process call's work on buffers of which the input
/// holds `in_len` bytes and the output went from `out0` to `out1`: the
/// positions moved forward in step with the totals, the output before the
/// old write position is untouched, and nothing else changed but the
/// checksum.
pub open spec fn advanced<ST>(
    s0: StreamOxide<ST>,
    s1: StreamOxide<ST>,
    in_len: int,
    out0: Seq<u8>,
    out1: Seq<u8>,
) -> bool {
    &&& s1 == (StreamOxide {
        in_pos: s1.in_pos,
        total_in: s1.total_in,
        out_pos: s1.out_pos,
        total_out: s1.total_out,
        adler: s1.adler,
        ..s0
    })
    &&& s0.in_pos <= s1.in_pos <= in_len
    &&& s1.total_in - s0.total_in == s1.in_pos - s0.in_pos
    &&& s0.out_pos <= s1.out_pos <= out1.len()
    &&& s1.total_out - s0.total_out == s1.out_pos - s0.out_pos
    &&& out1.len() == out0.len()
    &&& out1.subrange(0, s0.out_pos as int) == out0.subrange(0, s0.out_pos as int)
}

impl<ST: StateType> StreamOxide<ST> {
    /// The read position lies inside the input, the write position inside
    /// the output.
    pub open spec fn wf(&self) -> bool {
        &&& (self.next_in matches Some(v) ==> self.in_pos <= v@.len())
        &&& (self.next_out matches Some(v) ==> self.out_pos <= v@.len())
    }

    /// Bytes of input not yet consumed.
    pub open spec fn avail_in(&self) -> int {
        match self.next_in {
            Some(v) => v@.len() - self.in_pos,
            None => 0,
        }
    }

    /// Bytes of output space not yet filled.
    pub open spec fn avail_out(&self) -> int {
        match self.next_out {
            Some(v) => v@.len() - self.out_pos,
            None => 0,
        }
    }

    /// A handle over the given buffers, with zero totals, no engine state
    /// and no hooks.
    pub fn new(next_in: Option<Vec<u8>>, next_out: Option<Vec<u8>>) -> (r: Self)
        ensures
            r.wf(),
            r.next_in == next_in,
            r.next_out == next_out,
            r.in_pos == 0,
            r.out_pos == 0,
            r.total_in == 0,
            r.total_out == 0,
            r.state is None,
            r.alloc is None,
            r.free is None,
            r.adler == 0,
    {
        StreamOxide {
            next_in,
            in_pos: 0,
            total_in: 0,
            next_out,
            out_pos: 0,
            total_out: 0,
            state: None,
            alloc: None,
            free: None,
            adler: 0,
        }
    }

    /// The handle's fields in the legacy layout.
    pub fn as_mz_stream(&self) -> (r: MzStream)
        requires
            self.wf(),
        ensures
            r.avail_in == self.avail_in(),
            r.total_in == self.total_in,
            r.avail_out == self.avail_out(),
            r.total_out == self.total_out,
            r.has_state == self.state is Some,
            r.zalloc == self.alloc,
            r.zfree == self.free,
            r.data_type == 0,
            r.adler == self.adler,
            r.reserved == 0,
    {
        let avail_in: usize = match &self.next_in {
            Some(v) => v.len() - self.in_pos,
            None => 0,
        };
        let avail_out: usize = match &self.next_out {
            Some(v) => v.len() - self.out_pos,
            None => 0,
        };
        MzStream {
            avail_in,
            total_in: self.total_in,
            avail_out,
            total_out: self.total_out,
            has_state: self.state.is_some(),
            zalloc: self.alloc,
            zfree: self.free,
            data_type: 0,
            adler: self.adler,
            reserved: 0,
        }
    }

    /// Installs `f` as the allocation hook unless one is set.
    pub fn set_alloc_if_none(&mut self, f: AllocFunc)
        ensures
            *final(self) == (StreamOxide {
                alloc: if old(self).alloc is None { Some(f) } else { old(self).alloc },
                ..*old(self)
            }),
    {
        if self.alloc.is_none() {
            self.alloc = Some(f);
        }
    }

    /// Installs `f` as the release hook unless one is set.
    pub fn set_free_if_none(&mut self, f: FreeFunc)
        ensures
            *final(self) == (StreamOxide {
                free: if old(self).free is None { Some(f) } else { old(self).free },
                ..*old(self)
            }),
    {
        if self.free.is_none() {
            self.free = Some(f);
        }
    }
}

} // verus!

use mz_oxide::deflate::mz_compress2_oxide;
use mz_oxide::deflate::mz_deflate_end_oxide;
use mz_oxide::deflate::mz_deflate_init2_oxide;
use mz_oxide::deflate::mz_deflate_init_oxide;
use mz_oxide::deflate::mz_deflate_oxide;
use mz_oxide::deflate::mz_deflate_reset_oxide;
use mz_oxide::deflate::compress2_status;
use mz_oxide::deflate::deflate_done_status;
use mz_oxide::deflate::deflate_engine_flush;
use mz_oxide::deflate::deflate_loop_step;
use mz_oxide::stream::LoopStep;
use mz_oxide::stream::MZ_PARTIAL_FLUSH;
use mz_oxide::inflate::mz_inflate_init2_oxide;
use mz_oxide::inflate::mz_inflate_oxide;
use mz_oxide::inflate::mz_uncompress2_oxide;
use mz_oxide::stream::AllocFunc;
use mz_oxide::stream::DeflateState;
use mz_oxide::stream::FreeFunc;
use mz_oxide::stream::InflateState;
use mz_oxide::stream::StreamOxide;
use mz_oxide::stream::MZ_BUF_ERROR;
use mz_oxide::stream::MZ_FINISH;
use mz_oxide::stream::MZ_MEM_ERROR;
use mz_oxide::stream::MZ_NO_FLUSH;
use mz_oxide::stream::MZ_OK;
use mz_oxide::stream::MZ_PARAM_ERROR;
use mz_oxide::stream::MZ_STREAM_END;
use mz_oxide::stream::MZ_STREAM_ERROR;
use mz_oxide::stream::MZ_SYNC_FLUSH;

/// Compresses `data` in one finishing call; `window_bits` 15 is zlib, -15 raw.
fn deflate_once(data: &[u8], level: i32, window_bits: i32, strategy: i32) -> (i32, Vec<u8>, u64) {
    let mut s: StreamOxide<DeflateState> =
        StreamOxide::new(Some(data.to_vec()), Some(vec![0u8; data.len() * 2 + 128]));
    assert_eq!(mz_deflate_init2_oxide(&mut s, level, 8, window_bits, 9, strategy), MZ_OK);
    let r = mz_deflate_oxide(&mut s, MZ_FINISH);
    let out = s.next_out.as_ref().unwrap()[..s.out_pos].to_vec();
    (r, out, s.total_in)
}

fn inflate_all(data: &[u8], window_bits: i32, out_len: usize) -> (i32, Vec<u8>) {
    let mut s: StreamOxide<InflateState> =
        StreamOxide::new(Some(data.to_vec()), Some(vec![0u8; out_len]));
    assert_eq!(mz_inflate_init2_oxide(&mut s, window_bits), MZ_OK);
    let r = mz_inflate_oxide(&mut s, MZ_FINISH);
    (r, s.next_out.as_ref().unwrap()[..s.out_pos].to_vec())
}

#[test]
fn compress_small() {
    let test_data = b"Deflate late";
    let check = [0x73, 0x49, 0x4d, 0xcb, 0x49, 0x2c, 0x49, 0x55, 0x00, 0x11, 0x00];
    let (r, res, _) = deflate_once(test_data, 1, -15, 0);
    assert_eq!(r, MZ_STREAM_END);
    assert_eq!(&check[..], res.as_slice());
    let (r, res, _) = deflate_once(test_data, 9, -15, 0);
    assert_eq!(r, MZ_STREAM_END);
    assert_eq!(&check[..], res.as_slice());
}

#[test]
fn compress_huff_only() {
    let test_data = b"Deflate late";
    let (r, res, _) = deflate_once(test_data, 1, -15, 2);
    assert_eq!(r, MZ_STREAM_END);
    let (r, d) = inflate_all(&res, -15, 64);
    assert_eq!(r, MZ_STREAM_END);
    assert_eq!(test_data, d.as_slice());
}

#[test]
fn compress_raw() {
    let text = b"Hello, zlib!";
    let len = text.len();
    let notlen = !len;
    let mut encoded = vec![1, len as u8, (len >> 8) as u8, notlen as u8, (notlen >> 8) as u8];
    encoded.extend_from_slice(&text[..]);
    let (r, res, _) = deflate_once(text, 0, -15, 0);
    assert_eq!(r, MZ_STREAM_END);
    assert_eq!(encoded, res);
}

#[test]
fn short() {
    let test_data = [10u8, 10, 10, 10, 10, 55];
    let (r, c, _) = deflate_once(&test_data, 9, -15, 0);
    assert_eq!(r, MZ_STREAM_END);
    let (r, d) = inflate_all(&c, -15, 64);
    assert_eq!(r, MZ_STREAM_END);
    assert_eq!(&test_data[..], d.as_slice());
    assert!(c.len() <= 6);
}

#[test]
fn compress_output() {
    let slice = [1u8, 2, 3, 4, 1, 2, 3, 1, 2, 3, 1, 2, 6, 1, 2, 3, 1, 2, 3, 2, 3, 1, 2, 3];
    let (r, encoded, in_consumed) = deflate_once(&slice, 6, -15, 0);
    assert_eq!(r, MZ_STREAM_END);
    assert_eq!(in_consumed, slice.len() as u64);
    let (r, decoded) = inflate_all(&encoded, -15, 64);
    assert_eq!(r, MZ_STREAM_END);
    assert_eq!(&decoded[..], &slice[..]);
}

#[test]
fn deflate_test_state() {
    let data = b"Hello zlib!";
    let mut s: StreamOxide<DeflateState> = StreamOxide::new(Some(data.to_vec()), Some(vec![0u8; 50]));
    assert_eq!(mz_deflate_init_oxide(&mut s, 6), MZ_OK);
    assert_eq!(mz_deflate_oxide(&mut s, MZ_FINISH), MZ_STREAM_END);
    assert_eq!(s.total_in, data.len() as u64);
    let compressed = s.next_out.as_ref().unwrap()[..s.out_pos].to_vec();
    let decomp = miniz_oxide::inflate::decompress_to_vec_zlib(&compressed).unwrap();
    assert_eq!(decomp[..], data[..]);
    assert_eq!(s.adler, mz_oxide::checksum::mz_adler32_oxide(1, data));
}

#[test]
fn hello_zlib_at_lowest_level_round_trip() {
    for level in [0, 1] {
        let text = b"Hello, zlib!";
        let mut c: StreamOxide<DeflateState> = StreamOxide::new(Some(text.to_vec()), Some(vec![0u8; 64]));
        let mut clen: u64 = 0;
        assert_eq!(mz_compress2_oxide(&mut c, level, &mut clen), MZ_OK);
        assert_eq!(c.total_in, 12);
        let compressed = c.next_out.as_ref().unwrap()[..clen as usize].to_vec();
        let mut d: StreamOxide<InflateState> = StreamOxide::new(Some(compressed), Some(vec![0u8; 64]));
        let mut dlen: u64 = 0;
        assert_eq!(mz_uncompress2_oxide(&mut d, &mut dlen), MZ_OK);
        assert_eq!(dlen, 12);
        assert_eq!(&d.next_out.as_ref().unwrap()[..12], &text[..]);
    }
}

#[test]
fn round_trip_all_levels_both_framings() {
    let inputs: Vec<Vec<u8>> = vec![
        vec![],
        vec![0],
        b"abcabcabcabcabcabc".to_vec(),
        (0..5000u32).map(|i| ((i * i) % 253) as u8).collect(),
        (0..40000u32).map(|i| b"the quick brown fox "[(i % 20) as usize]).collect(),
    ];
    for data in &inputs {
        for level in 0..=10 {
            for wb in [15, -15] {
                let (r, c, consumed) = deflate_once(data, level, wb, 0);
                assert_eq!(r, MZ_STREAM_END);
                assert_eq!(consumed, data.len() as u64);
                let (r, d) = inflate_all(&c, wb, data.len() + 1);
                assert_eq!(r, MZ_STREAM_END, "level {} window bits {}", level, wb);
                assert_eq!(&d, data);
            }
        }
    }
}

#[test]
fn deflate_in_pieces_with_small_output() {
    let data: Vec<u8> = (0..20000u32).map(|i| ((i / 3) % 97) as u8).collect();
    let mut s: StreamOxide<DeflateState> = StreamOxide::new(None, None);
    assert_eq!(mz_deflate_init2_oxide(&mut s, 6, 8, -15, 9, 0), MZ_OK);
    let mut compressed: Vec<u8> = Vec::new();
    let mut calls = 0;
    for chunk in data.chunks(1000) {
        s.next_in = Some(chunk.to_vec());
        s.in_pos = 0;
        loop {
            s.next_out = Some(vec![0u8; 64]);
            s.out_pos = 0;
            let r = mz_deflate_oxide(&mut s, MZ_NO_FLUSH);
            compressed.extend_from_slice(&s.next_out.as_ref().unwrap()[..s.out_pos]);
            calls += 1;
            assert!(calls < 100_000);
            if s.in_pos == chunk.len() && s.out_pos < 64 {
                break;
            }
            assert!(r == MZ_OK || r == MZ_BUF_ERROR);
        }
    }
    s.next_in = Some(vec![]);
    s.in_pos = 0;
    loop {
        s.next_out = Some(vec![0u8; 64]);
        s.out_pos = 0;
        let r = mz_deflate_oxide(&mut s, MZ_FINISH);
        compressed.extend_from_slice(&s.next_out.as_ref().unwrap()[..s.out_pos]);
        if r == MZ_STREAM_END {
            break;
        }
        assert_eq!(r, MZ_BUF_ERROR);
    }
    assert_eq!(s.total_in, data.len() as u64);
    assert_eq!(s.total_out, compressed.len() as u64);
    let (r, d) = inflate_all(&compressed, -15, data.len() + 1);
    assert_eq!(r, MZ_STREAM_END);
    assert_eq!(d, data);
}

#[test]
fn deflate_zero_length_output() {
    let mut s: StreamOxide<DeflateState> = StreamOxide::new(Some(b"abc".to_vec()), Some(vec![]));
    assert_eq!(mz_deflate_init_oxide(&mut s, 6), MZ_OK);
    assert_eq!(mz_deflate_oxide(&mut s, MZ_FINISH), MZ_BUF_ERROR);
    assert_eq!(s.total_in, 0);
    assert_eq!(s.total_out, 0);
}

#[test]
fn deflate_after_finish() {
    let mut s: StreamOxide<DeflateState> = StreamOxide::new(Some(b"abc".to_vec()), Some(vec![0u8; 64]));
    assert_eq!(mz_deflate_init_oxide(&mut s, 6), MZ_OK);
    assert_eq!(mz_deflate_oxide(&mut s, MZ_FINISH), MZ_STREAM_END);
    let out_pos = s.out_pos;
    assert_eq!(mz_deflate_oxide(&mut s, MZ_FINISH), MZ_STREAM_END);
    assert_eq!(mz_deflate_oxide(&mut s, MZ_NO_FLUSH), MZ_BUF_ERROR);
    assert_eq!(s.out_pos, out_pos);
}

#[test]
fn deflate_no_flush_without_input_is_buf_error() {
    let mut s: StreamOxide<DeflateState> = StreamOxide::new(Some(vec![]), Some(vec![0u8; 64]));
    assert_eq!(mz_deflate_init_oxide(&mut s, 6), MZ_OK);
    assert_eq!(mz_deflate_oxide(&mut s, MZ_NO_FLUSH), MZ_BUF_ERROR);
    assert_eq!(mz_deflate_oxide(&mut s, MZ_SYNC_FLUSH), MZ_OK);
}

#[test]
fn deflate_misuse_is_refused() {
    let mut s: StreamOxide<DeflateState> = StreamOxide::new(Some(b"abc".to_vec()), Some(vec![0u8; 64]));
    assert_eq!(mz_deflate_oxide(&mut s, MZ_FINISH), MZ_STREAM_ERROR);
    assert_eq!(mz_deflate_init_oxide(&mut s, 6), MZ_OK);
    assert_eq!(mz_deflate_oxide(&mut s, 5), MZ_STREAM_ERROR);
    assert_eq!(mz_deflate_oxide(&mut s, -1), MZ_STREAM_ERROR);
    s.next_in = None;
    assert_eq!(mz_deflate_oxide(&mut s, MZ_FINISH), MZ_STREAM_ERROR);
}

#[test]
fn deflate_init_parameters() {
    let mut s: StreamOxide<DeflateState> = StreamOxide::new(None, None);
    assert_eq!(mz_deflate_init2_oxide(&mut s, 6, 7, 15, 9, 0), MZ_PARAM_ERROR);
    assert_eq!(mz_deflate_init2_oxide(&mut s, 6, 8, 15, 0, 0), MZ_PARAM_ERROR);
    assert_eq!(mz_deflate_init2_oxide(&mut s, 6, 8, 15, 10, 0), MZ_PARAM_ERROR);
    assert_eq!(mz_deflate_init2_oxide(&mut s, 6, 8, 14, 9, 0), MZ_PARAM_ERROR);
    assert!(s.state.is_none());
    assert!(s.alloc.is_none());
    assert_eq!(mz_deflate_init2_oxide(&mut s, 6, 8, -15, 1, 0), MZ_OK);
    assert_eq!(s.adler, 1);
    assert_eq!(s.alloc, Some(AllocFunc::Heap));
    assert_eq!(s.free, Some(FreeFunc::Heap));
    let mut t: StreamOxide<DeflateState> = StreamOxide::new(None, None);
    t.alloc = Some(AllocFunc::Exhausted);
    assert_eq!(mz_deflate_init_oxide(&mut t, 6), MZ_MEM_ERROR);
    assert!(t.state.is_none());
    assert_eq!(t.alloc, Some(AllocFunc::Exhausted));
}

#[test]
fn deflate_reset_restarts() {
    let mut s: StreamOxide<DeflateState> = StreamOxide::new(Some(b"abcabc".to_vec()), Some(vec![0u8; 64]));
    assert_eq!(mz_deflate_reset_oxide(&mut s), MZ_STREAM_ERROR);
    assert_eq!(mz_deflate_init_oxide(&mut s, 6), MZ_OK);
    assert_eq!(mz_deflate_oxide(&mut s, MZ_FINISH), MZ_STREAM_END);
    let first = s.next_out.as_ref().unwrap()[..s.out_pos].to_vec();
    assert_eq!(mz_deflate_reset_oxide(&mut s), MZ_OK);
    assert_eq!(s.total_in, 0);
    assert_eq!(s.total_out, 0);
    s.in_pos = 0;
    s.out_pos = 0;
    s.next_out = Some(vec![0u8; 64]);
    assert_eq!(mz_deflate_oxide(&mut s, MZ_FINISH), MZ_STREAM_END);
    assert_eq!(s.next_out.as_ref().unwrap()[..s.out_pos].to_vec(), first);
}

#[test]
fn deflate_end_is_idempotent() {
    let mut s: StreamOxide<DeflateState> = StreamOxide::new(None, None);
    assert_eq!(mz_deflate_end_oxide(&mut s), MZ_OK);
    assert_eq!(mz_deflate_init_oxide(&mut s, 1), MZ_OK);
    assert_eq!(mz_deflate_end_oxide(&mut s), MZ_OK);
    assert_eq!(mz_deflate_end_oxide(&mut s), MZ_OK);
    assert!(s.state.is_none());
    assert_eq!(mz_deflate_oxide(&mut s, MZ_FINISH), MZ_STREAM_ERROR);
}

#[test]
fn compress2_output_too_small() {
    let data: Vec<u8> = (0..3000u32).map(|i| ((i * 31) % 256) as u8).collect();
    let mut s: StreamOxide<DeflateState> = StreamOxide::new(Some(data), Some(vec![0u8; 16]));
    let mut dest_len: u64 = 9;
    assert_eq!(mz_compress2_oxide(&mut s, 6, &mut dest_len), MZ_BUF_ERROR);
    assert_eq!(dest_len, 9);
    assert!(s.state.is_none());
}

#[test]
fn stream_snapshot_and_hooks() {
    let mut s: StreamOxide<DeflateState> = StreamOxide::new(Some(vec![1, 2, 3, 4]), Some(vec![0u8; 10]));
    s.in_pos = 1;
    s.out_pos = 4;
    let m = s.as_mz_stream();
    assert_eq!(m.avail_in, 3);
    assert_eq!(m.avail_out, 6);
    assert!(!m.has_state);
    assert_eq!(m.zalloc, None);
    s.set_alloc_if_none(AllocFunc::Exhausted);
    s.set_alloc_if_none(AllocFunc::Heap);
    assert_eq!(s.alloc, Some(AllocFunc::Exhausted));
    s.set_free_if_none(FreeFunc::Heap);
    assert_eq!(s.free, Some(FreeFunc::Heap));
    assert_eq!(mz_deflate_init_oxide(&mut s, 6), MZ_MEM_ERROR);
    let m = s.as_mz_stream();
    assert_eq!(m.adler, 0);
    assert!(!m.has_state);
    assert_eq!(m.zalloc, Some(AllocFunc::Exhausted));
}

#[test]
fn deflate_decisions() {
    assert_eq!(deflate_engine_flush(MZ_PARTIAL_FLUSH), MZ_SYNC_FLUSH);
    assert_eq!(deflate_engine_flush(MZ_NO_FLUSH), MZ_NO_FLUSH);
    assert_eq!(deflate_engine_flush(MZ_FINISH), MZ_FINISH);
    assert_eq!(deflate_done_status(MZ_FINISH), MZ_STREAM_END);
    assert_eq!(deflate_done_status(MZ_SYNC_FLUSH), MZ_BUF_ERROR);
    assert_eq!(compress2_status(MZ_STREAM_END), MZ_OK);
    assert_eq!(compress2_status(MZ_OK), MZ_BUF_ERROR);
    assert_eq!(compress2_status(MZ_BUF_ERROR), MZ_BUF_ERROR);
    assert_eq!(compress2_status(MZ_STREAM_ERROR), MZ_STREAM_ERROR);
    assert_eq!(deflate_loop_step(-1, 1, 1, MZ_NO_FLUSH, false, true), LoopStep::Return(MZ_STREAM_ERROR));
    assert_eq!(deflate_loop_step(1, 1, 1, MZ_NO_FLUSH, false, true), LoopStep::Return(MZ_STREAM_END));
    assert_eq!(deflate_loop_step(0, 1, 0, MZ_NO_FLUSH, true, true), LoopStep::Return(MZ_OK));
    assert_eq!(deflate_loop_step(0, 1, 0, MZ_FINISH, true, true), LoopStep::Return(MZ_BUF_ERROR));
    assert_eq!(deflate_loop_step(0, 0, 5, MZ_NO_FLUSH, false, false), LoopStep::Return(MZ_BUF_ERROR));
    assert_eq!(deflate_loop_step(0, 0, 5, MZ_SYNC_FLUSH, false, true), LoopStep::Return(MZ_OK));
    assert_eq!(deflate_loop_step(0, 3, 5, MZ_FINISH, true, true), LoopStep::Continue);
    assert_eq!(deflate_loop_step(0, 3, 5, MZ_FINISH, true, false), LoopStep::Return(MZ_BUF_ERROR));
}

#[test]
fn finish_into_full_output_is_buf_error_and_resumable() {
    let data: Vec<u8> = (0..4000u32).map(|i| ((i * 7919) % 256) as u8).collect();
    let mut s: StreamOxide<DeflateState> = StreamOxide::new(Some(data.clone()), Some(vec![0u8; 100]));
    assert_eq!(mz_deflate_init2_oxide(&mut s, 6, 8, 15, 9, 0), MZ_OK);
    assert_eq!(mz_deflate_oxide(&mut s, MZ_FINISH), MZ_BUF_ERROR);
    let mut compressed = s.next_out.as_ref().unwrap()[..s.out_pos].to_vec();
    s.next_out = Some(vec![0u8; 8192]);
    s.out_pos = 0;
    assert_eq!(mz_deflate_oxide(&mut s, MZ_FINISH), MZ_STREAM_END);
    compressed.extend_from_slice(&s.next_out.as_ref().unwrap()[..s.out_pos]);
    assert_eq!(miniz_oxide::inflate::decompress_to_vec_zlib(&compressed).unwrap(), data);
}

#[test]
fn default_init_frames_with_zlib() {
    let mut s: StreamOxide<DeflateState> = StreamOxide::new(Some(b"abc".to_vec()), Some(vec![0u8; 64]));
    assert_eq!(mz_deflate_init_oxide(&mut s, 6), MZ_OK);
    assert_ne!(s.state.as_ref().unwrap().flags & 0x1000, 0);
    assert_eq!(mz_deflate_oxide(&mut s, MZ_FINISH), MZ_STREAM_END);
    assert_eq!(s.next_out.as_ref().unwrap()[0], 0x78);
    let mut r: StreamOxide<DeflateState> = StreamOxide::new(None, None);
    assert_eq!(mz_deflate_init2_oxide(&mut r, 0, 8, -15, 9, 0), MZ_OK);
    assert_eq!(r.state.as_ref().unwrap().flags & 0x1000, 0);
    assert_ne!(r.state.as_ref().unwrap().flags & 0x8_0000, 0);
}

use mfx_pipeline::bitstream::{mfxBitstream, ShortWrite, WriteBitStreamFrame};
use mfx_pipeline::constants::{
    MFX_CODEC_AVC, MFX_ERR_MORE_DATA, MFX_ERR_NONE, MFX_ERR_NOT_ENOUGH_BUFFER,
    MFX_ERR_NOT_FOUND, MFX_ERR_UNSUPPORTED, MFX_FOURCC_NV12, MFX_FOURCC_YV12,
    MFX_TARGETUSAGE_BALANCED,
};
use mfx_pipeline::driver::{Action, Await, Event, Mode, Pipeline, PipelineError};
use mfx_pipeline::params::{encode_params, frame_info, vpp_params};
use mfx_pipeline::pool::{ChromaLayout, GetFreeSurfaceIndex, LoadRawFrame, SurfacePool, VppToEncSurface};
use mfx_pipeline::types::{
    mfxFrameAllocRequest, mfxFrameInfo, mfxFrameSurface1, mfxInfoMFX, mfxVersion, RateControl,
    StageInfo,
};
use mfx_pipeline::utils::{align16, align32, assert_error_msg, check_error, StatusError};

fn geometry(w: u16, h: u16) -> mfxFrameInfo {
    frame_info(MFX_FOURCC_NV12, w, h)
}

fn pool(count: u16, w: u16, h: u16, layout: ChromaLayout) -> SurfacePool {
    SurfacePool::construct(count, geometry(w, h), layout).unwrap()
}

#[test]
fn align16_rounds_up_to_multiples_of_16() {
    assert_eq!(align16(0), 0);
    assert_eq!(align16(1), 16);
    assert_eq!(align16(15), 16);
    assert_eq!(align16(16), 16);
    assert_eq!(align16(17), 32);
    assert_eq!(align16(1080), 1088);
    assert_eq!(align16(65520), 65520);
    for x in [0u16, 1, 7, 100, 1919, 65000] {
        let a = align16(x);
        assert!(a >= x);
        assert_eq!(a % 16, 0);
        assert_eq!(align16(a), a);
    }
}

#[test]
fn align32_rounds_up_to_multiples_of_32() {
    assert_eq!(align32(0), 0);
    assert_eq!(align32(1), 32);
    assert_eq!(align32(32), 32);
    assert_eq!(align32(33), 64);
    assert_eq!(align32(1088), 1088);
    assert_eq!(align32(1080), 1088);
    for x in [0u32, 5, 31, 1000, 70000] {
        let a = align32(x);
        assert!(a >= x);
        assert_eq!(a % 32, 0);
        assert_eq!(align32(a), a);
    }
}

#[test]
fn check_error_classifies_statuses() {
    assert_eq!(check_error(MFX_ERR_NONE), Ok(()));
    assert_eq!(check_error(-1), Err(StatusError::Unknown));
    assert_eq!(check_error(-2), Err(StatusError::NullPtr));
    assert_eq!(check_error(-3), Err(StatusError::Unsupported));
    assert_eq!(check_error(-5), Err(StatusError::NotEnoughBuffer));
    assert_eq!(check_error(-9), Err(StatusError::NotFound));
    assert_eq!(check_error(-10), Err(StatusError::MoreData));
    assert_eq!(check_error(-15), Err(StatusError::InvalidVideoParam));
    assert_eq!(check_error(-16), Err(StatusError::UndefinedBehavior));
    assert_eq!(check_error(4), Err(StatusError::PartialAcceleration));
    assert_eq!(check_error(-100), Err(StatusError::Other(-100)));
    for s in [-1, -2, -3, -4, -5, -6, -9, -10, -11, -15, -16, 1, 4, 5, -100, 77] {
        assert_eq!(check_error(s).unwrap_err().code(), s);
    }
    assert_eq!(StatusError::MoreData.message(), "more data");
    assert_eq!(StatusError::NullPtr.message(), "null pointer");
}

#[test]
fn assert_error_msg_accepts_warnings_and_reports_errors() {
    assert!(assert_error_msg(0, "init").is_ok());
    assert!(assert_error_msg(5, "query").is_ok());
    let f = assert_error_msg(MFX_ERR_UNSUPPORTED, "VPP query").unwrap_err();
    assert_eq!(f.context, "VPP query");
    assert_eq!(f.error, StatusError::Unsupported);
}

#[test]
fn constructors_start_zeroed() {
    let v = mfxVersion::new(1, 10);
    assert_eq!((v.Major, v.Minor), (1, 10));
    let info = mfxFrameInfo::new();
    assert_eq!(info.Width, 0);
    assert_eq!(info.CropW, 0);
    assert_eq!(info.FourCC, 0);
    let req = mfxFrameAllocRequest::new();
    assert_eq!(req.NumFrameSuggested, 0);
    assert_eq!(req.Info, info);
    let s = mfxFrameSurface1::new();
    assert_eq!(s.Data.Locked, 0);
    let m = mfxInfoMFX::new();
    assert_eq!(m.RateControl, RateControl::Unset);
    assert_eq!(m.RateControl.method(), 0);
    let b = mfxBitstream::new();
    assert_eq!((b.DataOffset, b.DataLength, b.MaxLength), (0, 0, 0));
}

#[test]
fn vpp_params_describe_planar_in_and_interleaved_out() {
    let p = vpp_params(1920, 1080);
    assert_eq!(p.AsyncDepth, 1);
    assert_eq!(p.IOPattern, 0x22);
    match p.Stage {
        StageInfo::Vpp(v) => {
            assert_eq!(v.In.FourCC, MFX_FOURCC_YV12);
            assert_eq!(v.Out.FourCC, MFX_FOURCC_NV12);
            assert_eq!((v.In.CropW, v.In.CropH), (1920, 1080));
            assert_eq!((v.In.Width, v.In.Height), (1920, 1088));
            assert_eq!((v.Out.Width, v.Out.Height), (1920, 1088));
            assert_eq!((v.In.FrameRateExtN, v.In.FrameRateExtD), (30, 1));
            assert_eq!(v.In.ChromaFormat, 1);
            assert_eq!(v.In.PicStruct, 1);
        }
        StageInfo::Encode(_) => panic!("expected video-processing parameters"),
    }
}

#[test]
fn encode_params_select_avc_vbr() {
    let p = encode_params(16, 16, 500);
    assert_eq!(p.IOPattern, 0x02);
    match p.Stage {
        StageInfo::Encode(m) => {
            assert_eq!(m.CodecId, MFX_CODEC_AVC);
            assert_eq!(m.TargetUsage, MFX_TARGETUSAGE_BALANCED);
            assert_eq!(m.RateControl.method(), 2);
            assert_eq!(
                m.RateControl,
                RateControl::Vbr { InitialDelayInKB: 0, BufferSizeInKB: 0, TargetKbps: 500, MaxKbps: 0 }
            );
            assert_eq!((m.FrameInfo.Width, m.FrameInfo.Height), (16, 16));
            assert_eq!(m.FrameInfo.FourCC, MFX_FOURCC_NV12);
        }
        StageInfo::Vpp(_) => panic!("expected encode parameters"),
    }
}

#[test]
fn construct_slices_one_buffer_into_free_surfaces() {
    let p = pool(3, 16, 16, ChromaLayout::Planar);
    assert_eq!(p.surfaces.len(), 3);
    assert_eq!(p.surface_size, 32 * 32 * 12 / 8);
    assert_eq!(p.buffer.len(), 3 * 1536);
    for (i, s) in p.surfaces.iter().enumerate() {
        assert_eq!(s.Data.Locked, 0);
        assert_eq!(s.Data.Y, i * 1536);
        assert_eq!(s.Data.U, i * 1536 + 1024);
        assert_eq!(s.Data.V, i * 1536 + 1024 + 256);
        assert_eq!(s.Data.PitchLow, 32);
        assert_eq!(s.Data.PitchHigh, 0);
        assert_eq!(s.Info, geometry(16, 16));
    }
    let q = pool(2, 16, 16, ChromaLayout::Interleaved);
    assert_eq!(q.surfaces[1].Data.U, 1536 + 1024);
    assert_eq!(q.surfaces[1].Data.V, 1536 + 1025);
}

#[test]
fn construct_of_zero_surfaces_is_empty() {
    let p = pool(0, 16, 16, ChromaLayout::Planar);
    assert!(p.surfaces.is_empty());
    assert!(p.buffer.is_empty());
}

#[test]
fn construct_rejects_bad_geometry() {
    let mut info = geometry(16, 16);
    info.CropW = 17;
    assert_eq!(
        SurfacePool::construct(2, info, ChromaLayout::Planar).unwrap_err(),
        StatusError::InvalidVideoParam
    );
    let mut empty = geometry(16, 16);
    empty.Width = 0;
    empty.CropW = 0;
    assert_eq!(
        SurfacePool::construct(2, empty, ChromaLayout::Planar).unwrap_err(),
        StatusError::InvalidVideoParam
    );
}

#[test]
fn get_free_surface_index_finds_first_unlocked() {
    let mut p = pool(3, 16, 16, ChromaLayout::Planar);
    assert_eq!(GetFreeSurfaceIndex(&p.surfaces), Ok(0));
    p.surfaces[0].Data.Locked = 2;
    assert_eq!(GetFreeSurfaceIndex(&p.surfaces), Ok(1));
    p.surfaces[1].Data.Locked = 1;
    p.surfaces[2].Data.Locked = 1;
    assert_eq!(GetFreeSurfaceIndex(&p.surfaces), Err(MFX_ERR_NOT_FOUND));
}

#[test]
fn exhausted_pool_reports_not_found_without_change() {
    let mut p = pool(2, 16, 16, ChromaLayout::Planar);
    assert_eq!(p.acquire(), Ok(0));
    assert_eq!(p.acquire(), Ok(1));
    let before = p.surfaces.clone();
    assert_eq!(p.acquire(), Err(StatusError::NotFound));
    assert_eq!(p.surfaces, before);
    assert_eq!(p.buffer.len(), 2 * 1536);
}

#[test]
fn released_surface_is_acquired_again() {
    let mut p = pool(3, 16, 16, ChromaLayout::Planar);
    assert_eq!(p.acquire(), Ok(0));
    assert_eq!(p.acquire(), Ok(1));
    assert_eq!(p.surfaces[0].Data.Locked, 1);
    p.release(0);
    assert_eq!(p.surfaces[0].Data.Locked, 0);
    assert_eq!(p.acquire(), Ok(0));
    p.release(1);
    assert_eq!(p.acquire(), Ok(1));
    assert_eq!(p.acquire(), Ok(2));
}

#[test]
fn load_raw_frame_fills_three_planes() {
    let mut p = pool(2, 16, 16, ChromaLayout::Planar);
    assert_eq!(p.raw_frame_sizes(1), (256, 64));
    let luma = vec![1u8; 256];
    let u = vec![2u8; 64];
    let v = vec![3u8; 64];
    assert_eq!(LoadRawFrame(&mut p, 1, &luma, &u, &v), Ok(()));
    let base = 1536;
    assert!(p.buffer[base..base + 256].iter().all(|&b| b == 1));
    assert!(p.buffer[base + 1024..base + 1088].iter().all(|&b| b == 2));
    assert!(p.buffer[base + 1280..base + 1344].iter().all(|&b| b == 3));
    assert_eq!(p.buffer[base + 256], 0);
    assert!(p.buffer[..base].iter().all(|&b| b == 0));
}

#[test]
fn load_raw_frame_short_read_means_more_data() {
    let mut p = pool(1, 16, 16, ChromaLayout::Planar);
    let before = p.buffer.clone();
    let full = vec![9u8; 256];
    let short = vec![9u8; 63];
    let quarter = vec![9u8; 64];
    assert_eq!(LoadRawFrame(&mut p, 0, &full, &quarter, &short), Err(StatusError::MoreData));
    assert_eq!(LoadRawFrame(&mut p, 0, &vec![], &vec![], &vec![]), Err(StatusError::MoreData));
    assert_eq!(LoadRawFrame(&mut p, 0, &vec![9u8; 100], &quarter, &quarter), Err(StatusError::MoreData));
    assert_eq!(p.buffer, before);
}

#[test]
fn copy_between_pools_of_equal_crop() {
    let mut src = pool(2, 16, 16, ChromaLayout::Planar);
    for (i, b) in src.buffer.iter_mut().enumerate() {
        *b = (i % 251) as u8;
    }
    let mut dst = pool(2, 16, 16, ChromaLayout::Interleaved);
    assert_eq!(VppToEncSurface(&src, 1, &mut dst, 0), Ok(()));
    assert_eq!(&dst.buffer[0..384], &src.buffer[1536..1536 + 384]);
    assert!(dst.buffer[384..].iter().all(|&b| b == 0));
}

#[test]
fn copy_with_equal_area_but_other_shape_succeeds() {
    let src = pool(1, 32, 8, ChromaLayout::Planar);
    let mut dst = pool(1, 16, 16, ChromaLayout::Planar);
    assert_eq!(VppToEncSurface(&src, 0, &mut dst, 0), Ok(()));
}

#[test]
fn copy_geometry_mismatch_fails_without_copying() {
    let mut src = pool(1, 16, 16, ChromaLayout::Planar);
    for b in src.buffer.iter_mut() {
        *b = 7;
    }
    let mut dst = pool(1, 32, 16, ChromaLayout::Planar);
    let before = dst.buffer.clone();
    assert_eq!(VppToEncSurface(&src, 0, &mut dst, 0), Err(StatusError::Unknown));
    assert_eq!(dst.buffer, before);
}

fn bitstream_with(bytes: &[u8], offset: u32) -> mfxBitstream {
    let mut b = mfxBitstream::with_capacity(1);
    assert_eq!(b.MaxLength, 1000);
    assert_eq!(b.Data.len(), 1000);
    for (i, x) in bytes.iter().enumerate() {
        b.Data[offset as usize + i] = *x;
    }
    b.DataOffset = offset;
    b.DataLength = bytes.len() as u32;
    b
}

#[test]
fn flush_resets_pending_length() {
    let mut b = bitstream_with(&[0, 0, 0, 1, 0x67], 10);
    assert_eq!(b.pending(), vec![0, 0, 0, 1, 0x67]);
    assert_eq!(WriteBitStreamFrame(&mut b, 5), Ok(()));
    assert_eq!(b.DataLength, 0);
    assert_eq!(b.DataOffset, 10);
    assert!(b.pending().is_empty());
}

#[test]
fn short_flush_fails_and_keeps_pending_length() {
    let mut b = bitstream_with(&[1, 2, 3, 4], 0);
    assert_eq!(
        WriteBitStreamFrame(&mut b, 3),
        Err(ShortWrite { expected: 4, written: 3 })
    );
    assert_eq!(b.DataLength, 4);
    assert_eq!(b.pending(), vec![1, 2, 3, 4]);
}

fn pipeline_16x16(vpp_in_count: u16) -> Pipeline {
    let vpp = vpp_params(16, 16);
    let (vin, vout) = match vpp.Stage {
        StageInfo::Vpp(v) => (v.In, v.Out),
        StageInfo::Encode(_) => unreachable!(),
    };
    let enc = match encode_params(16, 16, 500).Stage {
        StageInfo::Encode(m) => m.FrameInfo,
        StageInfo::Vpp(_) => unreachable!(),
    };
    Pipeline::new(
        SurfacePool::construct(vpp_in_count, vin, ChromaLayout::Planar).unwrap(),
        SurfacePool::construct(2, vout, ChromaLayout::Interleaved).unwrap(),
        SurfacePool::construct(2, enc, ChromaLayout::Interleaved).unwrap(),
        mfxBitstream::with_capacity(1),
    )
}

/// The stage's lock counters: every surface free but those listed.
fn held(count: usize, busy: &[usize]) -> Vec<u16> {
    (0..count).map(|i| if busy.contains(&i) { 1 } else { 0 }).collect()
}

fn full_frame(byte: u8) -> Event {
    Event::FrameRead { luma: vec![byte; 256], u: vec![byte; 64], v: vec![byte; 64] }
}

fn end_of_input() -> Event {
    Event::FrameRead { luma: vec![], u: vec![], v: vec![] }
}

#[test]
fn one_frame_runs_through_both_stages() {
    let mut p = pipeline_16x16(2);
    let frame: Vec<u8> = (0..384).map(|i| (i % 200) as u8).collect();
    assert_eq!(p.handle(Event::Begin), Action::ReadFrame { luma: 256, chroma: 64 });
    let a = p.handle(Event::FrameRead {
        luma: frame[..256].to_vec(),
        u: frame[256..320].to_vec(),
        v: frame[320..].to_vec(),
    });
    assert_eq!(a, Action::RunVpp { input: Some(0), output: 0 });
    assert_eq!(&p.vpp_in.buffer[0..256], &frame[..256]);
    // the stage holds both surfaces while it works
    assert!(p.record_locks(&held(2, &[0]), &held(2, &[0]), &held(2, &[])));
    assert_eq!(p.handle(Event::VppSubmitted(MFX_ERR_NONE)), Action::SyncVpp);
    // the processed frame lands in the output surface; the stage lets go of both
    p.vpp_out.buffer[0..384].copy_from_slice(&frame);
    assert!(p.record_locks(&held(2, &[]), &held(2, &[]), &held(2, &[])));
    assert_eq!(p.handle(Event::VppSynced(MFX_ERR_NONE)), Action::RunEncode { surface: Some(0) });
    assert_eq!(&p.enc_in.buffer[0..384], &frame[..]);
    assert_eq!(p.handle(Event::EncodeSubmitted(MFX_ERR_NONE)), Action::SyncEncode);
    p.bitstream.Data[0..6].copy_from_slice(&[0, 0, 0, 1, 0x65, 0x88]);
    p.bitstream.DataLength = 6;
    assert!(p.record_locks(&held(2, &[]), &held(2, &[]), &held(2, &[])));
    assert_eq!(p.handle(Event::EncodeSynced(MFX_ERR_NONE)), Action::WriteBitstream);
    assert_eq!(p.frames, 1);
    let chunk = p.bitstream.pending();
    assert_eq!(chunk, vec![0, 0, 0, 1, 0x65, 0x88]);
    assert_eq!(p.handle(Event::Written(chunk.len())), Action::ReadFrame { luma: 256, chroma: 64 });
    assert_eq!(p.in_idx, 0);
    assert_eq!(p.bitstream.DataLength, 0);
    // end of input: video processing is drained, then the encoder
    assert_eq!(p.handle(end_of_input()), Action::RunVpp { input: None, output: 0 });
    assert_eq!(p.mode, Mode::Draining);
    assert_eq!(p.vpp_in.surfaces[0].Data.Locked, 0);
    assert_eq!(p.handle(Event::VppSubmitted(MFX_ERR_MORE_DATA)), Action::RunEncode { surface: None });
    assert!(p.vpp_drained);
    assert_eq!(p.handle(Event::EncodeSubmitted(MFX_ERR_MORE_DATA)), Action::Close { vpp: true });
    assert_eq!(p.handle(Event::Closed), Action::Stop);
    assert_eq!(p.mode, Mode::Closed);
    assert_eq!(p.result(), Ok(1));
    assert_eq!(p.handle(Event::Begin), Action::Stop);
}

#[test]
fn empty_input_ends_with_zero_frames() {
    let mut p = pipeline_16x16(2);
    assert_eq!(p.handle(Event::Begin), Action::ReadFrame { luma: 256, chroma: 64 });
    assert_eq!(p.handle(end_of_input()), Action::RunVpp { input: None, output: 0 });
    assert_eq!(p.handle(Event::VppSubmitted(MFX_ERR_MORE_DATA)), Action::RunEncode { surface: None });
    assert_eq!(p.handle(Event::EncodeSubmitted(MFX_ERR_MORE_DATA)), Action::Close { vpp: true });
    assert_eq!(p.handle(Event::Closed), Action::Stop);
    assert_eq!(p.frames, 0);
    assert_eq!(p.result(), Ok(0));
}

#[test]
fn draining_passes_held_frames_through_both_stages() {
    let mut p = pipeline_16x16(2);
    p.handle(Event::Begin);
    assert_eq!(p.handle(end_of_input()), Action::RunVpp { input: None, output: 0 });
    // video processing hands out a frame it held
    assert_eq!(p.handle(Event::VppSubmitted(MFX_ERR_NONE)), Action::SyncVpp);
    assert_eq!(p.handle(Event::VppSynced(MFX_ERR_NONE)), Action::RunEncode { surface: Some(0) });
    assert_eq!(p.handle(Event::EncodeSubmitted(MFX_ERR_NONE)), Action::SyncEncode);
    p.bitstream.DataLength = 3;
    assert_eq!(p.handle(Event::EncodeSynced(MFX_ERR_NONE)), Action::WriteBitstream);
    // output surface 0 is still held, as no counters came back
    assert_eq!(p.handle(Event::Written(3)), Action::RunVpp { input: None, output: 1 });
    assert_eq!(p.handle(Event::VppSubmitted(MFX_ERR_MORE_DATA)), Action::RunEncode { surface: None });
    // the encoder hands out a frame it held
    assert_eq!(p.handle(Event::EncodeSubmitted(MFX_ERR_NONE)), Action::SyncEncode);
    p.bitstream.DataLength = 2;
    assert_eq!(p.handle(Event::EncodeSynced(MFX_ERR_NONE)), Action::WriteBitstream);
    assert_eq!(p.handle(Event::Written(2)), Action::RunEncode { surface: None });
    assert_eq!(p.handle(Event::EncodeSubmitted(MFX_ERR_MORE_DATA)), Action::Close { vpp: true });
    p.handle(Event::Closed);
    assert_eq!(p.result(), Ok(2));
}

#[test]
fn vpp_more_data_keeps_the_held_input_surface() {
    let mut p = pipeline_16x16(2);
    p.handle(Event::Begin);
    p.handle(full_frame(5));
    assert_eq!(p.handle(Event::VppSubmitted(MFX_ERR_MORE_DATA)), Action::ReadFrame { luma: 256, chroma: 64 });
    assert_eq!(p.awaiting, Await::Frame);
    // surface 0 stays with the stage; the next frame goes elsewhere
    assert_eq!(p.vpp_in.surfaces[0].Data.Locked, 1);
    assert_eq!(p.in_idx, 1);
    // the unused output surface is free again
    assert_eq!(p.vpp_out.surfaces[0].Data.Locked, 0);
    assert_eq!(p.handle(full_frame(6)), Action::RunVpp { input: Some(1), output: 0 });
    assert!(p.vpp_in.buffer[..256].iter().all(|&b| b == 5));
    assert!(p.vpp_in.buffer[1536..1536 + 256].iter().all(|&b| b == 6));
}

#[test]
fn encoder_more_data_keeps_its_surface_until_the_stage_lets_go() {
    let mut p = pipeline_16x16(2);
    p.handle(Event::Begin);
    p.handle(full_frame(1));
    p.handle(Event::VppSubmitted(MFX_ERR_NONE));
    p.vpp_out.buffer[0..384].fill(1);
    assert!(p.record_locks(&held(2, &[]), &held(2, &[]), &held(2, &[])));
    assert_eq!(p.handle(Event::VppSynced(MFX_ERR_NONE)), Action::RunEncode { surface: Some(0) });
    // the encoder keeps the frame back
    assert!(p.record_locks(&held(2, &[]), &held(2, &[]), &held(2, &[0])));
    assert_eq!(p.handle(Event::EncodeSubmitted(MFX_ERR_MORE_DATA)), Action::ReadFrame { luma: 256, chroma: 64 });
    assert_eq!(p.enc_in.surfaces[0].Data.Locked, 1);
    p.handle(full_frame(2));
    assert_eq!(p.handle(Event::VppSubmitted(MFX_ERR_NONE)), Action::SyncVpp);
    assert_eq!(p.out_idx, 0);
    p.vpp_out.buffer[0..384].fill(2);
    assert!(p.record_locks(&held(2, &[]), &held(2, &[]), &held(2, &[0])));
    // the next frame goes to the other encode surface, not over the held one
    assert_eq!(p.handle(Event::VppSynced(MFX_ERR_NONE)), Action::RunEncode { surface: Some(1) });
    assert!(p.enc_in.buffer[..384].iter().all(|&b| b == 1));
    assert!(p.enc_in.buffer[1536..1536 + 384].iter().all(|&b| b == 2));
    assert_eq!(p.handle(Event::EncodeSubmitted(MFX_ERR_NONE)), Action::SyncEncode);
    // once the encoder lets go, surface 0 is free again
    assert!(p.record_locks(&held(2, &[]), &held(2, &[]), &held(2, &[])));
    assert_eq!(p.enc_in.surfaces[0].Data.Locked, 0);
    assert_eq!(p.enc_in.surfaces[1].Data.Locked, 0);
}

#[test]
fn lock_counters_of_the_wrong_length_change_nothing() {
    let mut p = pipeline_16x16(2);
    p.handle(Event::Begin);
    assert!(!p.record_locks(&held(3, &[]), &held(2, &[]), &held(2, &[])));
    assert_eq!(p.vpp_in.surfaces[0].Data.Locked, 1);
    assert_eq!(p.awaiting, Await::Frame);
}

#[test]
fn pool_takes_stage_counters() {
    let mut p = pool(3, 16, 16, ChromaLayout::Planar);
    assert!(p.record_locks(&vec![2, 0, 1]));
    assert_eq!(p.acquire(), Ok(1));
    assert!(!p.record_locks(&vec![0, 0]));
    assert_eq!(p.surfaces[1].Data.Locked, 1);
    assert!(p.record_locks(&vec![0, 0, 0]));
    assert_eq!(p.acquire(), Ok(0));
}

#[test]
fn encoder_warning_moves_to_next_frame() {
    let mut p = pipeline_16x16(2);
    p.handle(Event::Begin);
    p.handle(full_frame(5));
    p.handle(Event::VppSubmitted(MFX_ERR_NONE));
    p.handle(Event::VppSynced(MFX_ERR_NONE));
    assert_eq!(p.handle(Event::EncodeSubmitted(MFX_ERR_NOT_ENOUGH_BUFFER)), Action::ReadFrame { luma: 256, chroma: 64 });
    assert_eq!(p.frames, 0);
    assert!(p.failure.is_none());
}

#[test]
fn stage_error_closes_encode_only() {
    let mut p = pipeline_16x16(2);
    p.handle(Event::Begin);
    p.handle(full_frame(5));
    assert_eq!(p.handle(Event::VppSubmitted(MFX_ERR_UNSUPPORTED)), Action::Close { vpp: false });
    assert_eq!(p.handle(Event::Closed), Action::Stop);
    assert_eq!(
        p.result(),
        Err(PipelineError::Status { during: Await::VppSubmit, error: StatusError::Unsupported })
    );
}

#[test]
fn sync_timeout_is_fatal() {
    let mut p = pipeline_16x16(2);
    p.handle(Event::Begin);
    p.handle(full_frame(5));
    p.handle(Event::VppSubmitted(MFX_ERR_NONE));
    assert_eq!(p.handle(Event::VppSynced(1)), Action::Close { vpp: false });
    assert_eq!(
        p.result(),
        Err(PipelineError::Status { during: Await::VppSync, error: StatusError::InExecution })
    );
}

#[test]
fn short_write_fails_the_run() {
    let mut p = pipeline_16x16(2);
    p.handle(Event::Begin);
    p.handle(full_frame(5));
    p.handle(Event::VppSubmitted(MFX_ERR_NONE));
    p.handle(Event::VppSynced(MFX_ERR_NONE));
    p.handle(Event::EncodeSubmitted(MFX_ERR_NONE));
    p.bitstream.DataLength = 10;
    p.handle(Event::EncodeSynced(MFX_ERR_NONE));
    assert_eq!(p.handle(Event::Written(4)), Action::Close { vpp: false });
    assert_eq!(p.bitstream.DataLength, 10);
    assert_eq!(
        p.result(),
        Err(PipelineError::Write(ShortWrite { expected: 10, written: 4 }))
    );
}

#[test]
fn exhausted_input_pool_fails_with_not_found() {
    let mut p = pipeline_16x16(0);
    assert_eq!(p.handle(Event::Begin), Action::Close { vpp: false });
    assert_eq!(
        p.result(),
        Err(PipelineError::Status { during: Await::Start, error: StatusError::NotFound })
    );
}

#[test]
fn unexpected_event_fails_the_run() {
    let mut p = pipeline_16x16(2);
    assert_eq!(p.handle(Event::VppSynced(0)), Action::Close { vpp: false });
    assert_eq!(p.result(), Err(PipelineError::Unexpected { during: Await::Start }));
    assert_eq!(p.handle(Event::Begin), Action::Close { vpp: false });
}

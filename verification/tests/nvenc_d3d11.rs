//! The synchronous NVENC session: selection, opening and frames.
use ss_encode::nvenc::open_search::SPLIT_DISABLE_MODE;
use ss_encode::nvenc::{RangePlan, CODEC_AV1_GUID, CODEC_HEVC_GUID, PIC_FLAGS_KEYFRAME};
use ss_encode::nvenc_d3d11::open::{
    begin_open, open_session, OpenAction, OpenAnswer, OpenPhase,
};
use ss_encode::nvenc_d3d11::{
    advertised_wire_caps, bgra_bytes, check_open, dispatch, hardware_selected, hevc_444_supported,
    nvidia_device, open_attempts, probe_uncached, session_pixel_rate, slice_budget,
    ten_bit_supported, Adapter, D3d11Config, D3d11Error, Dispatch, NvencD3d11Encoder, ProbeAnswers, ProbedSupport,
    SessionAttempt,
};
use ss_encode::types::{ChromaFormat, Codec, CodecSupport, PixelFormat};

#[test]
fn rgb_expands_to_bgra_memory_order() {
    let mut scratch = Vec::new();
    let out = bgra_bytes(PixelFormat::Rgb, 1, 1, &[1, 2, 3], &mut scratch).unwrap();
    assert_eq!(out, &[3, 2, 1, 255]);
}

#[test]
fn bgra_is_passed_through() {
    let mut scratch = Vec::new();
    let src = [4u8, 5, 6, 7];
    let out = bgra_bytes(PixelFormat::Bgra, 1, 1, &src, &mut scratch).unwrap();
    assert_eq!(out, &src);
}

#[test]
fn other_layouts_are_reordered_or_refused() {
    let mut scratch = Vec::new();
    let src: Vec<u8> = (1..=8).collect();
    let out = bgra_bytes(PixelFormat::Rgba, 2, 1, &src, &mut scratch).unwrap();
    assert_eq!(out, &[3, 2, 1, 4, 7, 6, 5, 8]);
    let mut scratch = Vec::new();
    let out = bgra_bytes(PixelFormat::Bgr, 2, 1, &src, &mut scratch).unwrap();
    assert_eq!(out, &[1, 2, 3, 255, 4, 5, 6, 255]);
    let mut scratch = Vec::new();
    let out = bgra_bytes(PixelFormat::Bgrx, 1, 1, &src, &mut scratch).unwrap();
    assert_eq!(out, &[1, 2, 3, 4]);
    let mut scratch = vec![9, 9];
    assert_eq!(
        bgra_bytes(PixelFormat::Rgba, 3, 1, &src, &mut scratch),
        Err(D3d11Error::ShortFrame { len: 8 })
    );
    assert_eq!(scratch, vec![9, 9], "a refused frame leaves the buffer alone");
    let mut scratch = Vec::new();
    assert_eq!(
        bgra_bytes(PixelFormat::Bgra, 3, 1, &src, &mut scratch),
        Err(D3d11Error::ShortFrame { len: 8 })
    );
    let mut scratch = Vec::new();
    assert_eq!(
        bgra_bytes(PixelFormat::Nv12, 1, 1, &src, &mut scratch),
        Err(D3d11Error::FormatUnsupported(PixelFormat::Nv12))
    );
}

fn support() -> ProbedSupport {
    ProbedSupport {
        codecs: CodecSupport {
            h264: true,
            h265: true,
            av1: false,
        },
        hevc_444: true,
        ten_bit: false,
    }
}

#[test]
fn preferences_select_the_encoder() {
    assert_eq!(dispatch("  NvEnc\t", false), Dispatch::NvencForced);
    assert_eq!(dispatch("CUDA", false), Dispatch::NvencForced);
    assert_eq!(dispatch("openh264", true), Dispatch::Software);
    assert_eq!(dispatch("", true), Dispatch::Nvenc);
    assert_eq!(dispatch(" auto ", false), Dispatch::Software);
    assert_eq!(dispatch("vaapi", true), Dispatch::Unsupported);
    assert!(hardware_selected(Dispatch::NvencForced, None));
    assert!(hardware_selected(Dispatch::Nvenc, Some(support())));
    assert!(!hardware_selected(Dispatch::Nvenc, None));
    assert!(!hardware_selected(Dispatch::Software, Some(support())));
    assert!(hevc_444_supported(Dispatch::Nvenc, Some(support())));
    assert!(!ten_bit_supported(Dispatch::Nvenc, Some(support())));
    assert!(!hevc_444_supported(Dispatch::Software, Some(support())));
    assert_eq!(advertised_wire_caps(Dispatch::Software, None, Some(3)), None);
}

#[test]
fn a_probe_claims_only_listed_codecs() {
    let found = probe_uncached(&ProbeAnswers {
        listed: Some(vec![CODEC_HEVC_GUID]),
        hevc_444: 1,
        hevc_10bit: 0,
        av1_10bit: 1,
    })
    .unwrap();
    assert!(found.codecs.h265 && !found.codecs.av1 && !found.codecs.h264);
    assert!(found.hevc_444 && !found.ten_bit);
    let found = probe_uncached(&ProbeAnswers {
        listed: Some(vec![CODEC_AV1_GUID]),
        hevc_444: 1,
        hevc_10bit: 1,
        av1_10bit: 1,
    })
    .unwrap();
    assert!(!found.hevc_444 && found.ten_bit);
    let none = ProbeAnswers {
        listed: None,
        hevc_444: 1,
        hevc_10bit: 1,
        av1_10bit: 1,
    };
    assert!(probe_uncached(&none).is_none());
}

#[test]
fn the_selected_adapter_wins() {
    let a = |vendor_id: u32, luid: u64| Adapter { vendor_id, luid };
    let list = vec![a(0x8086, 1), a(0x10de, 2), a(0x10de, 3), a(0x1002, 4)];
    assert_eq!(nvidia_device(&list, Some(3)), Some(2));
    assert_eq!(nvidia_device(&list, Some(4)), Some(1));
    assert_eq!(nvidia_device(&list, None), Some(1));
    assert_eq!(nvidia_device(&vec![a(0x8086, 1)], Some(1)), None);
}

#[test]
fn open_needs_a_codec_of_the_adapter() {
    let open = |codec: Codec, depth: u8, chroma: ChromaFormat, p: Option<ProbedSupport>| {
        check_open(codec, depth, chroma, p)
    };
    let full = ChromaFormat::Yuv444;
    assert_eq!(open(Codec::H265, 8, full, Some(support())), Ok(true));
    assert_eq!(open(Codec::H264, 8, full, Some(support())), Ok(false));
    assert_eq!(
        open(Codec::Av1, 8, full, Some(support())),
        Err(D3d11Error::CodecUnsupported)
    );
    assert_eq!(open(Codec::H264, 8, full, None), Err(D3d11Error::Unavailable));
    assert_eq!(
        open(Codec::H265, 10, full, Some(support())),
        Err(D3d11Error::DepthUnavailable { bit_depth: 10 })
    );
}

#[test]
fn refused_sessions_are_retried_at_lower_rates() {
    let got = open_attempts(200_000_000, 150_000_000, 2, true);
    let plain = |bps: u64| SessionAttempt {
        bps,
        split_mode: SPLIT_DISABLE_MODE,
        subframe: false,
    };
    assert_eq!(
        got,
        vec![
            SessionAttempt {
                bps: 200_000_000,
                split_mode: 2,
                subframe: true
            },
            SessionAttempt {
                bps: 200_000_000,
                split_mode: SPLIT_DISABLE_MODE,
                subframe: true
            },
            plain(112_500_000),
            plain(84_375_000),
            plain(63_281_250),
            plain(47_460_937),
        ]
    );
    assert_eq!(open_attempts(50_000_000, u64::MAX, SPLIT_DISABLE_MODE, false).len(), 1);
    assert_eq!(session_pixel_rate(1920, 1080, 60), 124_416_000);
    assert_eq!((slice_budget(0), slice_budget(3), slice_budget(9)), (1, 3, 4));
}

#[test]
fn every_handle_of_a_failed_open_is_released() {
    let attempts = open_attempts(60_000_000, u64::MAX / 4, SPLIT_DISABLE_MODE, true);
    assert_eq!(attempts.len(), 2);
    let mut step = begin_open();
    assert_eq!(step.action, OpenAction::Open);
    step = open_session(step.phase, &attempts, OpenAnswer::Handle(5));
    assert_eq!(step.action, OpenAction::Initialize(attempts[0]));
    step = open_session(step.phase, &attempts, OpenAnswer::Refused(8));
    assert_eq!(step.release.encoder, Some(5));
    assert_eq!(step.phase, OpenPhase::Opening { at: 1 });
    step = open_session(step.phase, &attempts, OpenAnswer::Handle(6));
    assert_eq!(step.action, OpenAction::Initialize(attempts[1]));
    let configured = open_session(step.phase, &attempts, OpenAnswer::Accepted);
    assert_eq!(configured.action, OpenAction::Register);
    let registered = open_session(configured.phase, &attempts, OpenAnswer::Handle(7));
    assert_eq!(registered.action, OpenAction::CreateBuffer);
    let opened = open_session(registered.phase, &attempts, OpenAnswer::Handle(8));
    assert_eq!(
        opened.phase,
        OpenPhase::Opened {
            attempt: attempts[1],
            encoder: 6,
            registered: 7,
            bitstream: 8
        }
    );
    let failed = open_session(registered.phase, &attempts, OpenAnswer::Refused(3));
    assert_eq!(failed.phase, OpenPhase::Failed(3));
    assert_eq!((failed.release.encoder, failed.release.registered), (Some(6), Some(7)));
    let failed = open_session(configured.phase, &attempts, OpenAnswer::Refused(4));
    assert_eq!((failed.release.encoder, failed.release.registered), (Some(6), None));
    let failed = open_session(step.phase, &attempts, OpenAnswer::Refused(9));
    assert_eq!(failed.phase, OpenPhase::Failed(9), "the last attempt was refused");
}

#[test]
fn frames_carry_keyframes_and_anchors() {
    let cfg = D3d11Config {
        codec: Codec::H265,
        width: 64,
        height: 32,
        fps: 60,
        bitrate_bps: 5,
        chroma_444: false,
        rfi_supported: true,
        custom_vbv: true,
        slices: 1,
        split_mode: SPLIT_DISABLE_MODE,
        subframe_on: false,
    };
    let mut enc = NvencD3d11Encoder::open(9, cfg);
    assert!(enc.check_frame(64, 32).is_ok());
    assert_eq!(
        enc.check_frame(64, 31),
        Err(D3d11Error::SizeMismatch {
            width: 64,
            height: 31
        })
    );
    enc.set_wire_index(40);
    assert!(enc.invalidate_ref_frames(RangePlan::Covered, false));
    let plan = enc.plan_frame();
    assert_eq!((plan.timestamp, plan.flags, plan.anchor), (40, 0, true));
    enc.finish_frame(plan, 11, vec![1, 2], false);
    let au = enc.poll().unwrap();
    assert!(au.recovery_anchor && au.pts_ns == 11 && au.data == vec![1, 2]);
    assert!(enc.poll().is_none());
    enc.invalidate_ref_frames(RangePlan::Invalidate { first: 1, last: 2 }, true);
    enc.request_keyframe();
    let plan = enc.plan_frame();
    assert_eq!((plan.flags, plan.anchor), (PIC_FLAGS_KEYFRAME, false));
    assert_eq!(enc.last_rfi_range, Some((1, 2)));
    assert!(enc.reconfigure_bitrate(77, true));
    assert!(!enc.reconfigure_bitrate(78, false));
    assert_eq!(enc.cfg.bitrate_bps, 77);
    assert!(enc.caps().supports_rfi);
    assert_eq!(enc.build_config(3).bit_depth, 8);
}

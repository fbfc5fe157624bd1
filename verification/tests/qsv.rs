//! The QSV backend, driven against a simulated runtime.
use ss_encode::flow::{DrainStep, InputError, PollBegin, ResetPlan};
use ss_encode::ltr::LtrPlan;
use ss_encode::qsv::params::{
    align16, build_params, create_session, frame_ctrl, intra_refresh_period, ltr_mark_interval,
    ltr_test_force_at, luid_bytes, probe_candidates, probe_config, split_rate, sts_name, vpl_ok,
    EncodeConfig, ExtBuffer, Profile, QsvError, Status, VplImpl, Wave,
};
use ss_encode::qsv::submit::{FrameIn, SubmitAction, SubmitEvent};
use ss_encode::qsv::{
    au_bytes, probe_can_encode, probe_can_encode_10bit, timestamp, InitCalls, Initialised,
    QsvEncoder, SettleStep, SyncEvent, IN_FLIGHT_MAX,
};
use ss_encode::types::{ChromaFormat, Codec, EncodedFrame, HdrMeta, PayloadKind, PixelFormat};

#[test]
fn probe_smoke() {
    // A box without an adapter of the vendor, one whose driver takes either query, one that takes it
    // with a correction, and one that declines it.
    let boxes = [
        None,
        Some(Status::Success),
        Some(Status::WarnIncompatibleVideoParam),
        Some(Status::Unsupported),
    ];
    let mut deep = 0;
    for answer in boxes {
        for codec in [Codec::H264, Codec::H265, Codec::Av1] {
            let can = probe_can_encode(codec, answer);
            let can10 = probe_can_encode_10bit(codec, answer);
            println!("QSV probe {codec:?} {can} {can10}");
            if can10 {
                assert!(can, "10-bit implies base codec support");
                deep += 1;
            }
        }
    }
    assert_eq!(deep, 4);
}

#[test]
fn a_probe_follows_the_query() {
    for codec in [Codec::H264, Codec::H265, Codec::Av1] {
        for sts in [Status::Success, Status::WarnIncompatibleVideoParam, Status::Unsupported] {
            let can = probe_can_encode(codec, Some(sts));
            let can10 = probe_can_encode_10bit(codec, Some(sts));
            assert_eq!(can, sts != Status::Unsupported);
            assert_eq!(can10, can && codec != Codec::H264);
        }
    }
    assert!(!probe_can_encode(Codec::PyroWave, Some(Status::Success)));
}

fn test_hdr_meta() -> HdrMeta {
    HdrMeta {
        display_primaries: [[13250, 34500], [7500, 3000], [34000, 16000]],
        white_point: [15635, 16450],
        max_display_mastering_luminance: 10_000_000,
        min_display_mastering_luminance: 500,
        max_cll: 1000,
        max_fall: 400,
    }
}

struct AuMeta {
    keyframe: bool,
    recovery_anchor: bool,
    annexb_start: bool,
    len: usize,
}

fn init() -> Initialised {
    Initialised {
        ltr_active: true,
        ir_active: false,
        bs_bytes: 64,
    }
}

fn done(length: u32, idr: bool) -> SyncEvent {
    SyncEvent {
        sts: Status::Success,
        offset: 4,
        length,
        idr,
        intra: false,
    }
}

fn still_encoding() -> SyncEvent {
    SyncEvent {
        sts: Status::WarnInExecution,
        offset: 0,
        length: 0,
        idr: false,
        intra: false,
    }
}

fn open(codec: Codec, ten_bit: bool) -> QsvEncoder {
    let format = if ten_bit {
        PixelFormat::P010
    } else {
        PixelFormat::Nv12
    };
    let mut enc = QsvEncoder::open(
        true,
        true,
        codec,
        format,
        640,
        480,
        30,
        2_000_000,
        if ten_bit { 10 } else { 8 },
        ChromaFormat::Yuv420,
        ltr_mark_interval(None, 30),
        ltr_test_force_at(None),
    )
    .expect("open");
    if ten_bit {
        enc.set_hdr_meta(Some(test_hdr_meta()));
    }
    enc
}

fn frame(enc: &QsvEncoder, pts_ns: u64) -> FrameIn {
    FrameIn {
        width: 640,
        height: 480,
        payload: PayloadKind::D3d11,
        format: if enc.cfg.ten_bit {
            PixelFormat::P010
        } else {
            PixelFormat::Nv12
        },
        device: 0xd3d,
        pts_ns,
    }
}

/// Runs a submit to its end. The runtime finishes a frame once three are in flight, and is busy once
/// for every `busy` frames.
fn submit(enc: &mut QsvEncoder, pts_ns: u64, busy: u64) -> Result<(), QsvError> {
    let f = frame(enc, pts_ns);
    let mut step = enc.submit(&f)?;
    let mut held: Option<Vec<u8>> = None;
    let mut was_busy = busy == 0 || pts_ns % busy != 0;
    loop {
        let event = match step.action {
            SubmitAction::Build => SubmitEvent::Built(init()),
            SubmitAction::Sync | SubmitAction::SleepAndSync => SubmitEvent::Synced {
                event: done(6, false),
                budget_spent: false,
            },
            SubmitAction::Copy => SubmitEvent::Copied,
            SubmitAction::Encode(mut buf) => {
                if was_busy {
                    buf[4..10].copy_from_slice(&[0, 0, 0, 1, 9, pts_ns as u8]);
                    SubmitEvent::Answer {
                        sts: Status::Success,
                        syncp: Some(pts_ns + 1),
                        buf,
                    }
                } else {
                    was_busy = true;
                    SubmitEvent::Answer {
                        sts: Status::WarnDeviceBusy,
                        syncp: None,
                        buf,
                    }
                }
            }
            SubmitAction::SyncBusy(buf) => {
                held = Some(buf);
                SubmitEvent::Synced {
                    event: still_encoding(),
                    budget_spent: false,
                }
            }
            SubmitAction::EncodeAgain => {
                let mut buf = held.take().expect("the buffer is kept");
                buf[4..10].copy_from_slice(&[0, 0, 0, 1, 9, pts_ns as u8]);
                SubmitEvent::Answer {
                    sts: Status::Success,
                    syncp: Some(pts_ns + 1),
                    buf,
                }
            }
            SubmitAction::Nothing => return Ok(()),
        };
        step = enc.submit_step(step.phase, pts_ns, event)?;
    }
}

fn poll(enc: &mut QsvEncoder) -> Option<EncodedFrame> {
    match enc.poll() {
        PollBegin::Idle => None,
        PollBegin::Ready(au) => Some(au),
        PollBegin::Query => enc.poll_wait(done(6, false)).expect("poll"),
    }
}

fn drive_live(
    codec: Codec,
    ten_bit: bool,
    frames: u32,
    mut on_frame: impl FnMut(&mut QsvEncoder, u32),
) -> Vec<AuMeta> {
    let mut enc = open(codec, ten_bit);
    let mut aus = Vec::new();
    let mut push = |au: EncodedFrame| {
        aus.push(AuMeta {
            keyframe: au.keyframe,
            recovery_anchor: au.recovery_anchor,
            annexb_start: au.data.starts_with(&[0, 0, 0, 1]) || au.data.starts_with(&[0, 0, 1]),
            len: au.data.len(),
        });
    };
    for i in 0..frames {
        on_frame(&mut enc, i);
        enc.set_wire_index(i);
        submit(&mut enc, i as u64 * 33_333_333, 7).expect("submit");
        if let Some(au) = poll(&mut enc) {
            push(au);
        }
    }
    let buf = enc.take_bs();
    assert!(!enc.flush_turn(Status::MoreData, None, buf));
    while let Some(au) = poll(&mut enc) {
        push(au);
    }
    aus
}

fn assert_stream_shape(aus: &[AuMeta], frames: u32, annexb: bool) {
    assert!(
        aus.len() >= frames as usize - 5,
        "expected ~{frames} AUs, got {}",
        aus.len()
    );
    assert!(aus[0].keyframe, "first AU must be a keyframe");
    assert!(aus[0].len > 0);
    if annexb {
        assert!(aus[0].annexb_start, "first AU is not Annex-B");
    }
}

#[test]
fn qsv_encode_live_smoke() {
    let aus = drive_live(Codec::H264, false, 30, |_, _| {});
    assert_stream_shape(&aus, 30, true);
}

#[test]
fn qsv_live_hevc() {
    let aus = drive_live(Codec::H265, false, 30, |_, _| {});
    assert_stream_shape(&aus, 30, true);
}

#[test]
fn qsv_live_hevc10_hdr() {
    let aus = drive_live(Codec::H265, true, 30, |_, _| {});
    assert_stream_shape(&aus, 30, true);
}

#[test]
fn qsv_live_av1_10bit() {
    let aus = drive_live(Codec::Av1, true, 30, |_, _| {});
    assert_stream_shape(&aus, 30, false);
}

#[test]
fn qsv_live_ltr_rfi() {
    let mut rfi_answered = false;
    let aus = drive_live(Codec::H264, false, 60, |enc, i| {
        if i == 30 && enc.caps().supports_rfi {
            rfi_answered = enc.invalidate_ref_frames(28, 29);
        }
    });
    assert_stream_shape(&aus, 60, true);
    assert!(rfi_answered);
    let anchor = aus.iter().position(|a| a.recovery_anchor);
    assert!(
        anchor.is_some(),
        "RFI was answered but no recovery_anchor AU was emitted"
    );
    let a = &aus[anchor.unwrap()];
    assert!(
        !a.keyframe,
        "the recovery anchor must be a clean P-frame, not an IDR"
    );
    assert!(
        !aus[1..].iter().any(|x| x.keyframe),
        "an IDR appeared despite successful LTR-RFI recovery"
    );
}

#[test]
fn qsv_live_ltr_rfi_taint_sweep_declines() {
    let mut rfi_answered = None;
    let aus = drive_live(Codec::H264, false, 60, |enc, i| {
        if i == 30 && enc.caps().supports_rfi {
            rfi_answered = Some(enc.invalidate_ref_frames(0, 2));
        }
    });
    assert_stream_shape(&aus, 60, true);
    let answered = rfi_answered.expect("long-term references run");
    assert!(
        !answered,
        "a loss covering every live LTR mark must fall back to IDR recovery"
    );
    assert!(
        !aus.iter().any(|a| a.recovery_anchor),
        "no recovery_anchor AU may ship when the sweep left no clean LTR"
    );
}

#[test]
fn qsv_live_bitrate_retarget() {
    let mut accepted = false;
    let aus = drive_live(Codec::H264, false, 60, |enc, i| {
        if i == 30 {
            assert!(!enc.reconfigure_bitrate(6_000_000));
            while enc.unsettled() {
                assert_eq!(enc.settle_turn(done(6, false), false), SettleStep::Again);
            }
            accepted = enc.finish_reconfigure(6_000_000, Status::Success, Some((400, 1)));
            assert_eq!(enc.cfg.bitrate_bps, 6_000_000);
            assert_eq!(enc.ses.bs_bytes, 400_000);
        }
    });
    assert_stream_shape(&aus, 60, true);
    assert!(accepted, "the no-IDR bitrate retarget was declined");
    assert!(
        !aus[1..].iter().any(|x| x.keyframe),
        "the bitrate retarget emitted a keyframe (StartNewSequence leak)"
    );
}

#[test]
fn a_declined_retarget_keeps_the_rate() {
    let mut enc = open(Codec::H264, false);
    assert!(enc.reconfigure_bitrate(3_000_000));
    submit(&mut enc, 0, 0).unwrap();
    assert!(!enc.reconfigure_bitrate(9_000_000));
    assert_eq!(enc.settle_turn(still_encoding(), false), SettleStep::Wait);
    assert_eq!(enc.settle_turn(still_encoding(), true), SettleStep::GiveUp);
    assert_eq!(enc.settle_turn(done(999, false), false), SettleStep::GiveUp);
    assert!(!enc.finish_reconfigure(9_000_000, Status::IncompatibleVideoParam, None));
    assert_eq!(enc.cfg.bitrate_bps, 3_000_000);
    assert!(enc.finish_reconfigure(9_000_000, Status::Success, None));
    assert_eq!(enc.ses.bs_bytes, 64, "the unit size is kept where it is not reported");
    assert_eq!(enc.cfg.bitrate_bps, 9_000_000);
}

#[test]
fn units_are_paired_in_order_and_checked() {
    let mut enc = open(Codec::H265, false);
    for i in 0..6u64 {
        submit(&mut enc, i, 0).unwrap();
        assert!(enc.pending.len() <= IN_FLIGHT_MAX);
    }
    assert_eq!(enc.ready.len(), 2);
    for i in 0..4u64 {
        let au = poll(&mut enc).unwrap();
        assert_eq!(au.pts_ns, i);
        assert_eq!(au.data, vec![0, 0, 0, 1, 9, i as u8]);
        assert_eq!(au.keyframe, i == 0);
    }
    assert!(enc.sync_one(still_encoding()).unwrap().is_none());
    let lost = SyncEvent {
        sts: Status::GpuHang,
        ..done(1, false)
    };
    assert_eq!(enc.sync_one(lost).err(), Some(QsvError::Call(Status::GpuHang)));
    assert_eq!(enc.pending.len(), 2);
    let beyond = done(61, false);
    assert_eq!(
        enc.sync_one(beyond).err(),
        Some(QsvError::OutOfBounds {
            offset: 4,
            length: 61,
            buffer: 64
        })
    );
    assert_eq!(enc.pending.len(), 1);
    assert!(enc.sync_one(done(60, true)).unwrap().unwrap().keyframe);
    assert!(enc.sync_one(done(1, true)).unwrap().is_none());
}

#[test]
fn every_refusal_of_a_frame_forces_a_keyframe() {
    let answer = |sts: Status, syncp: Option<u64>| -> QsvError {
        let mut enc = open(Codec::H264, false);
        submit(&mut enc, 0, 0).unwrap();
        assert!(!enc.flow.force_kf);
        let step = enc.submit(&frame(&enc, 1)).unwrap();
        let step = enc.submit_step(step.phase, 1, SubmitEvent::Copied).unwrap();
        let buf = vec![0; 64];
        let e = enc
            .submit_step(step.phase, 1, SubmitEvent::Answer { sts, syncp, buf })
            .unwrap_err();
        assert!(enc.flow.force_kf);
        assert_eq!(enc.pending.len(), 1);
        e
    };
    assert_eq!(answer(Status::MoreData, None), QsvError::MoreData);
    assert_eq!(answer(Status::DeviceFailed, None), QsvError::Call(Status::DeviceFailed));
    assert_eq!(answer(Status::Success, None), QsvError::NoSyncPoint);
}

#[test]
fn a_busy_device_is_given_its_budget() {
    let mut enc = open(Codec::H264, false);
    submit(&mut enc, 0, 0).unwrap();
    let step = enc.submit(&frame(&enc, 1)).unwrap();
    let step = enc.submit_step(step.phase, 1, SubmitEvent::Copied).unwrap();
    let busy = SubmitEvent::Answer {
        sts: Status::WarnDeviceBusy,
        syncp: None,
        buf: vec![3; 64],
    };
    let step = enc.submit_step(step.phase, 1, busy).unwrap();
    assert!(matches!(&step.action, SubmitAction::SyncBusy(b) if b == &vec![3; 64]));
    let synced = SubmitEvent::Synced {
        event: done(2, false),
        budget_spent: true,
    };
    let e = enc.submit_step(step.phase, 1, synced).unwrap_err();
    assert_eq!(e, QsvError::DeviceBusy);
    assert_eq!(enc.ready.len(), 1, "the unit that came meanwhile is kept");
    assert!(enc.flow.force_kf);
}

#[test]
fn a_wedge_is_reported_after_the_budget() {
    let mut enc = open(Codec::H264, false);
    for i in 0..4u64 {
        submit(&mut enc, i, 0).unwrap();
    }
    assert_eq!(enc.make_room(still_encoding(), false), Ok(DrainStep::Wait));
    assert_eq!(
        enc.make_room(still_encoding(), true),
        Err(QsvError::Wedged { in_flight: 4 })
    );
    assert!(enc.flow.force_kf);
    assert_eq!(enc.reset(), ResetPlan::Rebuild);
    enc.abandon_in_flight();
    enc.finish_rebuild(Some(init()));
    assert_eq!(enc.ses.frames_submitted, 0);
    assert_eq!(enc.reset(), ResetPlan::TornDown);
    assert!(!enc.caps().supports_rfi);
    assert_eq!(enc.reset(), ResetPlan::Idle);
}

#[test]
fn a_new_grade_rebuilds_the_session() {
    let mut enc = open(Codec::H265, true);
    submit(&mut enc, 0, 0).unwrap();
    let mut other = test_hdr_meta();
    other.max_cll = 999;
    enc.set_hdr_meta(Some(other));
    let step = enc.submit(&frame(&enc, 1)).unwrap();
    assert!(matches!(step.action, SubmitAction::Build));
    assert_eq!(enc.ses.bound_device, 0xd3d);
    let step = enc.submit_step(step.phase, 1, SubmitEvent::Built(init())).unwrap();
    assert!(matches!(step.action, SubmitAction::Copy));
    // Losing the grade rebuilds nothing.
    enc.set_hdr_meta(None);
    assert!(!enc.drop_stale_hdr());
    // A failed build leaves no session.
    let mut elsewhere = frame(&enc, 2);
    elsewhere.device = 5;
    let step = enc.submit(&elsewhere).unwrap();
    let failed = SubmitEvent::Failed(QsvError::WrongAdapter);
    assert_eq!(enc.submit_step(step.phase, 2, failed).unwrap_err(), QsvError::WrongAdapter);
    assert!(!enc.ses.live);
}

#[test]
fn buffers_that_became_too_small_are_dropped() {
    let mut enc = open(Codec::H264, false);
    enc.ensure_inner(1);
    enc.session_built(&init());
    enc.pool = vec![vec![1; 80], vec![2; 64], vec![3; 10], vec![4; 70]];
    assert_eq!(enc.take_bs(), vec![4; 70]);
    enc.ses.bs_bytes = 65;
    assert_eq!(enc.take_bs(), vec![1; 80]);
    assert!(enc.pool.is_empty());
    assert_eq!(enc.take_bs(), vec![0; 65]);
}

#[test]
fn qsv_open_refuses_what_it_cannot_encode() {
    let open_with = |found: bool, av1: bool, codec: Codec, format: PixelFormat| {
        QsvEncoder::open(
            found,
            av1,
            codec,
            format,
            64,
            64,
            60,
            1,
            8,
            ChromaFormat::Yuv444,
            1,
            None,
        )
        .err()
    };
    let try_open = |av1: bool, codec: Codec, format: PixelFormat| open_with(true, av1, codec, format);
    let (nv12, p010) = (PixelFormat::Nv12, PixelFormat::P010);
    for codec in [Codec::H264, Codec::H265, Codec::Av1] {
        assert_eq!(open_with(false, true, codec, nv12), Some(QsvError::NoImplementation));
    }
    assert_eq!(open_with(false, true, Codec::PyroWave, nv12), Some(QsvError::UnsupportedCodec));
    assert_eq!(try_open(true, Codec::PyroWave, nv12), Some(QsvError::UnsupportedCodec));
    assert_eq!(try_open(false, Codec::Av1, nv12), Some(QsvError::Av1Declined));
    assert_eq!(try_open(true, Codec::H264, p010), Some(QsvError::TenBitH264));
    assert_eq!(try_open(true, Codec::H264, PixelFormat::Rgb10a2), Some(QsvError::TenBitH264));
    assert_eq!(try_open(true, Codec::H265, p010), None);
    assert_eq!(
        try_open(true, Codec::H265, PixelFormat::Bgra),
        Some(QsvError::FormatMismatch {
            expected: nv12,
            delivered: PixelFormat::Bgra
        })
    );
    let mut enc = open(Codec::H264, false);
    let f = FrameIn {
        height: 1,
        ..frame(&enc, 0)
    };
    assert_eq!(
        enc.submit(&f).unwrap_err(),
        QsvError::Input(InputError::SizeMismatch {
            width: 640,
            height: 1
        })
    );
}

#[test]
fn initialisation_is_judged_by_its_calls() {
    let enc = open(Codec::H265, false);
    let good = InitCalls {
        query: Status::Success,
        init: Status::WarnPartialAcceleration,
        readback: Status::Success,
        buffer_kb: 300,
        multiplier: 2,
        wave_readback: Status::Success,
        wave_kind: 1,
    };
    let i = enc.init_encode(false, false, &good).unwrap();
    assert_eq!((i.ltr_active, i.ir_active, i.bs_bytes), (true, false, 600_000));
    let i = enc.init_encode(true, false, &good).unwrap();
    assert!(!i.ltr_active);
    let i = enc.init_encode(false, true, &good).unwrap();
    assert_eq!((i.ltr_active, i.ir_active), (false, true));
    let dropped = InitCalls {
        wave_kind: 0,
        query: Status::Unsupported,
        ..good
    };
    assert!(!enc.init_encode(false, true, &dropped).unwrap().ir_active);
    assert!(!enc.init_encode(false, false, &dropped).unwrap().ltr_active);
    let unread = InitCalls {
        wave_kind: 0,
        wave_readback: Status::Unsupported,
        ..good
    };
    assert!(enc.init_encode(false, true, &unread).unwrap().ir_active);
    let failed = InitCalls {
        init: Status::InvalidVideoParam,
        ..good
    };
    assert_eq!(
        enc.init_encode(false, false, &failed),
        Err(QsvError::Call(Status::InvalidVideoParam))
    );
    let unread = InitCalls {
        readback: Status::NotInitialized,
        ..good
    };
    assert_eq!(
        enc.init_encode(false, false, &unread),
        Err(QsvError::Call(Status::NotInitialized))
    );
    assert!(!open(Codec::Av1, false).init_encode(false, true, &good).unwrap().ir_active);
    assert_eq!(au_bytes(1, 0), 262_144);
}

#[test]
fn rates_split_into_sixteen_bits() {
    assert_eq!(split_rate(0), (1, 1));
    assert_eq!(split_rate(2_000_000), (2_000, 1));
    assert_eq!(split_rate(65_534_000), (65_534, 1));
    assert_eq!(split_rate(65_535_000), (65_535, 1));
    assert_eq!(split_rate(65_536_000), (32_768, 2));
    assert_eq!(split_rate(131_070_000), (65_535, 2));
    assert_eq!(split_rate(131_071_000), (43_690, 3));
    assert_eq!(split_rate(500_000_000), (62_500, 8));
    for bps in [1u64, 999, 1_000, 123_456_789, 4_000_000_000_000] {
        let (k, m) = split_rate(bps);
        let kbps = (bps / 1000).max(1);
        assert!(k as u64 * m as u64 <= kbps && kbps < (k as u64 + 1) * m as u64);
    }
    assert_eq!(align16(1080), 1088);
    assert_eq!(align16(1920), 1920);
    assert_eq!(align16(0), 0);
    assert_eq!(timestamp(1_000_000_000), 90_000);
    assert_eq!(timestamp(u64::MAX), (u64::MAX - 8) / 100_000);
}

#[test]
fn qsv_settings_follow_their_grammar() {
    assert_eq!(ltr_mark_interval(None, 60), 15);
    assert_eq!(ltr_mark_interval(None, 3), 1);
    assert_eq!(ltr_mark_interval(Some("9"), 60), 9);
    assert_eq!(ltr_mark_interval(Some("-9"), 60), 15);
    assert_eq!(ltr_test_force_at(Some("-4")), Some(-4));
    assert_eq!(ltr_test_force_at(Some(" 4")), None);
    assert_eq!(intra_refresh_period(None, 60), 30);
    assert_eq!(intra_refresh_period(None, 4), 8);
    assert_eq!(intra_refresh_period(Some(" 999 "), 60), 240);
    assert_eq!(intra_refresh_period(Some("1"), 60), 30);
    assert_eq!(intra_refresh_period(Some("+12"), 60), 12);
}

#[test]
fn statuses_have_names() {
    assert_eq!(sts_name(Status::Success), "MFX_ERR_NONE");
    assert_eq!(sts_name(Status::WarnInExecution), "MFX_WRN_IN_EXECUTION");
    assert_eq!(sts_name(Status::Other(-77)), "mfxStatus");
    assert_eq!(vpl_ok(Status::WarnDeviceBusy), Ok(()));
    assert_eq!(vpl_ok(Status::Other(3)), Ok(()));
    assert_eq!(vpl_ok(Status::Other(-3)), Err(QsvError::Call(Status::Other(-3))));
    assert_eq!(vpl_ok(Status::MoreData), Err(QsvError::Call(Status::MoreData)));
}

fn implementation(index: u32, low: u32, high: u32, luid_valid: bool) -> VplImpl {
    VplImpl {
        index,
        luid: luid_bytes(low, high),
        luid_valid,
    }
}

#[test]
fn the_adapter_decides_the_implementation() {
    assert_eq!(luid_bytes(0x0403_0201, 0xffff_fff6), [1, 2, 3, 4, 0xf6, 0xff, 0xff, 0xff]);
    let impls = vec![
        implementation(3, 7, 0, false),
        implementation(4, 9, 0, true),
        implementation(5, 7, 0, true),
    ];
    assert_eq!(create_session(&impls, None), Ok(3));
    assert_eq!(create_session(&impls, Some(luid_bytes(7, 0))), Ok(5));
    assert_eq!(
        create_session(&impls, Some(luid_bytes(7, 1))),
        Err(QsvError::WrongAdapter)
    );
    assert_eq!(create_session(&vec![], None), Err(QsvError::NoImplementation));
    assert_eq!(probe_candidates(&impls, Some(luid_bytes(9, 0))), vec![4, 3]);
    assert_eq!(probe_candidates(&impls, Some(luid_bytes(9, 9))), vec![3]);
    assert_eq!(probe_candidates(&impls, None), vec![3]);
    assert!(probe_candidates(&vec![], None).is_empty());
}

#[test]
fn parameters_follow_the_configuration() {
    let cfg = EncodeConfig {
        codec: Codec::H265,
        width: 1920,
        height: 1080,
        fps: 0,
        bitrate_bps: 80_000_000,
        ten_bit: true,
        intra_refresh: true,
        hdr_meta: Some(test_hdr_meta()),
    };
    let set = build_params(&cfg, 30);
    assert_eq!(set.stream.profile, Profile::HevcMain10);
    assert_eq!((set.stream.target_kbps, set.stream.max_kbps), (40_000, 40_000));
    assert_eq!(set.stream.brc_multiplier, 2);
    assert_eq!((set.stream.gop_ref_dist, set.stream.async_depth), (1, 1));
    assert_eq!((set.frame.width, set.frame.height), (1920, 1088));
    assert_eq!((set.frame.crop_w, set.frame.crop_h), (1920, 1080));
    assert_eq!((set.frame.bit_depth, set.frame.shift, set.frame.frame_rate_n), (10, 1, 1));
    assert_eq!(set.co2, Some(Wave { kind: 1, cycle: 30 }));
    assert_eq!((set.vsi.primaries, set.vsi.transfer, set.vsi.matrix), (9, 16, 9));
    let m = set.mastering.unwrap();
    assert_eq!(m.primaries_x, [13250, 7500, 34000]);
    assert_eq!(m.primaries_y, [34500, 3000, 16000]);
    assert_eq!((m.white_x, m.white_y), (15635, 16450));
    assert_eq!((m.max_luminance, m.min_luminance), (10_000_000, 500));
    assert_eq!(set.cll.unwrap().max_content, 1000);
    assert_eq!(
        set.seal(),
        vec![
            ExtBuffer::CodingOption,
            ExtBuffer::CodingOption2,
            ExtBuffer::VideoSignal,
            ExtBuffer::Mastering,
            ExtBuffer::LightLevel
        ]
    );
    // Eight-bit streams carry no grade, AV1 has no wave, and an unknown light level is left out.
    let sdr = EncodeConfig {
        ten_bit: false,
        codec: Codec::Av1,
        ..cfg
    };
    let set = build_params(&sdr, 30);
    assert_eq!(set.stream.profile, Profile::Av1Main);
    assert_eq!(set.seal(), vec![ExtBuffer::CodingOption, ExtBuffer::VideoSignal]);
    assert_eq!(set.vsi.primaries, 1);
    let mut dim = test_hdr_meta();
    dim.max_cll = 0;
    dim.max_fall = 0;
    let dim = EncodeConfig {
        hdr_meta: Some(dim),
        intra_refresh: false,
        ..cfg
    };
    assert_eq!(
        build_params(&dim, 30).seal(),
        vec![ExtBuffer::CodingOption, ExtBuffer::VideoSignal, ExtBuffer::Mastering]
    );
    let probe = build_params(&probe_config(Codec::H264, false), 8);
    assert_eq!(probe.stream.target_kbps, 4_000);
    assert_eq!(probe.frame.height, 480);
}

#[test]
fn a_recovery_frame_rejects_everything_but_its_anchor() {
    let plan = LtrPlan {
        mark: None,
        force: Some((0, 21)),
    };
    let c = frame_ctrl(Codec::H264, 30, false, &plan, &[Some(21), Some(28)]).unwrap();
    assert!(!c.idr);
    let r = c.reflist.unwrap();
    assert_eq!(r.preferred, Some(21));
    assert_eq!(r.rejected, vec![29, 28, 28]);
    assert_eq!(r.num_ref_idx_l0, 1);
    assert!(!r.rejected.contains(&21));
    let c = frame_ctrl(Codec::H265, 22, false, &plan, &[Some(21), None]).unwrap();
    assert_eq!(c.reflist.unwrap().rejected, vec![20]);
    let c = frame_ctrl(Codec::Av1, 30, false, &plan, &[Some(21), Some(28)]).unwrap();
    let r = c.reflist.unwrap();
    assert!(r.rejected.is_empty() && r.num_ref_idx_l0 == 0 && r.preferred == Some(21));
    let mark = LtrPlan {
        mark: Some(1),
        force: None,
    };
    let c = frame_ctrl(Codec::H264, 7, true, &mark, &[None, Some(7)]).unwrap();
    assert!(c.idr);
    assert_eq!(c.reflist.unwrap().long_term, Some((7, 1)));
    let none = LtrPlan {
        mark: None,
        force: None,
    };
    assert!(frame_ctrl(Codec::H264, 7, false, &none, &[None, None]).is_none());
    assert!(frame_ctrl(Codec::H264, 7, true, &none, &[None, None]).unwrap().reflist.is_none());
    let mut enc = open(Codec::H264, false);
    enc.ensure_inner(1);
    enc.session_built(&init());
    let plan = enc.plan_frame();
    let (ctrl, order, time) = enc.frame_params(&plan, 1_000_000_000);
    assert!(ctrl.unwrap().idr);
    assert_eq!((order, time), (0, 90_000));
}

#[test]
fn a_session_is_given_up_for_another_device_or_grade() {
    let mut enc = open(Codec::H265, true);
    assert!(!enc.gives_up_session(&frame(&enc, 0)));
    submit(&mut enc, 0, 0).unwrap();
    assert!(!enc.gives_up_session(&frame(&enc, 1)));
    let mut elsewhere = frame(&enc, 1);
    elsewhere.device = 5;
    assert!(enc.gives_up_session(&elsewhere));
    // A frame that is refused costs no session.
    elsewhere.width = 320;
    assert!(!enc.gives_up_session(&elsewhere));
    let mut other = test_hdr_meta();
    other.max_cll = 999;
    enc.set_hdr_meta(Some(other));
    assert!(enc.gives_up_session(&frame(&enc, 1)));
}

#[test]
fn a_reset_does_what_was_foretold() {
    let mut enc = open(Codec::H264, false);
    assert_eq!(enc.reset_plan(), ResetPlan::Idle);
    submit(&mut enc, 0, 0).unwrap();
    assert_eq!(enc.reset_plan(), ResetPlan::Rebuild);
    assert_eq!(enc.reset(), ResetPlan::Rebuild);
    enc.abandon_in_flight();
    enc.finish_rebuild(Some(init()));
    assert_eq!(enc.reset_plan(), ResetPlan::TornDown);
    assert_eq!(enc.reset(), ResetPlan::TornDown);
}

#[test]
fn some_configurations_have_no_parameters() {
    let cfg = open(Codec::H264, false).encode_config(false);
    assert!(cfg.is_representable());
    let with = |codec: Codec, width: u32, bitrate_bps: u64| EncodeConfig {
        codec,
        width,
        bitrate_bps,
        ..open(Codec::H264, false).encode_config(false)
    };
    assert!(with(Codec::Av1, 0xffff_fff0, 0).is_representable());
    assert!(!with(Codec::Av1, 0xffff_fff1, 0).is_representable());
    assert!(!with(Codec::PyroWave, 640, 2_000_000).is_representable());
    // 65536 steps of 65535 kbit/s wrap the multiplier to zero.
    assert!(with(Codec::H265, 640, 65_535 * 65_535 * 1000).is_representable());
    assert!(!with(Codec::H265, 640, 65_536 * 65_535 * 1000).is_representable());
}

//! The AMF backend, driven against a simulated component.
use ss_encode::amf::props::{
    apply_static_props, codec_props, usage_from_env, AmfVariantKind, PropRun, PropStep, Role,
    RunNext, StaticInputs,
};
use ss_encode::amf::submit::{FrameIn, SubmitAction, SubmitEvent, SubmitPhase};
use ss_encode::amf::{
    amf_ok, amf_version_str, dll_file_version, hdr_buffer, intra_refresh_requested, load_factory,
    ltr_disabled, ltr_mark_interval, ltr_test_force_at, probe_can_encode, probe_can_encode_10bit,
    probe_props, surface_format, AmfEncoder, AmfError, DrainOutcome, OutputEvent, PollStep,
    ProbeTrail, RING,
};
use ss_encode::amf_sys::{
    iid_amf_buffer, result_name, AmfGuid, AmfHdrMetadata, AmfVariant, AMF_EOF, AMF_HEADER_VERSION,
    AMF_INPUT_FULL, AMF_MIN_VERSION, AMF_NEED_MORE_INPUT, AMF_OK, AMF_REPEAT,
};
use ss_encode::flow::{InputError, PollBegin, ResetPlan};
use ss_encode::types::{ChromaFormat, Codec, EncodedFrame, HdrMeta, PayloadKind, PixelFormat};
use std::collections::VecDeque;

#[test]
fn variant_layout_matches_c() {
    assert_eq!(std::mem::size_of::<AmfVariant>(), 24);
    assert_eq!(std::mem::align_of::<AmfVariant>(), 8);
    let l = AmfVariant::layout();
    assert_eq!((l.size, l.align), (24, 8));
    assert_eq!(l.offsets[1], 8);
    let v = AmfVariant::from_rate(60, 1);
    assert_eq!(v.payload[0], 60u64 | (1u64 << 32));
    assert_eq!(AmfVariant::from_i64(-1).payload[0], u64::MAX);
}

#[test]
fn guid_layout_matches_c() {
    assert_eq!(std::mem::size_of::<AmfGuid>(), 16);
    assert_eq!(AmfGuid::layout().size, 16);
}

#[test]
fn hdr_metadata_layout_matches_c() {
    assert_eq!(std::mem::size_of::<AmfHdrMetadata>(), 28);
    let l = AmfHdrMetadata::layout();
    assert_eq!(l.size, 28);
    assert_eq!(l.offsets[4], 16);
    assert_eq!(l.offsets[6], 24);
}

fn grade() -> HdrMeta {
    HdrMeta {
        display_primaries: [[8500, 39850], [6550, 2300], [35400, 14600]],
        white_point: [15635, 16450],
        max_display_mastering_luminance: 1000 * 10000,
        min_display_mastering_luminance: 50,
        max_cll: 1000,
        max_fall: 400,
    }
}

fn open(codec: Codec, format: PixelFormat, fps: u32) -> Result<AmfEncoder, AmfError> {
    AmfEncoder::open(
        true,
        true,
        codec,
        format,
        640,
        480,
        fps,
        2_000_000,
        8,
        ChromaFormat::Yuv420,
        ltr_mark_interval(None, fps),
        None,
    )
}

fn frame(format: PixelFormat, pts_ns: u64) -> FrameIn {
    FrameIn {
        width: 640,
        height: 480,
        payload: PayloadKind::D3d11,
        format,
        device: 0xd3d,
        pts_ns,
    }
}

/// A component that encodes one frame for every `lag` queries, and holds at most `queue` frames.
struct Component {
    held: VecDeque<u8>,
    queries: usize,
    lag: usize,
    queue: usize,
    ended: bool,
}

impl Component {
    fn new(lag: usize, queue: usize) -> Self {
        Component {
            held: VecDeque::new(),
            queries: 0,
            lag,
            queue,
            ended: false,
        }
    }

    fn query(&mut self, key: bool) -> OutputEvent {
        self.queries += 1;
        if self.held.is_empty() {
            return OutputEvent::Empty(if self.ended { AMF_EOF } else { AMF_REPEAT });
        }
        if !self.ended && self.queries % self.lag != 0 {
            return OutputEvent::Empty(AMF_OK);
        }
        let n = self.held.pop_front().unwrap();
        OutputEvent::Unit {
            kind: Some(if key { 0 } else { 3 }),
            data: vec![0, 0, 0, 1, n],
        }
    }

    fn offer(&mut self, n: u8) -> i32 {
        if self.held.len() >= self.queue {
            return AMF_INPUT_FULL;
        }
        self.held.push_back(n);
        AMF_NEED_MORE_INPUT
    }
}

/// Runs a submit to its end.
fn submit(
    enc: &mut AmfEncoder,
    comp: &mut Component,
    f: &FrameIn,
    features: (bool, bool),
) -> Result<Vec<SubmitAction>, AmfError> {
    let mut trace = Vec::new();
    let mut step = enc.submit(f)?;
    loop {
        trace.push(step.action);
        let event = match step.action {
            SubmitAction::Build => SubmitEvent::Initialised {
                ir_active: features.0,
                ltr_active: features.1,
            },
            SubmitAction::MakeRing => SubmitEvent::Built,
            SubmitAction::Query | SubmitAction::Wait => SubmitEvent::Output {
                event: comp.query(false),
                budget_spent: false,
            },
            SubmitAction::Offer(slot) => {
                assert!(slot < RING);
                SubmitEvent::Answer {
                    code: comp.offer(f.pts_ns as u8),
                    budget_spent: false,
                }
            }
            SubmitAction::OfferAgain | SubmitAction::WaitAndOffer => SubmitEvent::Answer {
                code: comp.offer(f.pts_ns as u8),
                budget_spent: false,
            },
            SubmitAction::Nothing => return Ok(trace),
        };
        step = enc.submit_step(step.phase, f.pts_ns, event)?;
    }
}

fn poll(enc: &mut AmfEncoder, comp: &mut Component) -> Option<EncodedFrame> {
    match enc.poll() {
        PollBegin::Idle => None,
        PollBegin::Ready(au) => Some(au),
        PollBegin::Query => loop {
            match enc.poll_step(comp.query(false), false).expect("poll") {
                PollStep::Unit(au) => return Some(au),
                PollStep::Nothing => return None,
                PollStep::Wait => {}
            }
        },
    }
}

#[test]
fn amf_backpressure_burst_live() {
    const BURST: u64 = 48;
    for queue in [3, 64] {
        let mut comp = Component::new(3, queue);
        let mut enc = open(Codec::H265, PixelFormat::Nv12, 60).expect("open");
        for i in 1..=BURST {
            submit(&mut enc, &mut comp, &frame(PixelFormat::Nv12, i), (false, true))
                .expect("burst submit must ride back-pressure, not error");
            assert!(enc.pending.len() < RING);
        }
        comp.ended = true;
        let mut aus: Vec<EncodedFrame> = Vec::new();
        for _ in 0..(BURST as usize + 100) {
            match poll(&mut enc, &mut comp) {
                Some(au) => aus.push(au),
                None => break,
            }
        }
        assert!(
            aus.len() as u64 >= BURST - 2,
            "most AUs must survive the burst without a reset (got {} of {BURST})",
            aus.len()
        );
        assert!(aus[0].keyframe, "first AU must be the IDR");
        for pair in aus.windows(2) {
            assert!(
                pair[1].pts_ns > pair[0].pts_ns,
                "AUs must stay FIFO-monotonic across the ready→pending boundary: {} then {}",
                pair[0].pts_ns,
                pair[1].pts_ns
            );
        }
        // Every unit is the one of its frame.
        for au in &aus {
            assert_eq!(au.data[4], au.pts_ns as u8);
        }
    }
}

#[test]
fn the_ring_is_taken_in_turn_and_never_overrun() {
    let mut comp = Component::new(1, 64);
    let mut enc = open(Codec::H264, PixelFormat::Nv12, 60).expect("open");
    let mut slots = Vec::new();
    for i in 0..14u64 {
        for a in submit(&mut enc, &mut comp, &frame(PixelFormat::Nv12, i), (false, false)).unwrap() {
            if let SubmitAction::Offer(slot) = a {
                slots.push(slot);
            }
        }
    }
    let want: Vec<usize> = (0..14).map(|i| i % RING).collect();
    assert_eq!(slots, want);
}

#[test]
fn a_wedged_encoder_is_reported_and_recovers_with_a_keyframe() {
    let mut comp = Component::new(1_000_000, 64);
    let mut enc = open(Codec::H265, PixelFormat::Nv12, 60).expect("open");
    for i in 1..RING as u64 {
        submit(&mut enc, &mut comp, &frame(PixelFormat::Nv12, i), (false, false)).unwrap();
    }
    let f = frame(PixelFormat::Nv12, 9);
    let step = enc.submit(&f).unwrap();
    assert_eq!(step.action, SubmitAction::Query);
    let event = SubmitEvent::Output {
        event: OutputEvent::Empty(AMF_REPEAT),
        budget_spent: false,
    };
    let step = enc.submit_step(step.phase, 9, event).unwrap();
    assert_eq!(step.action, SubmitAction::Wait);
    let event = SubmitEvent::Output {
        event: OutputEvent::Empty(AMF_REPEAT),
        budget_spent: true,
    };
    let e = enc.submit_step(step.phase, 9, event).unwrap_err();
    assert_eq!(e, AmfError::Wedged { in_flight: RING - 1 });
    assert!(enc.flow.force_kf);
    // First an in-place restart, then a teardown.
    assert_eq!(enc.reset(), ResetPlan::Rebuild);
    assert!(enc.finish_rebuild(Some((false, true)), true));
    assert!(enc.caps().supports_rfi);
    assert_eq!(enc.reset(), ResetPlan::TornDown);
    assert!(!enc.caps().supports_rfi);
    assert_eq!(enc.reset(), ResetPlan::Idle);
    let trace = submit(&mut enc, &mut comp, &f, (false, false)).unwrap();
    assert_eq!(trace[0], SubmitAction::Build);
    assert!(enc.pending[0].forced);
}

#[test]
fn a_session_without_textures_keeps_its_features() {
    let mut enc = open(Codec::H265, PixelFormat::Nv12, 60).expect("open");
    let f = frame(PixelFormat::Nv12, 1);
    let failed = || SubmitEvent::Failed(AmfError::Call(1));
    // A component that cannot be initialised leaves the features as they were.
    let step = enc.submit(&f).unwrap();
    assert_eq!(step.action, SubmitAction::Build);
    assert_eq!(enc.submit_step(step.phase, 1, failed()).unwrap_err(), AmfError::Call(1));
    assert!(!enc.caps().supports_rfi);
    // One that was initialised is asked no more, though its textures cannot be made.
    enc.ltr.slots = [Some(4), None];
    let step = enc.submit(&f).unwrap();
    let event = SubmitEvent::Initialised {
        ir_active: false,
        ltr_active: true,
    };
    let step = enc.submit_step(step.phase, 1, event).unwrap();
    assert_eq!(step.action, SubmitAction::MakeRing);
    assert_eq!(enc.submit_step(step.phase, 1, failed()).unwrap_err(), AmfError::Call(1));
    assert!(enc.caps().supports_rfi);
    assert_eq!(enc.ltr.slots, [None, None]);
    assert!(!enc.ses.live);
}

#[test]
fn the_end_of_the_stream_ends_the_wait_for_room() {
    let mut comp = Component::new(1_000_000, 64);
    let mut enc = open(Codec::H265, PixelFormat::Nv12, 60).expect("open");
    for i in 1..RING as u64 {
        submit(&mut enc, &mut comp, &frame(PixelFormat::Nv12, i), (false, false)).unwrap();
    }
    assert_eq!(enc.pending.len(), RING - 1);
    let step = enc.submit(&frame(PixelFormat::Nv12, 9)).unwrap();
    let event = SubmitEvent::Output {
        event: OutputEvent::Empty(AMF_EOF),
        budget_spent: false,
    };
    let step = enc.submit_step(step.phase, 9, event).unwrap();
    assert_eq!(step.action, SubmitAction::Offer(RING - 1));
    assert!(matches!(step.phase, SubmitPhase::Offered { ended: true, .. }));
}

#[test]
fn a_unit_ends_the_recovery_ladder() {
    let mut comp = Component::new(1, 64);
    let mut enc = open(Codec::H265, PixelFormat::Nv12, 60).expect("open");
    submit(&mut enc, &mut comp, &frame(PixelFormat::Nv12, 1), (false, false)).unwrap();
    assert_eq!(enc.reset(), ResetPlan::Rebuild);
    assert!(enc.finish_rebuild(Some((false, false)), true));
    comp.held.clear();
    submit(&mut enc, &mut comp, &frame(PixelFormat::Nv12, 2), (false, false)).unwrap();
    assert!(poll(&mut enc, &mut comp).unwrap().keyframe);
    assert_eq!(enc.reset(), ResetPlan::Rebuild);
    assert!(!enc.finish_rebuild(None, false));
    assert!(!enc.ses.live);
}

#[test]
fn a_refused_offer_is_an_error_and_forces_a_keyframe() {
    let mut comp = Component::new(1, 64);
    let mut enc = open(Codec::H265, PixelFormat::Nv12, 60).expect("open");
    submit(&mut enc, &mut comp, &frame(PixelFormat::Nv12, 1), (false, false)).unwrap();
    let offer = |enc: &mut AmfEncoder| enc.submit(&frame(PixelFormat::Nv12, 2)).unwrap();
    let step = offer(&mut enc);
    let answer = |code: i32, budget_spent: bool| SubmitEvent::Answer { code, budget_spent };
    let e = enc.submit_step(step.phase, 2, answer(18, false)).unwrap_err();
    assert_eq!(e, AmfError::Call(18));
    assert!(enc.flow.force_kf);
    assert_eq!(enc.pending.len(), 1);
    // A full queue is drained; it is an error only once the budget is spent.
    let step = offer(&mut enc);
    let step = enc.submit_step(step.phase, 2, answer(AMF_INPUT_FULL, true)).unwrap();
    assert_eq!(step.action, SubmitAction::Query);
    let output = |code: i32| SubmitEvent::Output {
        event: OutputEvent::Empty(code),
        budget_spent: true,
    };
    let step = enc.submit_step(step.phase, 2, output(AMF_OK)).unwrap();
    assert_eq!(step.action, SubmitAction::WaitAndOffer);
    let e = enc.submit_step(step.phase, 2, answer(AMF_INPUT_FULL, true)).unwrap_err();
    assert_eq!(e, AmfError::InputFull);
    // The end of the stream leaves the queue full.
    let step = offer(&mut enc);
    let step = enc.submit_step(step.phase, 2, answer(AMF_INPUT_FULL, false)).unwrap();
    let e = enc.submit_step(step.phase, 2, output(AMF_EOF)).unwrap_err();
    assert_eq!(e, AmfError::InputFull);
    // A surface that cannot be wrapped ends the submit without further ado.
    let step = offer(&mut enc);
    let failed = SubmitEvent::Failed(AmfError::Call(1));
    assert_eq!(enc.submit_step(step.phase, 2, failed).unwrap_err(), AmfError::Call(1));
    assert!(matches!(step.phase, SubmitPhase::Offered { again: false, .. }));
}

#[test]
fn output_is_judged_by_its_code() {
    let mut enc = open(Codec::Av1, PixelFormat::P010, 60).expect("open");
    let codes = [(AMF_OK, 0), (AMF_REPEAT, 0), (AMF_NEED_MORE_INPUT, 0), (AMF_EOF, 1), (5, 2)];
    for (code, want) in codes {
        match enc.drain_one_output(OutputEvent::Empty(code)) {
            Ok(DrainOutcome::NotReady) => assert_eq!(want, 0),
            Ok(DrainOutcome::Eof) => assert_eq!(want, 1),
            Err(e) => {
                assert_eq!(want, 2);
                assert_eq!(e, AmfError::Call(5));
            }
            Ok(DrainOutcome::Frame(_)) => panic!("no data, no frame"),
        }
    }
    assert!(matches!(
        enc.drain_one_output(OutputEvent::NoBuffer(8)),
        Err(AmfError::Call(8))
    ));
    let empty = OutputEvent::Unit {
        kind: None,
        data: vec![],
    };
    assert!(matches!(
        enc.drain_one_output(empty),
        Err(AmfError::EmptyOutput)
    ));
    // AV1 counts only its key frames, the others their intra frames too.
    for (codec, format, kind, key) in [
        (Codec::Av1, PixelFormat::P010, 0, true),
        (Codec::Av1, PixelFormat::P010, 1, false),
        (Codec::H265, PixelFormat::Nv12, 1, true),
        (Codec::H264, PixelFormat::Nv12, 2, false),
    ] {
        let mut enc = open(codec, format, 60).expect("open");
        let unit = OutputEvent::Unit {
            kind: Some(kind),
            data: vec![7],
        };
        match enc.drain_one_output(unit) {
            Ok(DrainOutcome::Frame(au)) => {
                assert_eq!(au.keyframe, key);
                assert_eq!((au.pts_ns, au.data), (0, vec![7]));
            }
            _ => panic!("a unit is a frame"),
        }
    }
}

#[test]
fn amf_open_refuses_what_it_cannot_encode() {
    let try_open = |runtime: bool, av1: bool, codec: Codec, format: PixelFormat| {
        AmfEncoder::open(
            runtime,
            av1,
            codec,
            format,
            64,
            64,
            60,
            1,
            8,
            ChromaFormat::Yuv420,
            1,
            None,
        )
        .err()
    };
    let (nv12, p010) = (PixelFormat::Nv12, PixelFormat::P010);
    assert_eq!(try_open(false, true, Codec::H264, nv12), Some(AmfError::Unavailable));
    assert_eq!(try_open(true, false, Codec::Av1, nv12), Some(AmfError::Av1Declined));
    assert_eq!(try_open(true, false, Codec::H265, nv12), None);
    assert_eq!(try_open(true, true, Codec::H264, p010), Some(AmfError::TenBitH264));
    assert_eq!(
        try_open(true, true, Codec::H264, PixelFormat::Bgra),
        Some(AmfError::FormatMismatch {
            expected: nv12,
            delivered: PixelFormat::Bgra
        })
    );
    assert_eq!(
        try_open(true, true, Codec::H265, PixelFormat::Rgb10a2),
        Some(AmfError::FormatMismatch {
            expected: p010,
            delivered: PixelFormat::Rgb10a2
        })
    );
}

#[test]
fn frames_that_do_not_fit_are_refused() {
    let mut enc = open(Codec::H265, PixelFormat::Nv12, 60).expect("open");
    let good = frame(PixelFormat::Nv12, 0);
    let small = FrameIn { width: 320, ..good };
    assert_eq!(
        enc.submit(&small).unwrap_err(),
        AmfError::Input(InputError::SizeMismatch {
            width: 320,
            height: 480
        })
    );
    let cpu = FrameIn {
        payload: PayloadKind::Cpu,
        ..good
    };
    assert_eq!(enc.submit(&cpu).unwrap_err(), AmfError::Input(InputError::NeedsTexture));
    let deep = frame(PixelFormat::P010, 0);
    assert_eq!(
        enc.submit(&deep).unwrap_err(),
        AmfError::Input(InputError::FormatMismatch {
            expected: PixelFormat::Nv12,
            delivered: PixelFormat::P010
        })
    );
    assert_eq!(enc.flow.frame_idx, 0);
}

#[test]
fn long_term_references_answer_a_loss() {
    let mut comp = Component::new(1, 64);
    let mut enc = open(Codec::H265, PixelFormat::Nv12, 8).expect("open");
    assert!(!enc.invalidate_ref_frames(0, 1), "no session, no references");
    for i in 0..10u32 {
        enc.set_wire_index(i);
        submit(&mut enc, &mut comp, &frame(PixelFormat::Nv12, i as u64), (false, true)).unwrap();
        poll(&mut enc, &mut comp);
    }
    assert_eq!(enc.ltr.slots, [Some(8), Some(4)]);
    assert!(!enc.invalidate_ref_frames(-1, 3));
    assert!(!enc.invalidate_ref_frames(5, 3));
    assert!(enc.invalidate_ref_frames(6, 9));
    let plan = enc.plan_frame();
    assert_eq!(plan.force, Some(1));
    assert!(plan.recovery_anchor && !plan.forced && plan.mark.is_none());
    assert_eq!(plan.pts_100ns, 10 * 10_000_000 / 8);
    let p = codec_props(Codec::H265);
    let steps = enc.surface_props(&p, &plan);
    assert_eq!(steps.len(), 1);
    assert_eq!(steps[0].name, "HevcForceLTRReferenceBitfield");
    assert_eq!(steps[0].value.as_i64(), Some(2));
}

#[test]
fn a_forced_frame_carries_its_headers() {
    for (codec, format, names) in [
        (
            Codec::H264,
            PixelFormat::Nv12,
            vec!["ForcePictureType", "InsertSPS", "InsertPPS"],
        ),
        (
            Codec::H265,
            PixelFormat::Nv12,
            vec!["HevcForcePictureType", "HevcInsertHeader"],
        ),
        (Codec::Av1, PixelFormat::Nv12, vec!["Av1ForceFrameType"]),
    ] {
        let mut enc = open(codec, format, 60).expect("open");
        enc.ensure_inner(1);
        enc.component_initialised(false, false);
        enc.session_built();
        let plan = enc.plan_frame();
        assert!(plan.forced, "the first frame of a session is a keyframe");
        let steps = enc.surface_props(&codec_props(codec), &plan);
        let got: Vec<&str> = steps.iter().map(|s| s.name).collect();
        assert_eq!(got, names);
        assert!(steps.iter().all(|s| !s.required));
    }
}

#[test]
fn metadata_is_pushed_once_per_change() {
    let mut enc = open(Codec::H265, PixelFormat::P010, 60).expect("open");
    enc.ensure_inner(1);
    enc.component_initialised(false, false);
    enc.session_built();
    assert!(enc.take_hdr_update().is_none());
    enc.set_hdr_meta(Some(grade()));
    assert!(enc.take_hdr_update().unwrap().equals(&grade()));
    assert!(enc.take_hdr_update().is_none());
    let mut other = grade();
    other.display_primaries[2][1] += 1;
    enc.set_hdr_meta(Some(other));
    assert!(enc.take_hdr_update().is_some());
    enc.set_hdr_meta(None);
    assert!(enc.take_hdr_update().is_none());
    // Eight-bit streams have none.
    let mut enc = open(Codec::H265, PixelFormat::Nv12, 60).expect("open");
    enc.set_hdr_meta(Some(grade()));
    assert!(enc.take_hdr_update().is_none());
}

#[test]
fn metadata_is_put_in_red_green_blue_order() {
    let m = hdr_buffer(&grade());
    assert_eq!(m.red_primary, [35400, 14600]);
    assert_eq!(m.green_primary, [8500, 39850]);
    assert_eq!(m.blue_primary, [6550, 2300]);
    assert_eq!(m.white_point, [15635, 16450]);
    assert_eq!(m.max_mastering_luminance, 10_000_000);
    assert_eq!(m.min_mastering_luminance, 50);
    assert_eq!((m.max_content_light_level, m.max_frame_average_light_level), (1000, 400));
}

#[test]
fn amf_settings_follow_their_grammar() {
    assert!(ltr_disabled(Some(" on ")));
    assert!(intra_refresh_requested(Some("1")));
    assert!(!intra_refresh_requested(Some("no")));
    assert!(!intra_refresh_requested(None));
    assert_eq!(ltr_mark_interval(None, 60), 30);
    assert_eq!(ltr_mark_interval(None, 1), 1);
    assert_eq!(ltr_mark_interval(Some("7"), 60), 7);
    assert_eq!(ltr_mark_interval(Some("0"), 60), 30);
    assert_eq!(ltr_mark_interval(Some(" 7"), 60), 30, "no white space is taken");
    assert_eq!(ltr_test_force_at(Some("12")), Some(12));
    assert_eq!(ltr_test_force_at(Some("-12")), None);
    assert_eq!(usage_from_env(None, Codec::H264), 1);
    assert_eq!(usage_from_env(None, Codec::Av1), 2);
    assert_eq!(usage_from_env(Some("lowlatency"), Codec::H264), 2);
    assert_eq!(usage_from_env(Some("lowlatency"), Codec::Av1), 1);
    assert_eq!(usage_from_env(Some("high_quality"), Codec::H265), 4);
    assert_eq!(usage_from_env(Some("what"), Codec::H265), 1);
    assert_eq!(ss_encode::amf::props::intra_refresh_period(None, 60), 30);
    assert_eq!(ss_encode::amf::props::intra_refresh_period(Some("1"), 10), 8);
    assert_eq!(ss_encode::amf::props::intra_refresh_period(Some("500"), 10), 500);
}

#[test]
fn versions_are_written_out() {
    assert_eq!(amf_version_str(AMF_HEADER_VERSION), "1.4.36");
    assert_eq!(amf_version_str(0xffff_0000_000a_1234), "65535.0.10");
    assert_eq!(dll_file_version(0x001f_0000, 0x1234_0007), "31.0.4660.7");
    assert_eq!(load_factory(AMF_HEADER_VERSION), Ok((AMF_HEADER_VERSION, true)));
    assert_eq!(load_factory(u64::MAX), Ok((AMF_HEADER_VERSION, true)));
    assert_eq!(load_factory(AMF_MIN_VERSION), Ok((AMF_MIN_VERSION, false)));
    assert_eq!(
        load_factory(AMF_MIN_VERSION - 1),
        Err(AmfError::RuntimeTooOld {
            version: AMF_MIN_VERSION - 1
        })
    );
    assert_eq!(amf_ok(AMF_OK), Ok(()));
    assert_eq!(amf_ok(10), Err(AmfError::Call(10)));
    assert_eq!(result_name(25), "AMF_INPUT_FULL");
    assert_eq!(result_name(16), "AMF_<unnamed>");
    assert_eq!(surface_format(true), 10);
    assert_eq!(surface_format(false), 1);
    assert_eq!(iid_amf_buffer().data1, 0xb04b_7248);
}

#[test]
fn values_read_back() {
    for v in [0i64, 1, -1, i64::MIN, i64::MAX] {
        assert_eq!(AmfVariant::from_i64(v).as_i64(), Some(v));
    }
    assert_eq!(AmfVariant::from_bool(true).as_i64(), None);
    assert_eq!(AmfVariant::from_bool(true).payload, [1, 0]);
    assert_eq!(AmfVariant::zeroed().vtype, 0);
    assert_eq!(AmfVariant::from_interface(77).payload[0], 77);
    assert_eq!(AmfVariantKind::I64(3).to_variant().as_i64(), Some(3));
}

fn inputs(codec: Codec, ten_bit: bool, ltr_wanted: bool, wave: Option<u32>) -> StaticInputs {
    StaticInputs {
        codec,
        width: 1920,
        height: 1080,
        fps: 60,
        bitrate_bps: 20_000_000,
        ten_bit,
        usage: 1,
        vbv_bits: 333_333,
        ltr_wanted,
        wave,
    }
}

/// Runs the configuration, rejecting the named properties with the given value.
fn run(steps: &Vec<PropStep>, reject: &[(&str, Option<i64>)]) -> Option<(bool, bool, Vec<usize>)> {
    let mut r = PropRun::start();
    let mut set = Vec::new();
    loop {
        match r.next(steps) {
            RunNext::Done {
                ir_active,
                ltr_active,
            } => return Some((ir_active, ltr_active, set)),
            RunNext::Put(at) => {
                set.push(at);
                let s = &steps[at];
                let rejected = reject
                    .iter()
                    .any(|(n, v)| *n == s.name && (v.is_none() || *v == s.value.as_i64()));
                if !r.record(steps, at, !rejected) {
                    return None;
                }
            }
        }
    }
}

#[test]
fn the_static_configuration_is_set_in_order() {
    let p = codec_props(Codec::H264);
    let steps = apply_static_props(&p, &inputs(Codec::H264, false, true, Some(30)));
    let names: Vec<&str> = steps.iter().map(|s| s.name).collect();
    assert_eq!(
        names,
        vec![
            "Usage",
            "RateControlMethod",
            "TargetBitrate",
            "PeakBitrate",
            "FrameRate",
            "VBVBufferSize",
            "EnforceHRD",
            "FillerDataEnable",
            "QualityPreset",
            "LowLatencyInternal",
            "IDRPeriod",
            "MaxNumRefFrames",
            "MaxOfLTRFrames",
            "BPicturesPattern",
            "FullRangeColor",
            "OutColorProfile",
            "OutColorTransferChar",
            "OutColorPrimaries",
        ]
    );
    assert_eq!(steps[4].value.payload[0], 60 | 1 << 32);
    assert_eq!(run(&steps, &[]).unwrap().1, true);
    assert_eq!(run(&steps, &[("MaxOfLTRFrames", None)]).unwrap().1, false);
    assert!(run(&steps, &[("PeakBitrate", None)]).is_none());
    assert!(run(&steps, &[("OutColorProfile", None)]).is_some());
}

#[test]
fn a_wave_covers_the_picture_within_its_period() {
    let p = codec_props(Codec::H265);
    let steps = apply_static_props(&p, &inputs(Codec::H265, true, false, Some(30)));
    let wave = steps.iter().find(|s| s.role == Role::IntraRefresh).unwrap();
    // 30 x 17 blocks of 64 samples over 30 frames.
    assert_eq!(wave.value.as_i64(), Some(17));
    let (ir, ltr, _) = run(&steps, &[]).unwrap();
    assert!(ir && !ltr);
    assert!(run(&steps, &[("HevcOutColorProfile", None)]).is_none());
    assert!(run(&steps, &[("HevcColorBitDepth", None)]).is_none());
}

#[test]
fn padded_coding_is_the_second_choice() {
    let p = codec_props(Codec::Av1);
    let steps = apply_static_props(&p, &inputs(Codec::Av1, false, false, None));
    let padded = steps.iter().position(|s| s.role == Role::AlignPadded).unwrap();
    let free = steps[padded - 1].value.as_i64();
    assert!(!run(&steps, &[]).unwrap().2.contains(&padded));
    let (_, _, set) = run(&steps, &[("Av1AlignmentMode", free)]).unwrap();
    assert!(set.contains(&padded));
    let mut even = inputs(Codec::Av1, false, false, None);
    even.height = 1088;
    let steps = apply_static_props(&p, &even);
    assert!(steps.iter().all(|s| s.role != Role::AlignPadded));
}

#[test]
fn a_bitrate_change_needs_both_rates() {
    let mut enc = open(Codec::H265, PixelFormat::Nv12, 60).expect("open");
    assert_eq!(enc.reconfigure_bitrate(5_000_000), None);
    assert_eq!(enc.cfg.bitrate_bps, 5_000_000);
    enc.ensure_inner(1);
    enc.component_initialised(false, false);
    enc.session_built();
    assert_eq!(enc.reconfigure_bitrate(u64::MAX), Some(i64::MAX));
    assert!(!enc.finish_reconfigure(6_000_000, true, false));
    assert_eq!(enc.cfg.bitrate_bps, 5_000_000);
    assert!(enc.finish_reconfigure(6_000_000, true, true));
    assert_eq!(enc.cfg.bitrate_bps, 6_000_000);
    assert_eq!(enc.poll_budget_us(), 12_000);
    assert_eq!(open(Codec::H265, PixelFormat::Nv12, 240).unwrap().poll_budget_us(), 3_125);
}

#[test]
fn a_probe_needs_every_call() {
    let good = |properties: usize| ProbeTrail {
        runtime_ok: true,
        create_context: AMF_OK,
        init_device: AMF_OK,
        create_component: AMF_OK,
        properties: vec![AMF_OK; properties],
        init: AMF_OK,
    };
    assert!(probe_can_encode(Codec::H264, Some(&good(1))));
    assert!(!probe_can_encode(Codec::H264, None));
    assert!(probe_can_encode_10bit(Codec::Av1, Some(&good(2))));
    assert!(probe_can_encode_10bit(Codec::H265, Some(&good(3))));
    assert!(!probe_can_encode_10bit(Codec::H264, Some(&good(1))));
    // Each property has to have been set.
    for codec in [Codec::H264, Codec::H265, Codec::Av1] {
        assert!(!probe_can_encode(codec, Some(&good(0))));
        assert!(!probe_can_encode_10bit(codec, Some(&good(0))));
    }
    assert!(!probe_can_encode_10bit(Codec::H265, Some(&good(2))));
    let mut t = good(1);
    t.properties[0] = 1;
    assert!(!probe_can_encode(Codec::H265, Some(&t)));
    let mut t = good(1);
    t.init = 30;
    assert!(!probe_can_encode(Codec::H265, Some(&t)));
    let mut t = good(3);
    t.runtime_ok = false;
    assert!(!probe_can_encode_10bit(Codec::H265, Some(&t)));
    let names = |c: Codec, deep: bool| -> Vec<&'static str> {
        probe_props(c, deep, 1).iter().map(|s| s.name).collect()
    };
    assert_eq!(names(Codec::H265, false), vec!["HevcUsage"]);
    assert_eq!(
        names(Codec::H265, true),
        vec!["HevcUsage", "HevcProfile", "HevcColorBitDepth"]
    );
    assert_eq!(names(Codec::Av1, true), vec!["Av1Usage", "Av1ColorBitDepth"]);
    assert_eq!(names(Codec::H264, true), vec!["Usage"]);
}

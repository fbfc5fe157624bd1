//! The NVENC backend, driven against a simulated driver.
use nvidia_video_codec_sdk::sys::nvEncodeAPI as nv;
use ss_encode::nvenc::budget::{
    can_open_another_session, session_cap, split_mode_units, DestroyOutcome, ParkedSession,
    SessionBudget,
};
use ss_encode::nvenc::open_search::{
    OpenFailure, OpenOutcome, OpenSearch, SearchNext, FLOOR_BPS, SPLIT_DISABLE_MODE,
};
use ss_encode::nvenc::submit::{
    FrameEvent, FrameIn, SetupEvent, SubmitAction, SubmitPhase, SubmitStep,
};
use ss_encode::nvenc::{
    async_inflight_cap, async_retrieve_requested, check_api_version, check_delivered, join_luid,
    probe_can_encode_10bit, probe_can_encode_444, probe_codec_support, BufferFormat, ChunkStep, ChunkVerdict,
    EncodeCapabilities, NvencD3d11Encoder, NvencError, PendingFrame, PollStep, RangePlan,
    ReconfigurePlan, RetrieveDone, RetrieveLatch, CODEC_AV1_GUID, CODEC_H264_GUID, CODEC_HEVC_GUID,
    PIC_FLAGS_KEYFRAME, POOL,
};
use ss_encode::types::{ChromaFormat, Codec, HdrMeta, PayloadKind, PixelFormat};

fn guid(g: nv::GUID) -> u128 {
    let tail = u64::from_be_bytes(g.Data4) as u128;
    (g.Data1 as u128) << 96 | (g.Data2 as u128) << 80 | (g.Data3 as u128) << 64 | tail
}

#[test]
fn constants_match_the_driver_headers() {
    assert_eq!(CODEC_H264_GUID, guid(nv::NV_ENC_CODEC_H264_GUID));
    assert_eq!(CODEC_HEVC_GUID, guid(nv::NV_ENC_CODEC_HEVC_GUID));
    assert_eq!(CODEC_AV1_GUID, guid(nv::NV_ENC_CODEC_AV1_GUID));
    assert_eq!(
        SPLIT_DISABLE_MODE,
        nv::NV_ENC_SPLIT_ENCODE_MODE::NV_ENC_SPLIT_DISABLE_MODE as u32
    );
    assert_eq!(
        PIC_FLAGS_KEYFRAME,
        nv::NV_ENC_PIC_FLAGS::NV_ENC_PIC_FLAG_FORCEIDR as u32
            | nv::NV_ENC_PIC_FLAGS::NV_ENC_PIC_FLAG_OUTPUT_SPSPPS as u32
    );
    let units = |m: nv::NV_ENC_SPLIT_ENCODE_MODE| split_mode_units(m as u32);
    assert_eq!(units(nv::NV_ENC_SPLIT_ENCODE_MODE::NV_ENC_SPLIT_THREE_FORCED_MODE), 3);
    assert_eq!(units(nv::NV_ENC_SPLIT_ENCODE_MODE::NV_ENC_SPLIT_TWO_FORCED_MODE), 2);
    assert_eq!(units(nv::NV_ENC_SPLIT_ENCODE_MODE::NV_ENC_SPLIT_AUTO_FORCED_MODE), 2);
    assert_eq!(units(nv::NV_ENC_SPLIT_ENCODE_MODE::NV_ENC_SPLIT_AUTO_MODE), 1);
    assert_eq!(units(nv::NV_ENC_SPLIT_ENCODE_MODE::NV_ENC_SPLIT_DISABLE_MODE), 1);
}

fn caps() -> EncodeCapabilities {
    EncodeCapabilities {
        wmax: 8192,
        hmax: 8192,
        ten_bit: 1,
        yuv444: 1,
        rfi: 1,
        custom_vbv: 1,
        async_encode: 1,
        subframe: 1,
    }
}

fn open(codec: Codec, chroma: ChromaFormat) -> NvencD3d11Encoder {
    NvencD3d11Encoder::open(
        true,
        codec,
        PixelFormat::Bgra,
        1280,
        720,
        60,
        20_000_000,
        8,
        chroma,
        8,
    )
    .expect("open")
}

fn frame(format: PixelFormat, texture: u64, pts_ns: u64) -> FrameIn {
    FrameIn {
        width: 1280,
        height: 720,
        payload: PayloadKind::D3d11,
        format,
        device: 0xd3d,
        texture,
        pts_ns,
    }
}

struct Driver {
    next_handle: u64,
    /// Highest accepted rate.
    ceiling: u64,
    /// Whether split encoding is accepted.
    split_ok: bool,
    split_mode: u32,
    slices: u32,
    async_requested: bool,
    open_sessions: Vec<u64>,
    remembered: Option<u64>,
    jobs: Vec<u64>,
    unmapped: Vec<u64>,
    events: usize,
    registrations: usize,
}

impl Driver {
    fn new() -> Self {
        Driver {
            next_handle: 100,
            ceiling: u64::MAX,
            split_ok: true,
            split_mode: SPLIT_DISABLE_MODE,
            slices: 1,
            async_requested: false,
            open_sessions: Vec::new(),
            remembered: None,
            jobs: Vec::new(),
            unmapped: Vec::new(),
            events: 0,
            registrations: 0,
        }
    }

    fn handle(&mut self) -> u64 {
        self.next_handle += 1;
        self.next_handle
    }

    /// Runs a submit to its end.
    fn submit(
        &mut self,
        enc: &mut NvencD3d11Encoder,
        f: &FrameIn,
        env_cap: usize,
        budget: &mut SessionBudget,
    ) -> Result<(), NvencError> {
        let mut step: SubmitStep = enc.submit(f, env_cap);
        loop {
            if let Some(h) = step.destroy {
                self.open_sessions.retain(|s| *s != h);
            }
            if let Some(m) = step.unmap {
                self.unmapped.push(m);
            }
            if let Some(c) = step.ceiling {
                self.remembered = Some(c.bps);
            }
            let frame_event = match step.action {
                SubmitAction::Receive => {
                    let bs = self.jobs.remove(0);
                    Some(FrameEvent::Done(RetrieveDone {
                        bs,
                        result: Ok((vec![bs as u8], false)),
                    }))
                }
                SubmitAction::RegisterTexture => {
                    self.registrations += 1;
                    Some(FrameEvent::Handle(self.handle()))
                }
                SubmitAction::MapInput(_) => Some(FrameEvent::Handle(self.handle())),
                SubmitAction::Encode { .. } => Some(FrameEvent::Accepted),
                SubmitAction::Send(job) => {
                    self.jobs.push(job.bs);
                    assert_ne!(job.event, 0);
                    Some(FrameEvent::Accepted)
                }
                _ => None,
            };
            if let Some(event) = frame_event {
                step = enc.frame_step(step.phase, f, env_cap, event);
                continue;
            }
            let event = match step.action {
                SubmitAction::TearDown => {
                    if enc.ses.encoder != 0 {
                        let h = enc.ses.encoder;
                        self.open_sessions.retain(|s| *s != h);
                        enc.teardown(DestroyOutcome::Destroyed, budget, 8);
                    }
                    SetupEvent::TornDown
                }
                SubmitAction::QueryCaps => SetupEvent::Caps(caps()),
                SubmitAction::Resolve { pixel_rate, slices } => {
                    assert_eq!(pixel_rate, f.width as u64 * f.height as u64 * 60);
                    assert_eq!(slices, 4);
                    SetupEvent::Resolved {
                        slices: self.slices,
                        split_mode: self.split_mode,
                        subframe: true,
                        async_requested: self.async_requested,
                        ceiling: self.remembered,
                    }
                }
                SubmitAction::Open(a) => {
                    if (a.split_mode != SPLIT_DISABLE_MODE && !self.split_ok) || a.bps > self.ceiling {
                        SetupEvent::Open(OpenOutcome::Failed(OpenFailure {
                            status: 8,
                            param_rejection: true,
                        }))
                    } else {
                        let h = self.handle();
                        self.open_sessions.push(h);
                        SetupEvent::Open(OpenOutcome::Opened(h))
                    }
                }
                SubmitAction::CreateBuffer => SetupEvent::Handle(self.handle()),
                SubmitAction::CreateEvent => {
                    self.events += 1;
                    SetupEvent::Handle(self.handle())
                }
                SubmitAction::RegisterEvent(_) | SubmitAction::Start => SetupEvent::Accepted,
                SubmitAction::Nothing => {
                    return match step.phase {
                        SubmitPhase::Done => Ok(()),
                        SubmitPhase::Refused(e) => Err(e),
                        _ => panic!("an ended submit"),
                    }
                }
                _ => panic!("a set-up action"),
            };
            step = enc.setup_step(step.phase, f, env_cap, event, budget);
        }
    }
}

#[test]
fn a_session_is_set_up_with_the_first_frame() {
    let mut d = Driver::new();
    let mut budget = SessionBudget::new();
    let mut enc = open(Codec::H265, ChromaFormat::Yuv420);
    d.submit(&mut enc, &frame(PixelFormat::Nv12, 1, 5), 4, &mut budget).unwrap();
    assert_eq!(enc.bitstreams.len(), POOL);
    assert!(enc.events.is_empty());
    assert_eq!(budget.live_units, 1);
    assert_eq!(enc.pending.len(), 1);
    assert!(enc.pending[0].idr_hint);
    assert_eq!(d.open_sessions.len(), 1);
    d.submit(&mut enc, &frame(PixelFormat::Nv12, 1, 6), 4, &mut budget).unwrap();
    assert_eq!(d.registrations, 1, "a texture is registered once");
    assert!(!enc.pending[1].idr_hint);
    assert_eq!(enc.pending[1].bitstream, enc.bitstreams[1]);
    match enc.poll() {
        Ok(PollStep::Lock(p)) => {
            let au = NvencD3d11Encoder::finish_unit(p, vec![1, 2], true);
            assert_eq!((au.pts_ns, au.keyframe), (5, true));
        }
        _ => panic!("the oldest frame comes first"),
    }
}

#[test]
fn a_changed_frame_rebuilds_the_session() {
    let mut d = Driver::new();
    let mut budget = SessionBudget::new();
    let mut enc = open(Codec::H265, ChromaFormat::Yuv420);
    d.submit(&mut enc, &frame(PixelFormat::Nv12, 1, 0), 4, &mut budget).unwrap();
    let first = enc.ses.encoder;
    d.submit(&mut enc, &frame(PixelFormat::P010, 2, 1), 4, &mut budget).unwrap();
    assert_ne!(enc.ses.encoder, first);
    assert_eq!(d.open_sessions, vec![enc.ses.encoder]);
    assert!(enc.cfg.hdr);
    assert_eq!(enc.cfg.bit_depth, 10);
    assert_eq!(budget.live_units, 1);
    let smaller = FrameIn {
        width: 640,
        height: 360,
        ..frame(PixelFormat::P010, 3, 2)
    };
    d.submit(&mut enc, &smaller, 4, &mut budget).unwrap();
    assert_eq!(enc.cfg.width, 640);
    assert_eq!(enc.pending.len(), 1);
    let cpu = FrameIn {
        payload: PayloadKind::Cpu,
        ..smaller
    };
    assert_eq!(d.submit(&mut enc, &cpu, 4, &mut budget), Err(NvencError::NeedsTexture));
}

#[test]
fn the_search_finds_the_ceiling_and_remembers_it() {
    let mut d = Driver::new();
    d.ceiling = 137_000_000;
    d.split_ok = false;
    d.split_mode = 2;
    let mut budget = SessionBudget::new();
    let mut enc = open(Codec::H265, ChromaFormat::Yuv420);
    enc.reconfigure_bitrate(900_000_000, None);
    d.submit(&mut enc, &frame(PixelFormat::Nv12, 1, 0), 4, &mut budget).unwrap();
    let got = enc.applied_bitrate_bps().unwrap();
    assert!(got <= 137_000_000);
    assert_eq!(d.remembered, Some(got));
    assert_eq!(d.open_sessions.len(), 1, "no session leaks");
    assert_eq!(d.open_sessions[0], enc.ses.encoder);
}

#[test]
fn a_bisection_ends_near_the_ceiling() {
    for ceiling in [35_000_000u64, 137_000_000, 700_000_000] {
        let mut s = OpenSearch::start(900_000_000, None, SPLIT_DISABLE_MODE);
        let mut open: Vec<u64> = Vec::new();
        let mut handle = 1;
        let (bps, clamped) = loop {
            let a = s.attempt();
            let outcome = if a.bps <= ceiling {
                handle += 1;
                open.push(handle);
                OpenOutcome::Opened(handle)
            } else {
                OpenOutcome::Failed(OpenFailure {
                    status: 8,
                    param_rejection: true,
                })
            };
            let step = s.step(outcome);
            if let Some(h) = step.destroy {
                open.retain(|o| *o != h);
            }
            match step.next {
                SearchNext::Try(n) => s = n,
                SearchNext::Opened {
                    handle,
                    bps,
                    clamped,
                    ..
                } => {
                    assert_eq!(open, vec![handle]);
                    break (bps, clamped);
                }
                SearchNext::Failed { .. } => panic!("a lower rate is accepted"),
            }
        };
        assert!(clamped);
        assert!(bps <= ceiling && ceiling - bps <= 20_000_000 + FLOOR_BPS);
    }
}

#[test]
fn refusals_that_no_rate_cures_end_the_search() {
    let s = OpenSearch::start(50_000_000, Some(40_000_000), SPLIT_DISABLE_MODE);
    assert_eq!(s.attempt().bps, 40_000_000);
    let env = OpenOutcome::Failed(OpenFailure {
        status: 10,
        param_rejection: false,
    });
    let SearchNext::Try(s) = s.step(env).next else {
        panic!("the remembered ceiling may be out of date")
    };
    assert_eq!(s.attempt().bps, 50_000_000);
    match s.step(env).next {
        SearchNext::Failed { failure, at_floor } => {
            assert_eq!(failure.status, 10);
            assert!(!at_floor);
        }
        _ => panic!("the environment is refused"),
    }
    // A driver that refuses everything is asked for the floor last, without split encoding.
    let rejected = OpenOutcome::Failed(OpenFailure {
        status: 8,
        param_rejection: true,
    });
    let mut s = OpenSearch::start(20_000_000, None, 1);
    let mut asked = Vec::new();
    loop {
        asked.push((s.attempt().bps, s.attempt().split_mode));
        match s.step(rejected).next {
            SearchNext::Try(n) => s = n,
            SearchNext::Failed { at_floor, .. } => {
                assert!(at_floor);
                break;
            }
            SearchNext::Opened { .. } => panic!("nothing was opened"),
        }
    }
    assert_eq!(
        asked,
        vec![
            (20_000_000, 1),
            (20_000_000, SPLIT_DISABLE_MODE),
            (FLOOR_BPS, 1),
            (FLOOR_BPS, SPLIT_DISABLE_MODE)
        ]
    );
}

#[test]
fn a_failed_set_up_leaves_nothing_behind() {
    let mut d = Driver::new();
    let mut budget = SessionBudget::new();
    let mut enc = open(Codec::H265, ChromaFormat::Yuv420);
    let f = frame(PixelFormat::Nv12, 1, 0);
    d.ceiling = 0;
    assert_eq!(
        d.submit(&mut enc, &f, 4, &mut budget),
        Err(NvencError::OpenFailed {
            status: 8,
            at_floor: true
        })
    );
    assert_eq!(enc.ses.encoder, 0);
    assert!(d.open_sessions.is_empty());
    // The output buffers fail.
    let step = enc.submit(&f, 4);
    let step = enc.setup_step(step.phase, &f, 4, SetupEvent::Caps(caps()), &mut budget);
    let resolved = SetupEvent::Resolved {
        slices: 4,
        split_mode: 3,
        subframe: true,
        async_requested: false,
        ceiling: None,
    };
    let step = enc.setup_step(step.phase, &f, 4, resolved, &mut budget);
    let opened = SetupEvent::Open(OpenOutcome::Opened(9));
    let step = enc.setup_step(step.phase, &f, 4, opened, &mut budget);
    assert_eq!(step.action, SubmitAction::CreateBuffer);
    assert_eq!(budget.live_units, 3);
    assert!(enc.ses.subframe_chunks);
    let step = enc.setup_step(step.phase, &f, 4, SetupEvent::Handle(11), &mut budget);
    let failed = SetupEvent::Failed(NvencError::Call(2));
    let step = enc.setup_step(step.phase, &f, 4, failed, &mut budget);
    assert_eq!(step.action, SubmitAction::TearDown);
    enc.teardown(DestroyOutcome::Destroyed, &mut budget, 8);
    assert_eq!(budget.live_units, 0);
    let step = enc.setup_step(step.phase, &f, 4, SetupEvent::TornDown, &mut budget);
    assert_eq!(step.phase, SubmitPhase::Refused(NvencError::Call(2)));
    assert!(enc.bitstreams.is_empty());
    // A frame that is too large is refused by the adapter's limits.
    let step = enc.submit(&f, 4);
    let small = EncodeCapabilities {
        wmax: 1024,
        hmax: 768,
        ..caps()
    };
    let step = enc.setup_step(step.phase, &f, 4, SetupEvent::Caps(small), &mut budget);
    assert_eq!(
        step.phase,
        SubmitPhase::Failing(NvencError::SizeUnsupported {
            wmax: 1024,
            hmax: 768
        })
    );
}

#[test]
fn two_threads_keep_within_the_limit_and_in_order() {
    let mut d = Driver::new();
    d.async_requested = true;
    let mut budget = SessionBudget::new();
    let mut enc = open(Codec::H265, ChromaFormat::Yuv420);
    enc.set_input_ring_depth(3);
    for i in 0..20u64 {
        d.submit(&mut enc, &frame(PixelFormat::Nv12, i % 3, i), 7, &mut budget).unwrap();
        assert!(enc.pending.len() <= 3);
    }
    assert_eq!(d.events, POOL);
    assert!(!enc.ses.subframe_chunks);
    assert_eq!(enc.ready.len(), 17);
    for i in 0..17u64 {
        match enc.poll() {
            Ok(PollStep::Ready(au)) => assert_eq!(au.pts_ns, i),
            _ => panic!("units wait in order"),
        }
    }
    assert!(matches!(enc.poll(), Ok(PollStep::Idle)));
    assert_eq!(d.unmapped.len(), 17);
    // Without a word from the capturer two frames may be in flight.
    let mut enc = open(Codec::H265, ChromaFormat::Yuv420);
    for i in 0..5u64 {
        d.jobs.clear();
        d.jobs.extend(enc.pending.iter().map(|p| p.bitstream));
        d.submit(&mut enc, &frame(PixelFormat::Nv12, 1, i), 7, &mut budget).unwrap();
        assert!(enc.pending.len() <= 2);
    }
}

#[test]
fn completions_are_paired_or_refused() {
    let mut enc = open(Codec::H264, ChromaFormat::Yuv420);
    let done = |bs: u64, result: Result<(Vec<u8>, bool), i32>| RetrieveDone { bs, result };
    let a = enc.absorb_done(done(1, Ok((vec![], false))));
    assert_eq!(a.result, Err(NvencError::UnpairedCompletion));
    let mut d = Driver::new();
    d.async_requested = true;
    let mut budget = SessionBudget::new();
    d.submit(&mut enc, &frame(PixelFormat::Nv12, 1, 7), 7, &mut budget).unwrap();
    let bs = enc.pending[0].bitstream;
    let mapped = enc.pending[0].mapped;
    let a = enc.absorb_done(done(bs, Err(5)));
    assert_eq!(a.unmap, Some(mapped));
    assert_eq!(a.result, Err(NvencError::Retrieve(5)));
    d.submit(&mut enc, &frame(PixelFormat::Nv12, 1, 8), 7, &mut budget).unwrap();
    let a = enc.absorb_done(done(bs, Ok((vec![1], true))));
    assert_eq!(a.result, Err(NvencError::CompletionOutOfOrder));
    // A stalled wait and a retrieve thread that is gone end the submit.
    d.submit(&mut enc, &frame(PixelFormat::Nv12, 1, 9), 1, &mut budget).unwrap();
    let f = frame(PixelFormat::Nv12, 1, 10);
    let step = enc.submit(&f, 1);
    assert_eq!(step.phase, SubmitPhase::Room);
    let s = enc.frame_step(step.phase, &f, 1, FrameEvent::Failed(NvencError::Call(0)));
    assert_eq!(s.phase, SubmitPhase::Refused(NvencError::Stalled));
    let s = enc.frame_step(SubmitPhase::Sending, &f, 1, FrameEvent::Failed(NvencError::Call(0)));
    assert_eq!(s.phase, SubmitPhase::Refused(NvencError::RetrieveGone));
}

#[test]
fn a_forced_keyframe_cancels_an_anchor() {
    let mut d = Driver::new();
    let mut budget = SessionBudget::new();
    let mut enc = open(Codec::H265, ChromaFormat::Yuv420);
    d.submit(&mut enc, &frame(PixelFormat::P010, 1, 0), 4, &mut budget).unwrap();
    let hit = RangePlan::Invalidate { first: 3, last: 5 };
    assert!(!enc.invalidate_ref_frames(hit, false));
    assert!(!enc.invalidate_ref_frames(RangePlan::Decline, true));
    assert!(enc.invalidate_ref_frames(hit, true));
    assert_eq!(enc.ses.last_rfi_range, Some((3, 5)));
    d.submit(&mut enc, &frame(PixelFormat::P010, 1, 1), 4, &mut budget).unwrap();
    assert!(enc.pending[1].anchor);
    assert!(enc.invalidate_ref_frames(RangePlan::Covered, false));
    enc.request_keyframe();
    enc.set_wire_index(77);
    enc.set_hdr_meta(Some(HdrMeta {
        display_primaries: [[1, 2]; 3],
        white_point: [3, 4],
        max_display_mastering_luminance: 5,
        min_display_mastering_luminance: 6,
        max_cll: 7,
        max_fall: 8,
    }));
    let plan = enc.plan_picture(2, false);
    assert_eq!(plan.flags, PIC_FLAGS_KEYFRAME);
    assert!(!plan.anchor && plan.idr_hint && plan.hdr_sei);
    assert_eq!(plan.timestamp, 77);
    assert_eq!(plan.bitstream, enc.bitstreams[2]);
    let plan = enc.plan_picture(3, false);
    assert_eq!(plan.flags, 0);
    assert!(!plan.hdr_sei);
}

#[test]
fn frames_decide_depth_and_chroma() {
    for (format, fmt, depth, full) in [
        (PixelFormat::P010, BufferFormat::Yuv420TenBit, 10, false),
        (PixelFormat::Rgb10a2, BufferFormat::Abgr10, 10, true),
        (PixelFormat::Nv12, BufferFormat::Nv12, 8, false),
        (PixelFormat::Bgra, BufferFormat::Argb, 8, true),
    ] {
        let mut enc = open(Codec::H265, ChromaFormat::Yuv444);
        enc.adopt_frame(64, 32, format);
        assert_eq!(enc.cfg.buffer_fmt, fmt);
        assert_eq!(enc.cfg.bit_depth, depth);
        assert_eq!(enc.cfg.chroma_444, full);
        let c = enc.build_config(9);
        assert_eq!(c.full_chroma_input, full);
        assert_eq!(c.av1_input_depth_minus8, if depth == 10 { 2 } else { 0 });
        assert_eq!(c.bitrate, 9);
    }
    let mut enc = open(Codec::H265, ChromaFormat::Yuv444);
    enc.adopt_frame(64, 32, PixelFormat::Rgb10a2);
    let poor = EncodeCapabilities {
        ten_bit: 0,
        yuv444: 0,
        ..caps()
    };
    enc.query_caps(poor).unwrap();
    assert!(enc.cfg.hdr_unsupported && !enc.cfg.hdr && !enc.cfg.chroma_444);
    assert_eq!(enc.cfg.bit_depth, 8);
    assert!(!open(Codec::Av1, ChromaFormat::Yuv444).cfg.chroma_444_requested);
    let key = enc.ceiling_key(Some((1, 2)), 3);
    assert_eq!(key.gpu, 0x1_0000_0002);
    assert_eq!(key.split_mode, 3);
    assert_eq!(join_luid(0xffff_ffff, 1), 0xffff_ffff_0000_0001);
}

#[test]
fn chunks_make_up_the_unit() {
    let mut d = Driver::new();
    d.slices = 4;
    let mut budget = SessionBudget::new();
    let mut enc = open(Codec::H265, ChromaFormat::Yuv420);
    assert_eq!(enc.poll_chunk(), ChunkStep::Whole);
    d.submit(&mut enc, &frame(PixelFormat::Nv12, 1, 3), 4, &mut budget).unwrap();
    assert!(enc.supports_chunked_poll());
    let unit: Vec<u8> = (0..10).collect();
    assert!(matches!(enc.poll_chunk(), ChunkStep::Sample(_)));
    assert_eq!(enc.judge_sample(0, 0), ChunkVerdict::Wait);
    assert_eq!(enc.judge_sample(1, 4), ChunkVerdict::Emit);
    assert_eq!(enc.chunk_step(None, false), ChunkVerdict::Wait);
    assert_eq!(enc.chunk_step(None, true), ChunkVerdict::Finish);
    assert_eq!(enc.chunk_step(Some((0, 0)), false), ChunkVerdict::Wait);
    assert_eq!(enc.chunk_step(Some((0, 0)), true), ChunkVerdict::Finish);
    assert_eq!(enc.chunk_step(Some((1, 4)), true), ChunkVerdict::Emit);
    assert_eq!(enc.chunk_step(Some((4, 10)), false), ChunkVerdict::Finish);
    let a = enc.emit_chunk(1, &unit[..4]);
    assert!(a.first && !a.last && a.keyframe);
    assert_eq!(enc.judge_sample(1, 4), ChunkVerdict::Wait);
    assert!(matches!(enc.poll(), Err(NvencError::MidChunk)));
    let b = enc.emit_chunk(3, &unit[..7]);
    assert!(!b.first && !b.last);
    assert_eq!(enc.judge_sample(4, 10), ChunkVerdict::Finish);
    let p = enc.take_finished();
    let c = enc.finish_chunk(p, &unit, true).unwrap();
    assert!(c.last && !c.first);
    let whole = [a.data, b.data, c.data].concat();
    assert_eq!(whole, unit);
    assert_eq!(enc.poll_chunk(), ChunkStep::Idle);
    // A unit shorter than what was delivered is an error.
    d.submit(&mut enc, &frame(PixelFormat::Nv12, 1, 4), 4, &mut budget).unwrap();
    enc.emit_chunk(1, &unit[..4]);
    let p = enc.take_finished();
    assert_eq!(
        enc.finish_chunk(p, &unit[..3], false).err(),
        Some(NvencError::EmittedBeyondUnit {
            emitted: 4,
            total: 3
        })
    );
    assert!(enc.chunk_budget_us() > 0);
    assert_eq!(check_delivered(&unit[..4], &unit), Ok(()));
    assert_eq!(check_delivered(&[], &[]), Ok(()));
    assert_eq!(check_delivered(&[0, 9], &unit), Err(NvencError::ChunksDiverge));
    assert_eq!(
        check_delivered(&unit, &unit[..3]),
        Err(NvencError::EmittedBeyondUnit {
            emitted: 10,
            total: 3
        })
    );
}

#[test]
fn rates_are_held_to_a_known_ceiling() {
    let mut d = Driver::new();
    let mut budget = SessionBudget::new();
    let mut enc = open(Codec::H265, ChromaFormat::Yuv420);
    assert_eq!(enc.reconfigure_bitrate(60_000_000, None), ReconfigurePlan::Stored);
    d.submit(&mut enc, &frame(PixelFormat::Nv12, 1, 0), 4, &mut budget).unwrap();
    assert_eq!(enc.applied_bitrate_bps(), Some(60_000_000));
    assert_eq!(
        enc.reconfigure_bitrate(90_000_000, Some(70_000_000)),
        ReconfigurePlan::Apply(70_000_000)
    );
    assert!(!enc.note_reconfigured(70_000_000, false));
    assert_eq!(enc.applied_bitrate_bps(), Some(60_000_000));
    assert!(enc.note_reconfigured(70_000_000, true));
    assert_eq!(enc.applied_bitrate_bps(), Some(70_000_000));
}

#[test]
fn ambiguous_destructions_are_parked_and_reaped() {
    let mut b = SessionBudget::new();
    b.charge(3);
    b.charge(2);
    assert!(b.session_closed(1, 3, DestroyOutcome::Ambiguous, 4).is_empty());
    assert_eq!(b.live_units, 5);
    assert!(!b.may_reap());
    // The second parking exceeds the cap, so the oldest is aged out and refunded.
    let aged = b.session_closed(2, 2, DestroyOutcome::Ambiguous, 4);
    assert_eq!(aged, vec![ParkedSession { enc: 1, units: 3 }]);
    assert_eq!(b.live_units, 2);
    assert!(b.may_reap());
    b.reap_parked_sessions(&vec![DestroyOutcome::Ambiguous]);
    assert_eq!(b.parked.len(), 1);
    b.reap_parked_sessions(&vec![DestroyOutcome::ProvesNoSession]);
    assert_eq!((b.live_units, b.parked.len()), (0, 0));
    b.charge(1);
    assert!(b.session_closed(5, 1, DestroyOutcome::Destroyed, 4).is_empty());
    assert_eq!(b.live_units, 0);
    assert_eq!(session_cap(None), 8);
    assert_eq!(session_cap(Some("3")), 3);
    assert_eq!(session_cap(Some(" 3")), 8);
    assert!(can_open_another_session(2, 3));
    assert!(!can_open_another_session(3, 3));
    assert!(!can_open_another_session(1, 0));
    assert!(can_open_another_session(0, 0), "an unused adapter is never full");
}

#[test]
fn nvenc_settings_follow_their_grammar() {
    assert_eq!(async_inflight_cap(None), 4);
    assert_eq!(async_inflight_cap(Some("1")), 2);
    assert_eq!(async_inflight_cap(Some(" 6 ")), 6);
    assert_eq!(async_inflight_cap(Some("99")), POOL - 1);
    assert!(async_retrieve_requested(Some("1")));
    assert!(!async_retrieve_requested(Some("0")));
    assert_eq!(check_api_version(12 << 4 | 1, 12, 1), Ok((12, 1)));
    assert_eq!(check_api_version(13 << 4, 12, 1), Ok((13, 0)));
    assert_eq!(
        check_api_version(12 << 4, 12, 1),
        Err(NvencError::DriverTooOld {
            major: 12,
            minor: 0
        })
    );
    assert!(NvencD3d11Encoder::open(
        false,
        Codec::H264,
        PixelFormat::Nv12,
        1,
        1,
        1,
        1,
        8,
        ChromaFormat::Yuv420,
        0
    )
    .is_err());
    let mut latch = RetrieveLatch::new();
    assert_eq!(latch.wait_ms(), 5000);
    latch.observe(false);
    assert_eq!(latch.wait_ms(), 250);
    latch.observe(true);
    assert_eq!(latch.wait_ms(), 5000);
}

#[test]
fn probes_claim_only_what_was_answered() {
    assert!(probe_can_encode_444(Codec::H265, Some(1)));
    assert!(!probe_can_encode_444(Codec::H264, Some(1)));
    assert!(!probe_can_encode_444(Codec::H265, None));
    assert!(probe_can_encode_10bit(Codec::Av1, Some(1)));
    assert!(!probe_can_encode_10bit(Codec::Av1, Some(0)));
    assert!(!probe_can_encode_10bit(Codec::H264, Some(1)));
    let s = probe_codec_support(Some(&vec![CODEC_AV1_GUID, 5, CODEC_H264_GUID]));
    assert_eq!((s.h264, s.h265, s.av1), (true, false, true));
    let s = probe_codec_support(None);
    assert_eq!((s.h264, s.h265, s.av1), (false, false, false));
}

#[test]
fn a_pending_frame_carries_its_anchor() {
    let p = PendingFrame {
        bitstream: 1,
        mapped: 2,
        pts_ns: 3,
        anchor: true,
        idr_hint: false,
    };
    let au = NvencD3d11Encoder::finish_unit(p, vec![4], false);
    assert!(au.recovery_anchor && !au.keyframe && !au.chunk_aligned);
}

#[test]
fn a_reset_refunds_only_a_proven_destruction() {
    let f = frame(PixelFormat::Nv12, 1, 5);
    for (outcome, live, parked) in [
        (DestroyOutcome::Destroyed, 0, 0),
        (DestroyOutcome::ProvesNoSession, 0, 0),
        (DestroyOutcome::Ambiguous, 1, 1),
    ] {
        let mut d = Driver::new();
        let mut budget = SessionBudget::new();
        let mut enc = open(Codec::H265, ChromaFormat::Yuv420);
        d.submit(&mut enc, &f, 4, &mut budget).unwrap();
        let handle = enc.ses.encoder;
        assert!(enc.reset(outcome, &mut budget, 8));
        assert_eq!(budget.live_units, live);
        assert_eq!(budget.parked.len(), parked);
        assert!(budget.parked.iter().all(|p| *p == ParkedSession { enc: handle, units: 1 }));
        assert!(enc.pending.is_empty() && enc.bitstreams.is_empty());
        assert!(enc.flow.force_kf);
        // Without a session the books stay as they are.
        assert!(enc.reset(DestroyOutcome::Destroyed, &mut budget, 8));
        assert_eq!(budget.live_units, live);
        assert_eq!(budget.parked.len(), parked);
    }
}

#[test]
fn a_teardown_ages_out_no_more_than_the_cap_asks() {
    let f = frame(PixelFormat::Nv12, 1, 5);
    let mut d = Driver::new();
    let mut budget = SessionBudget::new();
    let mut enc = open(Codec::H265, ChromaFormat::Yuv420);
    for i in 0..3usize {
        d.submit(&mut enc, &f, 4, &mut budget).unwrap();
        assert!(enc.teardown(DestroyOutcome::Ambiguous, &mut budget, 3).is_empty());
        assert_eq!(budget.parked.len(), i + 1);
    }
    let oldest = budget.parked[0];
    d.submit(&mut enc, &f, 4, &mut budget).unwrap();
    assert_eq!(enc.teardown(DestroyOutcome::Ambiguous, &mut budget, 3), vec![oldest]);
    assert_eq!((budget.live_units, budget.parked.len()), (3, 3));
}

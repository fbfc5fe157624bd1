//! The AMF backend: native encoding on AMD adapters.
//!
//! [`AmfEncoder`] holds what the backend knows between runtime calls. Captured frames are copied into a
//! ring of input textures which the runtime reads until the unit of the frame is retrieved, so a submit
//! keeps the frames in flight below the ring's depth until the stream has ended.
pub mod flow_laws;
pub mod laws;
pub mod props;
pub mod submit;

use crate::amf::props::{
    by_codec, cap_bps, capped_bps, codec_props, models, CodecProps, PropStep, Role, StaticInputs,
    StepModel,
};
use crate::amf_sys::{
    AmfHdrMetadata, AmfVariant, VariantModel, AMF_EOF, AMF_HEADER_VERSION, AMF_INPUT_FULL,
    AMF_MIN_VERSION, AMF_NEED_MORE_INPUT, AMF_OK, AMF_REPEAT, AMF_SURFACE_NV12, AMF_SURFACE_P010,
};
use crate::flow::{
    accounts, check_input, input_format, input_refusal, law_oldest_in_flight_is_next,
    lemma_retrieve_accounts, lemma_submit_accounts, oldest, reset_count, unit_of, without_oldest,
    DrainStep, FlowState, InputError, PendingUnit, PollBegin, ResetPlan,
};
use crate::ltr::{plain_i64, read_i64, Distrust, LtrPlan, LtrSlots};
use crate::text::{dotted, dotted_string, is_switched_on, opt_view, switched_on};
use crate::types::{
    at_least_one, format_is_ten_bit, is_10bit_format, meta_equals, same_meta, ChromaFormat, Codec,
    EncodedFrame, EncoderCaps, HdrMeta, PayloadKind, PixelFormat,
};
use std::collections::VecDeque;
use vstd::prelude::*;

verus! {

/// Input textures. A texture is read until its frame's unit is retrieved, so at most one frame less
/// may be in flight.
pub const RING: usize = 6;

/// How long a submit waits for output before it declares the encoder wedged, in milliseconds.
pub const INPUT_DRAIN_BUDGET_MS: u64 = 200;

#[derive(Clone, Copy, Debug, PartialEq, Eq, Structural)]
pub enum AmfError {
    /// No usable runtime.
    Unavailable,
    /// The runtime is older than the oldest one accepted.
    RuntimeTooOld { version: u64 },
    /// The adapter does not encode AV1.
    Av1Declined,
    /// The frames are not in the layout of the input ring.
    FormatMismatch { expected: PixelFormat, delivered: PixelFormat },
    /// Ten-bit H.264 is not encoded.
    TenBitH264,
    /// The frame does not fit the encoder.
    Input(InputError),
    /// A runtime call failed with this code.
    Call(i32),
    /// An output without content.
    EmptyOutput,
    /// No output for the whole budget, with this many frames in flight.
    Wedged { in_flight: usize },
    /// The input queue stayed full for the whole budget.
    InputFull,
}

/// Turns a result code into a result.
pub fn amf_ok(r: i32) -> (x: Result<(), AmfError>)
    ensures
        x == if r == AMF_OK {
            Ok::<(), AmfError>(())
        } else {
            Err::<(), AmfError>(AmfError::Call(r))
        },
{
    if r == AMF_OK {
        Ok(())
    } else {
        Err(AmfError::Call(r))
    }
}

/// Field `k` of a version word, sixteen bits each from the low end.
pub open spec fn version_field(v: u64, k: int) -> u64 {
    if k == 3 {
        v / 0x1_0000_0000_0000
    } else if k == 2 {
        (v / 0x1_0000_0000) % 0x1_0000
    } else {
        (v / 0x1_0000) % 0x1_0000
    }
}

/// A runtime version as its three numbers.
pub fn amf_version_str(v: u64) -> (s: String)
    ensures
        s@ == dotted(seq![version_field(v, 3), version_field(v, 2), version_field(v, 1)]),
{
    let major: u64 = (v >> 48u64) & 0xffff;
    let minor: u64 = (v >> 32u64) & 0xffff;
    let release: u64 = (v >> 16u64) & 0xffff;
    assert((v >> 48u64) & 0xffff == v / 0x1_0000_0000_0000 && (v >> 32u64) & 0xffff == (v
        / 0x1_0000_0000) % 0x1_0000 && (v >> 16u64) & 0xffff == (v / 0x1_0000) % 0x1_0000)
        by (bit_vector);
    let parts: [u64; 3] = [major, minor, release];
    assert(parts@ =~= seq![version_field(v, 3), version_field(v, 2), version_field(v, 1)]);
    dotted_string(&parts)
}

/// A file version as its four numbers, out of the two words it is stored in.
pub fn dll_file_version(ms: u32, ls: u32) -> (s: String)
    ensures
        s@ == dotted(
            seq![
                (ms / 0x1_0000) as u64,
                (ms % 0x1_0000) as u64,
                (ls / 0x1_0000) as u64,
                (ls % 0x1_0000) as u64,
            ],
        ),
{
    assert(forall|w: u32| #[trigger] (w >> 16u32) == w / 0x1_0000 && w & 0xffff == w % 0x1_0000)
        by (bit_vector);
    let a: u64 = (ms >> 16u32) as u64;
    let b: u64 = (ms & 0xffff) as u64;
    let c: u64 = (ls >> 16u32) as u64;
    let d: u64 = (ls & 0xffff) as u64;
    let parts: [u64; 4] = [a, b, c, d];
    assert(parts@ =~= seq![
        (ms / 0x1_0000) as u64,
        (ms % 0x1_0000) as u64,
        (ls / 0x1_0000) as u64,
        (ls % 0x1_0000) as u64,
    ]);
    dotted_string(&parts)
}

/// Decides whether a runtime is accepted. Returns the interface version to ask it for, never newer
/// than its own, and whether it meets the release spoken here.
pub fn load_factory(version: u64) -> (r: Result<(u64, bool), AmfError>)
    ensures
        r == if version < AMF_MIN_VERSION {
            Err::<(u64, bool), AmfError>(AmfError::RuntimeTooOld { version })
        } else if version < AMF_HEADER_VERSION {
            Ok::<(u64, bool), AmfError>((version, false))
        } else {
            Ok::<(u64, bool), AmfError>((AMF_HEADER_VERSION, true))
        },
{
    if version < AMF_MIN_VERSION {
        return Err(AmfError::RuntimeTooOld { version });
    }
    if version < AMF_HEADER_VERSION {
        Ok((version, false))
    } else {
        Ok((AMF_HEADER_VERSION, true))
    }
}

/// Whether the intra-refresh wave is switched on.
pub fn intra_refresh_requested(raw: Option<&str>) -> (r: bool)
    ensures
        r == is_switched_on(opt_view(raw)),
{
    switched_on(raw)
}

/// Whether the long-term-reference recovery is switched off.
pub fn ltr_disabled(raw: Option<&str>) -> (r: bool)
    ensures
        r == is_switched_on(opt_view(raw)),
{
    switched_on(raw)
}

/// Frames between marks: the setting where it is positive, else half a second.
pub open spec fn mark_cadence(raw: Option<Seq<char>>, fps: u32) -> int {
    match plain_i64(raw) {
        Some(v) => if v >= 1 {
            v
        } else {
            default_cadence(fps)
        },
        None => default_cadence(fps),
    }
}

/// Half a second of frames, at least one.
pub open spec fn default_cadence(fps: u32) -> int {
    if fps < 2 {
        1
    } else {
        fps as int / 2
    }
}

/// Reads the mark cadence.
pub fn ltr_mark_interval(raw: Option<&str>, fps: u32) -> (interval: i64)
    ensures
        interval == mark_cadence(opt_view(raw), fps),
        interval >= 1,
{
    let default: i64 = if fps < 2 {
        1
    } else {
        (fps / 2) as i64
    };
    match read_i64(raw) {
        Some(v) => if v >= 1 {
            v
        } else {
            default
        },
        None => default,
    }
}

/// Reads the frame that reports itself as lost, for trials without a client.
pub fn ltr_test_force_at(raw: Option<&str>) -> (at: Option<i64>)
    ensures
        match at {
            Some(v) => v > 0 && plain_i64(opt_view(raw)) == Some(v as int),
            None => plain_i64(opt_view(raw)) matches Some(v) ==> v <= 0,
        },
{
    match read_i64(raw) {
        Some(v) => if v > 0 {
            Some(v)
        } else {
            None
        },
        None => None,
    }
}

/// Surface format of the input for a sample depth.
pub fn surface_format(ten_bit: bool) -> (f: i32)
    ensures
        f == if ten_bit {
            AMF_SURFACE_P010
        } else {
            AMF_SURFACE_NV12
        },
{
    if ten_bit {
        AMF_SURFACE_P010
    } else {
        AMF_SURFACE_NV12
    }
}

/// The metadata in the runtime's layout: primaries in red, green, blue order, all units unchanged.
pub fn hdr_buffer(meta: &HdrMeta) -> (m: AmfHdrMetadata)
    ensures
        m.red_primary == meta.display_primaries@[2],
        m.green_primary == meta.display_primaries@[0],
        m.blue_primary == meta.display_primaries@[1],
        m.white_point == meta.white_point,
        m.max_mastering_luminance == meta.max_display_mastering_luminance,
        m.min_mastering_luminance == meta.min_display_mastering_luminance,
        m.max_content_light_level == meta.max_cll,
        m.max_frame_average_light_level == meta.max_fall,
{
    AmfHdrMetadata {
        red_primary: meta.display_primaries[2],
        green_primary: meta.display_primaries[0],
        blue_primary: meta.display_primaries[1],
        white_point: meta.white_point,
        max_mastering_luminance: meta.max_display_mastering_luminance,
        min_mastering_luminance: meta.min_display_mastering_luminance,
        max_content_light_level: meta.max_cll,
        max_frame_average_light_level: meta.max_fall,
    }
}

/// What an encoder is opened with.
#[derive(Clone, Copy, Debug, PartialEq, Eq, Structural)]
pub struct AmfConfig {
    pub codec: Codec,
    pub width: u32,
    pub height: u32,
    pub fps: u32,
    pub bitrate_bps: u64,
    pub ten_bit: bool,
}

/// What belongs to the running component.
#[derive(Clone, Copy, Debug)]
pub struct AmfSession {
    pub live: bool,
    pub bound_device: u64,
    /// Frames copied into the ring so far.
    pub next: usize,
    /// The metadata last handed to the component.
    pub hdr_pushed: Option<HdrMeta>,
    pub ir_active: bool,
    pub ltr_active: bool,
}

pub struct AmfEncoder {
    pub cfg: AmfConfig,
    pub ses: AmfSession,
    pub flow: FlowState,
    pub ltr: LtrSlots,
    /// Frames in flight, oldest first.
    pub pending: VecDeque<PendingUnit>,
    /// Units retrieved while a submit made room, older than anything in flight.
    pub ready: VecDeque<EncodedFrame>,
}

/// What a frame is submitted with.
#[derive(Clone, Copy, Debug)]
pub struct FramePlan {
    /// Presentation time in units of 100 ns.
    pub pts_100ns: i64,
    pub forced: bool,
    pub mark: Option<usize>,
    pub force: Option<usize>,
    pub recovery_anchor: bool,
}

/// What one query for output brought.
pub enum OutputEvent {
    /// No data, with this result code.
    Empty(i32),
    /// Data whose buffer could not be had, with this result code.
    NoBuffer(i32),
    /// A unit, and its output type where it tells one.
    Unit { kind: Option<i64>, data: Vec<u8> },
}

/// Outcome of one query for output.
pub enum DrainOutcome {
    Frame(EncodedFrame),
    NotReady,
    Eof,
}

/// How a poll goes on.
pub enum PollStep {
    Unit(EncodedFrame),
    Nothing,
    /// Sleep a little and query again.
    Wait,
}

/// A query's result code counts as "not ready yet".
pub open spec fn is_not_ready(r: i32) -> bool {
    r == AMF_OK || r == AMF_REPEAT || r == AMF_NEED_MORE_INPUT
}

/// The output type marks a keyframe of the codec.
pub open spec fn is_key_kind(codec: Codec, kind: Option<i64>) -> bool {
    kind is Some && kind->0 <= by_codec(codec, 1i64, 1i64, 0i64)
}

impl FramePlan {
    /// The marking and forcing are those of `l`.
    pub open spec fn carries(self, l: LtrPlan) -> bool {
        &&& self.mark == l.mark
        &&& self.recovery_anchor == (l.force is Some)
        &&& self.force == match l.force {
            Some((slot, _)) => Some(slot),
            None => None,
        }
    }
}

impl AmfSession {
    /// No session.
    pub open spec fn none() -> AmfSession {
        AmfSession {
            live: false,
            bound_device: 0,
            next: 0,
            hdr_pushed: None,
            ir_active: false,
            ltr_active: false,
        }
    }
}

impl AmfEncoder {
    pub open spec fn wf(self) -> bool {
        &&& self.cfg.codec != Codec::PyroWave
        &&& self.ltr.wf()
        &&& self.ltr.distrust == Distrust::Forget
        &&& self.flow.frame_idx >= 0
        &&& !self.ses.live ==> self.ses.next == 0 && self.pending@.len() == 0 && self.ready@.len()
            == 0
    }

    /// The next frame will be a keyframe: one is asked for, or the session has none yet.
    pub open spec fn next_is_keyframe(self) -> bool {
        self.flow.force_kf || self.ses.next == 0
    }

    /// Both queues are as in `other`.
    pub open spec fn same_queues(self, other: AmfEncoder) -> bool {
        self.pending@ == other.pending@ && self.ready@ == other.ready@
    }

    /// Everything but the queues is as in `other`.
    pub open spec fn same_state(self, other: AmfEncoder) -> bool {
        &&& self.cfg == other.cfg
        &&& self.ses == other.ses
        &&& self.flow == other.flow
        &&& self.ltr == other.ltr
    }

    /// Why an encoder may not open.
    pub open spec fn open_refusal(
        runtime_ok: bool,
        av1_probed: bool,
        codec: Codec,
        format: PixelFormat,
    ) -> Option<AmfError> {
        let ten_bit = format_is_ten_bit(format);
        if !runtime_ok {
            Some(AmfError::Unavailable)
        } else if codec == Codec::Av1 && !av1_probed {
            Some(AmfError::Av1Declined)
        } else if format != input_format(ten_bit) {
            Some(AmfError::FormatMismatch { expected: input_format(ten_bit), delivered: format })
        } else if ten_bit && codec == Codec::H264 {
            Some(AmfError::TenBitH264)
        } else {
            None
        }
    }

    /// Creates the encoder. The sample depth follows the delivered pixels, whatever was negotiated,
    /// and 4:4:4 is encoded as 4:2:0. The session opens with the first frame.
    pub fn open(
        runtime_ok: bool,
        av1_probed: bool,
        codec: Codec,
        format: PixelFormat,
        width: u32,
        height: u32,
        fps: u32,
        bitrate_bps: u64,
        _bit_depth: u8,
        _chroma: ChromaFormat,
        mark_interval: i64,
        test_force_at: Option<i64>,
    ) -> (r: Result<AmfEncoder, AmfError>)
        requires
            codec != Codec::PyroWave,
            mark_interval >= 1,
        ensures
            match Self::open_refusal(runtime_ok, av1_probed, codec, format) {
                Some(e) => r is Err && r->Err_0 == e,
                None => r is Ok && {
                    let enc = r->Ok_0;
                    &&& enc.wf()
                    &&& enc.cfg == (AmfConfig {
                        codec,
                        width,
                        height,
                        fps,
                        bitrate_bps,
                        ten_bit: format_is_ten_bit(format),
                    })
                    &&& enc.ses == AmfSession::none()
                    &&& enc.flow == (FlowState {
                        frame_idx: 0,
                        force_kf: false,
                        hdr_meta: None,
                        test_force_at,
                        resets_without_output: 0,
                    })
                    &&& enc.ltr.is_cleared()
                    &&& enc.ltr.mark_interval == mark_interval
                },
            },
    {
        if !runtime_ok {
            return Err(AmfError::Unavailable);
        }
        if codec == Codec::Av1 && !av1_probed {
            return Err(AmfError::Av1Declined);
        }
        let ten_bit = is_10bit_format(format);
        let expected = if ten_bit {
            PixelFormat::P010
        } else {
            PixelFormat::Nv12
        };
        if format != expected {
            return Err(AmfError::FormatMismatch { expected, delivered: format });
        }
        if ten_bit && codec == Codec::H264 {
            return Err(AmfError::TenBitH264);
        }
        Ok(
            AmfEncoder {
                cfg: AmfConfig { codec, width, height, fps, bitrate_bps, ten_bit },
                ses: AmfSession {
                    live: false,
                    bound_device: 0,
                    next: 0,
                    hdr_pushed: None,
                    ir_active: false,
                    ltr_active: false,
                },
                flow: FlowState {
                    frame_idx: 0,
                    force_kf: false,
                    hdr_meta: None,
                    test_force_at,
                    resets_without_output: 0,
                },
                ltr: LtrSlots::new(mark_interval, Distrust::Forget),
                pending: VecDeque::new(),
                ready: VecDeque::new(),
            },
        )
    }

    /// Whether long-term references are worth asking for: the codecs that have them, unless switched
    /// off.
    pub fn ltr_wanted(&self, disabled: bool) -> (r: bool)
        ensures
            r == (!disabled && (self.cfg.codec == Codec::H264 || self.cfg.codec == Codec::H265)),
    {
        let has_ltr = match self.cfg.codec {
            Codec::H264 | Codec::H265 => true,
            _ => false,
        };
        !disabled && has_ltr
    }

    /// Inputs of the static configuration.
    pub fn static_inputs(
        &self,
        usage: i64,
        vbv_bits: i64,
        ltr_disabled: bool,
        wave: Option<u32>,
    ) -> (i: StaticInputs)
        ensures
            i.codec == self.cfg.codec,
            i.width == self.cfg.width,
            i.height == self.cfg.height,
            i.fps == self.cfg.fps,
            i.bitrate_bps == self.cfg.bitrate_bps,
            i.ten_bit == self.cfg.ten_bit,
            i.usage == usage,
            i.vbv_bits == vbv_bits,
            i.ltr_wanted == (!ltr_disabled && (self.cfg.codec == Codec::H264 || self.cfg.codec
                == Codec::H265)),
            i.wave == wave,
    {
        StaticInputs {
            codec: self.cfg.codec,
            width: self.cfg.width,
            height: self.cfg.height,
            fps: self.cfg.fps,
            bitrate_bps: self.cfg.bitrate_bps,
            ten_bit: self.cfg.ten_bit,
            usage,
            vbv_bits,
            ltr_wanted: self.ltr_wanted(ltr_disabled),
            wave,
        }
    }

    /// Refuses a frame that does not fit the encoder.
    pub fn check_frame(&self, width: u32, height: u32, payload: PayloadKind, format: PixelFormat) -> (r:
        Result<(), InputError>)
        ensures
            r == match input_refusal(
                (self.cfg.width, self.cfg.height),
                self.cfg.ten_bit,
                (width, height),
                payload,
                format,
            ) {
                Some(e) => Err::<(), InputError>(e),
                None => Ok::<(), InputError>(()),
            },
    {
        check_input(
            (self.cfg.width, self.cfg.height),
            self.cfg.ten_bit,
            (width, height),
            payload,
            format,
        )
    }

    /// What [`Self::ensure_inner`] does to the encoder.
    pub open spec fn rebinds(self, device: u64, build: bool, after: Self) -> bool {
        &&& after.wf()
        &&& build == !(self.ses.live && self.ses.bound_device == device)
        &&& !build ==> after.same_state(self) && after.same_queues(self)
        &&& build ==> {
            &&& after.cfg == self.cfg
            &&& after.flow == self.flow
            &&& after.ltr == self.ltr
            &&& after.ses == (AmfSession {
                live: false,
                bound_device: device,
                next: 0,
                hdr_pushed: None,
                ..self.ses
            })
            &&& after.pending@.len() == 0
            &&& after.ready@.len() == 0
            &&& after.next_is_keyframe()
        }
    }

    /// Drops a session on another device than the frame's. Returns whether one has to be built; until
    /// that succeeds there is none.
    pub fn ensure_inner(&mut self, device: u64) -> (build: bool)
        requires
            old(self).wf(),
        ensures
            old(self).rebinds(device, build, *final(self)),
    {
        let ses = self.ses;
        if ses.live && ses.bound_device == device {
            return false;
        }
        self.pending.clear();
        self.ready.clear();
        self.ses = AmfSession { live: false, bound_device: device, next: 0, hdr_pushed: None, ..ses };
        true
    }

    /// What [`Self::component_initialised`] does to the encoder.
    pub open spec fn adopts(self, ir_active: bool, ltr_active: bool, after: Self) -> bool {
        &&& after.wf()
        &&& after.cfg == self.cfg
        &&& after.flow == self.flow
        &&& after.ses == (AmfSession { ir_active, ltr_active, ..self.ses })
        &&& ltr_active ==> after.ltr.is_cleared() && after.ltr.same_policy(self.ltr)
        &&& !ltr_active ==> after.ltr == self.ltr
        &&& after.same_queues(self)
    }

    /// Adopts the recovery features that a new component was initialised with. They stay, whether or
    /// not its session comes to life.
    pub fn component_initialised(&mut self, ir_active: bool, ltr_active: bool)
        requires
            old(self).wf(),
            !old(self).ses.live,
        ensures
            old(self).adopts(ir_active, ltr_active, *final(self)),
    {
        let ses = self.ses;
        self.ses = AmfSession { ir_active, ltr_active, ..ses };
        if ltr_active {
            self.ltr.clear();
        }
    }

    /// What [`Self::session_built`] does to the encoder.
    pub open spec fn goes_live(self, after: Self) -> bool {
        &&& after.wf()
        &&& after.cfg == self.cfg
        &&& after.flow == self.flow
        &&& after.ses == (AmfSession { live: true, ..self.ses })
        &&& after.ltr == self.ltr
        &&& after.same_queues(self)
    }

    /// Brings the session to life, once the component has its textures.
    pub fn session_built(&mut self)
        requires
            old(self).wf(),
            !old(self).ses.live,
        ensures
            old(self).goes_live(*final(self)),
    {
        let ses = self.ses;
        self.ses = AmfSession { live: true, ..ses };
    }

    /// What [`Self::plan_frame`] decides, and does to the encoder.
    pub open spec fn plans_frame(self, p: FramePlan, after: Self) -> bool {
        &&& after.wf()
        &&& after.cfg == self.cfg
        &&& after.ses == self.ses
        &&& after.flow == (FlowState {
            frame_idx: (self.flow.frame_idx + 1) as i64,
            force_kf: false,
            ..self.flow
        })
        &&& after.same_queues(self)
        &&& p.forced == self.next_is_keyframe()
        &&& p.pts_100ns == self.flow.frame_idx * 10_000_000 / (at_least_one(
            self.cfg.fps,
        ) as int)
        &&& !self.ses.ltr_active ==> p.mark is None && p.force is None && !p.recovery_anchor
            && after.ltr == self.ltr
        &&& self.ses.ltr_active ==> exists|l: LtrPlan|
            p.carries(l) && #[trigger] self.ltr.plans(
                self.flow.frame_idx,
                p.forced,
                self.flow.test_force_at,
                l,
                after.ltr,
            )
        &&& p.mark is Some ==> p.mark->0 < 2 && p.force is None
        &&& p.force is Some ==> p.force->0 < 2
    }

    /// Decides type, marking and forcing of the next frame. The first frame of a session is always a
    /// keyframe.
    pub fn plan_frame(&mut self) -> (p: FramePlan)
        requires
            old(self).wf(),
            old(self).ses.live,
            old(self).flow.frame_idx * 10_000_000 <= i64::MAX,
        ensures
            old(self).plans_frame(p, *final(self)),
    {
        let flow = self.flow;
        let opening = self.ses.next == 0;
        let forced = flow.force_kf || opening;
        let fps: i64 = if self.cfg.fps == 0 {
            1
        } else {
            self.cfg.fps as i64
        };
        let pts_100ns: i64 = flow.frame_idx * 10_000_000 / fps;
        self.flow = FlowState { frame_idx: flow.frame_idx + 1, force_kf: false, ..flow };
        if !self.ses.ltr_active {
            return FramePlan {
                pts_100ns,
                forced,
                mark: None,
                force: None,
                recovery_anchor: false,
            };
        }
        let l = self.ltr.plan_frame(flow.frame_idx, forced, flow.test_force_at);
        let force: Option<usize> = match l.force {
            Some((s, _)) => Some(s),
            None => None,
        };
        let p = FramePlan { pts_100ns, forced, mark: l.mark, force, recovery_anchor: force.is_some() };
        assert(p.carries(l));
        assert(old(self).ltr.plans(flow.frame_idx, p.forced, flow.test_force_at, l, self.ltr));
        p
    }

    /// What [`Self::take_hdr_update`] hands out, and does to the encoder.
    pub open spec fn updates_hdr(self, push: Option<HdrMeta>, after: Self) -> bool {
        &&& after.wf()
        &&& after.cfg == self.cfg
        &&& after.flow == self.flow
        &&& after.ltr == self.ltr
        &&& after.same_queues(self)
        &&& ({
            let stale = self.cfg.codec != Codec::H264 && self.cfg.ten_bit && !same_meta(
                self.ses.hdr_pushed,
                self.flow.hdr_meta,
            );
            &&& push == if stale {
                self.flow.hdr_meta
            } else {
                None
            }
            &&& after.ses == if stale {
                AmfSession { hdr_pushed: self.flow.hdr_meta, ..self.ses }
            } else {
                self.ses
            }
        })
    }

    /// Hands out HDR metadata that the component does not have yet.
    pub fn take_hdr_update(&mut self) -> (push: Option<HdrMeta>)
        requires
            old(self).wf(),
        ensures
            old(self).updates_hdr(push, *final(self)),
    {
        let ses = self.ses;
        let meta = self.flow.hdr_meta;
        if self.cfg.codec != Codec::H264 && self.cfg.ten_bit && !meta_equals(&ses.hdr_pushed, &meta) {
            self.ses = AmfSession { hdr_pushed: meta, ..ses };
            meta
        } else {
            None
        }
    }

    /// Another frame in flight would leave no texture of the ring free.
    pub open spec fn ring_is_full(self) -> bool {
        self.pending@.len() >= RING - 1
    }

    /// Whether another frame in flight would leave no texture of the ring free.
    pub fn ring_full(&self) -> (r: bool)
        ensures
            r == self.ring_is_full(),
    {
        self.pending.len() >= RING - 1
    }

    /// What [`Self::drain_one_output`] returns, and does to the encoder.
    pub open spec fn drains(
        self,
        event: OutputEvent,
        r: Result<DrainOutcome, AmfError>,
        after: Self,
    ) -> bool {
        &&& after.wf()
        &&& after.same_state(self)
        &&& after.ready@ == self.ready@
        &&& match event {
            OutputEvent::Empty(code) => {
                &&& after.pending@ == self.pending@
                &&& if code == AMF_EOF {
                    r is Ok && r->Ok_0 is Eof
                } else if is_not_ready(code) {
                    r is Ok && r->Ok_0 is NotReady
                } else {
                    r is Err && r->Err_0 == AmfError::Call(code)
                }
            },
            OutputEvent::NoBuffer(code) => after.pending@ == self.pending@ && r is Err
                && r->Err_0 == AmfError::Call(code),
            OutputEvent::Unit { kind, data } => if data@.len() == 0 {
                after.pending@ == self.pending@ && r is Err && r->Err_0
                    == AmfError::EmptyOutput
            } else {
                &&& after.pending@ == without_oldest(self.pending@)
                &&& r is Ok
                &&& r->Ok_0 is Frame
                &&& unit_of(
                    r->Ok_0->Frame_0,
                    oldest(self.pending@),
                    data@,
                    is_key_kind(self.cfg.codec, kind),
                )
            },
        }
    }

    /// Takes in what one query for output brought. A unit is paired with the oldest frame in flight,
    /// since units come in submit order.
    pub fn drain_one_output(&mut self, event: OutputEvent) -> (r: Result<DrainOutcome, AmfError>)
        requires
            old(self).wf(),
        ensures
            old(self).drains(event, r, *final(self)),
    {
        match event {
            OutputEvent::Empty(code) => if code == AMF_EOF {
                Ok(DrainOutcome::Eof)
            } else if code == AMF_OK || code == AMF_REPEAT || code == AMF_NEED_MORE_INPUT {
                Ok(DrainOutcome::NotReady)
            } else {
                Err(AmfError::Call(code))
            },
            OutputEvent::NoBuffer(code) => Err(AmfError::Call(code)),
            OutputEvent::Unit { kind, data } => {
                if data.len() == 0 {
                    return Err(AmfError::EmptyOutput);
                }
                let key_max: i64 = match self.cfg.codec {
                    Codec::H264 | Codec::H265 => 1,
                    _ => 0,
                };
                let key = match kind {
                    Some(t) => t <= key_max,
                    None => false,
                };
                let frame = match self.pending.pop_front() {
                    Some(f) => {
                        assert(self.pending@ =~= old(self).pending@.drop_first());
                        f
                    },
                    None => PendingUnit { pts_ns: 0, forced: false, recovery_anchor: false },
                };
                Ok(
                    DrainOutcome::Frame(
                        EncodedFrame {
                            data,
                            pts_ns: frame.pts_ns,
                            keyframe: key || frame.forced,
                            recovery_anchor: frame.recovery_anchor,
                            chunk_aligned: false,
                        },
                    ),
                )
            },
        }
    }

    /// What [`Self::make_room`] returns, and does to the encoder.
    pub open spec fn makes_room(
        self,
        event: OutputEvent,
        budget_spent: bool,
        r: Result<DrainStep, AmfError>,
        after: Self,
    ) -> bool {
        &&& after.wf()
        &&& after.cfg == self.cfg
        &&& after.ses == self.ses
        &&& after.ltr == self.ltr
        &&& match event {
            OutputEvent::Unit { kind, data } => if data@.len() == 0 {
                &&& r is Err && r->Err_0 == AmfError::EmptyOutput
                &&& after.flow == self.flow
                &&& after.same_queues(self)
            } else {
                &&& r is Ok && r->Ok_0 == DrainStep::Again
                &&& after.flow == self.flow
                &&& after.pending@ == without_oldest(self.pending@)
                &&& after.ready@.len() == self.ready@.len() + 1
                &&& after.ready@.drop_last() == self.ready@
                &&& unit_of(
                    after.ready@.last(),
                    oldest(self.pending@),
                    data@,
                    is_key_kind(self.cfg.codec, kind),
                )
            },
            OutputEvent::Empty(code) => {
                &&& after.same_queues(self)
                &&& if code == AMF_EOF {
                    r is Ok && r->Ok_0 == DrainStep::Ended && after.flow == self.flow
                } else if !is_not_ready(code) {
                    r is Err && r->Err_0 == AmfError::Call(code) && after.flow == self.flow
                } else if budget_spent {
                    &&& r is Err && r->Err_0 == (AmfError::Wedged {
                        in_flight: self.pending@.len() as usize,
                    })
                    &&& after.flow == (FlowState { force_kf: true, ..self.flow })
                } else {
                    r is Ok && r->Ok_0 == DrainStep::Wait && after.flow == self.flow
                }
            },
            OutputEvent::NoBuffer(code) => {
                &&& r is Err && r->Err_0 == AmfError::Call(code)
                &&& after.flow == self.flow
                &&& after.same_queues(self)
            },
        }
    }

    /// One turn of the wait for a free texture: a unit is kept for the next poll; a wait that outlasts
    /// its budget is a wedge, after which the next frame is a keyframe.
    pub fn make_room(&mut self, event: OutputEvent, budget_spent: bool) -> (r: Result<
        DrainStep,
        AmfError,
    >)
        requires
            old(self).wf(),
            old(self).ses.live,
        ensures
            old(self).makes_room(event, budget_spent, r, *final(self)),
    {
        match self.drain_one_output(event) {
            Err(e) => Err(e),
            Ok(DrainOutcome::Frame(au)) => {
                self.ready.push_back(au);
                assert(self.ready@.drop_last() =~= old(self).ready@);
                Ok(DrainStep::Again)
            },
            Ok(DrainOutcome::Eof) => Ok(DrainStep::Ended),
            Ok(DrainOutcome::NotReady) => {
                if budget_spent {
                    let flow = self.flow;
                    self.flow = FlowState { force_kf: true, ..flow };
                    return Err(AmfError::Wedged { in_flight: self.pending.len() });
                }
                Ok(DrainStep::Wait)
            },
        }
    }

    /// What [`Self::take_slot`] does to the encoder.
    pub open spec fn takes_slot(self, slot: usize, after: Self) -> bool {
        &&& after.wf()
        &&& slot == self.ses.next % RING
        &&& after.cfg == self.cfg
        &&& after.ses == (AmfSession { next: (self.ses.next + 1) as usize, ..self.ses })
        &&& after.flow == self.flow
        &&& after.ltr == self.ltr
        &&& after.same_queues(self)
    }

    /// Takes the next texture of the ring.
    pub fn take_slot(&mut self) -> (slot: usize)
        requires
            old(self).wf(),
            old(self).ses.live,
            old(self).ses.next < usize::MAX,
        ensures
            old(self).takes_slot(slot, *final(self)),
    {
        let ses = self.ses;
        self.ses = AmfSession { next: ses.next + 1, ..ses };
        ses.next % RING
    }

    /// Properties set on the frame itself: type and headers of a keyframe, and the mark or the forced
    /// reference. All of them are best effort.
    pub fn surface_props(&self, p: &CodecProps, plan: &FramePlan) -> (steps: Vec<PropStep>)
        requires
            plan.force matches Some(s) ==> s < 2,
        ensures
            models(steps@) =~= frame_steps(self.cfg.codec, *p, *plan),
    {
        let mut steps: Vec<PropStep> = Vec::new();
        if plan.forced {
            steps.push(optional_step(p.force_picture_type, AmfVariant::from_i64(p.force_idr_value)));
            match self.cfg.codec {
                Codec::H264 => {
                    steps.push(optional_step("InsertSPS", AmfVariant::from_bool(true)));
                    steps.push(optional_step("InsertPPS", AmfVariant::from_bool(true)));
                },
                Codec::H265 => {
                    steps.push(optional_step("HevcInsertHeader", AmfVariant::from_bool(true)));
                },
                _ => {},
            }
        }
        if let Some(ltr) = p.ltr {
            if let Some(slot) = plan.mark {
                steps.push(optional_step(ltr.mark_ltr_index, AmfVariant::from_i64(slot as i64)));
            }
            if let Some(slot) = plan.force {
                let bit: i64 = if slot == 0 {
                    1
                } else {
                    2
                };
                steps.push(optional_step(ltr.force_ltr_bitfield, AmfVariant::from_i64(bit)));
            }
        }
        steps
    }

    /// What [`Self::finish_submit`] returns, and does to the encoder.
    pub open spec fn settles(
        self,
        r: i32,
        plan: FramePlan,
        pts_ns: u64,
        x: Result<(), AmfError>,
        after: Self,
    ) -> bool {
        &&& after.wf()
        &&& after.cfg == self.cfg
        &&& after.ses == self.ses
        &&& after.ltr == self.ltr
        &&& after.ready@ == self.ready@
        &&& if r == AMF_OK || r == AMF_NEED_MORE_INPUT {
            &&& x is Ok
            &&& after.flow == self.flow
            &&& after.pending@ == self.pending@.push(
                PendingUnit {
                    pts_ns,
                    forced: plan.forced,
                    recovery_anchor: plan.recovery_anchor,
                },
            )
        } else {
            &&& x is Err
            &&& x->Err_0 == if r == AMF_INPUT_FULL {
                AmfError::InputFull
            } else {
                AmfError::Call(r)
            }
            &&& after.flow == (FlowState { force_kf: true, ..self.flow })
            &&& after.next_is_keyframe()
            &&& after.pending@ == self.pending@
        }
    }

    /// Settles a submit by the runtime's last answer. A frame it took is in flight; after a refusal
    /// the next frame is a keyframe.
    pub fn finish_submit(&mut self, r: i32, plan: &FramePlan, pts_ns: u64) -> (x: Result<(), AmfError>)
        requires
            old(self).wf(),
            old(self).ses.live,
        ensures
            old(self).settles(r, *plan, pts_ns, x, *final(self)),
    {
        if r == AMF_OK || r == AMF_NEED_MORE_INPUT {
            self.pending.push_back(
                PendingUnit {
                    pts_ns,
                    forced: plan.forced,
                    recovery_anchor: plan.recovery_anchor,
                },
            );
            return Ok(());
        }
        let flow = self.flow;
        self.flow = FlowState { force_kf: true, ..flow };
        if r == AMF_INPUT_FULL {
            Err(AmfError::InputFull)
        } else {
            Err(AmfError::Call(r))
        }
    }

    /// Pins the next frame's number to its wire index, so that marks and loss reports name the same
    /// frames.
    pub fn set_wire_index(&mut self, wire_index: u32)
        requires
            old(self).wf(),
        ensures
            final(self).wf(),
            final(self).cfg == old(self).cfg,
            final(self).ses == old(self).ses,
            final(self).ltr == old(self).ltr,
            final(self).flow == (FlowState { frame_idx: wire_index as i64, ..old(self).flow }),
            final(self).same_queues(*old(self)),
    {
        let flow = self.flow;
        self.flow = FlowState { frame_idx: wire_index as i64, ..flow };
    }

    /// Forces the next frame to be a keyframe.
    pub fn request_keyframe(&mut self)
        requires
            old(self).wf(),
        ensures
            final(self).wf(),
            final(self).cfg == old(self).cfg,
            final(self).ses == old(self).ses,
            final(self).ltr == old(self).ltr,
            final(self).flow == (FlowState { force_kf: true, ..old(self).flow }),
            final(self).same_queues(*old(self)),
    {
        let flow = self.flow;
        self.flow = FlowState { force_kf: true, ..flow };
    }

    /// Takes the HDR grade of the source.
    pub fn set_hdr_meta(&mut self, meta: Option<HdrMeta>)
        requires
            old(self).wf(),
        ensures
            final(self).wf(),
            final(self).cfg == old(self).cfg,
            final(self).ses == old(self).ses,
            final(self).ltr == old(self).ltr,
            final(self).flow == (FlowState { hdr_meta: meta, ..old(self).flow }),
            final(self).same_queues(*old(self)),
    {
        let flow = self.flow;
        self.flow = FlowState { hdr_meta: meta, ..flow };
    }

    /// Answers the loss of the client frames `first` to `last` by forcing the next frame onto the
    /// newest reference marked before the loss. `false` means that the caller recovers with a keyframe.
    pub fn invalidate_ref_frames(&mut self, first: i64, last: i64) -> (answered: bool)
        requires
            old(self).wf(),
        ensures
            final(self).wf(),
            final(self).cfg == old(self).cfg,
            final(self).ses == old(self).ses,
            final(self).flow == old(self).flow,
            final(self).same_queues(*old(self)),
            ({
                let applies = old(self).ses.ltr_active && 0 <= first <= last;
                &&& answered == (applies && old(self).ltr.anchor_slot(first) is Some)
                &&& applies ==> old(self).ltr.is_invalidated(first, final(self).ltr)
                &&& !applies ==> final(self).ltr == old(self).ltr
            }),
    {
        if !self.ses.ltr_active || first < 0 || first > last {
            return false;
        }
        self.ltr.invalidate(first)
    }

    pub fn caps(&self) -> (c: EncoderCaps)
        ensures
            c == (EncoderCaps {
                blends_cursor: false,
                supports_rfi: self.ses.ltr_active,
                chroma_444: false,
                intra_refresh: self.ses.ir_active,
                intra_refresh_recovery: false,
                intra_refresh_period: 0,
            }),
    {
        EncoderCaps {
            blends_cursor: false,
            supports_rfi: self.ses.ltr_active,
            chroma_444: false,
            intra_refresh: self.ses.ir_active,
            intra_refresh_recovery: false,
            intra_refresh_period: 0,
        }
    }

    /// How long a poll may wait for output, in microseconds: three quarters of a frame interval, at
    /// most twelve milliseconds.
    pub fn poll_budget_us(&self) -> (us: u64)
        ensures
            us == ({
                let share = 750_000int / (at_least_one(self.cfg.fps) as int);
                if share < 12_000 {
                    share
                } else {
                    12_000
                }
            }),
    {
        let fps: u64 = if self.cfg.fps == 0 {
            1
        } else {
            self.cfg.fps as u64
        };
        let share: u64 = 750_000 / fps;
        if share < 12_000 {
            share
        } else {
            12_000
        }
    }

    /// Begins a poll. Units retrieved earlier come first.
    pub fn poll(&mut self) -> (b: PollBegin)
        requires
            old(self).wf(),
        ensures
            final(self).wf(),
            final(self).cfg == old(self).cfg,
            final(self).ses == old(self).ses,
            final(self).ltr == old(self).ltr,
            final(self).pending@ == old(self).pending@,
            !old(self).ses.live ==> b is Idle && final(self).ready@ == old(self).ready@
                && final(self).flow == old(self).flow,
            old(self).ses.live && old(self).ready@.len() > 0 ==> {
                &&& b == PollBegin::Ready(old(self).ready@[0])
                &&& final(self).ready@ == old(self).ready@.drop_first()
                &&& final(self).flow == (FlowState { resets_without_output: 0, ..old(self).flow })
            },
            old(self).ses.live && old(self).ready@.len() == 0 ==> b is Query && final(self).ready@
                == old(self).ready@ && final(self).flow == old(self).flow,
    {
        if !self.ses.live {
            return PollBegin::Idle;
        }
        match self.ready.pop_front() {
            Some(au) => {
                assert(self.ready@ =~= old(self).ready@.drop_first());
                let flow = self.flow;
                self.flow = FlowState { resets_without_output: 0, ..flow };
                PollBegin::Ready(au)
            },
            None => PollBegin::Query,
        }
    }

    /// One turn of a poll. Waiting ends with the budget or when nothing is owed; after the end of the
    /// stream nothing is owed any more.
    pub fn poll_step(&mut self, event: OutputEvent, budget_spent: bool) -> (r: Result<PollStep, AmfError>)
        requires
            old(self).wf(),
            old(self).ses.live,
        ensures
            final(self).wf(),
            final(self).cfg == old(self).cfg,
            final(self).ses == old(self).ses,
            final(self).ltr == old(self).ltr,
            final(self).ready@ == old(self).ready@,
            match event {
                OutputEvent::Unit { kind, data } => if data@.len() == 0 {
                    &&& r is Err && r->Err_0 == AmfError::EmptyOutput
                    &&& final(self).flow == old(self).flow
                    &&& final(self).pending@ == old(self).pending@
                } else {
                    &&& r is Ok
                    &&& r->Ok_0 is Unit
                    &&& unit_of(
                        r->Ok_0->Unit_0,
                        oldest(old(self).pending@),
                        data@,
                        is_key_kind(old(self).cfg.codec, kind),
                    )
                    &&& final(self).flow == (FlowState { resets_without_output: 0, ..old(self).flow })
                    &&& final(self).pending@ == without_oldest(old(self).pending@)
                },
                OutputEvent::Empty(code) => {
                    &&& final(self).flow == old(self).flow
                    &&& if code == AMF_EOF {
                        r is Ok && r->Ok_0 is Nothing && final(self).pending@.len() == 0
                    } else if !is_not_ready(code) {
                        r is Err && r->Err_0 == AmfError::Call(code) && final(self).pending@ == old(
                            self,
                        ).pending@
                    } else if old(self).pending@.len() == 0 || budget_spent {
                        r is Ok && r->Ok_0 is Nothing && final(self).pending@ == old(self).pending@
                    } else {
                        r is Ok && r->Ok_0 is Wait && final(self).pending@ == old(self).pending@
                    }
                },
                OutputEvent::NoBuffer(code) => {
                    &&& r is Err && r->Err_0 == AmfError::Call(code)
                    &&& final(self).flow == old(self).flow
                    &&& final(self).pending@ == old(self).pending@
                },
            },
    {
        match self.drain_one_output(event) {
            Err(e) => Err(e),
            Ok(DrainOutcome::Frame(au)) => {
                let flow = self.flow;
                self.flow = FlowState { resets_without_output: 0, ..flow };
                Ok(PollStep::Unit(au))
            },
            Ok(DrainOutcome::Eof) => {
                self.pending.clear();
                Ok(PollStep::Nothing)
            },
            Ok(DrainOutcome::NotReady) => {
                if self.pending.len() == 0 || budget_spent {
                    Ok(PollStep::Nothing)
                } else {
                    Ok(PollStep::Wait)
                }
            },
        }
    }

    /// Begins the recovery from a stall. The frames in flight are given up and the next frame is a
    /// keyframe. A second reset without a unit in between drops the whole session, since restarting
    /// its component did not help.
    pub fn reset(&mut self) -> (p: ResetPlan)
        requires
            old(self).wf(),
        ensures
            final(self).wf(),
            final(self).cfg == old(self).cfg,
            final(self).ltr == old(self).ltr,
            ({
                let count = reset_count(old(self).flow.resets_without_output);
                &&& final(self).flow == (FlowState {
                    force_kf: true,
                    resets_without_output: count,
                    ..old(self).flow
                })
                &&& p == if !old(self).ses.live {
                    ResetPlan::Idle
                } else if count >= 2 {
                    ResetPlan::TornDown
                } else {
                    ResetPlan::Rebuild
                }
            }),
            final(self).pending@.len() == 0,
            final(self).ready@.len() == 0,
            final(self).next_is_keyframe(),
            final(self).ses == match p {
                ResetPlan::Idle => old(self).ses,
                ResetPlan::TornDown => AmfSession::none(),
                ResetPlan::Rebuild => AmfSession { hdr_pushed: None, ..old(self).ses },
            },
    {
        let flow = self.flow;
        let count: u32 = if flow.resets_without_output < 0xffff_ffff {
            flow.resets_without_output + 1
        } else {
            0xffff_ffff
        };
        self.flow = FlowState { force_kf: true, resets_without_output: count, ..flow };
        if !self.ses.live {
            return ResetPlan::Idle;
        }
        self.pending.clear();
        self.ready.clear();
        if count >= 2 {
            self.ses = AmfSession {
                live: false,
                bound_device: 0,
                next: 0,
                hdr_pushed: None,
                ir_active: false,
                ltr_active: false,
            };
            return ResetPlan::TornDown;
        }
        let ses = self.ses;
        self.ses = AmfSession { hdr_pushed: None, ..ses };
        ResetPlan::Rebuild
    }

    /// Ends a restart in place. `configured` holds the recovery features the component took, `None`
    /// where its configuration failed; a restart that failed drops the session.
    pub fn finish_rebuild(&mut self, configured: Option<(bool, bool)>, init_ok: bool) -> (rebuilt: bool)
        requires
            old(self).wf(),
            old(self).ses.live,
        ensures
            final(self).wf(),
            final(self).cfg == old(self).cfg,
            final(self).flow == old(self).flow,
            rebuilt == (configured is Some && init_ok),
            configured is Some ==> final(self).ltr.is_cleared() && final(self).ltr.same_policy(
                old(self).ltr,
            ),
            configured is None ==> final(self).ltr == old(self).ltr,
            rebuilt ==> final(self).ses == (AmfSession {
                ir_active: (configured->0).0,
                ltr_active: (configured->0).1,
                ..old(self).ses
            }) && final(self).same_queues(*old(self)),
            !rebuilt ==> final(self).ses == AmfSession::none() && final(self).pending@.len() == 0
                && final(self).ready@.len() == 0,
    {
        let ses = self.ses;
        if let Some((ir_active, ltr_active)) = configured {
            self.ltr.clear();
            if init_ok {
                self.ses = AmfSession { ir_active, ltr_active, ..ses };
                return true;
            }
        }
        self.pending.clear();
        self.ready.clear();
        self.ses = AmfSession {
            live: false,
            bound_device: 0,
            next: 0,
            hdr_pushed: None,
            ir_active: false,
            ltr_active: false,
        };
        false
    }

    /// Begins a bitrate change. Without a session the rate is stored; else the rate to set on the
    /// component is returned.
    pub fn reconfigure_bitrate(&mut self, bps: u64) -> (apply: Option<i64>)
        requires
            old(self).wf(),
        ensures
            final(self).wf(),
            final(self).ses == old(self).ses,
            final(self).flow == old(self).flow,
            final(self).ltr == old(self).ltr,
            final(self).same_queues(*old(self)),
            old(self).ses.live ==> apply == Some(capped_bps(bps)) && final(self).cfg == old(self).cfg,
            !old(self).ses.live ==> apply is None && final(self).cfg == (AmfConfig {
                bitrate_bps: bps,
                ..old(self).cfg
            }),
    {
        if self.ses.live {
            return Some(cap_bps(bps));
        }
        let cfg = self.cfg;
        self.cfg = AmfConfig { bitrate_bps: bps, ..cfg };
        None
    }

    /// Ends a bitrate change by whether both rates were taken. `false` means that the caller rebuilds.
    pub fn finish_reconfigure(&mut self, bps: u64, target_ok: bool, peak_ok: bool) -> (r: bool)
        requires
            old(self).wf(),
        ensures
            r == (target_ok && peak_ok),
            final(self).wf(),
            final(self).ses == old(self).ses,
            final(self).flow == old(self).flow,
            final(self).ltr == old(self).ltr,
            final(self).same_queues(*old(self)),
            final(self).cfg == if r {
                AmfConfig { bitrate_bps: bps, ..old(self).cfg }
            } else {
                old(self).cfg
            },
    {
        if !(target_ok && peak_ok) {
            return false;
        }
        let cfg = self.cfg;
        self.cfg = AmfConfig { bitrate_bps: bps, ..cfg };
        true
    }
}

/// A best-effort property.
pub open spec fn optional(name: Seq<char>, value: VariantModel) -> StepModel {
    StepModel { name, value, required: false, role: Role::Plain }
}

fn optional_step(name: &'static str, value: AmfVariant) -> (s: PropStep)
    ensures
        s@ == optional(name@, value@),
{
    PropStep { name, value, required: false, role: Role::Plain }
}

/// Type and headers of a forced keyframe.
pub open spec fn keyframe_steps(codec: Codec, p: CodecProps) -> Seq<StepModel> {
    let kind = seq![
        optional(p.force_picture_type@, VariantModel::of_int(p.force_idr_value)),
    ];
    match codec {
        Codec::H264 => kind + seq![
            optional("InsertSPS"@, VariantModel::of_bool(true)),
            optional("InsertPPS"@, VariantModel::of_bool(true)),
        ],
        Codec::H265 => kind + seq![optional("HevcInsertHeader"@, VariantModel::of_bool(true))],
        _ => kind,
    }
}

/// The properties of a frame.
pub open spec fn frame_steps(codec: Codec, p: CodecProps, plan: FramePlan) -> Seq<StepModel> {
    (if plan.forced {
        keyframe_steps(codec, p)
    } else {
        Seq::empty()
    }) + (if p.ltr is Some && plan.mark is Some {
        seq![
            optional((p.ltr->0).mark_ltr_index@, VariantModel::of_int(plan.mark->0 as i64)),
        ]
    } else {
        Seq::empty()
    }) + if p.ltr is Some && plan.force is Some {
        seq![
            optional(
                (p.ltr->0).force_ltr_bitfield@,
                VariantModel::of_int(
                    if plan.force->0 == 0 {
                        1i64
                    } else {
                        2i64
                    },
                ),
            ),
        ]
    } else {
        Seq::empty()
    }
}

/// Results of the calls of a trial session, in their order. A call that returned no object counts as
/// failed.
pub struct ProbeTrail {
    pub runtime_ok: bool,
    pub create_context: i32,
    pub init_device: i32,
    pub create_component: i32,
    /// One result for each property of [`probe_props`].
    pub properties: Vec<i32>,
    pub init: i32,
}

/// The properties of a trial session: the usage preset, and the sample depth of a ten-bit one where
/// the codec has it.
pub open spec fn probe_steps(
    p: CodecProps,
    codec: Codec,
    ten_bit: bool,
    usage: i64,
) -> Seq<StepModel> {
    let preset = seq![crate::amf::props::must_int(p.usage@, usage)];
    if !ten_bit || codec == Codec::H264 {
        preset
    } else if codec == Codec::H265 {
        preset + seq![
            crate::amf::props::must_int("HevcProfile"@, crate::amf::props::HEVC_PROFILE_MAIN_10),
            crate::amf::props::must_int("HevcColorBitDepth"@, crate::amf::props::COLOR_BIT_DEPTH_10),
        ]
    } else {
        preset + seq![
            crate::amf::props::must_int("Av1ColorBitDepth"@, crate::amf::props::COLOR_BIT_DEPTH_10),
        ]
    }
}

/// Number of the properties of a trial session.
pub open spec fn probe_len(codec: Codec, ten_bit: bool) -> nat {
    if !ten_bit || codec == Codec::H264 {
        1
    } else if codec == Codec::H265 {
        3
    } else {
        2
    }
}

fn required_step(name: &'static str, v: i64) -> (s: PropStep)
    ensures
        s@ == crate::amf::props::must_int(name@, v),
{
    PropStep { name, value: AmfVariant::from_i64(v), required: true, role: Role::Plain }
}

/// Lists the properties of a trial session.
pub fn probe_props(codec: Codec, ten_bit: bool, usage: i64) -> (steps: Vec<PropStep>)
    requires
        codec != Codec::PyroWave,
    ensures
        exists|p: CodecProps| #[trigger]
            p.is_for(codec) && models(steps@) =~= probe_steps(p, codec, ten_bit, usage),
        steps@.len() == probe_len(codec, ten_bit),
{
    let p = codec_props(codec);
    let mut steps: Vec<PropStep> = Vec::new();
    steps.push(required_step(p.usage, usage));
    if ten_bit {
        match codec {
            Codec::H264 => {},
            Codec::H265 => {
                steps.push(
                    required_step("HevcProfile", crate::amf::props::HEVC_PROFILE_MAIN_10),
                );
                steps.push(
                    required_step("HevcColorBitDepth", crate::amf::props::COLOR_BIT_DEPTH_10),
                );
            },
            _ => {
                steps.push(
                    required_step("Av1ColorBitDepth", crate::amf::props::COLOR_BIT_DEPTH_10),
                );
            },
        }
    }
    assert(p.is_for(codec) && models(steps@) =~= probe_steps(p, codec, ten_bit, usage));
    steps
}

/// Every call of the trial session succeeded, one for each of its properties among them.
pub open spec fn probe_succeeded(codec: Codec, ten_bit: bool, trail: ProbeTrail) -> bool {
    &&& trail.runtime_ok
    &&& trail.create_context == AMF_OK
    &&& trail.init_device == AMF_OK
    &&& trail.create_component == AMF_OK
    &&& trail.properties@.len() == probe_len(codec, ten_bit)
    &&& forall|i: int| 0 <= i < trail.properties@.len() ==> trail.properties@[i] == AMF_OK
    &&& trail.init == AMF_OK
}

fn all_ok(results: &Vec<i32>) -> (r: bool)
    ensures
        r == forall|i: int| 0 <= i < results@.len() ==> results@[i] == AMF_OK,
{
    let mut i: usize = 0;
    while i < results.len()
        invariant
            i <= results@.len(),
            forall|j: int| 0 <= j < i ==> results@[j] == AMF_OK,
        decreases results@.len() - i,
    {
        if results[i] != AMF_OK {
            assert(results@[i as int] != AMF_OK);
            return false;
        }
        i = i + 1;
    }
    true
}

/// Judges a trial session. H.264 has no ten-bit mode to try.
pub fn probe_open_on(codec: Codec, ten_bit: bool, trail: &ProbeTrail) -> (r: bool)
    requires
        trail.runtime_ok ==> codec != Codec::PyroWave,
    ensures
        r == (probe_succeeded(codec, ten_bit, *trail) && (ten_bit ==> codec.is_ten_bit_codec())),
{
    let count: usize = match codec {
        Codec::H265 if ten_bit => 3,
        Codec::Av1 if ten_bit => 2,
        _ => 1,
    };
    let depth_ok = !ten_bit || codec.supports_10bit();
    trail.runtime_ok && trail.create_context == AMF_OK && trail.init_device == AMF_OK
        && trail.create_component == AMF_OK && trail.properties.len() == count && all_ok(
        &trail.properties,
    ) && depth_ok && trail.init == AMF_OK
}

/// Whether the adapter encodes the codec. `trail` is the trial session on the selected adapter, `None`
/// where it has no device.
pub fn probe_can_encode(codec: Codec, trail: Option<&ProbeTrail>) -> (r: bool)
    requires
        trail is Some && trail->0.runtime_ok ==> codec != Codec::PyroWave,
    ensures
        r == (trail is Some && probe_succeeded(codec, false, *trail->0)),
{
    match trail {
        Some(t) => probe_open_on(codec, false, t),
        None => false,
    }
}

/// Whether the adapter encodes the codec at ten bits. H.264 is always `false`.
pub fn probe_can_encode_10bit(codec: Codec, trail: Option<&ProbeTrail>) -> (r: bool)
    ensures
        r == (codec.is_ten_bit_codec() && trail is Some && probe_succeeded(codec, true, *trail->0)),
{
    if !codec.supports_10bit() {
        return false;
    }
    match trail {
        Some(t) => probe_open_on(codec, true, t),
        None => false,
    }
}

impl AmfEncoder {
    /// The frames in flight, copied at `turns`, are the latest of the first `taken` turns.
    pub open spec fn in_turn(self, turns: Seq<int>, taken: int) -> bool {
        &&& turns.len() == self.pending@.len()
        &&& forall|i: int|
            0 <= i < turns.len() ==> (#[trigger] turns[i]) == taken - self.pending@.len() + i
    }
}

impl AmfEncoder {
    /// Presentation times of the frames in flight.
    pub open spec fn flight_times(self) -> Seq<u64> {
        self.pending@.map_values(|u: PendingUnit| u.pts_ns)
    }

    /// Every frame the component took is delivered, waits in the queue, or is in flight.
    pub open spec fn accounts_for(self, submitted: Seq<u64>, delivered: Seq<u64>) -> bool {
        accounts(submitted, delivered, self.ready@, self.flight_times())
    }
}

/// Settling a submit adds the frame to those owed where the component took it, and leaves the account
/// as it is where not.
pub proof fn law_submit_keeps_the_account(
    before: AmfEncoder,
    code: i32,
    plan: FramePlan,
    pts_ns: u64,
    x: Result<(), AmfError>,
    after: AmfEncoder,
    submitted: Seq<u64>,
    delivered: Seq<u64>,
)
    requires
        before.accounts_for(submitted, delivered),
        before.settles(code, plan, pts_ns, x, after),
    ensures
        after.accounts_for(
            if x is Ok {
                submitted.push(pts_ns)
            } else {
                submitted
            },
            delivered,
        ),
{
    if x is Ok {
        lemma_submit_accounts(submitted, delivered, before.ready@, before.flight_times(), pts_ns);
        assert(after.flight_times() =~= before.flight_times().push(pts_ns));
    }
}

/// Whatever a wait for room brings, no frame is lost, doubled or moved. A unit needs a frame in flight
/// that it belongs to.
pub proof fn law_waiting_keeps_the_account(
    before: AmfEncoder,
    event: OutputEvent,
    budget_spent: bool,
    r: Result<DrainStep, AmfError>,
    after: AmfEncoder,
    submitted: Seq<u64>,
    delivered: Seq<u64>,
)
    requires
        before.accounts_for(submitted, delivered),
        before.makes_room(event, budget_spent, r, after),
        event is Unit ==> before.pending@.len() > 0,
    ensures
        after.accounts_for(submitted, delivered),
{
    if r is Ok && r->Ok_0 == DrainStep::Again {
        assert(before.flight_times()[0] == oldest(before.pending@).pts_ns);
        lemma_retrieve_accounts(
            submitted,
            delivered,
            before.ready@,
            before.flight_times(),
            after.ready@,
        );
        assert(after.flight_times() =~= before.flight_times().drop_first());
    }
}

/// A unit drained while none waits in the queue is that of the oldest frame owed, so units are
/// delivered in submit order, each with its own frame's time.
pub proof fn law_drained_unit_is_next(
    before: AmfEncoder,
    event: OutputEvent,
    r: Result<DrainOutcome, AmfError>,
    after: AmfEncoder,
    submitted: Seq<u64>,
    delivered: Seq<u64>,
)
    requires
        before.accounts_for(submitted, delivered),
        before.drains(event, r, after),
        before.ready@.len() == 0,
        before.pending@.len() > 0,
    ensures
        match r {
            Ok(DrainOutcome::Frame(au)) => submitted[delivered.len() as int] == au.pts_ns
                && after.accounts_for(submitted, delivered.push(au.pts_ns)),
            _ => after.accounts_for(submitted, delivered),
        },
{
    if let Ok(DrainOutcome::Frame(au)) = r {
        assert(before.flight_times()[0] == au.pts_ns);
        law_oldest_in_flight_is_next(submitted, delivered, before.ready@, before.flight_times());
        assert(after.flight_times() =~= before.flight_times().drop_first());
    }
}

/// A frame submitted at its turn joins the frames in flight in turn.
pub proof fn law_submit_keeps_turns(
    before: AmfEncoder,
    frame: PendingUnit,
    after: AmfEncoder,
    turns: Seq<int>,
    taken: int,
)
    requires
        before.in_turn(turns, taken),
        after.pending@ == before.pending@.push(frame),
    ensures
        after.in_turn(turns.push(taken), taken + 1),
{
}

/// Retrieving a unit leaves the other frames in turn.
pub proof fn law_retrieve_keeps_turns(
    before: AmfEncoder,
    after: AmfEncoder,
    turns: Seq<int>,
    taken: int,
)
    requires
        before.in_turn(turns, taken),
        before.pending@.len() > 0,
        after.pending@ == without_oldest(before.pending@),
    ensures
        after.in_turn(turns.drop_first(), taken),
{
    assert forall|i: int| 0 <= i < turns.drop_first().len() implies (#[trigger] turns.drop_first()[i])
        == taken - after.pending@.len() + i by {
        assert(turns.drop_first()[i] == turns[i + 1]);
    }
}

/// While fewer frames are in flight than the ring is deep, none of them reads the texture whose turn
/// it is.
pub proof fn law_ring_texture_is_free(enc: AmfEncoder, turns: Seq<int>, i: int)
    requires
        enc.in_turn(turns, enc.ses.next as int),
        enc.pending@.len() < RING,
        0 <= i < turns.len(),
    ensures
        turns[i] % (RING as int) != (enc.ses.next as int) % (RING as int),
{
    let turn = turns[i];
    let next = enc.ses.next as int;
    assert(next - RING < turn < next);
    if turn % (RING as int) == next % (RING as int) {
        vstd::arithmetic::div_mod::lemma_fundamental_div_mod(turn, RING as int);
        vstd::arithmetic::div_mod::lemma_fundamental_div_mod(next, RING as int);
        let q = next / (RING as int) - turn / (RING as int);
        assert(next - turn == 6 * q);
    }
}

} // verus!

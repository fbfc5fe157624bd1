//! The NVENC backend over Direct3D 11 textures.
//!
//! [`NvencD3d11Encoder`] holds what the backend knows between driver calls. Its methods decide what
//! the next call is given and record what came of it. Handles are plain numbers here, zero where the
//! driver's would be null.
pub mod budget;
pub mod frame_laws;
pub mod laws;
pub mod open_search;
pub mod submit;

use crate::nvenc::budget::{
    engines, split_mode_units, units_of, DestroyOutcome, ParkedSession, SessionBudget,
};
use crate::nvenc::open_search::{OpenSearch, SPLIT_DISABLE_MODE};
use crate::text::{is_switched_on, opt_view, setting_u64, setting_value, switched_on};
use crate::types::{
    at_least_one, copy_tail, AuChunk, ChromaFormat, Codec, CodecSupport, EncodedFrame, EncoderCaps,
    HdrMeta, PayloadKind, PixelFormat,
};
use std::collections::{HashMap, VecDeque};
use vstd::prelude::*;

verus! {

/// Output buffers of a session, and with them the frames that can be in flight.
pub const POOL: usize = 8;

/// Frames in flight on the two-thread path while the capturer has not said how many it can spare.
pub const UNCONFIGURED_RING_DEPTH: usize = 2;

/// Picture flags of a forced keyframe: an IDR frame with the parameter sets in front of it.
pub const PIC_FLAGS_KEYFRAME: u32 = 6;

#[derive(Clone, Copy, Debug, PartialEq, Eq, Structural)]
pub enum NvencError {
    /// The driver library is missing or unusable.
    ApiUnavailable,
    /// The driver's API version is older than the one this backend speaks.
    DriverTooOld { major: u32, minor: u32 },
    /// The frame exceeds what the adapter encodes.
    SizeUnsupported { wmax: i32, hmax: i32 },
    /// A frame without a texture.
    NeedsTexture,
    /// The driver opened no session, by its last status; `at_floor` where even the lowest rate was
    /// refused.
    OpenFailed { status: i32, at_floor: bool },
    /// A driver or system call failed, by its status.
    Call(i32),
    /// No completion came for the whole budget.
    Stalled,
    /// The retrieve thread has ended.
    RetrieveGone,
    /// A completion arrived while no frame was in flight.
    UnpairedCompletion,
    /// A completion arrived for a buffer other than the oldest in flight.
    CompletionOutOfOrder,
    /// The retrieve thread reported a failure, by its status.
    Retrieve(i32),
    /// Whole-unit output was asked for in the middle of a unit that is delivered in chunks.
    MidChunk,
    /// The finished unit is shorter than what was already delivered of it.
    EmittedBeyondUnit { emitted: usize, total: usize },
    /// The finished unit does not begin with what was already delivered of it.
    ChunksDiverge,
}

/// Splits the driver's API version word and compares it with the version of the headers.
pub fn check_api_version(version: u32, header_major: u32, header_minor: u32) -> (r: Result<
    (u32, u32),
    NvencError,
>)
    ensures
        ({
            let major = version / 16;
            let minor = version % 16;
            r == if major < header_major || (major == header_major && minor < header_minor) {
                Err::<(u32, u32), NvencError>(NvencError::DriverTooOld { major, minor })
            } else {
                Ok::<(u32, u32), NvencError>((major, minor))
            }
        }),
{
    let major: u32 = version >> 4u32;
    let minor: u32 = version & 0xf;
    assert(version >> 4u32 == version / 16 && version & 0xf == version % 16) by (bit_vector);
    if major < header_major || (major == header_major && minor < header_minor) {
        Err(NvencError::DriverTooOld { major, minor })
    } else {
        Ok((major, minor))
    }
}

/// Whether two-thread output retrieval is switched on.
pub fn async_retrieve_requested(raw: Option<&str>) -> (r: bool)
    ensures
        r == is_switched_on(opt_view(raw)),
{
    switched_on(raw)
}

/// The frames in flight that a setting allows: four where it does not say, and always between two
/// and one fewer than the pool holds.
pub open spec fn inflight_setting(raw: Option<Seq<char>>) -> int {
    let wanted = match setting_value(raw, usize::MAX as int) {
        Some(n) => n,
        None => 4,
    };
    if wanted < 2 {
        2
    } else if wanted > POOL - 1 {
        POOL - 1
    } else {
        wanted
    }
}

/// Reads the in-flight limit of the two-thread path.
pub fn async_inflight_cap(raw: Option<&str>) -> (cap: usize)
    ensures
        cap == inflight_setting(opt_view(raw)),
{
    let wanted: u64 = match setting_u64(raw) {
        Some(n) => if n <= usize::MAX as u64 {
            n
        } else {
            4
        },
        None => 4,
    };
    if wanted < 2 {
        2
    } else if wanted > 7 {
        POOL - 1
    } else {
        wanted as usize
    }
}

/// How long the retrieve thread waits for a completion. After a timeout it waits briefly, so that a
/// wedged encoder is drained without delay, until a completion shows that it is alive.
#[derive(Clone, Copy, Debug, PartialEq, Eq, Structural)]
pub struct RetrieveLatch {
    pub wedged: bool,
}

impl RetrieveLatch {
    pub fn new() -> (l: RetrieveLatch)
        ensures
            !l.wedged,
    {
        RetrieveLatch { wedged: false }
    }

    /// Milliseconds to wait for the next completion.
    pub fn wait_ms(&self) -> (ms: u32)
        ensures
            ms == if self.wedged {
                250u32
            } else {
                5000u32
            },
    {
        if self.wedged {
            250
        } else {
            5000
        }
    }

    /// Records whether the completion arrived in time.
    pub fn observe(&mut self, signaled: bool)
        ensures
            final(self).wedged == !signaled,
    {
        self.wedged = !signaled;
    }
}

/// Pixel layout of the registered input.
#[derive(Clone, Copy, Debug, PartialEq, Eq, Structural)]
pub enum BufferFormat {
    Argb,
    Abgr10,
    Nv12,
    Yuv420TenBit,
}

impl BufferFormat {
    /// The input still carries full chroma.
    pub open spec fn is_rgb(self) -> bool {
        self is Argb || self is Abgr10
    }

    pub open spec fn is_ten_bit(self) -> bool {
        self is Abgr10 || self is Yuv420TenBit
    }

    /// The layout a captured format is registered as.
    pub open spec fn of(format: PixelFormat) -> BufferFormat {
        match format {
            PixelFormat::P010 => BufferFormat::Yuv420TenBit,
            PixelFormat::Rgb10a2 => BufferFormat::Abgr10,
            PixelFormat::Nv12 => BufferFormat::Nv12,
            _ => BufferFormat::Argb,
        }
    }
}

/// A frame the driver is encoding: its output buffer, its mapped input, and what its unit will carry.
#[derive(Clone, Copy, Debug, PartialEq, Eq, Structural)]
pub struct PendingFrame {
    pub bitstream: u64,
    pub mapped: u64,
    pub pts_ns: u64,
    pub anchor: bool,
    pub idr_hint: bool,
}

/// Progress of a unit that is delivered in chunks.
#[derive(Clone, Copy, Debug, PartialEq, Eq, Structural)]
pub struct ChunkState {
    /// Bytes delivered so far.
    pub emitted: usize,
    /// Slices delivered so far.
    pub slices_out: u32,
    /// A first chunk has been delivered.
    pub opened: bool,
}

impl ChunkState {
    pub open spec fn fresh() -> ChunkState {
        ChunkState { emitted: 0, slices_out: 0, opened: false }
    }

    pub fn new() -> (c: ChunkState)
        ensures
            c == Self::fresh(),
    {
        ChunkState { emitted: 0, slices_out: 0, opened: false }
    }
}

/// What the driver answers to the capability queries of a codec.
#[derive(Clone, Copy, Debug, PartialEq, Eq, Structural)]
pub struct EncodeCapabilities {
    pub wmax: i32,
    pub hmax: i32,
    pub ten_bit: i32,
    pub yuv444: i32,
    pub rfi: i32,
    pub custom_vbv: i32,
    pub async_encode: i32,
    pub subframe: i32,
}

/// Inputs of the low-latency configuration.
#[derive(Clone, Copy, Debug, PartialEq, Eq, Structural)]
pub struct LowLatencyConfig {
    pub codec: Codec,
    pub bitrate: u64,
    pub fps: u32,
    pub custom_vbv: bool,
    pub chroma_444: bool,
    pub full_chroma_input: bool,
    pub bit_depth: u8,
    pub av1_input_depth_minus8: u32,
    pub hdr: bool,
    pub rfi_supported: bool,
    pub slices: u32,
}

/// The configuration a found bitrate ceiling holds for.
#[derive(Clone, Copy, Debug, PartialEq, Eq, Structural)]
pub struct CeilingKey {
    pub gpu: u64,
    pub codec: Codec,
    pub width: u32,
    pub height: u32,
    pub fps: u32,
    pub bit_depth: u8,
    pub chroma_444: bool,
    pub split_mode: u32,
}

/// What a session is opened with, and what the adapter answered.
#[derive(Clone, Copy, Debug)]
pub struct NvencConfig {
    pub codec: Codec,
    pub width: u32,
    pub height: u32,
    pub fps: u32,
    pub bitrate_bps: u64,
    pub buffer_fmt: BufferFormat,
    pub bit_depth: u8,
    pub chroma_444: bool,
    pub chroma_444_requested: bool,
    pub yuv444_supported: bool,
    pub hdr: bool,
    pub hdr_requested: bool,
    pub hdr_unsupported: bool,
    pub hdr_meta: Option<HdrMeta>,
    pub async_supported: bool,
    pub subframe_cap: bool,
    pub rfi_supported: bool,
    pub custom_vbv: bool,
    pub slices: u32,
    pub max_slices: u32,
}

/// What belongs to one session and ends with it.
#[derive(Clone, Copy, Debug)]
pub struct NvencSession {
    pub encoder: u64,
    pub inited: bool,
    pub init_device: u64,
    pub next: usize,
    pub split_mode: u32,
    pub subframe_on: bool,
    pub subframe_chunks: bool,
    pub session_async: bool,
    /// Output is retrieved on a second thread.
    pub async_on: bool,
    pub session_units: u32,
    pub last_rfi_range: Option<(i64, i64)>,
    pub pending_anchor: bool,
}

/// What the frame flow carries from one frame to the next.
#[derive(Clone, Copy, Debug)]
pub struct NvencFlow {
    pub frame_idx: i64,
    pub force_kf: bool,
    pub input_ring_depth: Option<usize>,
    pub chunk: Option<ChunkState>,
}

pub struct NvencD3d11Encoder {
    pub cfg: NvencConfig,
    pub ses: NvencSession,
    pub flow: NvencFlow,
    /// Registered input by texture.
    pub regs: HashMap<u64, u64>,
    pub bitstreams: Vec<u64>,
    pub events: Vec<u64>,
    /// Frames in flight, oldest first.
    pub pending: VecDeque<PendingFrame>,
    /// Units retrieved on the second thread and not yet polled.
    pub ready: VecDeque<EncodedFrame>,
}

/// How the retrieve thread answers a job.
pub struct RetrieveDone {
    pub bs: u64,
    /// The unit and whether it is a keyframe, or the status of the failure.
    pub result: Result<(Vec<u8>, bool), i32>,
}

/// A job for the retrieve thread: the output buffer and the event that signals its completion.
#[derive(Clone, Copy, Debug, PartialEq, Eq, Structural)]
pub struct RetrieveJob {
    pub bs: u64,
    pub event: u64,
}

/// Outcome of taking in a completion.
#[derive(Clone, Copy, Debug)]
pub struct Absorbed {
    /// Input mapping to release.
    pub unmap: Option<u64>,
    pub result: Result<(), NvencError>,
}

/// What a frame is submitted with.
#[derive(Clone, Copy, Debug, PartialEq, Eq, Structural)]
pub struct PicturePlan {
    pub slot: usize,
    pub bitstream: u64,
    /// Completion event, zero where output is retrieved synchronously.
    pub event: u64,
    pub timestamp: u64,
    pub flags: u32,
    pub anchor: bool,
    pub idr_hint: bool,
    /// Attach the HDR metadata messages.
    pub hdr_sei: bool,
}

/// What the range policy asks for when the client reports a loss.
#[derive(Clone, Copy, Debug, PartialEq, Eq, Structural)]
pub enum RangePlan {
    /// An earlier invalidation already covers the loss.
    Covered,
    Decline,
    /// Invalidate these wire frames, both ends included.
    Invalidate { first: i64, last: i64 },
}

/// What a poll for whole units does.
pub enum PollStep {
    /// Nothing is owed.
    Idle,
    /// A unit retrieved earlier.
    Ready(EncodedFrame),
    /// Wait for this frame's output.
    Lock(PendingFrame),
}

/// What a chunked poll does first.
#[derive(Clone, Copy, Debug, PartialEq, Eq, Structural)]
pub enum ChunkStep {
    /// Chunks are not available: poll for whole units.
    Whole,
    Idle,
    /// Sample this frame's output.
    Sample(PendingFrame),
}

/// What a sample of a growing unit calls for.
#[derive(Clone, Copy, Debug, PartialEq, Eq, Structural)]
pub enum ChunkVerdict {
    /// All slices are there, or no more sampling is worth it: take the finished unit.
    Finish,
    /// New whole slices: deliver them.
    Emit,
    Wait,
}

#[derive(Clone, Copy, Debug, PartialEq, Eq, Structural)]
pub enum ReconfigurePlan {
    /// No session yet: the rate is stored for its opening.
    Stored,
    /// Ask the driver for this rate.
    Apply(u64),
}

impl NvencConfig {
    /// The configuration of an encoder that has seen no frame.
    pub open spec fn initial(
        codec: Codec,
        width: u32,
        height: u32,
        fps: u32,
        bitrate_bps: u64,
        bit_depth: u8,
        chroma: ChromaFormat,
        max_slices: u32,
    ) -> NvencConfig {
        let wants_444 = chroma == ChromaFormat::Yuv444 && codec == Codec::H265;
        NvencConfig {
            codec,
            width,
            height,
            fps,
            bitrate_bps,
            buffer_fmt: BufferFormat::Argb,
            bit_depth,
            chroma_444: wants_444,
            chroma_444_requested: wants_444,
            yuv444_supported: false,
            hdr: false,
            hdr_requested: false,
            hdr_unsupported: false,
            hdr_meta: None,
            async_supported: false,
            subframe_cap: false,
            rfi_supported: false,
            custom_vbv: false,
            slices: 1,
            max_slices: at_least_one(max_slices),
        }
    }

    /// The frame is larger than what the adapter encodes.
    pub open spec fn exceeds(self, caps: EncodeCapabilities) -> bool {
        caps.wmax > 0 && caps.hmax > 0 && (self.width as i32 > caps.wmax || self.height as i32
            > caps.hmax)
    }

    /// The configuration once the adapter's capabilities are known.
    pub open spec fn with_capabilities(self, caps: EncodeCapabilities) -> NvencConfig {
        let depth_lost = self.bit_depth >= 10 && caps.ten_bit == 0;
        NvencConfig {
            hdr_unsupported: self.hdr_unsupported || depth_lost,
            bit_depth: if depth_lost {
                8
            } else {
                self.bit_depth
            },
            hdr: self.hdr && !depth_lost,
            yuv444_supported: caps.yuv444 != 0,
            chroma_444: self.chroma_444 && caps.yuv444 != 0,
            rfi_supported: caps.rfi != 0,
            custom_vbv: caps.custom_vbv != 0,
            async_supported: caps.async_encode != 0,
            subframe_cap: caps.subframe != 0,
            ..self
        }
    }

    /// The configuration that adopts size and depth of the first frame of a session.
    pub open spec fn adopting(self, width: u32, height: u32, format: PixelFormat) -> NvencConfig {
        let hdr = crate::types::format_is_ten_bit(format);
        let fmt = BufferFormat::of(format);
        NvencConfig {
            width,
            height,
            hdr_requested: hdr,
            hdr,
            buffer_fmt: fmt,
            bit_depth: if hdr {
                10
            } else if format == PixelFormat::Nv12 {
                8
            } else {
                self.bit_depth
            },
            chroma_444: self.chroma_444_requested && fmt.is_rgb(),
            ..self
        }
    }

}

impl NvencSession {
    /// No session, on an encoder that never had one.
    pub open spec fn none() -> NvencSession {
        NvencSession {
            encoder: 0,
            inited: false,
            init_device: 0,
            next: 0,
            split_mode: SPLIT_DISABLE_MODE,
            subframe_on: false,
            subframe_chunks: false,
            session_async: false,
            async_on: false,
            session_units: 0,
            last_rfi_range: None,
            pending_anchor: false,
        }
    }

    /// What is left of an ended session.
    pub open spec fn closed(self) -> NvencSession {
        NvencSession {
            encoder: 0,
            inited: false,
            next: 0,
            subframe_chunks: false,
            async_on: false,
            session_units: 0,
            last_rfi_range: None,
            pending_anchor: false,
            ..self
        }
    }
}

impl NvencFlow {
    /// The flow once `emitted` bytes with `slices` slices of the unit are delivered.
    pub open spec fn delivered(self, emitted: usize, slices: u32) -> NvencFlow {
        NvencFlow { chunk: Some(ChunkState { emitted, slices_out: slices, opened: true }), ..self }
    }

    /// Frames that may be in flight on the two-thread path.
    pub open spec fn inflight_limit(self, env_cap: usize) -> usize {
        let ring = match self.input_ring_depth {
            Some(d) => if d == 0 {
                1
            } else {
                d
            },
            None => UNCONFIGURED_RING_DEPTH,
        };
        if env_cap <= ring {
            env_cap
        } else {
            ring
        }
    }

    /// Progress of the unit under delivery.
    pub open spec fn chunk_progress(self) -> ChunkState {
        match self.chunk {
            Some(c) => c,
            None => ChunkState::fresh(),
        }
    }
}

impl NvencD3d11Encoder {
    /// The plain state is as in `other`.
    pub open spec fn same_state(self, other: NvencD3d11Encoder) -> bool {
        self.cfg == other.cfg && self.ses == other.ses && self.flow == other.flow
    }

    /// Chunked delivery is available.
    pub open spec fn chunks_available(self) -> bool {
        self.ses.subframe_chunks && !self.ses.async_on
    }

    /// The session does not fit the captured frame any more.
    pub open spec fn outgrown(
        self,
        device: u64,
        width: u32,
        height: u32,
        format: PixelFormat,
    ) -> bool {
        self.ses.inited && (self.ses.init_device != device || self.cfg.width != width || self.cfg.height != height
            || self.cfg.hdr_requested != crate::types::format_is_ten_bit(format))
    }

    /// A running session has its full set of output buffers, and one event for each of them where
    /// output is retrieved on a second thread.
    pub open spec fn wf(self) -> bool {
        &&& self.flow.frame_idx >= 0
        &&& self.ses.inited ==> self.ses.encoder != 0 && self.bitstreams@.len() == POOL
        &&& self.ses.inited && self.ses.async_on ==> self.events@.len() == POOL
        &&& self.ses.encoder == 0 ==> !self.ses.inited && self.bitstreams@.len() == 0
            && self.events@.len() == 0 && self.pending@.len() == 0 && self.regs@ == Map::<
            u64,
            u64,
        >::empty()
    }

    /// Everything but the plain state is as in `other`.
    pub open spec fn same_queues(self, other: NvencD3d11Encoder) -> bool {
        &&& self.regs@ == other.regs@
        &&& self.bitstreams@ == other.bitstreams@
        &&& self.events@ == other.events@
        &&& self.pending@ == other.pending@
        &&& self.ready@ == other.ready@
    }

    /// Creates the encoder. The session opens with the first frame, whose size and format it takes.
    pub fn open(
        api_available: bool,
        codec: Codec,
        _format: PixelFormat,
        width: u32,
        height: u32,
        fps: u32,
        bitrate_bps: u64,
        bit_depth: u8,
        chroma: ChromaFormat,
        max_slices: u32,
    ) -> (r: Result<NvencD3d11Encoder, NvencError>)
        ensures
            !api_available ==> r is Err && r->Err_0 == NvencError::ApiUnavailable,
            api_available ==> {
                &&& r is Ok
                &&& r->Ok_0.wf()
                &&& r->Ok_0.cfg == NvencConfig::initial(
                    codec,
                    width,
                    height,
                    fps,
                    bitrate_bps,
                    bit_depth,
                    chroma,
                    max_slices,
                )
                &&& r->Ok_0.ses == NvencSession::none()
                &&& r->Ok_0.flow == (NvencFlow {
                    frame_idx: 0,
                    force_kf: false,
                    input_ring_depth: None,
                    chunk: None,
                })
                &&& r->Ok_0.pending@.len() == 0
                &&& r->Ok_0.ready@.len() == 0
            },
    {
        broadcast use vstd::std_specs::hash::group_hash_axioms;

        if !api_available {
            return Err(NvencError::ApiUnavailable);
        }
        let wants_444 = chroma.is_444() && codec == Codec::H265;
        let cfg = NvencConfig {
            codec,
            width,
            height,
            fps,
            bitrate_bps,
            buffer_fmt: BufferFormat::Argb,
            bit_depth,
            chroma_444: wants_444,
            chroma_444_requested: wants_444,
            yuv444_supported: false,
            hdr: false,
            hdr_requested: false,
            hdr_unsupported: false,
            hdr_meta: None,
            async_supported: false,
            subframe_cap: false,
            rfi_supported: false,
            custom_vbv: false,
            slices: 1,
            max_slices: if max_slices == 0 {
                1
            } else {
                max_slices
            },
        };
        let ses = NvencSession {
            encoder: 0,
            inited: false,
            init_device: 0,
            next: 0,
            split_mode: SPLIT_DISABLE_MODE,
            subframe_on: false,
            subframe_chunks: false,
            session_async: false,
            async_on: false,
            session_units: 0,
            last_rfi_range: None,
            pending_anchor: false,
        };
        let flow = NvencFlow {
            frame_idx: 0,
            force_kf: false,
            input_ring_depth: None,
            chunk: None,
        };
        Ok(
            NvencD3d11Encoder {
                cfg,
                ses,
                flow,
                regs: HashMap::new(),
                bitstreams: Vec::new(),
                events: Vec::new(),
                pending: VecDeque::new(),
                ready: VecDeque::new(),
            },
        )
    }

    /// What [`Self::query_caps`] returns, and does to the encoder.
    pub open spec fn learns_caps(
        self,
        caps: EncodeCapabilities,
        r: Result<(), NvencError>,
        after: Self,
    ) -> bool {
        &&& after.wf()
        &&& after.same_queues(self)
        &&& r == if self.cfg.exceeds(caps) {
            Err::<(), NvencError>(
                NvencError::SizeUnsupported { wmax: caps.wmax, hmax: caps.hmax },
            )
        } else {
            Ok::<(), NvencError>(())
        }
        &&& after.ses == self.ses
        &&& after.flow == self.flow
        &&& after.cfg == if r is Ok {
            self.cfg.with_capabilities(caps)
        } else {
            self.cfg
        }
    }

    /// Takes in what the adapter can do. A frame that is too large is refused; ten-bit and full-chroma
    /// encoding are given up where the adapter has no such thing.
    pub fn query_caps(&mut self, caps: EncodeCapabilities) -> (r: Result<(), NvencError>)
        requires
            old(self).wf(),
        ensures
            old(self).learns_caps(caps, r, *final(self)),
    {
        if caps.wmax > 0 && caps.hmax > 0 && (self.cfg.width as i32 > caps.wmax || self.cfg.height as i32
            > caps.hmax) {
            return Err(NvencError::SizeUnsupported { wmax: caps.wmax, hmax: caps.hmax });
        }
        let cfg = self.cfg;
        let depth_lost = cfg.bit_depth >= 10 && caps.ten_bit == 0;
        let bit_depth: u8 = if depth_lost {
            8
        } else {
            cfg.bit_depth
        };
        self.cfg = NvencConfig {
            hdr_unsupported: cfg.hdr_unsupported || depth_lost,
            bit_depth,
            hdr: cfg.hdr && !depth_lost,
            yuv444_supported: caps.yuv444 != 0,
            chroma_444: cfg.chroma_444 && caps.yuv444 != 0,
            rfi_supported: caps.rfi != 0,
            custom_vbv: caps.custom_vbv != 0,
            async_supported: caps.async_encode != 0,
            subframe_cap: caps.subframe != 0,
            ..cfg
        };
        Ok(())
    }

    /// Inputs of the driver configuration at `bitrate`.
    pub fn build_config(&self, bitrate: u64) -> (c: LowLatencyConfig)
        ensures
            c == (LowLatencyConfig {
                codec: self.cfg.codec,
                bitrate,
                fps: self.cfg.fps,
                custom_vbv: self.cfg.custom_vbv,
                chroma_444: self.cfg.chroma_444,
                full_chroma_input: self.cfg.buffer_fmt.is_rgb(),
                bit_depth: self.cfg.bit_depth,
                av1_input_depth_minus8: if self.cfg.buffer_fmt.is_ten_bit() {
                    2
                } else {
                    0
                },
                hdr: self.cfg.hdr,
                rfi_supported: self.cfg.rfi_supported,
                slices: self.cfg.slices,
            }),
    {
        let rgb_input = match self.cfg.buffer_fmt {
            BufferFormat::Argb | BufferFormat::Abgr10 => true,
            _ => false,
        };
        let ten_bit_in = match self.cfg.buffer_fmt {
            BufferFormat::Abgr10 | BufferFormat::Yuv420TenBit => true,
            _ => false,
        };
        LowLatencyConfig {
            codec: self.cfg.codec,
            bitrate,
            fps: self.cfg.fps,
            custom_vbv: self.cfg.custom_vbv,
            chroma_444: self.cfg.chroma_444,
            full_chroma_input: rgb_input,
            bit_depth: self.cfg.bit_depth,
            av1_input_depth_minus8: if ten_bit_in {
                2
            } else {
                0
            },
            hdr: self.cfg.hdr,
            rfi_supported: self.cfg.rfi_supported,
            slices: self.cfg.slices,
        }
    }

    /// Key under which a found bitrate ceiling is remembered. `luid` is the render adapter's, as its
    /// high and low halves.
    pub fn ceiling_key(&self, luid: Option<(u32, u32)>, split_mode: u32) -> (k: CeilingKey)
        ensures
            k == (CeilingKey {
                gpu: match luid {
                    Some((high, low)) => (high * 0x1_0000_0000 + low) as u64,
                    None => 0,
                },
                codec: self.cfg.codec,
                width: self.cfg.width,
                height: self.cfg.height,
                fps: self.cfg.fps,
                bit_depth: self.cfg.bit_depth,
                chroma_444: self.cfg.chroma_444,
                split_mode,
            }),
    {
        let gpu: u64 = match luid {
            Some((high, low)) => join_luid(high, low),
            None => 0,
        };
        CeilingKey {
            gpu,
            codec: self.cfg.codec,
            width: self.cfg.width,
            height: self.cfg.height,
            fps: self.cfg.fps,
            bit_depth: self.cfg.bit_depth,
            chroma_444: self.cfg.chroma_444,
            split_mode,
        }
    }

    /// Samples per second of the session, by which the split mode is chosen.
    pub fn pixel_rate(&self) -> (rate: u64)
        requires
            self.cfg.width * self.cfg.height * at_least_one(self.cfg.fps) <= u64::MAX,
        ensures
            rate == self.cfg.width * self.cfg.height * at_least_one(self.cfg.fps),
    {
        let w: u64 = self.cfg.width as u64;
        let h: u64 = self.cfg.height as u64;
        let f: u64 = if self.cfg.fps == 0 {
            1
        } else {
            self.cfg.fps as u64
        };
        assert(w * h <= 0xffff_ffffu64 * 0xffff_ffffu64) by (nonlinear_arith)
            requires
                w <= 0xffff_ffff,
                h <= 0xffff_ffff,
        ;
        w * h * f
    }

    /// Slices the session may ask for.
    pub fn slice_budget(&self) -> (n: u32)
        ensures
            n == if self.cfg.max_slices < 4 {
                self.cfg.max_slices
            } else {
                4u32
            },
    {
        if self.cfg.max_slices < 4 {
            self.cfg.max_slices
        } else {
            4
        }
    }

    /// Whether the session retrieves its output on a second thread.
    pub fn use_async(&self, requested: bool) -> (r: bool)
        ensures
            r == (self.cfg.async_supported && requested),
    {
        self.cfg.async_supported && requested
    }

    /// What [`Self::begin_open`] returns, and does to the encoder.
    pub open spec fn begins_open(
        self,
        slices: u32,
        split_mode: u32,
        cached_ceiling: Option<u64>,
        s: OpenSearch,
        after: Self,
    ) -> bool {
        &&& after.wf()
        &&& after.same_queues(self)
        &&& after.cfg == (NvencConfig { slices, ..self.cfg })
        &&& after.ses == self.ses
        &&& after.flow == self.flow
        &&& s == OpenSearch::begin(self.cfg.bitrate_bps, cached_ceiling, split_mode)
        &&& s.wf()
    }

    /// Starts the search for a session with the given slice count and split mode.
    pub fn begin_open(&mut self, slices: u32, split_mode: u32, cached_ceiling: Option<u64>) -> (s:
        OpenSearch)
        requires
            old(self).wf(),
        ensures
            old(self).begins_open(slices, split_mode, cached_ceiling, s, *final(self)),
    {
        self.cfg.slices = slices;
        OpenSearch::start(self.cfg.bitrate_bps, cached_ceiling, split_mode)
    }

    /// What [`Self::session_opened`] does to the encoder.
    pub open spec fn adopts_session(
        self,
        handle: u64,
        bps: u64,
        split_mode: u32,
        subframe: bool,
        use_async: bool,
        after: Self,
    ) -> bool {
        &&& after.wf()
        &&& after.same_queues(self)
        &&& after.cfg == (NvencConfig { bitrate_bps: bps, ..self.cfg })
        &&& after.ses == (NvencSession {
            encoder: handle,
            split_mode,
            subframe_on: subframe,
            session_async: use_async,
            subframe_chunks: self.cfg.slices >= 2 && subframe && !use_async,
            session_units: engines(split_mode),
            ..self.ses
        })
        &&& after.flow == self.flow
    }

    /// Adopts the session that the search found and charges the budget for it.
    pub fn session_opened(
        &mut self,
        handle: u64,
        bps: u64,
        split_mode: u32,
        subframe: bool,
        use_async: bool,
        budget: &mut SessionBudget,
    )
        requires
            old(self).wf(),
            old(self).ses.encoder == 0,
            handle != 0,
            old(budget).wf(),
            old(budget).live_units + engines(split_mode) <= u32::MAX,
        ensures
            old(self).adopts_session(handle, bps, split_mode, subframe, use_async, *final(self)),
            final(budget).wf(),
            final(budget).live_units == old(budget).live_units + engines(split_mode),
            final(budget).parked@ == old(budget).parked@,
    {
        let units: u32 = split_mode_units(split_mode);
        let cfg = self.cfg;
        let ses = self.ses;
        self.cfg = NvencConfig { bitrate_bps: bps, ..cfg };
        self.ses = NvencSession {
            encoder: handle,
            split_mode,
            subframe_on: subframe,
            session_async: use_async,
            subframe_chunks: cfg.slices >= 2 && subframe && !use_async,
            session_units: units,
            ..ses
        };
        budget.charge(units);
    }

    /// What [`Self::add_bitstream`] does to the encoder.
    pub open spec fn adds_bitstream(self, bs: u64, after: Self) -> bool {
        &&& after.wf()
        &&& after.same_state(self)
        &&& after.bitstreams@ == self.bitstreams@.push(bs)
        &&& after.regs@ == self.regs@
        &&& after.events@ == self.events@
        &&& after.pending@ == self.pending@
        &&& after.ready@ == self.ready@
    }

    /// Records an output buffer of the session being set up.
    pub fn add_bitstream(&mut self, bs: u64)
        requires
            old(self).wf(),
            old(self).ses.encoder != 0,
            !old(self).ses.inited,
        ensures
            old(self).adds_bitstream(bs, *final(self)),
    {
        self.bitstreams.push(bs);
    }

    /// What [`Self::add_event`] does to the encoder.
    pub open spec fn adds_event(self, event: u64, after: Self) -> bool {
        &&& after.wf()
        &&& after.same_state(self)
        &&& after.events@ == self.events@.push(event)
        &&& after.regs@ == self.regs@
        &&& after.bitstreams@ == self.bitstreams@
        &&& after.pending@ == self.pending@
        &&& after.ready@ == self.ready@
    }

    /// Records a completion event of the session being set up.
    pub fn add_event(&mut self, event: u64)
        requires
            old(self).wf(),
            old(self).ses.encoder != 0,
            !old(self).ses.inited,
        ensures
            old(self).adds_event(event, *final(self)),
    {
        self.events.push(event);
    }

    /// What [`Self::session_ready`] does to the encoder.
    pub open spec fn readies(self, device: u64, after: Self) -> bool {
        &&& after.wf()
        &&& after.regs@ == self.regs@
        &&& after.bitstreams@ == self.bitstreams@
        &&& after.events@ == self.events@
        &&& after.pending@ == self.pending@
        &&& after.ready@ == (if self.ses.session_async {
            Seq::<EncodedFrame>::empty()
        } else {
            self.ready@
        })
        &&& after.cfg == self.cfg
        &&& after.ses == (NvencSession {
            async_on: self.ses.session_async,
            inited: true,
            init_device: device,
            ..self.ses
        })
        &&& after.flow == self.flow
    }

    /// Ends the set-up: the session on `device` is ready for frames.
    pub fn session_ready(&mut self, device: u64)
        requires
            old(self).wf(),
            old(self).ses.encoder != 0,
            old(self).bitstreams@.len() == POOL,
            old(self).ses.session_async ==> old(self).events@.len() == POOL,
        ensures
            old(self).readies(device, *final(self)),
    {
        if self.ses.session_async {
            self.ready = VecDeque::new();
        }
        let ses = self.ses;
        self.ses = NvencSession {
            async_on: ses.session_async,
            inited: true,
            init_device: device,
            ..ses
        };
    }

    /// Only frames with a texture can be encoded here.
    pub fn check_payload(payload: PayloadKind) -> (r: Result<(), NvencError>)
        ensures
            r == if payload == PayloadKind::D3d11 {
                Ok::<(), NvencError>(())
            } else {
                Err::<(), NvencError>(NvencError::NeedsTexture)
            },
    {
        match payload {
            PayloadKind::D3d11 => Ok(()),
            PayloadKind::Cpu => Err(NvencError::NeedsTexture),
        }
    }

    /// Whether the session must be torn down before this frame: its device, size or depth changed.
    pub fn needs_reinit(&self, device: u64, width: u32, height: u32, format: PixelFormat) -> (r: bool)
        ensures
            r == self.outgrown(device, width, height, format),
    {
        let hdr = crate::types::is_10bit_format(format);
        let size_changed = self.ses.inited && (self.cfg.width != width || self.cfg.height != height);
        let hdr_changed = self.ses.inited && self.cfg.hdr_requested != hdr;
        self.ses.inited && (self.ses.init_device != device || size_changed || hdr_changed)
    }

    /// What [`Self::adopt_frame`] does to the encoder.
    pub open spec fn adopts_frame(
        self,
        width: u32,
        height: u32,
        format: PixelFormat,
        after: Self,
    ) -> bool {
        &&& after.wf()
        &&& after.same_queues(self)
        &&& after.cfg == self.cfg.adopting(width, height, format)
        &&& after.ses == self.ses
        &&& after.flow == self.flow
    }

    /// Takes size, depth and format of the first frame of a session. Full chroma is kept only where
    /// the frame still carries it.
    pub fn adopt_frame(&mut self, width: u32, height: u32, format: PixelFormat)
        requires
            old(self).wf(),
            !old(self).ses.inited,
        ensures
            old(self).adopts_frame(width, height, format, *final(self)),
    {
        let hdr = crate::types::is_10bit_format(format);
        let cfg = self.cfg;
        let (buffer_fmt, bit_depth): (BufferFormat, u8) = match format {
            PixelFormat::P010 => (BufferFormat::Yuv420TenBit, 10),
            PixelFormat::Rgb10a2 => (BufferFormat::Abgr10, 10),
            PixelFormat::Nv12 => (BufferFormat::Nv12, 8),
            _ => (BufferFormat::Argb, cfg.bit_depth),
        };
        let full_chroma = match buffer_fmt {
            BufferFormat::Argb | BufferFormat::Abgr10 => true,
            _ => false,
        };
        self.cfg = NvencConfig {
            width,
            height,
            hdr_requested: hdr,
            hdr,
            buffer_fmt,
            bit_depth,
            chroma_444: cfg.chroma_444_requested && full_chroma,
            ..cfg
        };
    }

    /// Whether a completion must be taken in before another frame may be submitted.
    pub fn must_absorb(&self, env_cap: usize) -> (r: bool)
        ensures
            r == (self.ses.async_on && self.pending@.len() >= self.flow.inflight_limit(env_cap)),
    {
        let ring: usize = match self.flow.input_ring_depth {
            Some(d) => if d == 0 {
                1
            } else {
                d
            },
            None => UNCONFIGURED_RING_DEPTH,
        };
        let cap: usize = if env_cap <= ring {
            env_cap
        } else {
            ring
        };
        self.ses.async_on && self.pending.len() >= cap
    }

    /// What [`Self::absorb_done`] returns, and does to the encoder.
    pub open spec fn absorbs(self, done: RetrieveDone, a: Absorbed, after: Self) -> bool {
        &&& after.wf()
        &&& after.same_state(self)
        &&& after.regs@ == self.regs@
        &&& after.bitstreams@ == self.bitstreams@
        &&& after.events@ == self.events@
        &&& self.pending@.len() == 0 ==> {
            &&& after.pending@ == self.pending@
            &&& after.ready@ == self.ready@
            &&& a == (Absorbed { unmap: None, result: Err(NvencError::UnpairedCompletion) })
        }
        &&& self.pending@.len() > 0 ==> ({
            let front = self.pending@[0];
            &&& after.pending@ == self.pending@.drop_first()
            &&& front.bitstream != done.bs ==> a == (Absorbed {
                unmap: None,
                result: Err(NvencError::CompletionOutOfOrder),
            }) && after.ready@ == self.ready@
            &&& front.bitstream == done.bs ==> {
                &&& a.unmap == if front.mapped != 0 {
                    Some(front.mapped)
                } else {
                    None
                }
                &&& match done.result {
                    Err(status) => a.result == Err::<(), NvencError>(
                        NvencError::Retrieve(status),
                    ) && after.ready@ == self.ready@,
                    Ok((data, keyframe)) => {
                        &&& a.result == Ok::<(), NvencError>(())
                        &&& after.ready@.len() == self.ready@.len() + 1
                        &&& after.ready@.drop_last() == self.ready@
                        &&& unit_is(after.ready@.last(), front, data@, keyframe)
                    },
                }
            }
        })
    }

    /// Takes in the completion of the oldest frame in flight and queues its unit. Completions come in
    /// submit order; one for any other buffer is a pairing fault.
    pub fn absorb_done(&mut self, done: RetrieveDone) -> (a: Absorbed)
        requires
            old(self).wf(),
        ensures
            old(self).absorbs(done, a, *final(self)),
    {
        let front = match self.pending.pop_front() {
            Some(f) => f,
            None => {
                return Absorbed { unmap: None, result: Err(NvencError::UnpairedCompletion) };
            },
        };
        assert(self.pending@ =~= old(self).pending@.drop_first());
        if front.bitstream != done.bs {
            return Absorbed { unmap: None, result: Err(NvencError::CompletionOutOfOrder) };
        }
        let unmap: Option<u64> = if front.mapped != 0 {
            Some(front.mapped)
        } else {
            None
        };
        match done.result {
            Err(status) => Absorbed { unmap, result: Err(NvencError::Retrieve(status)) },
            Ok((data, keyframe)) => {
                self.ready.push_back(
                    EncodedFrame {
                        data,
                        pts_ns: front.pts_ns,
                        keyframe,
                        recovery_anchor: front.anchor,
                        chunk_aligned: false,
                    },
                );
                assert(self.ready@.drop_last() =~= old(self).ready@);
                Absorbed { unmap, result: Ok(()) }
            },
        }
    }

    /// What [`Self::take_slot`] returns, and does to the encoder.
    pub open spec fn takes_slot(self, r: (usize, bool), after: Self) -> bool {
        &&& after.wf()
        &&& after.same_queues(self)
        &&& after.cfg == self.cfg
        &&& after.ses == (NvencSession {
            next: (self.ses.next + 1) as usize,
            ..self.ses
        })
        &&& after.flow == self.flow
        &&& r.0 == self.ses.next % POOL
        &&& r.1 == (self.ses.next == 0)
    }

    /// Takes the next output slot. Returns it, and whether this frame opens the session.
    pub fn take_slot(&mut self) -> (r: (usize, bool))
        requires
            old(self).wf(),
            old(self).ses.next < usize::MAX,
        ensures
            old(self).takes_slot(r, *final(self)),
    {
        let opening = self.ses.next == 0;
        let slot: usize = self.ses.next % POOL;
        self.ses.next = self.ses.next + 1;
        (slot, opening)
    }

    /// The registration of a texture, where it has one.
    pub fn registration(&self, texture: u64) -> (r: Option<u64>)
        ensures
            r == if self.regs@.contains_key(texture) {
                Some(self.regs@[texture])
            } else {
                None
            },
    {
        broadcast use vstd::std_specs::hash::group_hash_axioms;

        match self.regs.get(&texture) {
            Some(reg) => Some(*reg),
            None => None,
        }
    }

    /// What [`Self::note_registration`] does to the encoder.
    pub open spec fn notes_registration(self, texture: u64, registered: u64, after: Self) -> bool {
        &&& after.wf()
        &&& after.same_state(self)
        &&& after.regs@ == self.regs@.insert(texture, registered)
        &&& after.bitstreams@ == self.bitstreams@
        &&& after.events@ == self.events@
        &&& after.pending@ == self.pending@
        &&& after.ready@ == self.ready@
    }

    /// Remembers the registration of a texture for the frames that reuse it.
    pub fn note_registration(&mut self, texture: u64, registered: u64)
        requires
            old(self).wf(),
            old(self).ses.encoder != 0,
        ensures
            old(self).notes_registration(texture, registered, *final(self)),
    {
        broadcast use vstd::std_specs::hash::group_hash_axioms;

        self.regs.insert(texture, registered);
    }

    /// What [`Self::plan_picture`] returns, and does to the encoder.
    pub open spec fn plans_picture(
        self,
        slot: usize,
        opening: bool,
        p: PicturePlan,
        after: Self,
    ) -> bool {
        &&& after.wf()
        &&& after.same_queues(self)
        &&& after.cfg == self.cfg
        &&& after.ses == (NvencSession { pending_anchor: false, ..self.ses })
        &&& after.flow == (NvencFlow {
            frame_idx: (self.flow.frame_idx + 1) as i64,
            force_kf: false,
            ..self.flow
        })
        &&& p == (PicturePlan {
            slot,
            bitstream: self.bitstreams@[slot as int],
            event: if slot < self.events@.len() {
                self.events@[slot as int]
            } else {
                0
            },
            timestamp: self.flow.frame_idx as u64,
            flags: if self.flow.force_kf {
                PIC_FLAGS_KEYFRAME
            } else {
                0
            },
            anchor: self.ses.pending_anchor && !self.flow.force_kf,
            idr_hint: self.flow.force_kf || opening,
            hdr_sei: (self.flow.force_kf || opening) && self.cfg.hdr
                && self.cfg.hdr_meta is Some && (self.cfg.codec == Codec::H265 || self.cfg.codec == Codec::H264),
        })
    }

    /// Decides what the next frame is submitted with, once its input is mapped. A requested keyframe
    /// is forced now and cancels a pending recovery anchor.
    pub fn plan_picture(&mut self, slot: usize, opening: bool) -> (p: PicturePlan)
        requires
            old(self).wf(),
            old(self).ses.inited,
            slot < POOL,
            old(self).flow.frame_idx < i64::MAX,
        ensures
            old(self).plans_picture(slot, opening, p, *final(self)),
    {
        let cfg = self.cfg;
        let ses = self.ses;
        let flow = self.flow;
        let timestamp: u64 = flow.frame_idx as u64;
        self.flow = NvencFlow { frame_idx: flow.frame_idx + 1, force_kf: false, ..flow };
        self.ses = NvencSession { pending_anchor: false, ..ses };
        let flags: u32 = if flow.force_kf {
            PIC_FLAGS_KEYFRAME
        } else {
            0
        };
        let anchor = ses.pending_anchor && flags == 0;
        let idr_hint = flags != 0 || opening;
        let carries_sei = match cfg.codec {
            Codec::H264 | Codec::H265 => true,
            Codec::Av1 | Codec::PyroWave => false,
        };
        let hdr_sei = idr_hint && cfg.hdr && cfg.hdr_meta.is_some() && carries_sei;
        let event: u64 = if slot < self.events.len() {
            self.events[slot]
        } else {
            0
        };
        PicturePlan {
            slot,
            bitstream: self.bitstreams[slot],
            event,
            timestamp,
            flags,
            anchor,
            idr_hint,
            hdr_sei,
        }
    }

    /// What [`Self::note_submitted`] returns, and does to the encoder.
    pub open spec fn notes_submitted(
        self,
        plan: PicturePlan,
        mapped: u64,
        pts_ns: u64,
        job: Option<RetrieveJob>,
        after: Self,
    ) -> bool {
        &&& after.wf()
        &&& after.same_state(self)
        &&& after.pending@ == self.pending@.push(
            PendingFrame {
                bitstream: plan.bitstream,
                mapped,
                pts_ns,
                anchor: plan.anchor,
                idr_hint: plan.idr_hint,
            },
        )
        &&& after.regs@ == self.regs@
        &&& after.bitstreams@ == self.bitstreams@
        &&& after.events@ == self.events@
        &&& after.ready@ == self.ready@
        &&& job == if self.ses.async_on {
            Some(RetrieveJob { bs: plan.bitstream, event: plan.event })
        } else {
            None
        }
    }

    /// Records a frame that the driver accepted. Returns the job of the retrieve thread, where there
    /// is one.
    pub fn note_submitted(&mut self, plan: PicturePlan, mapped: u64, pts_ns: u64) -> (job: Option<
        RetrieveJob,
    >)
        requires
            old(self).wf(),
            old(self).ses.inited,
        ensures
            old(self).notes_submitted(plan, mapped, pts_ns, job, *final(self)),
    {
        self.pending.push_back(
            PendingFrame {
                bitstream: plan.bitstream,
                mapped,
                pts_ns,
                anchor: plan.anchor,
                idr_hint: plan.idr_hint,
            },
        );
        if self.ses.async_on {
            Some(RetrieveJob { bs: plan.bitstream, event: plan.event })
        } else {
            None
        }
    }

    /// Pins the next frame's number to its wire index, so that loss reports name the same frames.
    pub fn set_wire_index(&mut self, wire_index: u32)
        requires
            old(self).wf(),
        ensures
            final(self).wf(),
            final(self).same_queues(*old(self)),
            final(self).flow == (NvencFlow { frame_idx: wire_index as i64, ..old(self).flow }),
            final(self).cfg == old(self).cfg,
            final(self).ses == old(self).ses,
    {
        self.flow.frame_idx = wire_index as i64;
    }

    /// Takes the number of frames the capturer can leave with the encoder.
    pub fn set_input_ring_depth(&mut self, depth: usize)
        requires
            old(self).wf(),
        ensures
            final(self).wf(),
            final(self).same_queues(*old(self)),
            final(self).flow == (NvencFlow { input_ring_depth: Some(depth), ..old(self).flow }),
            final(self).cfg == old(self).cfg,
            final(self).ses == old(self).ses,
    {
        self.flow.input_ring_depth = Some(depth);
    }

    /// Forces the next frame to be a keyframe.
    pub fn request_keyframe(&mut self)
        requires
            old(self).wf(),
        ensures
            final(self).wf(),
            final(self).same_queues(*old(self)),
            final(self).flow == (NvencFlow { force_kf: true, ..old(self).flow }),
            final(self).cfg == old(self).cfg,
            final(self).ses == old(self).ses,
    {
        self.flow.force_kf = true;
    }

    pub fn caps(&self) -> (c: EncoderCaps)
        ensures
            c == (EncoderCaps {
                blends_cursor: false,
                supports_rfi: self.cfg.rfi_supported,
                chroma_444: self.cfg.chroma_444,
                intra_refresh: false,
                intra_refresh_recovery: false,
                intra_refresh_period: 0,
            }),
    {
        EncoderCaps {
            blends_cursor: false,
            supports_rfi: self.cfg.rfi_supported,
            chroma_444: self.cfg.chroma_444,
            intra_refresh: false,
            intra_refresh_recovery: false,
            intra_refresh_period: 0,
        }
    }

    /// Takes the HDR grade that keyframes carry.
    pub fn set_hdr_meta(&mut self, meta: Option<HdrMeta>)
        requires
            old(self).wf(),
        ensures
            final(self).wf(),
            final(self).same_queues(*old(self)),
            final(self).cfg == (NvencConfig { hdr_meta: meta, ..old(self).cfg }),
            final(self).ses == old(self).ses,
            final(self).flow == old(self).flow,
    {
        self.cfg.hdr_meta = meta;
    }

    /// Whether a loss report can be answered by invalidation at all.
    pub fn can_invalidate(&self) -> (r: bool)
        ensures
            r == (self.ses.encoder != 0 && self.cfg.rfi_supported),
    {
        self.ses.encoder != 0 && self.cfg.rfi_supported
    }

    /// Answers a loss report by the range policy's plan. `all_accepted` tells whether the driver took
    /// every invalidation of the plan. `false` means that the caller recovers with a keyframe.
    pub fn invalidate_ref_frames(&mut self, plan: RangePlan, all_accepted: bool) -> (answered: bool)
        requires
            old(self).wf(),
        ensures
            final(self).wf(),
            final(self).same_queues(*old(self)),
            answered == (old(self).ses.encoder != 0 && old(self).cfg.rfi_supported && match plan {
                RangePlan::Covered => true,
                RangePlan::Decline => false,
                RangePlan::Invalidate { .. } => all_accepted,
            }),
            final(self).cfg == old(self).cfg,
            final(self).flow == old(self).flow,
            final(self).ses == if !answered {
                old(self).ses
            } else {
                match plan {
                    RangePlan::Invalidate { first, last } => NvencSession {
                        last_rfi_range: Some((first, last)),
                        pending_anchor: true,
                        ..old(self).ses
                    },
                    _ => NvencSession { pending_anchor: true, ..old(self).ses },
                }
            },
    {
        let ses = self.ses;
        if ses.encoder == 0 || !self.cfg.rfi_supported {
            return false;
        }
        match plan {
            RangePlan::Covered => {
                self.ses = NvencSession { pending_anchor: true, ..ses };
                true
            },
            RangePlan::Decline => false,
            RangePlan::Invalidate { first, last } => {
                if !all_accepted {
                    return false;
                }
                self.ses = NvencSession {
                    last_rfi_range: Some((first, last)),
                    pending_anchor: true,
                    ..ses
                };
                true
            },
        }
    }

    /// Begins a poll for a whole unit. On the two-thread path completions are taken in first.
    pub fn poll(&mut self) -> (r: Result<PollStep, NvencError>)
        requires
            old(self).wf(),
        ensures
            final(self).wf(),
            final(self).same_state(*old(self)),
            final(self).regs@ == old(self).regs@,
            final(self).bitstreams@ == old(self).bitstreams@,
            final(self).events@ == old(self).events@,
            r is Err <==> old(self).flow.chunk is Some,
            r is Err ==> r->Err_0 == NvencError::MidChunk && final(self).same_queues(*old(self)),
            r is Ok && old(self).ses.async_on ==> {
                &&& final(self).pending@ == old(self).pending@
                &&& if old(self).ready@.len() > 0 {
                    &&& r->Ok_0 == PollStep::Ready(old(self).ready@[0])
                    &&& final(self).ready@ == old(self).ready@.drop_first()
                } else {
                    &&& r->Ok_0 is Idle
                    &&& final(self).ready@ == old(self).ready@
                }
            },
            r is Ok && !old(self).ses.async_on ==> {
                &&& final(self).ready@ == old(self).ready@
                &&& if old(self).pending@.len() > 0 {
                    &&& r->Ok_0 == PollStep::Lock(old(self).pending@[0])
                    &&& final(self).pending@ == old(self).pending@.drop_first()
                } else {
                    &&& r->Ok_0 is Idle
                    &&& final(self).pending@ == old(self).pending@
                }
            },
    {
        if self.flow.chunk.is_some() {
            return Err(NvencError::MidChunk);
        }
        if self.ses.async_on {
            return match self.ready.pop_front() {
                Some(au) => {
                    assert(self.ready@ =~= old(self).ready@.drop_first());
                    Ok(PollStep::Ready(au))
                },
                None => Ok(PollStep::Idle),
            };
        }
        match self.pending.pop_front() {
            Some(frame) => {
                assert(self.pending@ =~= old(self).pending@.drop_first());
                Ok(PollStep::Lock(frame))
            },
            None => Ok(PollStep::Idle),
        }
    }

    /// The unit of a frame whose output has been read.
    pub fn finish_unit(frame: PendingFrame, data: Vec<u8>, keyframe: bool) -> (au: EncodedFrame)
        ensures
            unit_is(au, frame, data@, keyframe),
    {
        EncodedFrame {
            data,
            pts_ns: frame.pts_ns,
            keyframe,
            recovery_anchor: frame.anchor,
            chunk_aligned: false,
        }
    }

    /// Whether units can be delivered slice by slice.
    pub fn supports_chunked_poll(&self) -> (r: bool)
        ensures
            r == self.chunks_available(),
    {
        self.ses.subframe_chunks && !self.ses.async_on
    }

    /// Begins a chunked poll.
    pub fn poll_chunk(&self) -> (s: ChunkStep)
        ensures
            s == if !self.chunks_available() && self.flow.chunk is None {
                ChunkStep::Whole
            } else if self.pending@.len() == 0 {
                ChunkStep::Idle
            } else {
                ChunkStep::Sample(self.pending@[0])
            },
    {
        if !self.supports_chunked_poll() && self.flow.chunk.is_none() {
            return ChunkStep::Whole;
        }
        if self.pending.len() == 0 {
            return ChunkStep::Idle;
        }
        ChunkStep::Sample(self.pending[0])
    }

    /// How long to sample for more slices, in microseconds: two frame intervals.
    pub fn chunk_budget_us(&self) -> (us: u64)
        ensures
            us == 2_000_000int / (at_least_one(self.cfg.fps) as int),
    {
        let fps: u64 = if self.cfg.fps == 0 {
            1
        } else {
            self.cfg.fps as u64
        };
        2_000_000 / fps
    }

    /// Judges a sample of the growing unit: `slices` whole slices in `len` bytes.
    pub fn judge_sample(&self, slices: u32, len: usize) -> (v: ChunkVerdict)
        ensures
            v == if slices >= self.cfg.slices {
                ChunkVerdict::Finish
            } else if slices > self.flow.chunk_progress().slices_out && len
                > self.flow.chunk_progress().emitted {
                ChunkVerdict::Emit
            } else {
                ChunkVerdict::Wait
            },
    {
        let progress = match self.flow.chunk {
            Some(c) => c,
            None => ChunkState::new(),
        };
        if slices >= self.cfg.slices {
            ChunkVerdict::Finish
        } else if slices > progress.slices_out && len > progress.emitted {
            ChunkVerdict::Emit
        } else {
            ChunkVerdict::Wait
        }
    }

    /// Decides how a chunked poll goes on after a try at a sample, which holds whole slices in some
    /// bytes where there was one. Once sampling has outlasted its budget without a chunk to deliver,
    /// the finished unit is taken.
    pub fn chunk_step(&self, sample: Option<(u32, usize)>, budget_spent: bool) -> (v: ChunkVerdict)
        ensures
            v == ({
                let progress = self.flow.chunk_progress();
                if sample is Some && (sample->0).0 >= self.cfg.slices {
                    ChunkVerdict::Finish
                } else if sample is Some && (sample->0).0 > progress.slices_out && (sample->0).1
                    > progress.emitted {
                    ChunkVerdict::Emit
                } else if budget_spent {
                    ChunkVerdict::Finish
                } else {
                    ChunkVerdict::Wait
                }
            }),
    {
        let verdict = match sample {
            Some((slices, len)) => self.judge_sample(slices, len),
            None => ChunkVerdict::Wait,
        };
        match verdict {
            ChunkVerdict::Wait => if budget_spent {
                ChunkVerdict::Finish
            } else {
                ChunkVerdict::Wait
            },
            other => other,
        }
    }

    /// What [`Self::emit_chunk`] delivers, and does to the encoder.
    pub open spec fn emits(self, slices: u32, sample: Seq<u8>, chunk: AuChunk, after: Self) -> bool {
        let progress = self.flow.chunk_progress();
        &&& after.wf()
        &&& after.same_queues(self)
        &&& after.cfg == self.cfg
        &&& after.ses == self.ses
        &&& after.flow == self.flow.delivered(sample.len() as usize, slices)
        &&& chunk.data@ == sample.subrange(progress.emitted as int, sample.len() as int)
        &&& chunk_is(chunk, self.pending@[0], self.pending@[0].idr_hint, !progress.opened, false)
    }

    /// Delivers what a sample adds to the bytes already delivered.
    pub fn emit_chunk(&mut self, slices: u32, sample: &[u8]) -> (chunk: AuChunk)
        requires
            old(self).wf(),
            old(self).pending@.len() > 0,
            old(self).flow.chunk_progress().emitted <= sample@.len(),
        ensures
            old(self).emits(slices, sample@, chunk, *final(self)),
    {
        let frame = self.pending[0];
        let flow = self.flow;
        let progress = match flow.chunk {
            Some(c) => c,
            None => ChunkState::new(),
        };
        let data = copy_tail(sample, progress.emitted);
        self.flow = NvencFlow {
            chunk: Some(ChunkState { emitted: sample.len(), slices_out: slices, opened: true }),
            ..flow
        };
        AuChunk {
            data,
            pts_ns: frame.pts_ns,
            keyframe: frame.idr_hint,
            recovery_anchor: frame.anchor,
            chunk_aligned: false,
            first: !progress.opened,
            last: false,
        }
    }

    /// What [`Self::take_finished`] does to the encoder.
    pub open spec fn hands_over(self, frame: PendingFrame, after: Self) -> bool {
        &&& after.wf()
        &&& after.same_state(self)
        &&& frame == self.pending@[0]
        &&& after.pending@ == self.pending@.drop_first()
        &&& after.regs@ == self.regs@
        &&& after.bitstreams@ == self.bitstreams@
        &&& after.events@ == self.events@
        &&& after.ready@ == self.ready@
    }

    /// Takes the frame whose finished unit is to be read. Sampling has ended.
    pub fn take_finished(&mut self) -> (frame: PendingFrame)
        requires
            old(self).wf(),
            old(self).pending@.len() > 0,
        ensures
            old(self).hands_over(frame, *final(self)),
    {
        let frame = self.pending[0];
        self.pending.pop_front();
        assert(self.pending@ =~= old(self).pending@.drop_first());
        frame
    }

    /// What [`Self::finish_chunk`] delivers, and does to the encoder.
    pub open spec fn finishes(
        self,
        frame: PendingFrame,
        full: Seq<u8>,
        keyframe: bool,
        r: Result<AuChunk, NvencError>,
        after: Self,
    ) -> bool {
        let progress = self.flow.chunk_progress();
        &&& after.wf()
        &&& after.same_queues(self)
        &&& after.cfg == self.cfg
        &&& after.ses == self.ses
        &&& after.flow == (NvencFlow { chunk: None, ..self.flow })
        &&& match r {
            Err(e) => progress.emitted > full.len() && e == (NvencError::EmittedBeyondUnit {
                emitted: progress.emitted,
                total: full.len() as usize,
            }),
            Ok(chunk) => {
                &&& progress.emitted <= full.len()
                &&& chunk.data@ == full.subrange(progress.emitted as int, full.len() as int)
                &&& chunk_is(chunk, frame, keyframe, !progress.opened, true)
            },
        }
    }

    /// Delivers the rest of a finished unit, which ends its chunked delivery either way. A unit that
    /// is shorter than what was delivered of it is an error.
    pub fn finish_chunk(&mut self, frame: PendingFrame, full: &[u8], keyframe: bool) -> (r: Result<
        AuChunk,
        NvencError,
    >)
        requires
            old(self).wf(),
        ensures
            old(self).finishes(frame, full@, keyframe, r, *final(self)),
    {
        let progress = match self.flow.chunk {
            Some(c) => c,
            None => ChunkState::new(),
        };
        let flow = self.flow;
        self.flow = NvencFlow { chunk: None, ..flow };
        if progress.emitted > full.len() {
            return Err(
                NvencError::EmittedBeyondUnit { emitted: progress.emitted, total: full.len() },
            );
        }
        let data = copy_tail(full, progress.emitted);
        Ok(
            AuChunk {
                data,
                pts_ns: frame.pts_ns,
                keyframe,
                recovery_anchor: frame.anchor,
                chunk_aligned: false,
                first: !progress.opened,
                last: true,
            },
        )
    }

    /// The encoder once its session is gone: everything of it is dropped, with what its retrieve
    /// thread had finished. On the synchronous path the finished units stay to be polled.
    pub open spec fn lets_go(self, after: Self) -> bool {
        &&& after.cfg == self.cfg
        &&& after.ses == self.ses.closed()
        &&& after.flow == (NvencFlow { chunk: None, ..self.flow })
        &&& after.regs@ == Map::<u64, u64>::empty()
        &&& after.bitstreams@.len() == 0
        &&& after.events@.len() == 0
        &&& after.pending@.len() == 0
        &&& self.ses.async_on ==> after.ready@.len() == 0
        &&& !self.ses.async_on ==> after.ready@ == self.ready@
    }

    /// What [`Self::teardown`] does to the encoder and to the books, with the parked sessions that it
    /// ages out.
    pub open spec fn tears_down(
        self,
        outcome: DestroyOutcome,
        budget: SessionBudget,
        cap: u32,
        aged: Seq<ParkedSession>,
        after: Self,
        after_budget: SessionBudget,
    ) -> bool {
        &&& after.wf()
        &&& after_budget.wf()
        &&& self.ses.encoder == 0 ==> {
            &&& after.same_state(self)
            &&& after.same_queues(self)
            &&& after_budget.live_units == budget.live_units
            &&& after_budget.parked@ == budget.parked@
            &&& aged.len() == 0
        }
        &&& self.ses.encoder != 0 ==> {
            &&& self.lets_go(after)
            &&& budget.settles(
                self.ses.encoder,
                self.ses.session_units,
                outcome,
                cap,
                aged,
                after_budget,
            )
        }
    }

    /// What [`Self::reset`] does: the teardown, and then the next frame is forced to be a keyframe.
    pub open spec fn resets(
        self,
        outcome: DestroyOutcome,
        budget: SessionBudget,
        cap: u32,
        aged: Seq<ParkedSession>,
        after: Self,
        after_budget: SessionBudget,
    ) -> bool {
        let torn = NvencD3d11Encoder {
            flow: NvencFlow { force_kf: self.flow.force_kf, ..after.flow },
            ..after
        };
        &&& after.flow.force_kf
        &&& self.tears_down(outcome, budget, cap, aged, torn, after_budget)
    }

    /// Settles the session's end after its resources were released and its destruction was tried.
    /// Without a session nothing happens. Returns the parked sessions that were aged out.
    pub fn teardown(&mut self, outcome: DestroyOutcome, budget: &mut SessionBudget, cap: u32) -> (aged:
        Vec<ParkedSession>)
        requires
            old(self).wf(),
            old(budget).wf(),
            old(self).ses.encoder != 0 ==> old(self).ses.session_units <= old(budget).open_units(),
        ensures
            old(self).tears_down(
                outcome,
                *old(budget),
                cap,
                aged@,
                *final(self),
                *final(budget),
            ),
    {
        broadcast use vstd::std_specs::hash::group_hash_axioms;

        let ses = self.ses;
        let flow = self.flow;
        if ses.encoder == 0 {
            return Vec::new();
        }
        if ses.async_on {
            self.ready.clear();
        }
        let aged = budget.session_closed(ses.encoder, ses.session_units, outcome, cap);
        self.events.clear();
        self.regs.clear();
        self.bitstreams.clear();
        self.pending.clear();
        self.ses = NvencSession {
            encoder: 0,
            inited: false,
            next: 0,
            subframe_chunks: false,
            async_on: false,
            session_units: 0,
            last_rfi_range: None,
            pending_anchor: false,
            ..ses
        };
        self.flow = NvencFlow { chunk: None, ..flow };
        assert(self.regs@ =~= Map::<u64, u64>::empty());
        aged
    }

    /// Recovers from a stall: the session is torn down, to be opened again by the next frame, which
    /// will be a keyframe.
    pub fn reset(&mut self, outcome: DestroyOutcome, budget: &mut SessionBudget, cap: u32) -> (rebuilt:
        bool)
        requires
            old(self).wf(),
            old(budget).wf(),
            old(self).ses.encoder != 0 ==> old(self).ses.session_units <= old(budget).open_units(),
        ensures
            rebuilt,
            final(self).wf(),
            final(budget).wf(),
            exists|aged: Seq<ParkedSession>| #[trigger]
                old(self).resets(
                    outcome,
                    *old(budget),
                    cap,
                    aged,
                    *final(self),
                    *final(budget),
                ),
    {
        let aged = self.teardown(outcome, budget, cap);
        let ghost torn = *self;
        self.request_keyframe();
        proof {
            let same = NvencD3d11Encoder {
                flow: NvencFlow { force_kf: old(self).flow.force_kf, ..self.flow },
                ..*self
            };
            assert(same.flow == torn.flow);
            assert(old(self).tears_down(outcome, *old(budget), cap, aged@, same, *budget));
            assert(old(self).resets(outcome, *old(budget), cap, aged@, *self, *budget));
        }
        true
    }

    /// Begins a bitrate change. A rate above the remembered ceiling is asked for at the ceiling.
    pub fn reconfigure_bitrate(&mut self, bps: u64, cached_ceiling: Option<u64>) -> (p: ReconfigurePlan)
        requires
            old(self).wf(),
        ensures
            final(self).wf(),
            final(self).same_queues(*old(self)),
            final(self).ses == old(self).ses,
            final(self).flow == old(self).flow,
            !old(self).ses.inited ==> p is Stored && final(self).cfg == (NvencConfig {
                bitrate_bps: bps,
                ..old(self).cfg
            }),
            old(self).ses.inited ==> final(self).cfg == old(self).cfg && p == ReconfigurePlan::Apply(
                match cached_ceiling {
                    Some(c) => if bps <= c {
                        bps
                    } else {
                        c
                    },
                    None => bps,
                },
            ),
    {
        if !self.ses.inited {
            self.cfg.bitrate_bps = bps;
            return ReconfigurePlan::Stored;
        }
        let target: u64 = match cached_ceiling {
            Some(c) => if bps <= c {
                bps
            } else {
                c
            },
            None => bps,
        };
        ReconfigurePlan::Apply(target)
    }

    /// Records the driver's answer to a rate change. `false` means that the caller rebuilds.
    pub fn note_reconfigured(&mut self, bps: u64, accepted: bool) -> (r: bool)
        requires
            old(self).wf(),
        ensures
            r == accepted,
            final(self).wf(),
            final(self).same_queues(*old(self)),
            final(self).ses == old(self).ses,
            final(self).flow == old(self).flow,
            final(self).cfg == if accepted {
                NvencConfig { bitrate_bps: bps, ..old(self).cfg }
            } else {
                old(self).cfg
            },
    {
        if accepted {
            self.cfg.bitrate_bps = bps;
        }
        accepted
    }

    /// The rate the session runs at.
    pub fn applied_bitrate_bps(&self) -> (r: Option<u64>)
        ensures
            r == Some(self.cfg.bitrate_bps),
    {
        Some(self.cfg.bitrate_bps)
    }
}

/// Checks what was delivered of a unit against the finished unit, which has to begin with it.
pub fn check_delivered(delivered: &[u8], full: &[u8]) -> (r: Result<(), NvencError>)
    ensures
        r == if delivered@.len() > full@.len() {
            Err::<(), NvencError>(
                NvencError::EmittedBeyondUnit {
                    emitted: delivered@.len() as usize,
                    total: full@.len() as usize,
                },
            )
        } else if delivered@ != full@.subrange(0, delivered@.len() as int) {
            Err::<(), NvencError>(NvencError::ChunksDiverge)
        } else {
            Ok::<(), NvencError>(())
        },
{
    if delivered.len() > full.len() {
        return Err(
            NvencError::EmittedBeyondUnit { emitted: delivered.len(), total: full.len() },
        );
    }
    let ghost head = full@.subrange(0, delivered@.len() as int);
    let mut i: usize = 0;
    while i < delivered.len()
        invariant
            i <= delivered@.len() <= full@.len(),
            head == full@.subrange(0, delivered@.len() as int),
            forall|j: int| 0 <= j < i ==> delivered@[j] == #[trigger] head[j],
        decreases delivered@.len() - i,
    {
        if delivered[i] != full[i] {
            assert(head[i as int] == full@[i as int]);
            return Err(NvencError::ChunksDiverge);
        }
        i = i + 1;
    }
    assert(delivered@ =~= head);
    Ok(())
}

/// The unit of `frame` with the given content.
pub open spec fn unit_is(
    au: EncodedFrame,
    frame: PendingFrame,
    data: Seq<u8>,
    keyframe: bool,
) -> bool {
    &&& au.data@ == data
    &&& au.pts_ns == frame.pts_ns
    &&& au.keyframe == keyframe
    &&& au.recovery_anchor == frame.anchor
    &&& !au.chunk_aligned
}

/// A chunk of the unit of `frame`, apart from its bytes.
pub open spec fn chunk_is(
    chunk: AuChunk,
    frame: PendingFrame,
    keyframe: bool,
    first: bool,
    last: bool,
) -> bool {
    &&& chunk.pts_ns == frame.pts_ns
    &&& chunk.keyframe == keyframe
    &&& chunk.recovery_anchor == frame.anchor
    &&& !chunk.chunk_aligned
    &&& chunk.first == first
    &&& chunk.last == last
}

/// The two halves of an adapter's identifier as one number.
pub fn join_luid(high: u32, low: u32) -> (luid: u64)
    ensures
        luid == high * 0x1_0000_0000 + low,
{
    let h: u64 = high as u64;
    let l: u64 = low as u64;
    assert((h << 32u64) | l == h * 0x1_0000_0000 + l) by (bit_vector)
        requires
            h <= 0xffff_ffff,
            l <= 0xffff_ffff,
    ;
    (h << 32u64) | l
}

/// Whether the adapter encodes 4:4:4, by its answer to the capability query (`None` where no session
/// could be opened to ask). Only HEVC has it.
pub fn probe_can_encode_444(codec: Codec, answer: Option<i32>) -> (r: bool)
    ensures
        r == (codec == Codec::H265 && answer is Some && answer->0 != 0),
{
    if codec != Codec::H265 {
        return false;
    }
    match answer {
        Some(v) => v != 0,
        None => false,
    }
}

/// Whether the adapter encodes ten-bit samples of the codec.
pub fn probe_can_encode_10bit(codec: Codec, answer: Option<i32>) -> (r: bool)
    ensures
        r == (codec.is_ten_bit_codec() && answer is Some && answer->0 != 0),
{
    if !codec.supports_10bit() {
        return false;
    }
    match answer {
        Some(v) => v != 0,
        None => false,
    }
}

/// A codec identifier of the driver, as one number.
pub const CODEC_H264_GUID: u128 = 0x6bc82762_4e63_4ca4_aa85_1e50f321f6bf;

pub const CODEC_HEVC_GUID: u128 = 0x790cdc88_4522_4d7b_9425_bda9975f7603;

pub const CODEC_AV1_GUID: u128 = 0x0a352289_0aa7_4759_862d_5d15cd16d254;

pub(crate) fn lists(guids: &Vec<u128>, guid: u128) -> (r: bool)
    ensures
        r == guids@.contains(guid),
{
    let mut i: usize = 0;
    while i < guids.len()
        invariant
            i <= guids@.len(),
            forall|j: int| 0 <= j < i ==> guids@[j] != guid,
        decreases guids@.len() - i,
    {
        if guids[i] == guid {
            assert(guids@[i as int] == guid);
            return true;
        }
        i = i + 1;
    }
    false
}

/// The codecs that the driver lists. `None` where it listed none, which claims no support.
pub fn probe_codec_support(listed: Option<&Vec<u128>>) -> (s: CodecSupport)
    ensures
        s == match listed {
            Some(guids) => CodecSupport {
                h264: guids@.contains(CODEC_H264_GUID),
                h265: guids@.contains(CODEC_HEVC_GUID),
                av1: guids@.contains(CODEC_AV1_GUID),
            },
            None => CodecSupport { h264: false, h265: false, av1: false },
        },
{
    match listed {
        Some(guids) => CodecSupport {
            h264: lists(guids, CODEC_H264_GUID),
            h265: lists(guids, CODEC_HEVC_GUID),
            av1: lists(guids, CODEC_AV1_GUID),
        },
        None => CodecSupport { h264: false, h265: false, av1: false },
    }
}

} // verus!

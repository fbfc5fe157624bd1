//! The QSV backend: native encoding on Intel adapters.
//!
//! [`QsvEncoder`] holds what the backend knows between runtime calls. Every frame in flight owns the
//! buffer its unit is written to; buffers of retrieved units go back to a pool.
pub mod laws;
pub mod params;
pub mod submit;

use crate::flow::{
    accounts, check_input, input_format, input_refusal, law_oldest_in_flight_is_next,
    lemma_retrieve_accounts, lemma_submit_accounts, reset_count, unit_of, DrainStep, FlowState,
    InputError, PendingUnit, PollBegin, ResetPlan,
};
use crate::ltr::{Distrust, LtrPlan, LtrSlots};
use crate::qsv::params::{vpl_ok, EncodeConfig, QsvError, Status};
use crate::types::{
    at_least_one, format_is_ten_bit, is_10bit_format, meta_equals, same_meta, ChromaFormat, Codec,
    EncodedFrame, EncoderCaps, HdrMeta, PayloadKind, PixelFormat,
};
use std::collections::VecDeque;
use vstd::prelude::*;

verus! {

/// Frames in flight before a submit waits for output.
pub const IN_FLIGHT_MAX: usize = 4;

/// How long a submit waits on a busy device before it declares it wedged, in milliseconds.
pub const BUSY_BUDGET_MS: u64 = 200;

/// Smallest buffer for a unit, in bytes.
pub const MIN_UNIT_BYTES: usize = 262144;

/// What an encoder is opened with.
#[derive(Clone, Copy, Debug, PartialEq, Eq, Structural)]
pub struct QsvConfig {
    pub codec: Codec,
    pub width: u32,
    pub height: u32,
    pub fps: u32,
    pub bitrate_bps: u64,
    pub ten_bit: bool,
}

/// What belongs to the running session.
#[derive(Clone, Copy, Debug)]
pub struct QsvSession {
    pub live: bool,
    pub bound_device: u64,
    pub frames_submitted: u64,
    /// Bytes the largest unit may take.
    pub bs_bytes: usize,
    /// The metadata the session was built with.
    pub hdr_applied: Option<HdrMeta>,
    pub ir_active: bool,
    pub ltr_active: bool,
}

/// A frame in flight.
pub struct Pending {
    /// Handle to wait on for the unit.
    pub syncp: u64,
    /// Buffer the unit is written to.
    pub buf: Vec<u8>,
    pub unit: PendingUnit,
}

pub struct QsvEncoder {
    pub cfg: QsvConfig,
    pub ses: QsvSession,
    pub flow: FlowState,
    pub ltr: LtrSlots,
    /// Frames in flight, oldest first.
    pub pending: VecDeque<Pending>,
    /// Units retrieved while a submit made room, older than anything in flight.
    pub ready: VecDeque<EncodedFrame>,
    /// Buffers to use again.
    pub pool: Vec<Vec<u8>>,
}

/// Runtime answers while a session is initialised.
#[derive(Clone, Copy, Debug, PartialEq, Eq, Structural)]
pub struct InitCalls {
    /// Query of the parameters together with reference-list control.
    pub query: Status,
    pub init: Status,
    /// Read-back of the parameters, with the buffer size and its multiplier.
    pub readback: Status,
    pub buffer_kb: u16,
    pub multiplier: u16,
    /// Read-back of the wave.
    pub wave_readback: Status,
    pub wave_kind: u16,
}

/// What an initialised session can do.
#[derive(Clone, Copy, Debug, PartialEq, Eq, Structural)]
pub struct Initialised {
    pub ltr_active: bool,
    pub ir_active: bool,
    pub bs_bytes: usize,
}

/// Outcome of waiting on the oldest frame in flight: the runtime's answer, and what it says of the
/// unit where there is one.
#[derive(Clone, Copy, Debug, PartialEq, Eq, Structural)]
pub struct SyncEvent {
    pub sts: Status,
    pub offset: u32,
    pub length: u32,
    pub idr: bool,
    pub intra: bool,
}

impl SyncEvent {
    /// The wait brought no unit: it failed, or the frame is still being encoded.
    pub open spec fn is_empty(self) -> bool {
        self.sts == Status::WarnInExecution || !self.sts.succeeded()
    }

    /// The unit in the buffer `buf`.
    pub open spec fn content(self, buf: Seq<u8>) -> Seq<u8> {
        buf.subrange(self.offset as int, self.offset + self.length)
    }

    /// The unit is a keyframe by its own type.
    pub open spec fn is_key(self) -> bool {
        self.idr || self.intra
    }

    /// The error for a unit said to lie outside of its buffer.
    pub open spec fn overrun(self, size: nat) -> QsvError {
        QsvError::OutOfBounds { offset: self.offset, length: self.length, buffer: size as usize }
    }

    /// The unit lies within a buffer of `size` bytes.
    pub open spec fn fits(self, size: nat) -> bool {
        self.offset + self.length <= size
    }
}

/// How the wait for the frames in flight goes on.
#[derive(Clone, Copy, Debug, PartialEq, Eq, Structural)]
pub enum SettleStep {
    /// Look again at once.
    Again,
    /// Sleep a little first.
    Wait,
    /// The change is given up.
    GiveUp,
}

/// What a frame is submitted with.
#[derive(Clone, Copy, Debug)]
pub struct FramePlan {
    pub cur_idx: i64,
    pub forced: bool,
    pub ltr: LtrPlan,
}

/// Presentation time in units of 1/90000 s; the product is taken in 64 bits.
pub open spec fn ticks_90k(pts_ns: u64) -> int {
    (pts_ns as int * 9) % 0x1_0000_0000_0000_0000 / 100_000
}

/// Presentation time of a frame for the runtime.
pub fn timestamp(pts_ns: u64) -> (t: u64)
    ensures
        t == ticks_90k(pts_ns),
{
    let wide: u128 = pts_ns as u128 * 9;
    let low: u64 = (wide % 0x1_0000_0000_0000_0000) as u64;
    low / 100_000
}

/// Bytes for the largest unit of the reported buffer size.
pub open spec fn unit_bytes(kb: u16, multiplier: u16) -> int {
    let m: int = if multiplier == 0 {
        1
    } else {
        multiplier as int
    };
    let bytes = kb as int * m * 1000;
    if bytes < MIN_UNIT_BYTES {
        MIN_UNIT_BYTES as int
    } else {
        bytes
    }
}

/// Bytes for the largest unit of the reported buffer size.
pub fn au_bytes(kb: u16, multiplier: u16) -> (b: usize)
    requires
        unit_bytes(kb, multiplier) <= usize::MAX,
    ensures
        b == unit_bytes(kb, multiplier),
{
    let m: u64 = if multiplier == 0 {
        1
    } else {
        multiplier as u64
    };
    assert(kb * m <= 65535 * 65535) by (nonlinear_arith)
        requires
            kb <= 65535,
            m <= 65535,
    ;
    let bytes: u64 = kb as u64 * m * 1000;
    if bytes < 262144 {
        MIN_UNIT_BYTES
    } else {
        bytes as usize
    }
}

/// Index of the last buffer of at least `n` bytes, -1 where there is none.
pub open spec fn last_fitting(pool: Seq<Vec<u8>>, n: usize) -> int
    decreases pool.len(),
{
    if pool.len() == 0 {
        -1
    } else if pool.last()@.len() >= n {
        pool.len() - 1
    } else {
        last_fitting(pool.drop_last(), n)
    }
}

proof fn lemma_last_fitting(pool: Seq<Vec<u8>>, n: usize)
    ensures
        -1 <= last_fitting(pool, n) < pool.len(),
        last_fitting(pool, n) >= 0 ==> pool[last_fitting(pool, n)]@.len() >= n,
    decreases pool.len(),
{
    if pool.len() > 0 && pool.last()@.len() < n {
        lemma_last_fitting(pool.drop_last(), n);
    }
}

impl QsvSession {
    /// No session.
    pub open spec fn closed(self) -> QsvSession {
        QsvSession { live: false, bound_device: 0, ir_active: false, ltr_active: false, ..self }
    }
}

impl QsvEncoder {
    pub open spec fn wf(self) -> bool {
        &&& self.cfg.codec != Codec::PyroWave
        &&& self.ltr.wf()
        &&& self.ltr.distrust == Distrust::Flag
        &&& self.flow.frame_idx >= 0
        &&& !self.ses.live ==> self.pending@.len() == 0 && self.ready@.len() == 0
    }

    /// The next frame will be a keyframe: one is asked for, or the session has none yet.
    pub open spec fn next_is_keyframe(self) -> bool {
        self.flow.force_kf || !self.ses.live || self.ses.frames_submitted == 0
    }

    /// All queues are as in `other`.
    pub open spec fn same_queues(self, other: QsvEncoder) -> bool {
        &&& self.pending@ == other.pending@
        &&& self.ready@ == other.ready@
        &&& self.pool@ == other.pool@
    }

    /// Everything but the queues is as in `other`.
    pub open spec fn same_state(self, other: QsvEncoder) -> bool {
        &&& self.cfg == other.cfg
        &&& self.ses == other.ses
        &&& self.flow == other.flow
        &&& self.ltr == other.ltr
    }

    /// Why an encoder may not open.
    pub open spec fn open_refusal(
        implementation_found: bool,
        av1_probed: bool,
        codec: Codec,
        format: PixelFormat,
    ) -> Option<QsvError> {
        let ten_bit = format_is_ten_bit(format);
        if codec == Codec::PyroWave {
            Some(QsvError::UnsupportedCodec)
        } else if !implementation_found {
            Some(QsvError::NoImplementation)
        } else if codec == Codec::Av1 && !av1_probed {
            Some(QsvError::Av1Declined)
        } else if ten_bit && codec == Codec::H264 {
            Some(QsvError::TenBitH264)
        } else if format != input_format(ten_bit) {
            Some(QsvError::FormatMismatch { expected: input_format(ten_bit), delivered: format })
        } else {
            None
        }
    }

    /// Creates the encoder. The sample depth follows the delivered pixels, whatever was negotiated,
    /// and 4:4:4 is encoded as 4:2:0. `implementation_found` tells whether the vendor's hardware
    /// implementation is installed. The session opens with the first frame.
    pub fn open(
        implementation_found: bool,
        av1_probed: bool,
        codec: Codec,
        format: PixelFormat,
        width: u32,
        height: u32,
        fps: u32,
        bitrate_bps: u64,
        _bit_depth: u8,
        _chroma: ChromaFormat,
        mark_interval: i64,
        test_force_at: Option<i64>,
    ) -> (r: Result<QsvEncoder, QsvError>)
        requires
            mark_interval >= 1,
        ensures
            match Self::open_refusal(implementation_found, av1_probed, codec, format) {
                Some(e) => r is Err && r->Err_0 == e,
                None => r is Ok && {
                    let enc = r->Ok_0;
                    &&& enc.wf()
                    &&& enc.cfg == (QsvConfig {
                        codec,
                        width,
                        height,
                        fps,
                        bitrate_bps,
                        ten_bit: format_is_ten_bit(format),
                    })
                    &&& enc.ses == (QsvSession {
                        live: false,
                        bound_device: 0,
                        frames_submitted: 0,
                        bs_bytes: 0,
                        hdr_applied: None,
                        ir_active: false,
                        ltr_active: false,
                    })
                    &&& enc.flow == (FlowState {
                        frame_idx: 0,
                        force_kf: false,
                        hdr_meta: None,
                        test_force_at,
                        resets_without_output: 0,
                    })
                    &&& enc.ltr.is_cleared()
                    &&& enc.ltr.mark_interval == mark_interval
                    &&& enc.pool@.len() == 0
                },
            },
    {
        if codec == Codec::PyroWave {
            return Err(QsvError::UnsupportedCodec);
        }
        if !implementation_found {
            return Err(QsvError::NoImplementation);
        }
        if codec == Codec::Av1 && !av1_probed {
            return Err(QsvError::Av1Declined);
        }
        let ten_bit = is_10bit_format(format);
        if ten_bit && codec == Codec::H264 {
            return Err(QsvError::TenBitH264);
        }
        let expected = if ten_bit {
            PixelFormat::P010
        } else {
            PixelFormat::Nv12
        };
        if format != expected {
            return Err(QsvError::FormatMismatch { expected, delivered: format });
        }
        Ok(
            QsvEncoder {
                cfg: QsvConfig { codec, width, height, fps, bitrate_bps, ten_bit },
                ses: QsvSession {
                    live: false,
                    bound_device: 0,
                    frames_submitted: 0,
                    bs_bytes: 0,
                    hdr_applied: None,
                    ir_active: false,
                    ltr_active: false,
                },
                flow: FlowState {
                    frame_idx: 0,
                    force_kf: false,
                    hdr_meta: None,
                    test_force_at,
                    resets_without_output: 0,
                },
                ltr: LtrSlots::new(mark_interval, Distrust::Flag),
                pending: VecDeque::new(),
                ready: VecDeque::new(),
                pool: Vec::new(),
            },
        )
    }

    /// Whether long-term references are worth asking for. A wave and long-term references are not
    /// used together.
    pub fn ltr_wanted(ltr_disabled: bool, intra_refresh: bool) -> (r: bool)
        ensures
            r == (!ltr_disabled && !intra_refresh),
    {
        !ltr_disabled && !intra_refresh
    }

    /// The configuration of a session.
    pub open spec fn config_with(self, intra_refresh: bool) -> EncodeConfig {
        EncodeConfig {
            codec: self.cfg.codec,
            width: self.cfg.width,
            height: self.cfg.height,
            fps: self.cfg.fps,
            bitrate_bps: self.cfg.bitrate_bps,
            ten_bit: self.cfg.ten_bit,
            intra_refresh,
            hdr_meta: self.flow.hdr_meta,
        }
    }

    /// The configuration of a session.
    pub fn encode_config(&self, intra_refresh: bool) -> (cfg: EncodeConfig)
        ensures
            cfg == self.config_with(intra_refresh),
    {
        EncodeConfig {
            codec: self.cfg.codec,
            width: self.cfg.width,
            height: self.cfg.height,
            fps: self.cfg.fps,
            bitrate_bps: self.cfg.bitrate_bps,
            ten_bit: self.cfg.ten_bit,
            intra_refresh,
            hdr_meta: self.flow.hdr_meta,
        }
    }

    /// Judges the calls that initialise a session. Long-term references count as active where they
    /// are wanted and the query accepted them; a requested wave counts as active unless the runtime
    /// reports that it dropped it.
    pub fn init_encode(&self, ltr_disabled: bool, intra_refresh: bool, calls: &InitCalls) -> (r: Result<
        Initialised,
        QsvError,
    >)
        requires
            unit_bytes(calls.buffer_kb, calls.multiplier) <= usize::MAX,
        ensures
            match r {
                Err(e) => if !calls.init.succeeded() {
                    e == QsvError::Call(calls.init)
                } else {
                    !calls.readback.succeeded() && e == QsvError::Call(calls.readback)
                },
                Ok(i) => {
                    &&& calls.init.succeeded()
                    &&& calls.readback.succeeded()
                    &&& i.ltr_active == (!ltr_disabled && !intra_refresh && calls.query.succeeded())
                    &&& i.ir_active == (self.config_with(intra_refresh).has_wave() && (
                    calls.wave_readback.succeeded() ==> calls.wave_kind != 0))
                    &&& i.bs_bytes == unit_bytes(calls.buffer_kb, calls.multiplier)
                    &&& !(i.ltr_active && i.ir_active)
                },
            },
    {
        let ltr_active = Self::ltr_wanted(ltr_disabled, intra_refresh) && calls.query.is_ok();
        vpl_ok(calls.init)?;
        let has_wave = intra_refresh && match self.cfg.codec {
            Codec::H264 | Codec::H265 => true,
            _ => false,
        };
        vpl_ok(calls.readback)?;
        let bs_bytes: usize = au_bytes(calls.buffer_kb, calls.multiplier);
        let ir_active = has_wave && (!calls.wave_readback.is_ok() || calls.wave_kind != 0);
        Ok(Initialised { ltr_active, ir_active, bs_bytes })
    }

    /// Refuses a frame that does not fit the encoder.
    pub fn check_frame(&self, width: u32, height: u32, payload: PayloadKind, format: PixelFormat) -> (r:
        Result<(), InputError>)
        ensures
            r == match input_refusal(
                (self.cfg.width, self.cfg.height),
                self.cfg.ten_bit,
                (width, height),
                payload,
                format,
            ) {
                Some(e) => Err::<(), InputError>(e),
                None => Ok::<(), InputError>(()),
            },
    {
        check_input(
            (self.cfg.width, self.cfg.height),
            self.cfg.ten_bit,
            (width, height),
            payload,
            format,
        )
    }

    /// What [`Self::ensure_inner`] does to the encoder.
    pub open spec fn rebinds(self, device: u64, build: bool, after: Self) -> bool {
        &&& after.wf()
        &&& build == !(self.ses.live && self.ses.bound_device == device)
        &&& !build ==> after.same_state(self) && after.same_queues(self)
        &&& build ==> {
            &&& after.cfg == self.cfg
            &&& after.flow == self.flow
            &&& after.ltr == self.ltr
            &&& after.ses == (QsvSession {
                live: false,
                bound_device: device,
                ..self.ses
            })
            &&& after.pending@.len() == 0
            &&& after.ready@.len() == 0
            &&& after.pool@.len() == 0
            &&& after.next_is_keyframe()
        }
    }

    /// Drops a session on another device than the frame's. Returns whether one has to be built; until
    /// that succeeds there is none.
    pub fn ensure_inner(&mut self, device: u64) -> (build: bool)
        requires
            old(self).wf(),
        ensures
            old(self).rebinds(device, build, *final(self)),
    {
        let ses = self.ses;
        if ses.live && ses.bound_device == device {
            return false;
        }
        self.pending.clear();
        self.ready.clear();
        self.pool.clear();
        self.ses = QsvSession { live: false, bound_device: device, ..ses };
        true
    }

    /// The session was built for another HDR grade than the source has now.
    pub open spec fn hdr_is_stale(self) -> bool {
        self.cfg.ten_bit && self.flow.hdr_meta is Some && !same_meta(
            self.flow.hdr_meta,
            self.ses.hdr_applied,
        )
    }

    /// Whether the session was built for another HDR grade than the source has now.
    pub fn has_stale_hdr(&self) -> (r: bool)
        ensures
            r == self.hdr_is_stale(),
    {
        self.cfg.ten_bit && self.flow.hdr_meta.is_some() && !meta_equals(
            &self.flow.hdr_meta,
            &self.ses.hdr_applied,
        )
    }

    /// What [`Self::drop_stale_hdr`] does to the encoder.
    pub open spec fn drops_stale(self, dropped: bool, after: Self) -> bool {
        &&& after.wf()
        &&& dropped == self.hdr_is_stale()
        &&& !dropped ==> after.same_state(self) && after.same_queues(self)
        &&& dropped ==> {
            &&& after.cfg == self.cfg
            &&& after.flow == self.flow
            &&& after.ltr == self.ltr
            &&& after.ses == (QsvSession { live: false, bound_device: 0, ..self.ses })
            &&& after.pending@.len() == 0
            &&& after.ready@.len() == 0
            &&& after.pool@.len() == 0
        }
    }

    /// Drops a session built for another HDR grade; the caller builds it anew. Returns whether that
    /// happened.
    pub fn drop_stale_hdr(&mut self) -> (dropped: bool)
        requires
            old(self).wf(),
        ensures
            old(self).drops_stale(dropped, *final(self)),
    {
        let ses = self.ses;
        if !self.has_stale_hdr() {
            return false;
        }
        self.pending.clear();
        self.ready.clear();
        self.pool.clear();
        self.ses = QsvSession { live: false, bound_device: 0, ..ses };
        true
    }

    /// What [`Self::session_built`] does to the encoder.
    pub open spec fn adopts(self, init: Initialised, after: Self) -> bool {
        &&& after.wf()
        &&& after.cfg == self.cfg
        &&& after.flow == self.flow
        &&& after.ses == (QsvSession {
            live: true,
            bound_device: self.ses.bound_device,
            frames_submitted: 0,
            bs_bytes: init.bs_bytes,
            hdr_applied: self.flow.hdr_meta,
            ir_active: init.ir_active,
            ltr_active: init.ltr_active,
        })
        &&& after.ltr.is_cleared()
        &&& after.ltr.same_policy(self.ltr)
        &&& after.pending@.len() == 0
        &&& after.ready@.len() == 0
        &&& after.pool@.len() == 0
        &&& after.next_is_keyframe()
    }

    /// Adopts a session that was built.
    pub fn session_built(&mut self, init: &Initialised)
        requires
            old(self).wf(),
            !old(self).ses.live,
        ensures
            old(self).adopts(*init, *final(self)),
    {
        let ses = self.ses;
        self.pool.clear();
        self.ltr.clear();
        self.ses = QsvSession {
            live: true,
            bound_device: ses.bound_device,
            frames_submitted: 0,
            bs_bytes: init.bs_bytes,
            hdr_applied: self.flow.hdr_meta,
            ir_active: init.ir_active,
            ltr_active: init.ltr_active,
        };
    }

    /// What [`Self::plan_frame`] returns, and does to the encoder.
    pub open spec fn plans_frame(self, p: FramePlan, after: Self) -> bool {
        &&& after.wf()
        &&& after.cfg == self.cfg
        &&& after.ses == self.ses
        &&& after.flow == (FlowState {
            frame_idx: (self.flow.frame_idx + 1) as i64,
            force_kf: false,
            ..self.flow
        })
        &&& after.same_queues(self)
        &&& p.cur_idx == self.flow.frame_idx
        &&& p.forced == self.next_is_keyframe()
        &&& !self.ses.ltr_active ==> p.ltr.mark is None && p.ltr.force is None && after.ltr
            == self.ltr
        &&& self.ses.ltr_active ==> self.ltr.plans(
            p.cur_idx,
            p.forced,
            self.flow.test_force_at,
            p.ltr,
            after.ltr,
        )
        &&& p.ltr.mark is Some ==> p.ltr.mark->0 < 2 && p.ltr.force is None
        &&& p.ltr.force is Some ==> (p.ltr.force->0).0 < 2
    }

    /// Decides type, marking and forcing of the next frame. The first frame of a session is always a
    /// keyframe.
    pub fn plan_frame(&mut self) -> (p: FramePlan)
        requires
            old(self).wf(),
            old(self).ses.live,
            old(self).flow.frame_idx < i64::MAX,
        ensures
            old(self).plans_frame(p, *final(self)),
    {
        let flow = self.flow;
        let forced = flow.force_kf || self.ses.frames_submitted == 0;
        self.flow = FlowState { frame_idx: flow.frame_idx + 1, force_kf: false, ..flow };
        let ltr = if self.ses.ltr_active {
            self.ltr.plan_frame(flow.frame_idx, forced, flow.test_force_at)
        } else {
            LtrPlan { mark: None, force: None }
        };
        FramePlan { cur_idx: flow.frame_idx, forced, ltr }
    }

    /// Whether a submit has to wait for output first.
    pub fn in_flight_full(&self) -> (r: bool)
        ensures
            r == (self.pending@.len() >= IN_FLIGHT_MAX),
    {
        self.pending.len() >= IN_FLIGHT_MAX
    }

    /// What [`Self::sync_one`] returns, and does to the encoder.
    pub open spec fn syncs(
        self,
        event: SyncEvent,
        r: Result<Option<EncodedFrame>, QsvError>,
        after: Self,
    ) -> bool {
        &&& after.wf()
        &&& after.same_state(self)
        &&& after.ready@ == self.ready@
        &&& self.pending@.len() == 0 ==> r == Ok::<Option<EncodedFrame>, QsvError>(None)
            && after.same_queues(self)
        &&& self.pending@.len() > 0 ==> if event.is_empty() {
            &&& after.same_queues(self)
            &&& r == if event.sts.succeeded() {
                Ok::<Option<EncodedFrame>, QsvError>(None)
            } else {
                Err::<Option<EncodedFrame>, QsvError>(QsvError::Call(event.sts))
            }
        } else {
            let front = self.pending@[0];
            &&& after.pending@ == self.pending@.drop_first()
            &&& if event.fits(front.buf@.len()) {
                &&& r is Ok
                &&& r->Ok_0 is Some
                &&& unit_of(
                    r->Ok_0->0,
                    front.unit,
                    event.content(front.buf@),
                    event.is_key(),
                )
                &&& after.pool@ == self.pool@.push(front.buf)
            } else {
                &&& r is Err && r->Err_0 == event.overrun(front.buf@.len())
                &&& after.pool@ == self.pool@
            }
        }
    }

    /// Takes in the outcome of waiting on the oldest frame in flight. Its unit is copied out of its
    /// buffer, which goes back to the pool; a unit said to lie outside of its buffer is an error, and
    /// the frame is lost.
    pub fn sync_one(&mut self, event: SyncEvent) -> (r: Result<Option<EncodedFrame>, QsvError>)
        requires
            old(self).wf(),
        ensures
            old(self).syncs(event, r, *final(self)),
    {
        if self.pending.len() == 0 {
            return Ok(None);
        }
        if event.sts == Status::WarnInExecution {
            return Ok(None);
        }
        vpl_ok(event.sts)?;
        match self.pending.pop_front() {
            Some(front) => {
                assert(self.pending@ =~= old(self).pending@.drop_first());
                let size: usize = front.buf.len();
                let end: u64 = event.offset as u64 + event.length as u64;
                if end > size as u64 {
                    return Err(
                        QsvError::OutOfBounds {
                            offset: event.offset,
                            length: event.length,
                            buffer: size,
                        },
                    );
                }
                let data = copy_range(&front.buf, event.offset as usize, end as usize);
                self.pool.push(front.buf);
                Ok(
                    Some(
                        EncodedFrame {
                            data,
                            pts_ns: front.unit.pts_ns,
                            keyframe: event.idr || event.intra || front.unit.forced,
                            recovery_anchor: front.unit.recovery_anchor,
                            chunk_aligned: false,
                        },
                    ),
                )
            },
            None => Ok(None),
        }
    }

    /// What [`Self::make_room`] returns, and does to the encoder.
    pub open spec fn makes_room(
        self,
        event: SyncEvent,
        budget_spent: bool,
        r: Result<DrainStep, QsvError>,
        after: Self,
    ) -> bool {
        &&& after.wf()
        &&& after.cfg == self.cfg
        &&& after.ses == self.ses
        &&& after.ltr == self.ltr
        &&& if event.is_empty() {
            &&& after.same_queues(self)
            &&& if !event.sts.succeeded() {
                &&& r == Err::<DrainStep, QsvError>(QsvError::Call(event.sts))
                &&& after.flow == self.flow
            } else if budget_spent {
                &&& r == Err::<DrainStep, QsvError>(
                    QsvError::Wedged { in_flight: self.pending@.len() as usize },
                )
                &&& after.flow == (FlowState { force_kf: true, ..self.flow })
            } else {
                &&& r == Ok::<DrainStep, QsvError>(DrainStep::Wait)
                &&& after.flow == self.flow
            }
        } else {
            let front = self.pending@[0];
            &&& after.flow == self.flow
            &&& after.pending@ == self.pending@.drop_first()
            &&& if event.fits(front.buf@.len()) {
                &&& r == Ok::<DrainStep, QsvError>(DrainStep::Again)
                &&& after.ready@.len() == self.ready@.len() + 1
                &&& after.ready@.drop_last() == self.ready@
                &&& unit_of(
                    after.ready@.last(),
                    front.unit,
                    event.content(front.buf@),
                    event.is_key(),
                )
                &&& after.pool@ == self.pool@.push(front.buf)
            } else {
                &&& r is Err && r->Err_0 == event.overrun(front.buf@.len())
                &&& after.ready@ == self.ready@
                &&& after.pool@ == self.pool@
            }
        }
    }

    /// One turn of the wait for room: a unit is kept for the next poll; a wait that outlasts its
    /// budget is a wedge, after which the next frame is a keyframe.
    pub fn make_room(&mut self, event: SyncEvent, budget_spent: bool) -> (r: Result<
        DrainStep,
        QsvError,
    >)
        requires
            old(self).wf(),
            old(self).ses.live,
            old(self).pending@.len() > 0,
        ensures
            old(self).makes_room(event, budget_spent, r, *final(self)),
    {
        let got = self.sync_one(event);
        match got {
            Err(e) => Err(e),
            Ok(Some(au)) => {
                self.ready.push_back(au);
                assert(self.ready@.drop_last() =~= old(self).ready@);
                Ok(DrainStep::Again)
            },
            Ok(None) => {
                if budget_spent {
                    let flow = self.flow;
                    self.flow = FlowState { force_kf: true, ..flow };
                    return Err(QsvError::Wedged { in_flight: self.pending.len() });
                }
                Ok(DrainStep::Wait)
            },
        }
    }

    /// What [`Self::busy_turn`] returns, and does to the encoder.
    pub open spec fn turns_busy(
        self,
        event: SyncEvent,
        r: Result<(), QsvError>,
        after: Self,
    ) -> bool {
        &&& after.wf()
        &&& after.same_state(self)
        &&& self.pending@.len() == 0 ==> r is Ok && after.same_queues(self)
        &&& self.pending@.len() > 0 ==> if event.is_empty() {
            &&& after.same_queues(self)
            &&& r is Ok == event.sts.succeeded()
            &&& r is Err ==> r->Err_0 == QsvError::Call(event.sts)
        } else {
            let front = self.pending@[0];
            &&& after.pending@ == self.pending@.drop_first()
            &&& if event.fits(front.buf@.len()) {
                &&& r is Ok
                &&& after.ready@.len() == self.ready@.len() + 1
                &&& after.ready@.drop_last() == self.ready@
                &&& unit_of(
                    after.ready@.last(),
                    front.unit,
                    event.content(front.buf@),
                    event.is_key(),
                )
                &&& after.pool@ == self.pool@.push(front.buf)
            } else {
                &&& r is Err && r->Err_0 == event.overrun(front.buf@.len())
                &&& after.ready@ == self.ready@
                &&& after.pool@ == self.pool@
            }
        }
    }

    /// One turn while the device is busy: a unit is kept for the next poll.
    pub fn busy_turn(&mut self, event: SyncEvent) -> (r: Result<(), QsvError>)
        requires
            old(self).wf(),
            old(self).ses.live,
        ensures
            old(self).turns_busy(event, r, *final(self)),
    {
        let got = self.sync_one(event);
        match got {
            Err(e) => Err(e),
            Ok(Some(au)) => {
                self.ready.push_back(au);
                assert(self.ready@.drop_last() =~= old(self).ready@);
                Ok(())
            },
            Ok(None) => Ok(()),
        }
    }

    /// What [`Self::take_bs`] returns, and does to the encoder.
    pub open spec fn takes_bs(self, buf: Vec<u8>, after: Self) -> bool {
        &&& after.wf()
        &&& after.same_state(self)
        &&& after.pending@ == self.pending@
        &&& after.ready@ == self.ready@
        &&& buf@.len() >= self.ses.bs_bytes
        &&& ({
            let at = last_fitting(self.pool@, self.ses.bs_bytes);
            if at >= 0 {
                buf == self.pool@[at] && after.pool@ == self.pool@.take(at)
            } else {
                &&& after.pool@.len() == 0
                &&& buf@.len() == self.ses.bs_bytes
                &&& forall|i: int| 0 <= i < buf@.len() ==> #[trigger] buf@[i] == 0
            }
        })
    }

    /// Takes a buffer for a unit: the most recent one of the pool that is large enough. Smaller ones,
    /// left from before the unit size grew, are dropped on the way.
    pub fn take_bs(&mut self) -> (buf: Vec<u8>)
        requires
            old(self).wf(),
        ensures
            old(self).takes_bs(buf, *final(self)),
    {
        let need: usize = self.ses.bs_bytes;
        let ghost start = self.pool@;
        proof {
            lemma_last_fitting(start, need);
        }
        while self.pool.len() > 0
            invariant
                self.wf(),
                self.same_state(*old(self)),
                self.pending@ == old(self).pending@,
                self.ready@ == old(self).ready@,
                start == old(self).pool@,
                need == old(self).ses.bs_bytes,
                self.pool@.len() <= start.len(),
                self.pool@ == start.take(self.pool@.len() as int),
                last_fitting(self.pool@, need) == last_fitting(start, need),
                -1 <= last_fitting(start, need) < start.len(),
            decreases self.pool@.len(),
        {
            let ghost before = self.pool@;
            match self.pool.pop() {
                Some(b) => {
                    assert(self.pool@ =~= before.drop_last());
                    assert(self.pool@ =~= start.take(self.pool@.len() as int));
                    if b.len() >= need {
                        assert(b == before.last());
                        assert(before.last() == start[before.len() - 1]);
                        return b;
                    }
                },
                None => {},
            }
        }
        zeros(need)
    }

    /// What [`Self::finish_submit`] returns, and does to the encoder.
    pub open spec fn settles(
        self,
        sts: Status,
        syncp: Option<u64>,
        buf: Vec<u8>,
        plan: FramePlan,
        pts_ns: u64,
        r: Result<(), QsvError>,
        after: Self,
    ) -> bool {
        &&& after.wf()
        &&& after.cfg == self.cfg
        &&& after.ltr == self.ltr
        &&& after.ready@ == self.ready@
        &&& after.pool@ == self.pool@
        &&& r == if sts == Status::WarnDeviceBusy {
            Err::<(), QsvError>(QsvError::DeviceBusy)
        } else if sts == Status::MoreData {
            Err::<(), QsvError>(QsvError::MoreData)
        } else if !sts.succeeded() {
            Err::<(), QsvError>(QsvError::Call(sts))
        } else if syncp is None {
            Err::<(), QsvError>(QsvError::NoSyncPoint)
        } else {
            Ok::<(), QsvError>(())
        }
        &&& r is Ok ==> {
            &&& after.flow == self.flow
            &&& after.ses == (QsvSession {
                frames_submitted: (self.ses.frames_submitted + 1) as u64,
                ..self.ses
            })
            &&& after.pending@ == self.pending@.push(
                Pending {
                    syncp: syncp->0,
                    buf,
                    unit: PendingUnit {
                        pts_ns,
                        forced: plan.forced,
                        recovery_anchor: plan.ltr.force is Some,
                    },
                },
            )
        }
        &&& r is Err ==> {
            &&& after.flow == (FlowState { force_kf: true, ..self.flow })
            &&& after.next_is_keyframe()
            &&& after.ses == self.ses
            &&& after.pending@ == self.pending@
        }
    }

    /// Settles a submit by the runtime's last answer. A frame it took is in flight with its buffer;
    /// after a refusal the next frame is a keyframe.
    pub fn finish_submit(
        &mut self,
        sts: Status,
        syncp: Option<u64>,
        buf: Vec<u8>,
        plan: &FramePlan,
        pts_ns: u64,
    ) -> (r: Result<(), QsvError>)
        requires
            old(self).wf(),
            old(self).ses.live,
            old(self).ses.frames_submitted < u64::MAX,
        ensures
            old(self).settles(sts, syncp, buf, *plan, pts_ns, r, *final(self)),
    {
        let refusal: Option<QsvError> = if sts == Status::WarnDeviceBusy {
            Some(QsvError::DeviceBusy)
        } else if sts == Status::MoreData {
            Some(QsvError::MoreData)
        } else if !sts.is_ok() {
            Some(QsvError::Call(sts))
        } else {
            None
        };
        let refusal = match refusal {
            Some(e) => e,
            None => match syncp {
                Some(handle) => {
                    self.pending.push_back(
                        Pending {
                            syncp: handle,
                            buf,
                            unit: PendingUnit {
                                pts_ns,
                                forced: plan.forced,
                                recovery_anchor: plan.ltr.force.is_some(),
                            },
                        },
                    );
                    let ses = self.ses;
                    self.ses = QsvSession { frames_submitted: ses.frames_submitted + 1, ..ses };
                    return Ok(());
                },
                None => QsvError::NoSyncPoint,
            },
        };
        let flow = self.flow;
        self.flow = FlowState { force_kf: true, ..flow };
        Err(refusal)
    }

    /// Pins the next frame's number to its wire index, so that marks and loss reports name the same
    /// frames.
    pub fn set_wire_index(&mut self, wire_index: u32)
        requires
            old(self).wf(),
        ensures
            final(self).wf(),
            final(self).cfg == old(self).cfg,
            final(self).ses == old(self).ses,
            final(self).ltr == old(self).ltr,
            final(self).flow == (FlowState { frame_idx: wire_index as i64, ..old(self).flow }),
            final(self).same_queues(*old(self)),
    {
        let flow = self.flow;
        self.flow = FlowState { frame_idx: wire_index as i64, ..flow };
    }

    /// Forces the next frame to be a keyframe.
    pub fn request_keyframe(&mut self)
        requires
            old(self).wf(),
        ensures
            final(self).wf(),
            final(self).cfg == old(self).cfg,
            final(self).ses == old(self).ses,
            final(self).ltr == old(self).ltr,
            final(self).flow == (FlowState { force_kf: true, ..old(self).flow }),
            final(self).same_queues(*old(self)),
    {
        let flow = self.flow;
        self.flow = FlowState { force_kf: true, ..flow };
    }

    /// Takes the HDR grade of the source.
    pub fn set_hdr_meta(&mut self, meta: Option<HdrMeta>)
        requires
            old(self).wf(),
        ensures
            final(self).wf(),
            final(self).cfg == old(self).cfg,
            final(self).ses == old(self).ses,
            final(self).ltr == old(self).ltr,
            final(self).flow == (FlowState { hdr_meta: meta, ..old(self).flow }),
            final(self).same_queues(*old(self)),
    {
        let flow = self.flow;
        self.flow = FlowState { hdr_meta: meta, ..flow };
    }

    /// Answers the loss of the client frames `first` to `last` by forcing the next frame onto the
    /// newest reference marked before the loss. `false` means that the caller recovers with a keyframe.
    pub fn invalidate_ref_frames(&mut self, first: i64, last: i64) -> (answered: bool)
        requires
            old(self).wf(),
        ensures
            final(self).wf(),
            final(self).cfg == old(self).cfg,
            final(self).ses == old(self).ses,
            final(self).flow == old(self).flow,
            final(self).same_queues(*old(self)),
            ({
                let applies = old(self).ses.ltr_active && 0 <= first <= last;
                &&& answered == (applies && old(self).ltr.anchor_slot(first) is Some)
                &&& applies ==> old(self).ltr.is_invalidated(first, final(self).ltr)
                &&& !applies ==> final(self).ltr == old(self).ltr
            }),
    {
        if !self.ses.ltr_active || first < 0 || first > last {
            return false;
        }
        self.ltr.invalidate(first)
    }

    pub fn caps(&self) -> (c: EncoderCaps)
        ensures
            c == (EncoderCaps {
                blends_cursor: false,
                supports_rfi: self.ses.ltr_active,
                chroma_444: false,
                intra_refresh: self.ses.ir_active,
                intra_refresh_recovery: false,
                intra_refresh_period: 0,
            }),
    {
        EncoderCaps {
            blends_cursor: false,
            supports_rfi: self.ses.ltr_active,
            chroma_444: false,
            intra_refresh: self.ses.ir_active,
            intra_refresh_recovery: false,
            intra_refresh_period: 0,
        }
    }

    /// How long a poll may wait for output, in milliseconds: three quarters of a frame interval,
    /// between one and twelve.
    pub fn poll_budget_ms(&self) -> (ms: u32)
        ensures
            ms == ({
                let share = 750int / (at_least_one(self.cfg.fps) as int);
                if share < 1 {
                    1
                } else if share > 12 {
                    12
                } else {
                    share
                }
            }),
    {
        let fps: u32 = if self.cfg.fps == 0 {
            1
        } else {
            self.cfg.fps
        };
        let share: u32 = 750 / fps;
        if share < 1 {
            1
        } else if share > 12 {
            12
        } else {
            share
        }
    }

    /// Begins a poll. Units retrieved earlier come first.
    pub fn poll(&mut self) -> (b: PollBegin)
        requires
            old(self).wf(),
        ensures
            final(self).wf(),
            final(self).cfg == old(self).cfg,
            final(self).ses == old(self).ses,
            final(self).ltr == old(self).ltr,
            final(self).pending@ == old(self).pending@,
            final(self).pool@ == old(self).pool@,
            !old(self).ses.live ==> b is Idle && final(self).ready@ == old(self).ready@
                && final(self).flow == old(self).flow,
            old(self).ses.live && old(self).ready@.len() > 0 ==> {
                &&& b == PollBegin::Ready(old(self).ready@[0])
                &&& final(self).ready@ == old(self).ready@.drop_first()
                &&& final(self).flow == (FlowState { resets_without_output: 0, ..old(self).flow })
            },
            old(self).ses.live && old(self).ready@.len() == 0 ==> b is Query && final(self).ready@
                == old(self).ready@ && final(self).flow == old(self).flow,
    {
        if !self.ses.live {
            return PollBegin::Idle;
        }
        match self.ready.pop_front() {
            Some(au) => {
                assert(self.ready@ =~= old(self).ready@.drop_first());
                let flow = self.flow;
                self.flow = FlowState { resets_without_output: 0, ..flow };
                PollBegin::Ready(au)
            },
            None => PollBegin::Query,
        }
    }

    /// Ends a poll by the outcome of waiting on the oldest frame.
    pub fn poll_wait(&mut self, event: SyncEvent) -> (r: Result<Option<EncodedFrame>, QsvError>)
        requires
            old(self).wf(),
            old(self).ses.live,
        ensures
            final(self).wf(),
            final(self).cfg == old(self).cfg,
            final(self).ses == old(self).ses,
            final(self).ltr == old(self).ltr,
            final(self).ready@ == old(self).ready@,
            final(self).flow == if r is Ok && r->Ok_0 is Some {
                FlowState { resets_without_output: 0, ..old(self).flow }
            } else {
                old(self).flow
            },
            old(self).pending@.len() == 0 ==> r == Ok::<Option<EncodedFrame>, QsvError>(None)
                && final(self).same_queues(*old(self)),
            old(self).pending@.len() > 0 ==> if event.is_empty() {
                &&& final(self).same_queues(*old(self))
                &&& r == if event.sts.succeeded() {
                    Ok::<Option<EncodedFrame>, QsvError>(None)
                } else {
                    Err::<Option<EncodedFrame>, QsvError>(QsvError::Call(event.sts))
                }
            } else {
                let front = old(self).pending@[0];
                &&& final(self).pending@ == old(self).pending@.drop_first()
                &&& r is Ok == event.fits(front.buf@.len())
                &&& r is Ok ==> r->Ok_0 is Some && unit_of(
                    r->Ok_0->0,
                    front.unit,
                    event.content(front.buf@),
                    event.is_key(),
                ) && final(self).pool@ == old(self).pool@.push(front.buf)
                &&& r is Err ==> r->Err_0 == event.overrun(front.buf@.len()) && final(self).pool@
                    == old(self).pool@
            },
    {
        let got = self.sync_one(event)?;
        if got.is_some() {
            let flow = self.flow;
            self.flow = FlowState { resets_without_output: 0, ..flow };
        }
        Ok(got)
    }

    /// How the next reset goes about it: a second one without a unit in between drops the whole
    /// session.
    pub open spec fn resets_by(self) -> ResetPlan {
        if !self.ses.live {
            ResetPlan::Idle
        } else if reset_count(self.flow.resets_without_output) >= 2 {
            ResetPlan::TornDown
        } else {
            ResetPlan::Rebuild
        }
    }

    /// How the next reset will go about it. A session that it drops is to be closed before, since the
    /// runtime writes to the buffers of the frames in flight until then.
    pub fn reset_plan(&self) -> (p: ResetPlan)
        ensures
            p == self.resets_by(),
    {
        if !self.ses.live {
            ResetPlan::Idle
        } else if self.flow.resets_without_output >= 1 {
            ResetPlan::TornDown
        } else {
            ResetPlan::Rebuild
        }
    }

    /// Begins the recovery from a stall: the next frame is a keyframe. A second reset without a unit
    /// in between drops the whole session, since restarting the encoder in it did not help.
    pub fn reset(&mut self) -> (p: ResetPlan)
        requires
            old(self).wf(),
        ensures
            final(self).wf(),
            final(self).cfg == old(self).cfg,
            final(self).ltr == old(self).ltr,
            ({
                let count = reset_count(old(self).flow.resets_without_output);
                &&& final(self).flow == (FlowState {
                    force_kf: true,
                    resets_without_output: count,
                    ..old(self).flow
                })
            }),
            p == old(self).resets_by(),
            final(self).next_is_keyframe(),
            p == ResetPlan::TornDown ==> {
                &&& final(self).ses == old(self).ses.closed()
                &&& final(self).pending@.len() == 0
                &&& final(self).ready@.len() == 0
                &&& final(self).pool@.len() == 0
            },
            p != ResetPlan::TornDown ==> final(self).ses == old(self).ses && final(self).same_queues(
                *old(self),
            ),
    {
        let flow = self.flow;
        let count: u32 = if flow.resets_without_output < 0xffff_ffff {
            flow.resets_without_output + 1
        } else {
            0xffff_ffff
        };
        self.flow = FlowState { force_kf: true, resets_without_output: count, ..flow };
        if !self.ses.live {
            return ResetPlan::Idle;
        }
        if count >= 2 {
            self.tear_down();
            return ResetPlan::TornDown;
        }
        ResetPlan::Rebuild
    }

    fn tear_down(&mut self)
        requires
            old(self).wf(),
        ensures
            final(self).wf(),
            final(self).cfg == old(self).cfg,
            final(self).flow == old(self).flow,
            final(self).ltr == old(self).ltr,
            final(self).ses == old(self).ses.closed(),
            final(self).pending@.len() == 0,
            final(self).ready@.len() == 0,
            final(self).pool@.len() == 0,
    {
        let ses = self.ses;
        self.pending.clear();
        self.ready.clear();
        self.pool.clear();
        self.ses = QsvSession {
            live: false,
            bound_device: 0,
            ir_active: false,
            ltr_active: false,
            ..ses
        };
    }

    /// Gives up everything in flight once the encoder was closed for a restart.
    pub fn abandon_in_flight(&mut self)
        requires
            old(self).wf(),
            old(self).ses.live,
        ensures
            final(self).wf(),
            final(self).cfg == old(self).cfg,
            final(self).flow == old(self).flow,
            final(self).ltr == old(self).ltr,
            final(self).ses == (QsvSession { frames_submitted: 0, ..old(self).ses }),
            final(self).pending@.len() == 0,
            final(self).ready@.len() == 0,
            final(self).pool@ == old(self).pool@,
    {
        let ses = self.ses;
        self.pending.clear();
        self.ready.clear();
        self.ses = QsvSession { frames_submitted: 0, ..ses };
    }

    /// Ends a restart in the session; one that failed drops the session.
    pub fn finish_rebuild(&mut self, init: Option<Initialised>)
        requires
            old(self).wf(),
            old(self).ses.live,
            old(self).ses.frames_submitted == 0,
        ensures
            final(self).wf(),
            final(self).cfg == old(self).cfg,
            final(self).flow == old(self).flow,
            match init {
                Some(i) => {
                    &&& final(self).ses == (QsvSession {
                        bs_bytes: i.bs_bytes,
                        ir_active: i.ir_active,
                        ltr_active: i.ltr_active,
                        ..old(self).ses
                    })
                    &&& final(self).ltr.is_cleared()
                    &&& final(self).ltr.same_policy(old(self).ltr)
                    &&& final(self).pending@ == old(self).pending@
                    &&& final(self).ready@ == old(self).ready@
                },
                None => {
                    &&& final(self).ses == old(self).ses.closed()
                    &&& final(self).ltr == old(self).ltr
                    &&& final(self).pending@.len() == 0
                    &&& final(self).ready@.len() == 0
                },
            },
            final(self).pool@.len() == 0,
            final(self).next_is_keyframe(),
    {
        match init {
            Some(i) => {
                let ses = self.ses;
                self.ltr.clear();
                self.pool.clear();
                self.ses = QsvSession {
                    bs_bytes: i.bs_bytes,
                    ir_active: i.ir_active,
                    ltr_active: i.ltr_active,
                    ..ses
                };
            },
            None => {
                self.tear_down();
            },
        }
    }

    /// Begins a bitrate change. Without a session the rate is stored and the change is done; else the
    /// frames in flight have to settle first.
    pub fn reconfigure_bitrate(&mut self, bps: u64) -> (done: bool)
        requires
            old(self).wf(),
        ensures
            final(self).wf(),
            done == !old(self).ses.live,
            final(self).ses == old(self).ses,
            final(self).flow == old(self).flow,
            final(self).ltr == old(self).ltr,
            final(self).same_queues(*old(self)),
            final(self).cfg == if done {
                QsvConfig { bitrate_bps: bps, ..old(self).cfg }
            } else {
                old(self).cfg
            },
    {
        if self.ses.live {
            return false;
        }
        let cfg = self.cfg;
        self.cfg = QsvConfig { bitrate_bps: bps, ..cfg };
        true
    }

    /// Whether frames are still in flight.
    pub fn unsettled(&self) -> (r: bool)
        ensures
            r == (self.pending@.len() > 0),
    {
        self.pending.len() > 0
    }

    /// One turn of the wait for the frames in flight: a unit is kept for the next poll. A failed wait
    /// and one that outlasts its budget give the change up.
    pub fn settle_turn(&mut self, event: SyncEvent, budget_spent: bool) -> (step: SettleStep)
        requires
            old(self).wf(),
            old(self).ses.live,
            old(self).pending@.len() > 0,
        ensures
            final(self).wf(),
            final(self).same_state(*old(self)),
            if event.is_empty() {
                &&& final(self).same_queues(*old(self))
                &&& step == if !event.sts.succeeded() || budget_spent {
                    SettleStep::GiveUp
                } else {
                    SettleStep::Wait
                }
            } else {
                let front = old(self).pending@[0];
                &&& final(self).pending@ == old(self).pending@.drop_first()
                &&& if event.fits(front.buf@.len()) {
                    &&& step == SettleStep::Again
                    &&& final(self).ready@.len() == old(self).ready@.len() + 1
                    &&& final(self).ready@.drop_last() == old(self).ready@
                    &&& unit_of(
                        final(self).ready@.last(),
                        front.unit,
                        event.content(front.buf@),
                        event.is_key(),
                    )
                    &&& final(self).pool@ == old(self).pool@.push(front.buf)
                } else {
                    &&& step == SettleStep::GiveUp
                    &&& final(self).ready@ == old(self).ready@
                    &&& final(self).pool@ == old(self).pool@
                }
            },
    {
        let got = self.sync_one(event);
        match got {
            Err(_) => SettleStep::GiveUp,
            Ok(Some(au)) => {
                self.ready.push_back(au);
                assert(self.ready@.drop_last() =~= old(self).ready@);
                SettleStep::Again
            },
            Ok(None) => if budget_spent {
                SettleStep::GiveUp
            } else {
                SettleStep::Wait
            },
        }
    }

    /// Ends a bitrate change once nothing is in flight. `reset` is the runtime's answer to the new
    /// rate, `refreshed` the unit size it then reports. Buffers only ever grow. `false` means that the
    /// caller rebuilds; the old rate then stands.
    pub fn finish_reconfigure(&mut self, bps: u64, reset: Status, refreshed: Option<(u16, u16)>) -> (r:
        bool)
        requires
            old(self).wf(),
            old(self).ses.live,
            refreshed matches Some(m) ==> unit_bytes(m.0, m.1) <= usize::MAX,
        ensures
            r == reset.succeeded(),
            final(self).wf(),
            final(self).flow == old(self).flow,
            final(self).ltr == old(self).ltr,
            final(self).same_queues(*old(self)),
            !r ==> final(self).cfg == old(self).cfg && final(self).ses == old(self).ses,
            r ==> {
                &&& final(self).cfg == (QsvConfig { bitrate_bps: bps, ..old(self).cfg })
                &&& final(self).ses == if refreshed is Some && unit_bytes(
                    (refreshed->0).0,
                    (refreshed->0).1,
                ) > old(self).ses.bs_bytes {
                    QsvSession {
                        bs_bytes: unit_bytes((refreshed->0).0, (refreshed->0).1) as usize,
                        ..old(self).ses
                    }
                } else {
                    old(self).ses
                }
            },
    {
        if !reset.is_ok() {
            return false;
        }
        let cfg = self.cfg;
        self.cfg = QsvConfig { bitrate_bps: bps, ..cfg };
        if let Some((kb, mult)) = refreshed {
            let bytes: usize = au_bytes(kb, mult);
            if bytes > self.ses.bs_bytes {
                let ses = self.ses;
                self.ses = QsvSession { bs_bytes: bytes, ..ses };
            }
        }
        true
    }

    /// One turn of a flush: a further frame the runtime still held is in flight. Returns whether more
    /// may come.
    pub fn flush_turn(&mut self, sts: Status, syncp: Option<u64>, buf: Vec<u8>) -> (more: bool)
        requires
            old(self).wf(),
            old(self).ses.live,
        ensures
            final(self).wf(),
            final(self).same_state(*old(self)),
            final(self).ready@ == old(self).ready@,
            final(self).pool@ == old(self).pool@,
            more == (sts.succeeded() && syncp is Some),
            final(self).pending@ == if more {
                old(self).pending@.push(
                    Pending {
                        syncp: syncp->0,
                        buf,
                        unit: PendingUnit { pts_ns: 0, forced: false, recovery_anchor: false },
                    },
                )
            } else {
                old(self).pending@
            },
    {
        if !sts.is_ok() {
            return false;
        }
        match syncp {
            Some(handle) => {
                self.pending.push_back(
                    Pending {
                        syncp: handle,
                        buf,
                        unit: PendingUnit { pts_ns: 0, forced: false, recovery_anchor: false },
                    },
                );
                true
            },
            None => false,
        }
    }
}

/// A buffer of `n` zero bytes.
fn zeros(n: usize) -> (buf: Vec<u8>)
    ensures
        buf@.len() == n,
        forall|i: int| 0 <= i < n ==> #[trigger] buf@[i] == 0,
{
    vec![0u8; n]
}

/// The bytes of `full` from `from` up to `to`.
fn copy_range(full: &Vec<u8>, from: usize, to: usize) -> (part: Vec<u8>)
    requires
        from <= to <= full@.len(),
    ensures
        part@ == full@.subrange(from as int, to as int),
{
    let mut part: Vec<u8> = Vec::new();
    let mut i: usize = from;
    while i < to
        invariant
            from <= i <= to <= full@.len(),
            part@ == full@.subrange(from as int, i as int),
        decreases to - i,
    {
        part.push(full[i]);
        i = i + 1;
        assert(full@.subrange(from as int, i as int) =~= full@.subrange(
            from as int,
            i - 1,
        ).push(full@[i - 1]));
    }
    part
}

/// The runtime accepted the probe's configuration.
pub open spec fn query_accepted(query: Option<Status>) -> bool {
    query is Some && query->0.succeeded()
}

/// The adapter encodes the codec, by the answer on its eight-bit configuration.
pub open spec fn encodes(codec: Codec, query: Option<Status>) -> bool {
    codec != Codec::PyroWave && query_accepted(query)
}

/// The adapter encodes the codec at ten bits, by the answer on its ten-bit configuration.
pub open spec fn encodes_10bit(codec: Codec, query: Option<Status>) -> bool {
    codec.is_ten_bit_codec() && query_accepted(query)
}

/// Whether the adapter encodes the codec. `query` is the runtime's answer on the probe's configuration,
/// `None` where no session opened.
pub fn probe_can_encode(codec: Codec, query: Option<Status>) -> (r: bool)
    ensures
        r == encodes(codec, query),
{
    probe_query(codec, query)
}

/// Whether the adapter encodes the codec at ten bits. H.264 is always `false`.
pub fn probe_can_encode_10bit(codec: Codec, query: Option<Status>) -> (r: bool)
    ensures
        r == encodes_10bit(codec, query),
{
    if !codec.supports_10bit() {
        return false;
    }
    probe_query(codec, query)
}

fn probe_query(codec: Codec, query: Option<Status>) -> (r: bool)
    ensures
        r == (codec != Codec::PyroWave && query_accepted(query)),
{
    if codec == Codec::PyroWave {
        return false;
    }
    match query {
        Some(s) => s.is_ok(),
        None => false,
    }
}

/// On a runtime that accepts a codec's eight-bit configuration wherever it accepts the ten-bit one, a
/// codec that is encoded at ten bits is encoded at all. H.264 is never encoded at ten bits.
pub proof fn law_ten_bit_implies_base_support(
    codec: Codec,
    base: Option<Status>,
    deep: Option<Status>,
)
    requires
        query_accepted(deep) ==> query_accepted(base),
    ensures
        encodes_10bit(codec, deep) ==> encodes(codec, base),
        !encodes_10bit(Codec::H264, deep),
{
}

/// A pool buffer handed out is never too small for the session's units, whatever sizes it went
/// through.
pub proof fn law_fitting_buffer_fits(pool: Seq<Vec<u8>>, n: usize)
    ensures
        last_fitting(pool, n) >= 0 ==> pool[last_fitting(pool, n)]@.len() >= n,
        last_fitting(pool, n) < 0 ==> forall|i: int|
            0 <= i < pool.len() ==> (#[trigger] pool[i])@.len() < n,
    decreases pool.len(),
{
    lemma_last_fitting(pool, n);
    if pool.len() > 0 && pool.last()@.len() < n {
        law_fitting_buffer_fits(pool.drop_last(), n);
        assert forall|i: int| last_fitting(pool, n) < 0 && 0 <= i < pool.len() implies (
        #[trigger] pool[i])@.len() < n by {
            if i < pool.len() - 1 {
                assert(pool[i] == pool.drop_last()[i]);
            }
        }
    }
}

impl QsvEncoder {
    /// Presentation times of the frames in flight.
    pub open spec fn flight_times(self) -> Seq<u64> {
        self.pending@.map_values(|p: Pending| p.unit.pts_ns)
    }

    /// Every frame the runtime took is delivered, waits in the queue, or is in flight.
    pub open spec fn accounts_for(self, submitted: Seq<u64>, delivered: Seq<u64>) -> bool {
        accounts(submitted, delivered, self.ready@, self.flight_times())
    }
}

/// Settling a submit adds the frame to those owed where the runtime took it, and leaves the account as
/// it is where not.
pub proof fn law_submit_keeps_the_account(
    before: QsvEncoder,
    sts: Status,
    syncp: Option<u64>,
    buf: Vec<u8>,
    plan: FramePlan,
    pts_ns: u64,
    r: Result<(), QsvError>,
    after: QsvEncoder,
    submitted: Seq<u64>,
    delivered: Seq<u64>,
)
    requires
        before.accounts_for(submitted, delivered),
        before.settles(sts, syncp, buf, plan, pts_ns, r, after),
    ensures
        after.accounts_for(
            if r is Ok {
                submitted.push(pts_ns)
            } else {
                submitted
            },
            delivered,
        ),
{
    if r is Ok {
        lemma_submit_accounts(submitted, delivered, before.ready@, before.flight_times(), pts_ns);
        assert(after.flight_times() =~= before.flight_times().push(pts_ns));
    }
}

/// Whatever a wait for room brings, no frame is lost, doubled or moved, as long as every unit lies
/// within its buffer.
pub proof fn law_waiting_keeps_the_account(
    before: QsvEncoder,
    event: SyncEvent,
    budget_spent: bool,
    r: Result<DrainStep, QsvError>,
    after: QsvEncoder,
    submitted: Seq<u64>,
    delivered: Seq<u64>,
)
    requires
        before.accounts_for(submitted, delivered),
        before.makes_room(event, budget_spent, r, after),
        before.pending@.len() > 0,
        !event.is_empty() ==> event.fits(before.pending@[0].buf@.len()),
    ensures
        after.accounts_for(submitted, delivered),
{
    if !event.is_empty() {
        assert(before.flight_times()[0] == before.pending@[0].unit.pts_ns);
        lemma_retrieve_accounts(
            submitted,
            delivered,
            before.ready@,
            before.flight_times(),
            after.ready@,
        );
        assert(after.flight_times() =~= before.flight_times().drop_first());
    }
}

/// A unit retrieved while none waits in the queue is that of the oldest frame owed, so units are
/// delivered in submit order, each with its own frame's time.
pub proof fn law_retrieved_unit_is_next(
    before: QsvEncoder,
    event: SyncEvent,
    r: Result<Option<EncodedFrame>, QsvError>,
    after: QsvEncoder,
    submitted: Seq<u64>,
    delivered: Seq<u64>,
)
    requires
        before.accounts_for(submitted, delivered),
        before.syncs(event, r, after),
        before.ready@.len() == 0,
        r is Ok,
    ensures
        match r->Ok_0 {
            Some(au) => submitted[delivered.len() as int] == au.pts_ns && after.accounts_for(
                submitted,
                delivered.push(au.pts_ns),
            ),
            None => after.accounts_for(submitted, delivered),
        },
{
    if let Some(au) = r->Ok_0 {
        assert(before.flight_times()[0] == au.pts_ns);
        law_oldest_in_flight_is_next(submitted, delivered, before.ready@, before.flight_times());
        assert(after.flight_times() =~= before.flight_times().drop_first());
    }
}

} // verus!

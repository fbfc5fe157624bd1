//! Parameters of a QSV session: statuses, adapter choice, encode configuration and per-frame control.
use crate::flow::InputError;
use crate::ltr::{plain_i64, read_i64, LtrPlan};
use crate::text::{is_switched_on, opt_view, setting_u32, setting_value, switched_on};
use crate::types::{at_least_one, Codec, HdrMeta, PixelFormat};
use vstd::prelude::*;

verus! {

/// Reference frames of a session, and so the depth of the decoder's buffer.
pub const NUM_REF_FRAMES: u16 = 4;

/// Outcome of a runtime call. Errors are the negative codes, warnings the positive ones.
#[derive(Clone, Copy, Debug, PartialEq, Eq, Structural)]
pub enum Status {
    Success,
    Unsupported,
    MoreData,
    NotFound,
    DeviceLost,
    DeviceFailed,
    GpuHang,
    NotEnoughBuffer,
    MemoryAlloc,
    IncompatibleVideoParam,
    InvalidVideoParam,
    UndefinedBehavior,
    NotInitialized,
    WarnDeviceBusy,
    WarnInExecution,
    WarnIncompatibleVideoParam,
    WarnPartialAcceleration,
    Other(i32),
}

impl Status {
    /// The call succeeded, perhaps with a warning.
    pub open spec fn succeeded(self) -> bool {
        match self {
            Status::Success
            | Status::WarnDeviceBusy
            | Status::WarnInExecution
            | Status::WarnIncompatibleVideoParam
            | Status::WarnPartialAcceleration => true,
            Status::Other(code) => code >= 0,
            _ => false,
        }
    }

    pub fn is_ok(&self) -> (r: bool)
        ensures
            r == self.succeeded(),
    {
        match self {
            Status::Success
            | Status::WarnDeviceBusy
            | Status::WarnInExecution
            | Status::WarnIncompatibleVideoParam
            | Status::WarnPartialAcceleration => true,
            Status::Other(code) => *code >= 0,
            _ => false,
        }
    }
}

/// Name of a status.
pub open spec fn status_name(s: Status) -> Seq<char> {
    match s {
        Status::Success => "MFX_ERR_NONE"@,
        Status::Unsupported => "MFX_ERR_UNSUPPORTED"@,
        Status::MoreData => "MFX_ERR_MORE_DATA"@,
        Status::NotFound => "MFX_ERR_NOT_FOUND"@,
        Status::DeviceLost => "MFX_ERR_DEVICE_LOST"@,
        Status::DeviceFailed => "MFX_ERR_DEVICE_FAILED"@,
        Status::GpuHang => "MFX_ERR_GPU_HANG"@,
        Status::NotEnoughBuffer => "MFX_ERR_NOT_ENOUGH_BUFFER"@,
        Status::MemoryAlloc => "MFX_ERR_MEMORY_ALLOC"@,
        Status::IncompatibleVideoParam => "MFX_ERR_INCOMPATIBLE_VIDEO_PARAM"@,
        Status::InvalidVideoParam => "MFX_ERR_INVALID_VIDEO_PARAM"@,
        Status::UndefinedBehavior => "MFX_ERR_UNDEFINED_BEHAVIOR"@,
        Status::NotInitialized => "MFX_ERR_NOT_INITIALIZED"@,
        Status::WarnDeviceBusy => "MFX_WRN_DEVICE_BUSY"@,
        Status::WarnInExecution => "MFX_WRN_IN_EXECUTION"@,
        Status::WarnIncompatibleVideoParam => "MFX_WRN_INCOMPATIBLE_VIDEO_PARAM"@,
        Status::WarnPartialAcceleration => "MFX_WRN_PARTIAL_ACCELERATION"@,
        Status::Other(_) => "mfxStatus"@,
    }
}

/// Names a status for messages.
pub fn sts_name(s: Status) -> (name: &'static str)
    ensures
        name@ == status_name(s),
{
    match s {
        Status::Success => "MFX_ERR_NONE",
        Status::Unsupported => "MFX_ERR_UNSUPPORTED",
        Status::MoreData => "MFX_ERR_MORE_DATA",
        Status::NotFound => "MFX_ERR_NOT_FOUND",
        Status::DeviceLost => "MFX_ERR_DEVICE_LOST",
        Status::DeviceFailed => "MFX_ERR_DEVICE_FAILED",
        Status::GpuHang => "MFX_ERR_GPU_HANG",
        Status::NotEnoughBuffer => "MFX_ERR_NOT_ENOUGH_BUFFER",
        Status::MemoryAlloc => "MFX_ERR_MEMORY_ALLOC",
        Status::IncompatibleVideoParam => "MFX_ERR_INCOMPATIBLE_VIDEO_PARAM",
        Status::InvalidVideoParam => "MFX_ERR_INVALID_VIDEO_PARAM",
        Status::UndefinedBehavior => "MFX_ERR_UNDEFINED_BEHAVIOR",
        Status::NotInitialized => "MFX_ERR_NOT_INITIALIZED",
        Status::WarnDeviceBusy => "MFX_WRN_DEVICE_BUSY",
        Status::WarnInExecution => "MFX_WRN_IN_EXECUTION",
        Status::WarnIncompatibleVideoParam => "MFX_WRN_INCOMPATIBLE_VIDEO_PARAM",
        Status::WarnPartialAcceleration => "MFX_WRN_PARTIAL_ACCELERATION",
        Status::Other(_) => "mfxStatus",
    }
}

#[derive(Clone, Copy, Debug, PartialEq, Eq, Structural)]
pub enum QsvError {
    /// The codec is not one of this backend's.
    UnsupportedCodec,
    /// The adapter does not encode AV1.
    Av1Declined,
    /// Ten-bit H.264 is not encoded.
    TenBitH264,
    /// The frames are not in the layout of the encoder's input.
    FormatMismatch { expected: PixelFormat, delivered: PixelFormat },
    /// No implementation of the vendor is installed.
    NoImplementation,
    /// The frames live on an adapter of another vendor; opening again will not help.
    WrongAdapter,
    /// The frame does not fit the encoder.
    Input(InputError),
    /// A runtime call failed.
    Call(Status),
    /// The runtime reported output beyond its buffer.
    OutOfBounds { offset: u32, length: u32, buffer: usize },
    /// No output for the whole budget, with this many frames in flight.
    Wedged { in_flight: usize },
    /// The device stayed busy for the whole budget.
    DeviceBusy,
    /// A frame was swallowed although no frame is ever reordered.
    MoreData,
    /// A frame was accepted without a handle to its output.
    NoSyncPoint,
    /// The frame could not be copied into a surface of the runtime.
    Surface,
}

/// Turns a status into a result. Warnings pass.
pub fn vpl_ok(s: Status) -> (r: Result<(), QsvError>)
    ensures
        r == if s.succeeded() {
            Ok::<(), QsvError>(())
        } else {
            Err::<(), QsvError>(QsvError::Call(s))
        },
{
    if s.is_ok() {
        Ok(())
    } else {
        Err(QsvError::Call(s))
    }
}

/// A rate in kilobits per second, at least one.
pub open spec fn kilobits(bps: u64) -> int {
    if bps < 1000 {
        1
    } else {
        bps as int / 1000
    }
}

/// The highest rate in kilobits that a multiplier reaches with a sixteen-bit value.
pub open spec fn rate_ceiling(multiplier: int) -> int {
    65535 * multiplier
}

/// The smallest multiplier that reaches a rate, itself cut to sixteen bits.
pub open spec fn rate_multiplier(bps: u64) -> int {
    ((kilobits(bps) + 65534) / 65535) % 65536
}

/// Splits a rate into a sixteen-bit value and the multiplier all rate parameters share.
pub fn split_rate(bps: u64) -> (r: (u16, u16))
    requires
        rate_multiplier(bps) != 0,
    ensures
        r.1 == rate_multiplier(bps),
        r.0 == (kilobits(bps) / rate_multiplier(bps)) % 65536,
{
    let kbps: u64 = if bps < 1000 {
        1
    } else {
        bps / 1000
    };
    let mult: u64 = ((kbps + 65534) / 65535) % 65536;
    let part: u64 = kbps / mult % 65536;
    (part as u16, mult as u16)
}

/// Every rate up to four terabits per second splits without a cut: value times multiplier is the rate
/// in kilobits, short of it by less than one multiplier.
pub proof fn law_rate_splits_without_loss(bps: u64)
    requires
        kilobits(bps) <= rate_ceiling(65535),
    ensures
        1 <= rate_multiplier(bps) <= 65535,
        kilobits(bps) / rate_multiplier(bps) <= 65535,
        kilobits(bps) / rate_multiplier(bps) * rate_multiplier(bps) <= kilobits(bps),
        kilobits(bps) < (kilobits(bps) / rate_multiplier(bps) + 1) * rate_multiplier(bps),
{
    let k = kilobits(bps);
    let m = rate_multiplier(bps);
    assert(m == (k + 65534) / 65535);
    assert(k <= 65535 * m);
    vstd::arithmetic::div_mod::lemma_fundamental_div_mod(k, m);
    assert(k / m * m == m * (k / m)) by (nonlinear_arith);
    assert((k / m + 1) * m == m * (k / m) + m) by (nonlinear_arith);
    assert(k / m <= 65535) by (nonlinear_arith)
        requires
            k <= 65535 * m,
            m >= 1,
            k >= 0,
    {
        if k / m > 65535 {
            vstd::arithmetic::div_mod::lemma_fundamental_div_mod(k, m);
            assert(m * (k / m) >= m * 65536);
        }
    }
}

/// The multiplier of a rate reaches it, and no smaller one does.
pub proof fn law_multiplier_is_the_smallest(bps: u64, smaller: int)
    requires
        kilobits(bps) <= rate_ceiling(65535),
        smaller < rate_multiplier(bps),
    ensures
        rate_ceiling(smaller) < kilobits(bps) <= rate_ceiling(rate_multiplier(bps)),
{
}

/// A size rounded up to whole macroblocks, cut to sixteen bits.
pub open spec fn aligned(v: u32) -> int {
    ((v as int + 15) / 16 * 16) % 65536
}

/// Rounds a size up to whole macroblocks.
pub fn align16(v: u32) -> (r: u16)
    requires
        v <= 0xffff_fff0,
    ensures
        r == aligned(v),
{
    let up: u64 = (v as u64 + 15) / 16 * 16;
    (up % 65536) as u16
}

/// Whether the long-term-reference recovery is switched off.
pub fn ltr_disabled(raw: Option<&str>) -> (r: bool)
    ensures
        r == is_switched_on(opt_view(raw)),
{
    switched_on(raw)
}

/// Whether the intra-refresh wave is switched on.
pub fn intra_refresh_requested(raw: Option<&str>) -> (r: bool)
    ensures
        r == is_switched_on(opt_view(raw)),
{
    switched_on(raw)
}

/// Frames between marks: the setting where it is positive, else a quarter second.
pub open spec fn mark_cadence(raw: Option<Seq<char>>, fps: u32) -> int {
    let default = if fps < 4 {
        1
    } else {
        fps as int / 4
    };
    match plain_i64(raw) {
        Some(v) => if v > 0 {
            v
        } else {
            default
        },
        None => default,
    }
}

/// Reads the mark cadence.
pub fn ltr_mark_interval(raw: Option<&str>, fps: u32) -> (interval: i64)
    ensures
        interval == mark_cadence(opt_view(raw), fps),
        interval >= 1,
{
    let default: i64 = if fps < 4 {
        1
    } else {
        (fps / 4) as i64
    };
    match read_i64(raw) {
        Some(v) => if v > 0 {
            v
        } else {
            default
        },
        None => default,
    }
}

/// Reads the frame that reports itself as lost, for trials without a client.
pub fn ltr_test_force_at(raw: Option<&str>) -> (at: Option<i64>)
    ensures
        match at {
            Some(v) => plain_i64(opt_view(raw)) == Some(v as int),
            None => plain_i64(opt_view(raw)) is None,
        },
{
    read_i64(raw)
}

/// Frames of an intra-refresh wave: the setting where it is at least two, else half a second, held
/// between 8 and 240.
pub open spec fn wave_period(raw: Option<Seq<char>>, fps: u32) -> int {
    let wanted = match setting_value(raw, u32::MAX as int) {
        Some(v) => if v >= 2 {
            v
        } else {
            fps as int / 2
        },
        None => fps as int / 2,
    };
    if wanted < 8 {
        8
    } else if wanted > 240 {
        240
    } else {
        wanted
    }
}

/// Reads the length of an intra-refresh wave.
pub fn intra_refresh_period(raw: Option<&str>, fps: u32) -> (period: u16)
    ensures
        period == wave_period(opt_view(raw), fps),
{
    let half: u32 = fps / 2;
    let wanted: u32 = match setting_u32(raw) {
        Some(v) => if v >= 2 {
            v
        } else {
            half
        },
        None => half,
    };
    if wanted < 8 {
        8
    } else if wanted > 240 {
        240
    } else {
        wanted as u16
    }
}

/// An installed implementation and the adapter it runs on.
#[derive(Clone, Copy, Debug)]
pub struct VplImpl {
    pub index: u32,
    pub luid: [u8; 8],
    pub luid_valid: bool,
}

impl VplImpl {
    /// The implementation runs on the adapter `want`.
    pub open spec fn runs_on(self, want: Seq<u8>) -> bool {
        self.luid_valid && self.luid@ == want
    }

    pub fn is_on(&self, want: &[u8; 8]) -> (r: bool)
        ensures
            r == self.runs_on(want@),
    {
        if !self.luid_valid {
            return false;
        }
        let mut i: usize = 0;
        while i < 8
            invariant
                i <= 8,
                forall|j: int| 0 <= j < i ==> self.luid@[j] == want@[j],
            decreases 8 - i,
        {
            if self.luid[i] != want[i] {
                assert(self.luid@[i as int] != want@[i as int]);
                return false;
            }
            i = i + 1;
        }
        assert(self.luid@ =~= want@);
        true
    }
}

/// Byte `k` of an adapter's identity: the low word first, both words with their low byte first.
pub open spec fn luid_byte(low: u32, high: u32, k: int) -> int {
    let word = if k < 4 {
        low as int
    } else {
        high as int
    };
    let at = k % 4;
    if at == 0 {
        word % 256
    } else if at == 1 {
        word / 256 % 256
    } else if at == 2 {
        word / 65536 % 256
    } else {
        word / 16777216
    }
}

/// The identity of an adapter as bytes. `high` is the high word's bit pattern.
pub fn luid_bytes(low: u32, high: u32) -> (b: [u8; 8])
    ensures
        forall|k: int| 0 <= k < 8 ==> #[trigger] b@[k] == luid_byte(low, high, k),
{
    [
        (low % 256) as u8,
        (low / 256 % 256) as u8,
        (low / 65536 % 256) as u8,
        (low / 16777216) as u8,
        (high % 256) as u8,
        (high / 256 % 256) as u8,
        (high / 65536 % 256) as u8,
        (high / 16777216) as u8,
    ]
}

/// The first implementation on the adapter `want`.
pub open spec fn is_first_on(impls: Seq<VplImpl>, want: Seq<u8>, at: int) -> bool {
    &&& 0 <= at < impls.len()
    &&& impls[at].runs_on(want)
    &&& forall|j: int| 0 <= j < at ==> !(#[trigger] impls[j]).runs_on(want)
}

/// No implementation runs on the adapter `want`.
pub open spec fn none_on(impls: Seq<VplImpl>, want: Seq<u8>) -> bool {
    forall|j: int| 0 <= j < impls.len() ==> !(#[trigger] impls[j]).runs_on(want)
}

/// Finds the first implementation on an adapter.
pub fn find_impl(impls: &Vec<VplImpl>, want: &[u8; 8]) -> (at: Option<usize>)
    ensures
        match at {
            Some(i) => is_first_on(impls@, want@, i as int),
            None => forall|j: int| 0 <= j < impls@.len() ==> !(#[trigger] impls@[j]).runs_on(want@),
        },
        at is None ==> none_on(impls@, want@),
{
    let mut i: usize = 0;
    while i < impls.len()
        invariant
            i <= impls@.len(),
            forall|j: int| 0 <= j < i ==> !(#[trigger] impls@[j]).runs_on(want@),
        decreases impls@.len() - i,
    {
        if impls[i].is_on(want) {
            return Some(i);
        }
        i = i + 1;
    }
    None
}

/// Chooses the implementation of a session. With a target adapter only an implementation on it will
/// do; else the first is taken.
pub fn create_session(impls: &Vec<VplImpl>, target: Option<[u8; 8]>) -> (r: Result<u32, QsvError>)
    ensures
        match r {
            Ok(index) => impls@.len() > 0 && match target {
                Some(want) => exists|at: int| #[trigger]
                    is_first_on(impls@, want@, at) && impls@[at].index == index,
                None => index == impls@[0].index,
            },
            Err(e) => if impls@.len() == 0 {
                e == QsvError::NoImplementation
            } else {
                &&& e == QsvError::WrongAdapter
                &&& target is Some
                &&& forall|j: int|
                    0 <= j < impls@.len() ==> !(#[trigger] impls@[j]).runs_on((target->0)@)
            },
        },
{
    if impls.len() == 0 {
        return Err(QsvError::NoImplementation);
    }
    match target {
        Some(want) => match find_impl(impls, &want) {
            Some(at) => Ok(impls[at].index),
            None => Err(QsvError::WrongAdapter),
        },
        None => Ok(impls[0].index),
    }
}

/// The implementations a probe tries, in order: the one on the selected adapter, then the first. A
/// probe may answer from another adapter than the selected one.
pub fn probe_candidates(impls: &Vec<VplImpl>, selected: Option<[u8; 8]>) -> (c: Vec<u32>)
    ensures
        impls@.len() == 0 ==> c@.len() == 0,
        impls@.len() > 0 ==> {
            let on_target = selected is Some && exists|at: int|
                is_first_on(impls@, (selected->0)@, at);
            &&& c@.len() == if on_target {
                2int
            } else {
                1
            }
            &&& c@.last() == impls@[0].index
            &&& on_target ==> exists|at: int| #[trigger]
                is_first_on(impls@, (selected->0)@, at) && impls@[at].index == c@[0]
        },
{
    let mut c: Vec<u32> = Vec::new();
    if let Some(want) = selected {
        if let Ok(index) = create_session(impls, Some(want)) {
            c.push(index);
        }
    }
    if let Ok(index) = create_session(impls, None) {
        c.push(index);
    }
    c
}

#[derive(Clone, Copy, Debug)]
pub struct EncodeConfig {
    pub codec: Codec,
    pub width: u32,
    pub height: u32,
    pub fps: u32,
    pub bitrate_bps: u64,
    pub ten_bit: bool,
    pub intra_refresh: bool,
    pub hdr_meta: Option<HdrMeta>,
}

#[derive(Clone, Copy, Debug, PartialEq, Eq, Structural)]
pub enum Profile {
    AvcHigh,
    HevcMain,
    HevcMain10,
    Av1Main,
}

/// Layout of the input frames. The depth and shift stay zero for eight-bit input.
#[derive(Clone, Copy, Debug, PartialEq, Eq, Structural)]
pub struct FrameInfo {
    pub format: PixelFormat,
    pub bit_depth: u16,
    pub shift: u16,
    pub frame_rate_n: u32,
    pub frame_rate_d: u32,
    pub width: u16,
    pub height: u16,
    pub crop_w: u16,
    pub crop_h: u16,
}

/// Stream structure and rate.
#[derive(Clone, Copy, Debug, PartialEq, Eq, Structural)]
pub struct StreamInfo {
    pub profile: Profile,
    pub async_depth: u16,
    pub low_power: bool,
    pub gop_pic_size: u16,
    pub gop_ref_dist: u16,
    pub idr_interval: u16,
    pub num_ref_frame: u16,
    pub brc_multiplier: u16,
    pub target_kbps: u16,
    pub max_kbps: u16,
}

/// Extra coding options: decoder conformance signalling and the decoder's buffer.
#[derive(Clone, Copy, Debug, PartialEq, Eq, Structural)]
pub struct CodingOption {
    pub nal_hrd_conformance: bool,
    pub vui_nal_hrd_parameters: bool,
    pub max_dec_frame_buffering: u16,
}

/// An intra-refresh wave.
#[derive(Clone, Copy, Debug, PartialEq, Eq, Structural)]
pub struct Wave {
    pub kind: u16,
    pub cycle: u16,
}

/// Signalled colours.
#[derive(Clone, Copy, Debug, PartialEq, Eq, Structural)]
pub struct VideoSignal {
    pub video_format: u16,
    pub full_range: u16,
    pub description_present: u16,
    pub primaries: u16,
    pub transfer: u16,
    pub matrix: u16,
}

/// Mastering display, sent with every keyframe. Both luminances are in units of 0.0001 cd/m2.
#[derive(Clone, Copy, Debug)]
pub struct Mastering {
    pub primaries_x: [u16; 3],
    pub primaries_y: [u16; 3],
    pub white_x: u16,
    pub white_y: u16,
    pub max_luminance: u32,
    pub min_luminance: u32,
}

/// Content light levels, sent with every keyframe.
#[derive(Clone, Copy, Debug, PartialEq, Eq, Structural)]
pub struct LightLevel {
    pub max_content: u16,
    pub max_average: u16,
}

/// A buffer attached to the parameters.
#[derive(Clone, Copy, Debug, PartialEq, Eq, Structural)]
pub enum ExtBuffer {
    CodingOption,
    CodingOption2,
    VideoSignal,
    Mastering,
    LightLevel,
}

/// The parameters of a session.
#[derive(Clone, Copy, Debug)]
pub struct ParamSet {
    pub stream: StreamInfo,
    pub frame: FrameInfo,
    pub co: CodingOption,
    pub co2: Option<Wave>,
    pub vsi: VideoSignal,
    pub mastering: Option<Mastering>,
    pub cll: Option<LightLevel>,
}

impl Mastering {
    /// Carries the grade `m`, point by point in its order.
    pub open spec fn is_of(self, m: HdrMeta) -> bool {
        &&& forall|i: int| 0 <= i < 3 ==> #[trigger] self.primaries_x@[i] == m.display_primaries@[i]@[0]
        &&& forall|i: int| 0 <= i < 3 ==> #[trigger] self.primaries_y@[i] == m.display_primaries@[i]@[1]
        &&& self.white_x == m.white_point@[0]
        &&& self.white_y == m.white_point@[1]
        &&& self.max_luminance == m.max_display_mastering_luminance
        &&& self.min_luminance == m.min_display_mastering_luminance
    }
}

impl EncodeConfig {
    /// The stream is signalled as HDR: ten-bit input of a codec that carries it.
    pub open spec fn is_hdr(self) -> bool {
        self.ten_bit && self.codec != Codec::H264
    }

    /// The configuration can be put into the runtime's words.
    pub open spec fn representable(self) -> bool {
        &&& self.codec != Codec::PyroWave
        &&& rate_multiplier(self.bitrate_bps) != 0
        &&& self.width <= 0xffff_fff0
        &&& self.height <= 0xffff_fff0
    }

    /// Whether the configuration can be put into the runtime's words.
    pub fn is_representable(&self) -> (r: bool)
        ensures
            r == self.representable(),
    {
        let kbps: u64 = if self.bitrate_bps < 1000 {
            1
        } else {
            self.bitrate_bps / 1000
        };
        let mult: u64 = ((kbps + 65534) / 65535) % 65536;
        self.codec != Codec::PyroWave && mult != 0 && self.width <= 0xffff_fff0 && self.height
            <= 0xffff_fff0
    }

    pub open spec fn stream(self) -> StreamInfo {
        let rate = ((kilobits(self.bitrate_bps) / rate_multiplier(self.bitrate_bps)) % 65536) as u16;
        StreamInfo {
            profile: match self.codec {
                Codec::H264 => Profile::AvcHigh,
                Codec::H265 => if self.ten_bit {
                    Profile::HevcMain10
                } else {
                    Profile::HevcMain
                },
                _ => Profile::Av1Main,
            },
            async_depth: 1,
            low_power: true,
            gop_pic_size: 65535,
            gop_ref_dist: 1,
            idr_interval: 0,
            num_ref_frame: NUM_REF_FRAMES,
            brc_multiplier: rate_multiplier(self.bitrate_bps) as u16,
            target_kbps: rate,
            max_kbps: rate,
        }
    }

    pub open spec fn frame(self) -> FrameInfo {
        FrameInfo {
            format: if self.ten_bit {
                PixelFormat::P010
            } else {
                PixelFormat::Nv12
            },
            bit_depth: if self.ten_bit {
                10
            } else {
                0
            },
            shift: if self.ten_bit {
                1
            } else {
                0
            },
            frame_rate_n: at_least_one(self.fps),
            frame_rate_d: 1,
            width: aligned(self.width) as u16,
            height: aligned(self.height) as u16,
            crop_w: (self.width as int % 65536) as u16,
            crop_h: (self.height as int % 65536) as u16,
        }
    }

    pub open spec fn signal(self) -> VideoSignal {
        VideoSignal {
            video_format: 5,
            full_range: 0,
            description_present: 1,
            primaries: if self.is_hdr() {
                9
            } else {
                1
            },
            transfer: if self.is_hdr() {
                16
            } else {
                1
            },
            matrix: if self.is_hdr() {
                9
            } else {
                1
            },
        }
    }

    /// An intra-refresh wave is asked for: only the codecs that have one.
    pub open spec fn has_wave(self) -> bool {
        self.intra_refresh && (self.codec == Codec::H264 || self.codec == Codec::H265)
    }
}

impl ParamSet {
    /// The parameters of the configuration, with waves of `period` frames.
    pub open spec fn is_for(self, cfg: EncodeConfig, period: int) -> bool {
        &&& self.stream == cfg.stream()
        &&& self.frame == cfg.frame()
        &&& self.co == (CodingOption {
            nal_hrd_conformance: false,
            vui_nal_hrd_parameters: false,
            max_dec_frame_buffering: NUM_REF_FRAMES,
        })
        &&& self.co2 == if cfg.has_wave() {
            Some(Wave { kind: 1, cycle: period as u16 })
        } else {
            None
        }
        &&& self.vsi == cfg.signal()
        &&& self.mastering is Some == (cfg.is_hdr() && cfg.hdr_meta is Some)
        &&& self.mastering is Some ==> self.mastering->0.is_of(cfg.hdr_meta->0)
        &&& self.cll == if cfg.is_hdr() && cfg.hdr_meta is Some && (cfg.hdr_meta->0.max_cll != 0
            || cfg.hdr_meta->0.max_fall != 0) {
            Some(
                LightLevel {
                    max_content: cfg.hdr_meta->0.max_cll,
                    max_average: cfg.hdr_meta->0.max_fall,
                },
            )
        } else {
            None
        }
    }

    /// The attached buffers, in order.
    pub open spec fn attached(self) -> Seq<ExtBuffer> {
        seq![ExtBuffer::CodingOption] + (if self.co2 is Some {
            seq![ExtBuffer::CodingOption2]
        } else {
            Seq::empty()
        }) + seq![ExtBuffer::VideoSignal] + (if self.mastering is Some {
            seq![ExtBuffer::Mastering]
        } else {
            Seq::empty()
        }) + if self.cll is Some {
            seq![ExtBuffer::LightLevel]
        } else {
            Seq::empty()
        }
    }

    /// Lists the buffers to attach, in order.
    pub fn seal(&self) -> (bufs: Vec<ExtBuffer>)
        ensures
            bufs@ =~= self.attached(),
    {
        let mut bufs: Vec<ExtBuffer> = Vec::new();
        bufs.push(ExtBuffer::CodingOption);
        if self.co2.is_some() {
            bufs.push(ExtBuffer::CodingOption2);
        }
        bufs.push(ExtBuffer::VideoSignal);
        if self.mastering.is_some() {
            bufs.push(ExtBuffer::Mastering);
        }
        if self.cll.is_some() {
            bufs.push(ExtBuffer::LightLevel);
        }
        bufs
    }
}

fn mastering_of(m: &HdrMeta) -> (b: Mastering)
    ensures
        b.is_of(*m),
{
    let p0: [u16; 2] = m.display_primaries[0];
    let p1: [u16; 2] = m.display_primaries[1];
    let p2: [u16; 2] = m.display_primaries[2];
    let b = Mastering {
        primaries_x: [p0[0], p1[0], p2[0]],
        primaries_y: [p0[1], p1[1], p2[1]],
        white_x: m.white_point[0],
        white_y: m.white_point[1],
        max_luminance: m.max_display_mastering_luminance,
        min_luminance: m.min_display_mastering_luminance,
    };
    assert(forall|i: int|
        0 <= i < 3 ==> #[trigger] b.primaries_x@[i] == m.display_primaries@[i]@[0]);
    assert(forall|i: int|
        0 <= i < 3 ==> #[trigger] b.primaries_y@[i] == m.display_primaries@[i]@[1]);
    b
}

/// Builds the parameters of a configuration: constant bitrate, no reordering, keyframes on demand
/// only.
pub fn build_params(cfg: &EncodeConfig, period: u16) -> (set: ParamSet)
    requires
        cfg.representable(),
    ensures
        set.is_for(*cfg, period as int),
{
    let profile = match cfg.codec {
        Codec::H264 => Profile::AvcHigh,
        Codec::H265 => if cfg.ten_bit {
            Profile::HevcMain10
        } else {
            Profile::HevcMain
        },
        _ => Profile::Av1Main,
    };
    let (kbps, mult) = split_rate(cfg.bitrate_bps);
    let stream = StreamInfo {
        profile,
        async_depth: 1,
        low_power: true,
        gop_pic_size: 65535,
        gop_ref_dist: 1,
        idr_interval: 0,
        num_ref_frame: NUM_REF_FRAMES,
        brc_multiplier: mult,
        target_kbps: kbps,
        max_kbps: kbps,
    };
    let frame = FrameInfo {
        format: if cfg.ten_bit {
            PixelFormat::P010
        } else {
            PixelFormat::Nv12
        },
        bit_depth: if cfg.ten_bit {
            10
        } else {
            0
        },
        shift: if cfg.ten_bit {
            1
        } else {
            0
        },
        frame_rate_n: if cfg.fps == 0 {
            1
        } else {
            cfg.fps
        },
        frame_rate_d: 1,
        width: align16(cfg.width),
        height: align16(cfg.height),
        crop_w: (cfg.width % 65536) as u16,
        crop_h: (cfg.height % 65536) as u16,
    };
    let has_wave = cfg.intra_refresh && match cfg.codec {
        Codec::H264 | Codec::H265 => true,
        _ => false,
    };
    let hdr = cfg.ten_bit && cfg.codec != Codec::H264;
    let vsi = VideoSignal {
        video_format: 5,
        full_range: 0,
        description_present: 1,
        primaries: if hdr {
            9
        } else {
            1
        },
        transfer: if hdr {
            16
        } else {
            1
        },
        matrix: if hdr {
            9
        } else {
            1
        },
    };
    let mut mastering: Option<Mastering> = None;
    let mut cll: Option<LightLevel> = None;
    if hdr {
        if let Some(m) = cfg.hdr_meta {
            mastering = Some(mastering_of(&m));
            if m.max_cll != 0 || m.max_fall != 0 {
                cll = Some(LightLevel { max_content: m.max_cll, max_average: m.max_fall });
            }
        }
    }
    ParamSet {
        stream,
        frame,
        co: CodingOption {
            nal_hrd_conformance: false,
            vui_nal_hrd_parameters: false,
            max_dec_frame_buffering: NUM_REF_FRAMES,
        },
        co2: if has_wave {
            Some(Wave { kind: 1, cycle: period })
        } else {
            None
        },
        vsi,
        mastering,
        cll,
    }
}

/// Control over the reference lists of a frame. Frames are named by their order, the low 32 bits of
/// their index.
#[derive(Debug)]
pub struct RefList {
    pub preferred: Option<u32>,
    pub rejected: Vec<u32>,
    /// Keep the frame as this long-term reference.
    pub long_term: Option<(u32, u16)>,
    /// References the frame may use from its list, 0 where that is left open.
    pub num_ref_idx_l0: u16,
}

/// Control over a single frame.
#[derive(Debug)]
pub struct FrameCtrl {
    pub idr: bool,
    pub reflist: Option<RefList>,
}

/// A frame to reject, unless it does not exist or is the one to keep.
pub open spec fn rejects(idx: i64, keep: i64) -> Seq<u32> {
    if idx >= 0 && idx != keep {
        seq![idx as u32]
    } else {
        Seq::empty()
    }
}

/// The frames a recovery frame must not reference: the two before it, and the other long-term
/// reference.
pub open spec fn rejected_frames(cur_idx: i64, slot: int, keep: i64, slots: Seq<Option<i64>>) -> Seq<
    u32,
> {
    let other = slots[1 - slot];
    rejects((cur_idx - 1) as i64, keep) + rejects((cur_idx - 2) as i64, keep) + match other {
        Some(idx) => rejects(idx, keep),
        None => Seq::empty(),
    }
}

impl FrameCtrl {
    /// The control of frame `cur_idx`. AV1 takes no rejections.
    pub open spec fn is_for(
        self,
        codec: Codec,
        cur_idx: i64,
        forced: bool,
        plan: LtrPlan,
        slots: Seq<Option<i64>>,
    ) -> bool {
        &&& self.idr == forced
        &&& self.reflist is Some == (plan.mark is Some || plan.force is Some)
        &&& self.reflist matches Some(r) ==> {
            &&& r.long_term == match plan.mark {
                Some(slot) => Some((cur_idx as u32, slot as u16)),
                None => None,
            }
            &&& match plan.force {
                Some((slot, keep)) => {
                    &&& r.preferred == Some(keep as u32)
                    &&& r.rejected@ == if codec == Codec::Av1 {
                        Seq::empty()
                    } else {
                        rejected_frames(cur_idx, slot as int, keep, slots)
                    }
                    &&& r.num_ref_idx_l0 == if codec == Codec::Av1 {
                        0u16
                    } else {
                        1u16
                    }
                },
                None => r.preferred is None && r.rejected@.len() == 0 && r.num_ref_idx_l0 == 0,
            }
        }
    }
}

fn reject(list: &mut Vec<u32>, idx: i64, keep: i64)
    ensures
        final(list)@ == old(list)@ + rejects(idx, keep),
{
    if idx >= 0 && idx != keep {
        list.push(idx as u32);
        assert(list@ =~= old(list)@ + rejects(idx, keep));
    } else {
        assert(list@ =~= old(list)@ + rejects(idx, keep));
    }
}

/// Decides the control of a frame. An ordinary frame has none.
pub fn frame_ctrl(
    codec: Codec,
    cur_idx: i64,
    forced: bool,
    plan: &LtrPlan,
    slots: &[Option<i64>; 2],
) -> (c: Option<FrameCtrl>)
    requires
        cur_idx >= 0,
        plan.mark matches Some(s) ==> s < 2,
        plan.force matches Some(f) ==> f.0 < 2,
    ensures
        c is Some == (forced || plan.mark is Some || plan.force is Some),
        c is Some ==> c->0.is_for(codec, cur_idx, forced, *plan, slots@),
{
    if !forced && plan.mark.is_none() && plan.force.is_none() {
        return None;
    }
    let long_term: Option<(u32, u16)> = match plan.mark {
        Some(slot) => Some((cur_idx as u32, slot as u16)),
        None => None,
    };
    let mut preferred: Option<u32> = None;
    let mut rejected: Vec<u32> = Vec::new();
    let mut num_ref_idx_l0: u16 = 0;
    if let Some((slot, keep)) = plan.force {
        preferred = Some(keep as u32);
        if codec != Codec::Av1 {
            reject(&mut rejected, cur_idx - 1, keep);
            reject(&mut rejected, cur_idx - 2, keep);
            if let Some(idx) = slots[1 - slot] {
                reject(&mut rejected, idx, keep);
            }
            assert(rejected@ =~= rejected_frames(cur_idx, slot as int, keep, slots@));
            num_ref_idx_l0 = 1;
        }
    }
    let reflist = if plan.mark.is_some() || plan.force.is_some() {
        Some(RefList { preferred, rejected, long_term, num_ref_idx_l0 })
    } else {
        None
    };
    Some(FrameCtrl { idr: forced, reflist })
}

/// The anchor of a recovery frame is never among the frames it rejects, as long as frame indices keep
/// within 32 bits.
pub proof fn law_anchor_is_not_rejected(
    cur_idx: i64,
    slot: int,
    keep: i64,
    slots: Seq<Option<i64>>,
    i: int,
)
    requires
        0 <= cur_idx <= u32::MAX,
        0 <= keep <= u32::MAX,
        0 <= slot < 2,
        slots.len() == 2,
        slots[1 - slot] matches Some(other) ==> other <= u32::MAX,
        0 <= i < rejected_frames(cur_idx, slot, keep, slots).len(),
    ensures
        rejected_frames(cur_idx, slot, keep, slots)[i] != keep as u32,
{
}

/// The configuration a probe asks about.
pub fn probe_config(codec: Codec, ten_bit: bool) -> (cfg: EncodeConfig)
    ensures
        cfg == (EncodeConfig {
            codec,
            width: 640,
            height: 480,
            fps: 30,
            bitrate_bps: 4_000_000,
            ten_bit,
            intra_refresh: false,
            hdr_meta: None,
        }),
        codec != Codec::PyroWave ==> cfg.representable(),
{
    EncodeConfig {
        codec,
        width: 640,
        height: 480,
        fps: 30,
        bitrate_bps: 4_000_000,
        ten_bit,
        intra_refresh: false,
        hdr_meta: None,
    }
}

} // verus!

//! The NVENC backend that uploads packed RGB frames into its own Direct3D 11 texture.
//!
//! It keeps one texture and one output buffer, so a frame is encoded and read back before the next
//! one is taken.
pub mod laws;
pub mod open;

use crate::nvenc::open_search::SPLIT_DISABLE_MODE;
use crate::nvenc::{
    lists, LowLatencyConfig, RangePlan, CODEC_AV1_GUID, CODEC_H264_GUID, CODEC_HEVC_GUID,
    PIC_FLAGS_KEYFRAME,
};
use crate::text::{keyword, read_keyword, same_text};
use crate::types::{ChromaFormat, Codec, CodecSupport, EncodedFrame, EncoderCaps, PixelFormat};
use vstd::prelude::*;

verus! {

/// PCI vendor of the adapters this backend runs on.
pub const VENDOR_NVIDIA: u32 = 0x10de;

/// Rates at or below this are not lowered further when a session is refused.
pub const RETRY_FLOOR_BPS: u64 = 50_000_000;

/// What the adapter was found to encode.
#[derive(Clone, Copy, Debug, PartialEq, Eq, Structural)]
pub struct ProbedSupport {
    pub codecs: CodecSupport,
    pub hevc_444: bool,
    pub ten_bit: bool,
}

/// Which encoder the configuration selects.
#[derive(Clone, Copy, Debug, PartialEq, Eq, Structural)]
pub enum Dispatch {
    /// This backend, if the adapter passes its probe.
    Nvenc,
    /// This backend, named explicitly.
    NvencForced,
    Software,
    /// A name that no encoder here answers to.
    Unsupported,
}

/// The names of the software encoder.
pub open spec fn names_software(word: Seq<char>) -> bool {
    word == "software"@ || word == "cpu"@ || word == "openh264"@ || word == "sw"@
}

/// The names of this backend.
pub open spec fn names_nvenc(word: Seq<char>) -> bool {
    word == "nvenc"@ || word == "nvidia"@ || word == "cuda"@
}

/// The encoder that a preference selects on an adapter.
pub open spec fn dispatch_of(word: Seq<char>, nvidia_selected: bool) -> Dispatch {
    if names_software(word) {
        Dispatch::Software
    } else if names_nvenc(word) {
        Dispatch::NvencForced
    } else if word == ""@ || word == "auto"@ {
        if nvidia_selected {
            Dispatch::Nvenc
        } else {
            Dispatch::Software
        }
    } else {
        Dispatch::Unsupported
    }
}

proof fn lemma_words_differ()
    ensures
        forall|w: Seq<char>| !(#[trigger] names_software(w) && names_nvenc(w)),
        forall|w: Seq<char>| #[trigger]
            names_software(w) ==> w != ""@ && w != "auto"@,
        forall|w: Seq<char>| #[trigger] names_nvenc(w) ==> w != ""@ && w != "auto"@,
{
    reveal_strlit("software");
    reveal_strlit("cpu");
    reveal_strlit("openh264");
    reveal_strlit("sw");
    reveal_strlit("nvenc");
    reveal_strlit("nvidia");
    reveal_strlit("cuda");
    reveal_strlit("");
    reveal_strlit("auto");
    assert(""@.len() == 0 && "auto"@.len() == 4 && "cpu"@.len() == 3 && "sw"@.len() == 2
        && "software"@.len() == 8 && "openh264"@.len() == 8 && "nvenc"@.len() == 5 && "nvidia"@.len()
        == 6 && "cuda"@.len() == 4);
    assert("nvidia"@[1] == 'v' && "nvenc"@[1] == 'v' && "software"@[0] == 's' && "cuda"@[0] == 'c'
        && "cpu"@[1] == 'p' && "cuda"@[1] == 'u' && "openh264"@[0] == 'o' && "sw"@[0] == 's'
        && "auto"@[0] == 'a' && "nvidia"@[0] == 'n' && "nvenc"@[0] == 'n' && "cpu"@[0] == 'c');
}

/// Reads the encoder preference.
pub fn dispatch(encoder_pref: &str, nvidia_selected: bool) -> (d: Dispatch)
    ensures
        d == dispatch_of(keyword(encoder_pref@), nvidia_selected),
{
    let pref = read_keyword(encoder_pref);
    let word = pref.as_str();
    if same_text(word, "software") || same_text(word, "cpu") || same_text(word, "openh264")
        || same_text(word, "sw") {
        Dispatch::Software
    } else if same_text(word, "nvenc") || same_text(word, "nvidia") || same_text(word, "cuda") {
        Dispatch::NvencForced
    } else if same_text(word, "") || same_text(word, "auto") {
        if nvidia_selected {
            Dispatch::Nvenc
        } else {
            Dispatch::Software
        }
    } else {
        Dispatch::Unsupported
    }
}

/// The preference names are disjoint: software names never select this backend, its own names always
/// do, and an empty or `auto` preference follows the adapter.
pub proof fn law_preferences_are_disjoint(word: Seq<char>, nvidia_selected: bool)
    ensures
        names_software(word) ==> dispatch_of(word, nvidia_selected) == Dispatch::Software,
        names_nvenc(word) ==> dispatch_of(word, nvidia_selected) == Dispatch::NvencForced,
        (word == ""@ || word == "auto"@) ==> dispatch_of(word, nvidia_selected) == if nvidia_selected {
            Dispatch::Nvenc
        } else {
            Dispatch::Software
        },
{
    lemma_words_differ();
}

/// The session runs on this backend.
pub open spec fn selects_hardware(d: Dispatch, probed: Option<ProbedSupport>) -> bool {
    d is NvencForced || (d is Nvenc && probed is Some)
}

/// Whether sessions run on this backend: always where it is forced, and on a probed adapter where it
/// is chosen automatically.
pub fn hardware_selected(d: Dispatch, probed: Option<ProbedSupport>) -> (r: bool)
    ensures
        r == selects_hardware(d, probed),
{
    match d {
        Dispatch::Nvenc => probed.is_some(),
        Dispatch::NvencForced => true,
        Dispatch::Software | Dispatch::Unsupported => false,
    }
}

/// The codec mask to advertise. `wire_mask` is the mask of the probed codecs.
pub fn advertised_wire_caps(d: Dispatch, probed: Option<ProbedSupport>, wire_mask: Option<u8>) -> (r:
    Option<u8>)
    ensures
        r == if selects_hardware(d, probed) && probed is Some {
            wire_mask
        } else {
            None
        },
{
    if !hardware_selected(d, probed) {
        return None;
    }
    match probed {
        Some(_) => wire_mask,
        None => None,
    }
}

pub fn hevc_444_supported(d: Dispatch, probed: Option<ProbedSupport>) -> (r: bool)
    ensures
        r == (selects_hardware(d, probed) && probed is Some && (probed->0).hevc_444),
{
    hardware_selected(d, probed) && match probed {
        Some(p) => p.hevc_444,
        None => false,
    }
}

pub fn ten_bit_supported(d: Dispatch, probed: Option<ProbedSupport>) -> (r: bool)
    ensures
        r == (selects_hardware(d, probed) && probed is Some && (probed->0).ten_bit),
{
    hardware_selected(d, probed) && match probed {
        Some(p) => p.ten_bit,
        None => false,
    }
}

/// The answers of a probe session: the codecs listed (`None` where the list could not be had) and the
/// capability values of the codecs asked about.
pub struct ProbeAnswers {
    pub listed: Option<Vec<u128>>,
    pub hevc_444: i32,
    pub hevc_10bit: i32,
    pub av1_10bit: i32,
}

/// What a probe session found. A capability counts only for a codec that is listed; without a list
/// nothing is claimed.
pub fn probe_uncached(answers: &ProbeAnswers) -> (r: Option<ProbedSupport>)
    ensures
        r == match answers.listed {
            Some(guids) => Some(
                ProbedSupport {
                    codecs: CodecSupport {
                        h264: guids@.contains(CODEC_H264_GUID),
                        h265: guids@.contains(CODEC_HEVC_GUID),
                        av1: guids@.contains(CODEC_AV1_GUID),
                    },
                    hevc_444: guids@.contains(CODEC_HEVC_GUID) && answers.hevc_444 != 0,
                    ten_bit: (guids@.contains(CODEC_HEVC_GUID) && answers.hevc_10bit != 0) || (
                    guids@.contains(CODEC_AV1_GUID) && answers.av1_10bit != 0),
                },
            ),
            None => None,
        },
{
    match &answers.listed {
        Some(guids) => {
            let hevc = lists(guids, CODEC_HEVC_GUID);
            let av1 = lists(guids, CODEC_AV1_GUID);
            Some(
                ProbedSupport {
                    codecs: CodecSupport {
                        h264: lists(guids, CODEC_H264_GUID),
                        h265: hevc,
                        av1,
                    },
                    hevc_444: hevc && answers.hevc_444 != 0,
                    ten_bit: (hevc && answers.hevc_10bit != 0) || (av1 && answers.av1_10bit != 0),
                },
            )
        },
        None => None,
    }
}

/// An enumerated adapter.
#[derive(Clone, Copy, Debug, PartialEq, Eq, Structural)]
pub struct Adapter {
    pub vendor_id: u32,
    pub luid: u64,
}

/// Adapter `i` is the first of this vendor.
pub open spec fn is_first_nvidia(adapters: Seq<Adapter>, i: int) -> bool {
    &&& 0 <= i < adapters.len()
    &&& adapters[i].vendor_id == VENDOR_NVIDIA
    &&& forall|j: int| 0 <= j < i ==> (#[trigger] adapters[j]).vendor_id != VENDOR_NVIDIA
}

/// Adapter `i` is the first of this vendor with the wanted identifier.
pub open spec fn is_first_wanted(adapters: Seq<Adapter>, want: Option<u64>, i: int) -> bool {
    &&& 0 <= i < adapters.len()
    &&& adapters[i].vendor_id == VENDOR_NVIDIA && want == Some(adapters[i].luid)
    &&& forall|j: int|
        0 <= j < i ==> (#[trigger] adapters[j]).vendor_id != VENDOR_NVIDIA || want != Some(
            adapters[j].luid,
        )
}

/// Some adapter of this vendor has the wanted identifier.
pub open spec fn has_wanted(adapters: Seq<Adapter>, want: Option<u64>) -> bool {
    exists|i: int|
        0 <= i < adapters.len() && (#[trigger] adapters[i]).vendor_id == VENDOR_NVIDIA && want
            == Some(adapters[i].luid)
}

/// Picks the adapter to encode on: the selected one, else the first of this vendor.
pub fn nvidia_device(adapters: &Vec<Adapter>, want: Option<u64>) -> (r: Option<usize>)
    ensures
        has_wanted(adapters@, want) ==> r is Some && is_first_wanted(adapters@, want, r->0 as int),
        !has_wanted(adapters@, want) ==> match r {
            Some(i) => is_first_nvidia(adapters@, i as int),
            None => forall|j: int|
                0 <= j < adapters@.len() ==> (#[trigger] adapters@[j]).vendor_id != VENDOR_NVIDIA,
        },
{
    let mut fallback: Option<usize> = None;
    let mut i: usize = 0;
    while i < adapters.len()
        invariant
            i <= adapters@.len(),
            forall|j: int|
                0 <= j < i ==> (#[trigger] adapters@[j]).vendor_id != VENDOR_NVIDIA || want != Some(
                    adapters@[j].luid,
                ),
            match fallback {
                Some(f) => f < i && is_first_nvidia(adapters@, f as int),
                None => forall|j: int|
                    0 <= j < i ==> (#[trigger] adapters@[j]).vendor_id != VENDOR_NVIDIA,
            },
        decreases adapters@.len() - i,
    {
        let a = adapters[i];
        if a.vendor_id == VENDOR_NVIDIA {
            let matched = match want {
                Some(w) => w == a.luid,
                None => false,
            };
            if matched {
                assert(adapters@[i as int].vendor_id == VENDOR_NVIDIA);
                return Some(i);
            }
            if fallback.is_none() {
                fallback = Some(i);
            }
        }
        i = i + 1;
    }
    fallback
}

#[derive(Clone, Copy, Debug, PartialEq, Eq, Structural)]
pub enum D3d11Error {
    /// The captured pixels are eight-bit; a deeper stream would mislabel them.
    DepthUnavailable { bit_depth: u8 },
    /// No driver library or no adapter of this vendor.
    Unavailable,
    /// The adapter does not encode the codec.
    CodecUnsupported,
    /// The frame's size is not the session's.
    SizeMismatch { width: u32, height: u32 },
    /// Fewer bytes than the frame's size calls for.
    ShortFrame { len: usize },
    /// Not a packed RGB format.
    FormatUnsupported(PixelFormat),
}

/// Decides whether a session may open, and whether it encodes 4:4:4. Full chroma is given up where
/// the adapter has no such thing.
pub fn check_open(
    codec: Codec,
    bit_depth: u8,
    chroma: ChromaFormat,
    probed: Option<ProbedSupport>,
) -> (r: Result<bool, D3d11Error>)
    ensures
        r == if bit_depth >= 10 {
            Err::<bool, D3d11Error>(D3d11Error::DepthUnavailable { bit_depth })
        } else if probed is None {
            Err::<bool, D3d11Error>(D3d11Error::Unavailable)
        } else if !(probed->0).codecs.covers(codec) {
            Err::<bool, D3d11Error>(D3d11Error::CodecUnsupported)
        } else {
            Ok::<bool, D3d11Error>(
                chroma == ChromaFormat::Yuv444 && codec == Codec::H265 && (probed->0).hevc_444,
            )
        },
{
    if bit_depth >= 10 {
        return Err(D3d11Error::DepthUnavailable { bit_depth });
    }
    let found = match probed {
        Some(p) => p,
        None => {
            return Err(D3d11Error::Unavailable);
        },
    };
    let codec_ok = match codec {
        Codec::H264 => found.codecs.h264,
        Codec::H265 => found.codecs.h265,
        Codec::Av1 => found.codecs.av1,
        Codec::PyroWave => false,
    };
    if !codec_ok {
        return Err(D3d11Error::CodecUnsupported);
    }
    Ok(chroma.is_444() && codec == Codec::H265 && found.hevc_444)
}

/// One session open to try.
#[derive(Clone, Copy, Debug, PartialEq, Eq, Structural)]
pub struct SessionAttempt {
    pub bps: u64,
    pub split_mode: u32,
    pub subframe: bool,
}

/// Each rate three quarters of the one before, down to the first at or below the floor.
pub open spec fn lowered_rates(rate: u64) -> Seq<u64>
    decreases rate,
{
    if rate > RETRY_FLOOR_BPS {
        let next = (rate * 3 / 4) as u64;
        seq![next] + lowered_rates(next)
    } else {
        Seq::empty()
    }
}

/// An attempt with neither split encoding nor sub-frame output.
pub open spec fn plain_attempt(bps: u64) -> SessionAttempt {
    SessionAttempt { bps, split_mode: SPLIT_DISABLE_MODE, subframe: false }
}

/// The sessions to try, in order: as asked, without split encoding, and then at lower rates with
/// neither split encoding nor sub-frame output.
pub open spec fn attempts_for(
    bitrate_bps: u64,
    max_bitrate_bps: u64,
    split_mode: u32,
    subframe: bool,
) -> Seq<SessionAttempt> {
    let rate = if bitrate_bps <= max_bitrate_bps {
        bitrate_bps
    } else {
        max_bitrate_bps
    };
    let first = seq![SessionAttempt { bps: bitrate_bps, split_mode, subframe }];
    let unsplit = if split_mode != SPLIT_DISABLE_MODE {
        seq![SessionAttempt { bps: bitrate_bps, split_mode: SPLIT_DISABLE_MODE, subframe }]
    } else {
        Seq::<SessionAttempt>::empty()
    };
    first + unsplit + lowered_rates(rate).map_values(
        |bps: u64| plain_attempt(bps),
    )
}

/// Lists the sessions to try. `max_bitrate_bps` is the most the codec allows.
pub fn open_attempts(
    bitrate_bps: u64,
    max_bitrate_bps: u64,
    split_mode: u32,
    subframe: bool,
) -> (attempts: Vec<SessionAttempt>)
    requires
        bitrate_bps * 3 <= u64::MAX || max_bitrate_bps * 3 <= u64::MAX,
    ensures
        attempts@ == attempts_for(bitrate_bps, max_bitrate_bps, split_mode, subframe),
{
    let mut attempts: Vec<SessionAttempt> = Vec::new();
    attempts.push(SessionAttempt { bps: bitrate_bps, split_mode, subframe });
    if split_mode != SPLIT_DISABLE_MODE {
        attempts.push(
            SessionAttempt { bps: bitrate_bps, split_mode: SPLIT_DISABLE_MODE, subframe },
        );
    }
    let mut rate: u64 = if bitrate_bps <= max_bitrate_bps {
        bitrate_bps
    } else {
        max_bitrate_bps
    };
    let ghost lower = |bps: u64| plain_attempt(bps);
    let ghost all = attempts_for(bitrate_bps, max_bitrate_bps, split_mode, subframe);
    assert(all =~= attempts@ + lowered_rates(rate).map_values(lower));
    while rate > RETRY_FLOOR_BPS
        invariant
            rate * 3 <= u64::MAX,
            all =~= attempts@ + lowered_rates(rate).map_values(lower),
            lower == (|bps: u64| plain_attempt(bps)),
        decreases rate,
    {
        let ghost before = attempts@;
        let ghost rates = lowered_rates(rate);
        rate = rate * 3 / 4;
        attempts.push(SessionAttempt { bps: rate, split_mode: SPLIT_DISABLE_MODE, subframe: false });
        proof {
            assert(rates =~= seq![rate] + lowered_rates(rate));
            assert(before + rates.map_values(lower) =~= attempts@ + lowered_rates(rate).map_values(
                lower,
            ));
        }
    }
    assert(lowered_rates(rate).map_values(lower) =~= Seq::<SessionAttempt>::empty());
    attempts
}

/// A refused session is never retried at a higher rate: the lowered rates fall strictly, stay above
/// three quarters of the floor, and end at or below the floor.
pub proof fn law_retries_only_lower_the_rate(rate: u64)
    ensures
        rate > RETRY_FLOOR_BPS ==> lowered_rates(rate).len() > 0 && lowered_rates(rate).last()
            <= RETRY_FLOOR_BPS,
        forall|i: int|
            0 <= i < lowered_rates(rate).len() ==> (#[trigger] lowered_rates(rate)[i]) < rate
                && lowered_rates(rate)[i] * 4 > RETRY_FLOOR_BPS * 3 - 4,
        forall|i: int, j: int|
            0 <= i < j < lowered_rates(rate).len() ==> (#[trigger] lowered_rates(rate)[j]) < (
            #[trigger] lowered_rates(rate)[i]),
    decreases rate,
{
    if rate > RETRY_FLOOR_BPS {
        let next = (rate * 3 / 4) as u64;
        law_retries_only_lower_the_rate(next);
        let rest = lowered_rates(next);
        assert(lowered_rates(rate) =~= seq![next] + rest);
        assert forall|i: int| 0 <= i < lowered_rates(rate).len() implies (
        #[trigger] lowered_rates(rate)[i]) < rate && lowered_rates(rate)[i] * 4 > RETRY_FLOOR_BPS * 3
            - 4 by {
            if i > 0 {
                assert(lowered_rates(rate)[i] == rest[i - 1]);
            }
        }
        assert forall|i: int, j: int| 0 <= i < j < lowered_rates(rate).len() implies (
        #[trigger] lowered_rates(rate)[j]) < (#[trigger] lowered_rates(rate)[i]) by {
            assert(lowered_rates(rate)[j] == rest[j - 1]);
            if i > 0 {
                assert(lowered_rates(rate)[i] == rest[i - 1]);
            }
        }
        if rest.len() > 0 {
            assert(lowered_rates(rate).last() == rest.last());
        }
    }
}

/// Slices to ask for: what the client takes, at least one and at most four.
pub fn slice_budget(max_slices: u32) -> (n: u32)
    ensures
        n == if max_slices < 1 {
            1
        } else if max_slices > 4 {
            4
        } else {
            max_slices
        },
{
    if max_slices < 1 {
        1
    } else if max_slices > 4 {
        4
    } else {
        max_slices
    }
}

/// Samples per second of the session.
pub fn session_pixel_rate(width: u32, height: u32, fps: u32) -> (rate: u64)
    requires
        width * height * fps <= u64::MAX,
    ensures
        rate == width * height * fps,
{
    let w: u64 = width as u64;
    let h: u64 = height as u64;
    let f: u64 = fps as u64;
    assert(w * h <= 0xffff_ffffu64 * 0xffff_ffffu64) by (nonlinear_arith)
        requires
            w <= 0xffff_ffff,
            h <= 0xffff_ffff,
    ;
    w * h * f
}

/// Bytes that `pixels` pixels of a packed RGB format take.
pub open spec fn packed_len(format: PixelFormat, pixels: int) -> Option<int> {
    match format {
        PixelFormat::Bgra | PixelFormat::Bgrx | PixelFormat::Rgba | PixelFormat::Rgbx => Some(
            4 * pixels,
        ),
        PixelFormat::Bgr | PixelFormat::Rgb => Some(3 * pixels),
        _ => None,
    }
}

/// Byte `c` of pixel `p` in blue, green, red, alpha order.
pub open spec fn bgra_byte(format: PixelFormat, src: Seq<u8>, p: int, c: int) -> u8 {
    match format {
        PixelFormat::Bgra | PixelFormat::Bgrx => src[4 * p + c],
        PixelFormat::Rgba | PixelFormat::Rgbx => if c < 3 {
            src[4 * p + 2 - c]
        } else {
            src[4 * p + 3]
        },
        PixelFormat::Bgr => if c < 3 {
            src[3 * p + c]
        } else {
            255
        },
        _ => if c < 3 {
            src[3 * p + 2 - c]
        } else {
            255
        },
    }
}

/// `pixels` pixels of `src` in blue, green, red, alpha order.
pub open spec fn bgra_image(format: PixelFormat, src: Seq<u8>, pixels: int) -> Seq<u8> {
    Seq::new((4 * pixels) as nat, |i: int| bgra_byte(format, src, i / 4, i % 4))
}

fn push_pixel(out: &mut Vec<u8>, b: u8, g: u8, r: u8, a: u8)
    ensures
        final(out)@ == old(out)@ + seq![b, g, r, a],
{
    out.push(b);
    out.push(g);
    out.push(r);
    out.push(a);
    assert(out@ =~= old(out)@ + seq![b, g, r, a]);
}

/// Fills `scratch` with the pixels of `src` in blue, green, red, alpha order.
fn swizzle(format: PixelFormat, src: &[u8], pixels: usize, scratch: &mut Vec<u8>)
    requires
        packed_len(format, pixels as int) is Some,
        src@.len() >= packed_len(format, pixels as int)->0,
        4 * pixels <= usize::MAX,
    ensures
        final(scratch)@ =~= bgra_image(format, src@, pixels as int),
{
    scratch.clear();
    let mut p: usize = 0;
    while p < pixels
        invariant
            p <= pixels,
            4 * pixels <= usize::MAX,
            packed_len(format, pixels as int) is Some,
            src@.len() >= packed_len(format, pixels as int)->0,
            scratch@ =~= bgra_image(format, src@, p as int),
        decreases pixels - p,
    {
        let ghost before = scratch@;
        match format {
            PixelFormat::Bgra | PixelFormat::Bgrx => {
                push_pixel(scratch, src[4 * p], src[4 * p + 1], src[4 * p + 2], src[4 * p + 3]);
            },
            PixelFormat::Rgba | PixelFormat::Rgbx => {
                push_pixel(scratch, src[4 * p + 2], src[4 * p + 1], src[4 * p], src[4 * p + 3]);
            },
            PixelFormat::Bgr => {
                push_pixel(scratch, src[3 * p], src[3 * p + 1], src[3 * p + 2], 255);
            },
            _ => {
                push_pixel(scratch, src[3 * p + 2], src[3 * p + 1], src[3 * p], 255);
            },
        }
        proof {
            let image = bgra_image(format, src@, p + 1);
            assert(scratch@.len() == image.len());
            assert forall|i: int| 0 <= i < image.len() implies scratch@[i] == #[trigger] image[i] by {
                if i < 4 * p {
                    assert(scratch@[i] == before[i]);
                    assert(before[i] == bgra_byte(format, src@, i / 4, i % 4));
                } else {
                    assert(i / 4 == p && i % 4 == i - 4 * p);
                }
            }
        }
        p = p + 1;
    }
}

/// The frame's pixels in the layout of the texture, four bytes each. Frames already in that layout
/// are returned as they are, others by way of `scratch`, which a refused frame leaves as it is.
pub fn bgra_bytes<'a>(
    format: PixelFormat,
    width: u32,
    height: u32,
    src: &'a [u8],
    scratch: &'a mut Vec<u8>,
) -> (r: Result<&'a [u8], D3d11Error>)
    requires
        width * height * 4 <= usize::MAX,
    ensures
        match packed_len(format, width * height) {
            None => r is Err && r->Err_0 == D3d11Error::FormatUnsupported(format),
            Some(len) => if src@.len() < len {
                r is Err && r->Err_0 == (D3d11Error::ShortFrame { len: src@.len() as usize })
            } else {
                r is Ok && r->Ok_0@ =~= bgra_image(format, src@, width * height)
            },
        },
        r is Err ==> final(scratch)@ == old(scratch)@,
{
    assert(width * height <= usize::MAX) by (nonlinear_arith)
        requires
            width * height * 4 <= usize::MAX,
            width >= 0,
            height >= 0,
    ;
    let pixels: usize = width as usize * height as usize;
    match format {
        PixelFormat::Bgra | PixelFormat::Bgrx => {
            if src.len() < pixels * 4 {
                return Err(D3d11Error::ShortFrame { len: src.len() });
            }
            let head = vstd::slice::slice_subrange(src, 0, pixels * 4);
            proof {
                let image = bgra_image(format, src@, pixels as int);
                assert forall|i: int| 0 <= i < image.len() implies head@[i] == #[trigger] image[i] by {
                    assert(4 * (i / 4) + i % 4 == i);
                }
            }
            Ok(head)
        },
        PixelFormat::Rgba | PixelFormat::Rgbx => {
            if src.len() < pixels * 4 {
                return Err(D3d11Error::ShortFrame { len: src.len() });
            }
            swizzle(format, src, pixels, scratch);
            Ok(scratch.as_slice())
        },
        PixelFormat::Bgr | PixelFormat::Rgb => {
            if src.len() < pixels * 3 {
                return Err(D3d11Error::ShortFrame { len: src.len() });
            }
            swizzle(format, src, pixels, scratch);
            Ok(scratch.as_slice())
        },
        _ => Err(D3d11Error::FormatUnsupported(format)),
    }
}

/// What the session was opened with.
#[derive(Clone, Copy, Debug, PartialEq, Eq, Structural)]
pub struct D3d11Config {
    pub codec: Codec,
    pub width: u32,
    pub height: u32,
    pub fps: u32,
    pub bitrate_bps: u64,
    pub chroma_444: bool,
    pub rfi_supported: bool,
    pub custom_vbv: bool,
    pub slices: u32,
    pub split_mode: u32,
    pub subframe_on: bool,
}

pub struct NvencD3d11Encoder {
    pub encoder: u64,
    pub cfg: D3d11Config,
    pub frame_idx: i64,
    pub force_kf: bool,
    pub pending_anchor: bool,
    pub last_rfi_range: Option<(i64, i64)>,
    /// The unit of the last frame, until it is polled.
    pub pending: Option<EncodedFrame>,
}

/// What a frame is submitted with.
#[derive(Clone, Copy, Debug, PartialEq, Eq, Structural)]
pub struct FramePlan {
    pub timestamp: u64,
    pub flags: u32,
    pub anchor: bool,
}

impl NvencD3d11Encoder {
    /// Everything but the frame flow is as in `other`.
    pub open spec fn same_session(self, other: NvencD3d11Encoder) -> bool {
        self.encoder == other.encoder && self.cfg == other.cfg
    }

    pub open spec fn wf(self) -> bool {
        self.frame_idx >= 0
    }

    /// The encoder of an opened session.
    pub fn open(encoder: u64, cfg: D3d11Config) -> (e: NvencD3d11Encoder)
        ensures
            e.wf(),
            e.encoder == encoder,
            e.cfg == cfg,
            e.frame_idx == 0,
            !e.force_kf && !e.pending_anchor,
            e.last_rfi_range is None,
            e.pending is None,
    {
        NvencD3d11Encoder {
            encoder,
            cfg,
            frame_idx: 0,
            force_kf: false,
            pending_anchor: false,
            last_rfi_range: None,
            pending: None,
        }
    }

    /// Inputs of the driver configuration at `bitrate`: packed eight-bit input, never HDR.
    pub fn build_config(&self, bitrate: u64) -> (c: LowLatencyConfig)
        ensures
            c == (LowLatencyConfig {
                codec: self.cfg.codec,
                bitrate,
                fps: self.cfg.fps,
                custom_vbv: self.cfg.custom_vbv,
                chroma_444: self.cfg.chroma_444,
                full_chroma_input: true,
                bit_depth: 8,
                av1_input_depth_minus8: 0,
                hdr: false,
                rfi_supported: self.cfg.rfi_supported,
                slices: self.cfg.slices,
            }),
    {
        LowLatencyConfig {
            codec: self.cfg.codec,
            bitrate,
            fps: self.cfg.fps,
            custom_vbv: self.cfg.custom_vbv,
            chroma_444: self.cfg.chroma_444,
            full_chroma_input: true,
            bit_depth: 8,
            av1_input_depth_minus8: 0,
            hdr: false,
            rfi_supported: self.cfg.rfi_supported,
            slices: self.cfg.slices,
        }
    }

    /// Refuses a frame of another size than the session's.
    pub fn check_frame(&self, width: u32, height: u32) -> (r: Result<(), D3d11Error>)
        ensures
            r == if width != self.cfg.width || height != self.cfg.height {
                Err::<(), D3d11Error>(D3d11Error::SizeMismatch { width, height })
            } else {
                Ok::<(), D3d11Error>(())
            },
    {
        if width != self.cfg.width || height != self.cfg.height {
            return Err(D3d11Error::SizeMismatch { width, height });
        }
        Ok(())
    }

    /// Decides what the next frame is submitted with. A forced keyframe cancels a recovery anchor.
    pub fn plan_frame(&mut self) -> (p: FramePlan)
        requires
            old(self).wf(),
            old(self).frame_idx < i64::MAX,
        ensures
            final(self).wf(),
            final(self).same_session(*old(self)),
            final(self).frame_idx == old(self).frame_idx + 1,
            !final(self).force_kf && !final(self).pending_anchor,
            final(self).last_rfi_range == old(self).last_rfi_range,
            final(self).pending == old(self).pending,
            p == (FramePlan {
                timestamp: old(self).frame_idx as u64,
                flags: if old(self).force_kf {
                    PIC_FLAGS_KEYFRAME
                } else {
                    0
                },
                anchor: old(self).pending_anchor && !old(self).force_kf,
            }),
    {
        let timestamp: u64 = self.frame_idx as u64;
        self.frame_idx = self.frame_idx + 1;
        let force = self.force_kf;
        self.force_kf = false;
        let anchor = self.pending_anchor && !force;
        self.pending_anchor = false;
        let flags: u32 = if force {
            PIC_FLAGS_KEYFRAME
        } else {
            0
        };
        FramePlan { timestamp, flags, anchor }
    }

    /// Keeps the unit of an encoded frame for the next poll. A keyframe is never a recovery anchor.
    pub fn finish_frame(&mut self, plan: FramePlan, pts_ns: u64, data: Vec<u8>, keyframe: bool)
        requires
            old(self).wf(),
        ensures
            final(self).wf(),
            final(self).same_session(*old(self)),
            final(self).frame_idx == old(self).frame_idx,
            final(self).force_kf == old(self).force_kf,
            final(self).pending_anchor == old(self).pending_anchor,
            final(self).last_rfi_range == old(self).last_rfi_range,
            final(self).pending matches Some(au) && au.data@ == data@ && au.pts_ns == pts_ns
                && au.keyframe == keyframe && au.recovery_anchor == (plan.anchor && !keyframe)
                && !au.chunk_aligned,
    {
        self.pending = Some(
            EncodedFrame {
                data,
                pts_ns,
                keyframe,
                recovery_anchor: plan.anchor && !keyframe,
                chunk_aligned: false,
            },
        );
    }

    /// Pins the next frame's number to its wire index.
    pub fn set_wire_index(&mut self, wire_index: u32)
        requires
            old(self).wf(),
        ensures
            final(self).wf(),
            final(self).same_session(*old(self)),
            final(self).frame_idx == wire_index,
            final(self).force_kf == old(self).force_kf,
            final(self).pending_anchor == old(self).pending_anchor,
            final(self).last_rfi_range == old(self).last_rfi_range,
            final(self).pending == old(self).pending,
    {
        self.frame_idx = wire_index as i64;
    }

    pub fn caps(&self) -> (c: EncoderCaps)
        ensures
            c == (EncoderCaps {
                blends_cursor: false,
                supports_rfi: self.cfg.rfi_supported,
                chroma_444: self.cfg.chroma_444,
                intra_refresh: false,
                intra_refresh_recovery: false,
                intra_refresh_period: 0,
            }),
    {
        EncoderCaps {
            blends_cursor: false,
            supports_rfi: self.cfg.rfi_supported,
            chroma_444: self.cfg.chroma_444,
            intra_refresh: false,
            intra_refresh_recovery: false,
            intra_refresh_period: 0,
        }
    }

    /// Forces the next frame to be a keyframe.
    pub fn request_keyframe(&mut self)
        requires
            old(self).wf(),
        ensures
            final(self).wf(),
            final(self).same_session(*old(self)),
            final(self).frame_idx == old(self).frame_idx,
            final(self).force_kf,
            final(self).pending_anchor == old(self).pending_anchor,
            final(self).last_rfi_range == old(self).last_rfi_range,
            final(self).pending == old(self).pending,
    {
        self.force_kf = true;
    }

    /// Records the driver's answer to a rate change; without a session it is refused. `false` means
    /// that the caller rebuilds.
    pub fn reconfigure_bitrate(&mut self, bps: u64, accepted: bool) -> (r: bool)
        requires
            old(self).wf(),
        ensures
            r == (old(self).encoder != 0 && accepted),
            final(self).wf(),
            final(self).encoder == old(self).encoder,
            final(self).cfg == if r {
                D3d11Config { bitrate_bps: bps, ..old(self).cfg }
            } else {
                old(self).cfg
            },
            final(self).frame_idx == old(self).frame_idx,
            final(self).force_kf == old(self).force_kf,
            final(self).pending_anchor == old(self).pending_anchor,
            final(self).last_rfi_range == old(self).last_rfi_range,
            final(self).pending == old(self).pending,
    {
        if self.encoder == 0 || !accepted {
            return false;
        }
        let cfg = self.cfg;
        self.cfg = D3d11Config { bitrate_bps: bps, ..cfg };
        true
    }

    /// Answers a loss report by the range policy's plan. `all_accepted` tells whether the driver took
    /// every invalidation of the plan. `false` means that the caller recovers with a keyframe.
    pub fn invalidate_ref_frames(&mut self, plan: RangePlan, all_accepted: bool) -> (answered: bool)
        requires
            old(self).wf(),
        ensures
            final(self).wf(),
            final(self).same_session(*old(self)),
            final(self).frame_idx == old(self).frame_idx,
            final(self).force_kf == old(self).force_kf,
            final(self).pending == old(self).pending,
            answered == (old(self).encoder != 0 && old(self).cfg.rfi_supported && match plan {
                RangePlan::Covered => true,
                RangePlan::Decline => false,
                RangePlan::Invalidate { .. } => all_accepted,
            }),
            final(self).pending_anchor == (answered || old(self).pending_anchor),
            final(self).last_rfi_range == match plan {
                RangePlan::Invalidate { first, last } => if answered {
                    Some((first, last))
                } else {
                    old(self).last_rfi_range
                },
                _ => old(self).last_rfi_range,
            },
    {
        if self.encoder == 0 || !self.cfg.rfi_supported {
            return false;
        }
        match plan {
            RangePlan::Covered => {
                self.pending_anchor = true;
                true
            },
            RangePlan::Decline => false,
            RangePlan::Invalidate { first, last } => {
                if !all_accepted {
                    return false;
                }
                self.last_rfi_range = Some((first, last));
                self.pending_anchor = true;
                true
            },
        }
    }

    /// Hands out the unit of the last frame, once.
    pub fn poll(&mut self) -> (au: Option<EncodedFrame>)
        requires
            old(self).wf(),
        ensures
            au == old(self).pending,
            final(self).wf(),
            final(self).pending is None,
            final(self).same_session(*old(self)),
            final(self).frame_idx == old(self).frame_idx,
            final(self).force_kf == old(self).force_kf,
            final(self).pending_anchor == old(self).pending_anchor,
            final(self).last_rfi_range == old(self).last_rfi_range,
    {
        self.pending.take()
    }
}

} // verus!

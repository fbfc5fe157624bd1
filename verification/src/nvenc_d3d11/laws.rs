//! What holds of the uploading NVENC backend across its operations.
//!
//! The laws speak of what the executable functions return and do, for all inputs: a premise
//! `call_ensures` names a call, its arguments and its result.
use crate::nvenc::{LowLatencyConfig, RangePlan};
use crate::nvenc_d3d11::open::{
    begin_open, open_session, OpenAction, OpenAnswer, OpenPhase, OpenStep,
};
use crate::nvenc_d3d11::{
    advertised_wire_caps, bgra_bytes, check_open, dispatch, hardware_selected, hevc_444_supported,
    law_retries_only_lower_the_rate, lowered_rates, nvidia_device, open_attempts, probe_uncached,
    session_pixel_rate, slice_budget, ten_bit_supported, Adapter, D3d11Config, D3d11Error, Dispatch,
    FramePlan, NvencD3d11Encoder, ProbeAnswers, ProbedSupport, SessionAttempt,
};
use crate::text::keyword;
use crate::types::{ChromaFormat, Codec, EncodedFrame, EncoderCaps, PixelFormat};
use vstd::prelude::*;

verus! {

/// An uploaded pixel has its colours in the texture's places, blue first, whichever order the frame
/// has them in, and is opaque where the frame has no fourth byte. A frame in that order already is
/// uploaded as it is.
pub proof fn law_colours_land_in_their_places(
    format: PixelFormat,
    width: u32,
    height: u32,
    src: &[u8],
    scratch: &mut Vec<u8>,
    r: Result<&[u8], D3d11Error>,
    p: int,
)
    requires
        call_ensures(bgra_bytes, (format, width, height, src, scratch), r),
        0 <= p < width * height,
    ensures
        r matches Ok(out) ==> {
            let red_first = format == PixelFormat::Rgba || format == PixelFormat::Rgbx || format
                == PixelFormat::Rgb;
            let step: int = if format == PixelFormat::Rgb || format == PixelFormat::Bgr {
                3
            } else {
                4
            };
            &&& out@.len() == 4 * (width * height)
            &&& out@[4 * p] == src@[step * p + (if red_first {
                2int
            } else {
                0
            })]
            &&& out@[4 * p + 1] == src@[step * p + 1]
            &&& out@[4 * p + 2] == src@[step * p + (if red_first {
                0int
            } else {
                2
            })]
            &&& out@[4 * p + 3] == (if step == 4 {
                src@[4 * p + 3]
            } else {
                255u8
            })
            &&& src@.len() >= step * (width * height)
        },
        r matches Err(e) ==> {
            &&& e is FormatUnsupported || e is ShortFrame
            &&& e is ShortFrame ==> e == (D3d11Error::ShortFrame { len: src@.len() as usize })
            &&& e is FormatUnsupported <==> !(format == PixelFormat::Bgra || format == PixelFormat::Bgrx
                || format == PixelFormat::Rgba || format == PixelFormat::Rgbx || format
                == PixelFormat::Rgb || format == PixelFormat::Bgr)
            &&& final(scratch)@ == old(scratch)@
        },
{
    assert((4 * p) / 4 == p && (4 * p) % 4 == 0);
    assert((4 * p + 1) / 4 == p && (4 * p + 1) % 4 == 1);
    assert((4 * p + 2) / 4 == p && (4 * p + 2) % 4 == 2);
    assert((4 * p + 3) / 4 == p && (4 * p + 3) % 4 == 3);
}

/// A preference selects by its words alone, whatever their case and the white space around them: the
/// backend's own names force it, the software names rule it out, and an empty one or `auto` follows the
/// adapter.
pub proof fn law_preferences_select_the_backend(
    a: &str,
    b: &str,
    nvidia: bool,
    da: Dispatch,
    db: Dispatch,
)
    requires
        call_ensures(dispatch, (a, nvidia), da),
        call_ensures(dispatch, (b, nvidia), db),
    ensures
        keyword(a@) == keyword(b@) ==> da == db,
        keyword(a@) == "nvenc"@ || keyword(a@) == "nvidia"@ || keyword(a@) == "cuda"@ ==> da
            == Dispatch::NvencForced,
        keyword(a@) == "software"@ || keyword(a@) == "cpu"@ || keyword(a@) == "openh264"@ || keyword(
            a@,
        ) == "sw"@ ==> da == Dispatch::Software,
        keyword(a@) == ""@ || keyword(a@) == "auto"@ ==> (da == Dispatch::Nvenc <==> nvidia) && (da
            == Dispatch::Software <==> !nvidia),
        da == Dispatch::Nvenc ==> nvidia,
{
    crate::nvenc_d3d11::law_preferences_are_disjoint(keyword(a@), nvidia);
}

/// The backend is used where it is forced, or chosen and probed; what it advertises and supports is
/// what its probe found.
pub proof fn law_support_is_what_was_probed(
    d: Dispatch,
    probed: Option<ProbedSupport>,
    mask: Option<u8>,
    used: bool,
    caps: Option<u8>,
    full: bool,
    deep: bool,
)
    requires
        call_ensures(hardware_selected, (d, probed), used),
        call_ensures(advertised_wire_caps, (d, probed, mask), caps),
        call_ensures(hevc_444_supported, (d, probed), full),
        call_ensures(ten_bit_supported, (d, probed), deep),
    ensures
        d == Dispatch::NvencForced ==> used,
        d == Dispatch::Nvenc ==> (used <==> probed is Some),
        d == Dispatch::Software || d == Dispatch::Unsupported ==> !used,
        used && probed is Some ==> caps == mask && full == probed->0.hevc_444 && deep
            == probed->0.ten_bit,
        !used || probed is None ==> caps is None && !full && !deep,
{
}

/// A capability counts for a listed codec only, and nothing is claimed without a list.
pub proof fn law_capabilities_need_a_listed_codec(answers: ProbeAnswers, r: Option<ProbedSupport>)
    requires
        call_ensures(probe_uncached, (&answers,), r),
    ensures
        r is Some <==> answers.listed is Some,
        r matches Some(s) ==> {
            &&& s.hevc_444 <==> s.codecs.h265 && answers.hevc_444 != 0
            &&& s.ten_bit <==> (s.codecs.h265 && answers.hevc_10bit != 0) || (s.codecs.av1
                && answers.av1_10bit != 0)
            &&& s.codecs.h264 <==> (answers.listed->0)@.contains(
                0x6bc82762_4e63_4ca4_aa85_1e50f321f6bf,
            )
            &&& s.codecs.h265 <==> (answers.listed->0)@.contains(
                0x790cdc88_4522_4d7b_9425_bda9975f7603,
            )
            &&& s.codecs.av1 <==> (answers.listed->0)@.contains(
                0x0a352289_0aa7_4759_862d_5d15cd16d254,
            )
        },
{
}

/// The adapter that is picked is one of the vendor's, 0x10de, and the wanted one where that is; none is
/// picked only where there is none.
pub proof fn law_the_picked_adapter_is_the_vendors(
    adapters: Vec<Adapter>,
    want: Option<u64>,
    r: Option<usize>,
)
    requires
        call_ensures(nvidia_device, (&adapters, want), r),
    ensures
        r matches Some(i) ==> i < adapters@.len() && adapters@[i as int].vendor_id == 0x10de,
        r is None ==> forall|j: int|
            0 <= j < adapters@.len() ==> (#[trigger] adapters@[j]).vendor_id != 0x10de,
        forall|j: int|
            0 <= j < adapters@.len() && (#[trigger] adapters@[j]).vendor_id == 0x10de && want == Some(
                adapters@[j].luid,
            ) ==> r is Some && want == Some(adapters@[r->0 as int].luid),
{
    assert forall|j: int|
        0 <= j < adapters@.len() && (#[trigger] adapters@[j]).vendor_id == 0x10de && want == Some(
            adapters@[j].luid,
        ) implies r is Some && want == Some(adapters@[r->0 as int].luid) by {
        assert(crate::nvenc_d3d11::has_wanted(adapters@, want));
    }
}

/// A session opens for eight-bit streams of a probed codec only, and with full chroma only where HEVC
/// was asked for it and the adapter has it. The depth is judged before the adapter, the adapter before
/// the codec.
pub proof fn law_a_session_opens_for_what_was_probed(
    codec: Codec,
    depth: u8,
    chroma: ChromaFormat,
    probed: Option<ProbedSupport>,
    r: Result<bool, D3d11Error>,
)
    requires
        call_ensures(check_open, (codec, depth, chroma, probed), r),
    ensures
        r is Ok <==> depth < 10 && probed is Some && ((codec == Codec::H264 && probed->0.codecs.h264)
            || (codec == Codec::H265 && probed->0.codecs.h265) || (codec == Codec::Av1
            && probed->0.codecs.av1)),
        r matches Ok(full) ==> (full <==> chroma == ChromaFormat::Yuv444 && codec == Codec::H265
            && probed->0.hevc_444),
        r matches Err(e) ==> {
            &&& depth >= 10 <==> e == (D3d11Error::DepthUnavailable { bit_depth: depth })
            &&& e == D3d11Error::Unavailable <==> depth < 10 && probed is None
        },
{
}

/// Sessions are tried as asked first, then without split encoding at the same rate, and only then at
/// lower ones: each of those is below the wanted and the highest allowed rate, three quarters of the one
/// before, and plain. The last one is at 50 Mbit/s or below.
pub proof fn law_attempts_only_give_up(
    bps: u64,
    max_bps: u64,
    split: u32,
    subframe: bool,
    attempts: Vec<SessionAttempt>,
    i: int,
)
    requires
        bps * 3 <= u64::MAX || max_bps * 3 <= u64::MAX,
        call_ensures(open_attempts, (bps, max_bps, split, subframe), attempts),
        0 <= i < attempts@.len(),
    ensures
        attempts@[0] == (SessionAttempt { bps, split_mode: split, subframe }),
        ({
            let asked: int = if split != 15 {
                2
            } else {
                1
            };
            &&& split != 15 ==> attempts@.len() >= 2 && attempts@[1] == (SessionAttempt {
                bps,
                split_mode: 15,
                subframe,
            })
            &&& i >= asked ==> {
                &&& attempts@[i].split_mode == 15 && !attempts@[i].subframe
                &&& attempts@[i].bps < bps && attempts@[i].bps < max_bps
                &&& i == asked ==> attempts@[i].bps == (if bps <= max_bps {
                    bps
                } else {
                    max_bps
                }) * 3 / 4
                &&& i > asked ==> attempts@[i].bps == attempts@[i - 1].bps * 3 / 4
            }
            &&& bps > 50_000_000 && max_bps > 50_000_000 ==> attempts@.len() > asked
                && attempts@.last().bps <= 50_000_000
            &&& bps <= 50_000_000 || max_bps <= 50_000_000 ==> attempts@.len() == asked
        }),
{
    let rate = if bps <= max_bps {
        bps
    } else {
        max_bps
    };
    let rates = lowered_rates(rate);
    law_retries_only_lower_the_rate(rate);
    let asked: int = if split != 15 {
        2
    } else {
        1
    };
    assert(attempts@.len() == asked + rates.len());
    if i >= asked {
        assert(attempts@[i].bps == rates[i - asked]);
        lemma_rates_are_three_quarters(rate, i - asked);
        if i > asked {
            assert(attempts@[i - 1].bps == rates[i - 1 - asked]);
        }
    }
    if rates.len() > 0 {
        assert(attempts@.last().bps == rates.last());
    }
    if rate <= 50_000_000 {
        assert(rates.len() == 0);
    }
}

proof fn lemma_rates_are_three_quarters(rate: u64, k: int)
    requires
        0 <= k < lowered_rates(rate).len(),
    ensures
        lowered_rates(rate)[k] == (if k == 0 {
            rate
        } else {
            lowered_rates(rate)[k - 1]
        }) * 3 / 4,
    decreases k,
{
    let next = (rate * 3 / 4) as u64;
    let rest = lowered_rates(next);
    assert(lowered_rates(rate) =~= seq![next] + rest);
    assert(next == rate * 3 / 4);
    if k > 0 {
        lemma_rates_are_three_quarters(next, k - 1);
        assert(lowered_rates(rate)[k] == rest[k - 1]);
        if k > 1 {
            assert(lowered_rates(rate)[k - 1] == rest[k - 2]);
        }
    }
}

/// A session asks for one to four slices, as far as its client takes them, and its pixel rate is that
/// of all frames of a second.
pub proof fn law_slices_and_rates_follow_the_stream(
    max_slices: u32,
    n: u32,
    width: u32,
    height: u32,
    fps: u32,
    rate: u64,
)
    requires
        call_ensures(slice_budget, (max_slices,), n),
        call_ensures(session_pixel_rate, (width, height, fps), rate),
    ensures
        1 <= n <= 4,
        max_slices >= 1 ==> n <= max_slices,
        1 <= max_slices <= 4 ==> n == max_slices,
        rate == fps * (width * height),
{
    assert(fps * (width * height) == width * height * fps) by (nonlinear_arith);
}

/// An opened encoder runs the session it was given; it configures the driver for eight-bit packed
/// input at the asked rate, never for HDR.
pub proof fn law_the_driver_takes_packed_input(
    handle: u64,
    cfg: D3d11Config,
    enc: NvencD3d11Encoder,
    bitrate: u64,
    c: LowLatencyConfig,
    caps: EncoderCaps,
)
    requires
        call_ensures(NvencD3d11Encoder::open, (handle, cfg), enc),
        call_ensures(NvencD3d11Encoder::build_config, (&enc, bitrate), c),
        call_ensures(NvencD3d11Encoder::caps, (&enc,), caps),
    ensures
        enc.encoder == handle && enc.frame_idx == 0 && enc.pending is None && !enc.force_kf,
        c.bitrate == bitrate && c.codec == cfg.codec && c.fps == cfg.fps && c.slices == cfg.slices,
        c.chroma_444 == cfg.chroma_444 && c.rfi_supported == cfg.rfi_supported && c.custom_vbv
            == cfg.custom_vbv,
        c.full_chroma_input && c.bit_depth == 8 && c.av1_input_depth_minus8 == 0 && !c.hdr,
        caps.supports_rfi == cfg.rfi_supported && caps.chroma_444 == cfg.chroma_444,
        !caps.blends_cursor && !caps.intra_refresh && !caps.intra_refresh_recovery,
{
}

/// A frame is a forced keyframe exactly where one was asked for, and then no recovery anchor; both
/// requests are used up by it. Its unit carries its time, its bytes and its type, is an anchor only
/// where it is no keyframe, and is handed out once.
pub proof fn law_a_frame_becomes_its_unit(
    planned: &mut NvencD3d11Encoder,
    finished: &mut NvencD3d11Encoder,
    polled: &mut NvencD3d11Encoder,
    again: &mut NvencD3d11Encoder,
    p: FramePlan,
    pts_ns: u64,
    data: Vec<u8>,
    key: bool,
    got: Option<EncodedFrame>,
    none: Option<EncodedFrame>,
)
    requires
        old(planned).wf(),
        old(planned).frame_idx < i64::MAX,
        call_ensures(NvencD3d11Encoder::plan_frame, (planned,), p),
        call_ensures(NvencD3d11Encoder::finish_frame, (finished, p, pts_ns, data, key), ()),
        call_ensures(NvencD3d11Encoder::poll, (polled,), got),
        call_ensures(NvencD3d11Encoder::poll, (again,), none),
    ensures
        p.flags == (if old(planned).force_kf {
            6int
        } else {
            0
        }),
        p.anchor <==> old(planned).pending_anchor && !old(planned).force_kf,
        p.timestamp == old(planned).frame_idx,
        final(planned).frame_idx == old(planned).frame_idx + 1,
        !final(planned).force_kf && !final(planned).pending_anchor,
        *old(polled) == *final(finished) ==> (got matches Some(au) && au.data@ == data@ && au.pts_ns
            == pts_ns && au.keyframe == key && au.recovery_anchor == (p.anchor && !key)
            && !au.chunk_aligned),
        *old(again) == *final(polled) ==> none is None,
{
}

/// A frame of another size is refused, and none else.
pub proof fn law_frames_have_the_size_of_the_session(
    enc: NvencD3d11Encoder,
    width: u32,
    height: u32,
    r: Result<(), D3d11Error>,
)
    requires
        call_ensures(NvencD3d11Encoder::check_frame, (&enc, width, height), r),
    ensures
        r is Ok <==> width == enc.cfg.width && height == enc.cfg.height,
        r is Err ==> r->Err_0 == (D3d11Error::SizeMismatch { width, height }),
{
}

/// A loss is answered where the session can invalidate and the policy's plan went through, and the next
/// frame that is no keyframe is then the anchor; a changed rate counts once the driver takes it.
pub proof fn law_losses_and_rates_need_the_driver(
    enc: &mut NvencD3d11Encoder,
    next: &mut NvencD3d11Encoder,
    rated: &mut NvencD3d11Encoder,
    plan: RangePlan,
    accepted: bool,
    answered: bool,
    p: FramePlan,
    bps: u64,
    ok: bool,
)
    requires
        old(enc).wf() && old(next).wf() && old(rated).wf(),
        call_ensures(NvencD3d11Encoder::invalidate_ref_frames, (enc, plan, accepted), answered),
        call_ensures(NvencD3d11Encoder::plan_frame, (next,), p),
        call_ensures(NvencD3d11Encoder::reconfigure_bitrate, (rated, bps, accepted), ok),
    ensures
        answered ==> old(enc).encoder != 0 && old(enc).cfg.rfi_supported,
        plan == RangePlan::Decline ==> !answered,
        old(enc).encoder != 0 && old(enc).cfg.rfi_supported && plan == RangePlan::Covered ==> answered,
        old(enc).encoder != 0 && old(enc).cfg.rfi_supported && plan is Invalidate ==> answered
            == accepted,
        answered && *old(next) == *final(enc) ==> (p.anchor <==> !old(enc).force_kf),
        !answered ==> final(enc).pending_anchor == old(enc).pending_anchor
            && final(enc).last_rfi_range == old(enc).last_rfi_range,
        plan matches RangePlan::Invalidate { first, last } && answered ==> final(enc).last_rfi_range
            == Some((plan->first, plan->last)),
        ok <==> accepted && old(rated).encoder != 0,
        ok ==> final(rated).cfg.bitrate_bps == bps,
        !ok ==> final(rated).cfg == old(rated).cfg,
        final(rated).cfg.codec == old(rated).cfg.codec && final(rated).cfg.width
            == old(rated).cfg.width,
{
}

/// An open walks the attempts in order: each session is configured as its attempt says, a refused
/// configuration leads to the next attempt, and the session that runs is the one that was configured.
/// Whatever a refusal leaves open is released.
pub proof fn law_an_open_walks_the_attempts(
    phase: OpenPhase,
    attempts: Vec<SessionAttempt>,
    answer: OpenAnswer,
    s: OpenStep,
    first: OpenStep,
)
    requires
        phase.within(attempts@.len()),
        phase.expects(answer),
        call_ensures(begin_open, (), first),
        call_ensures(open_session, (phase, &attempts, answer), s),
    ensures
        first.phase == (OpenPhase::Opening { at: 0 }) && first.action == OpenAction::Open,
        phase matches OpenPhase::Opening { at } ==> match answer {
            OpenAnswer::Handle(h) => s.phase == (OpenPhase::Initializing { at, encoder: h }) && s.action
                == OpenAction::Initialize(attempts@[at as int]),
            _ => s.phase is Failed,
        },
        phase matches OpenPhase::Initializing { at, encoder } ==> match answer {
            OpenAnswer::Accepted => s.phase == (OpenPhase::Registering { at, encoder }),
            _ => s.release.encoder == Some(encoder) && (if at + 1 < attempts@.len() {
                s.phase == (OpenPhase::Opening { at: (at + 1) as usize }) && s.action
                    == OpenAction::Open
            } else {
                s.phase is Failed
            }),
        },
        phase matches OpenPhase::Registering { at, encoder } ==> match answer {
            OpenAnswer::Handle(h) => s.phase == (OpenPhase::Buffer { at, encoder, registered: h }),
            _ => s.phase is Failed && s.release.encoder == Some(encoder),
        },
        phase matches OpenPhase::Buffer { at, encoder, registered } ==> match answer {
            OpenAnswer::Handle(h) => s.phase == (OpenPhase::Opened {
                attempt: attempts@[at as int],
                encoder,
                registered,
                bitstream: h,
            }),
            _ => s.phase is Failed && s.release.encoder == Some(encoder) && s.release.registered
                == Some(registered),
        },
        s.phase matches OpenPhase::Failed(status) ==> answer == OpenAnswer::Refused(status) && s.action
            == OpenAction::Nothing,
        s.phase is Opened ==> s.action == OpenAction::Nothing,
        !(answer is Refused) ==> s.release.encoder is None && s.release.registered is None,
{
}

/// A frame in system memory is uploaded exactly where its format is packed RGB and it holds all of its
/// pixels, of three or four bytes each.
pub proof fn law_whole_frames_are_uploaded(
    format: PixelFormat,
    width: u32,
    height: u32,
    src: &[u8],
    scratch: &mut Vec<u8>,
    r: Result<&[u8], D3d11Error>,
)
    requires
        call_ensures(bgra_bytes, (format, width, height, src, scratch), r),
    ensures
        format == PixelFormat::Bgra || format == PixelFormat::Bgrx || format == PixelFormat::Rgba
            || format == PixelFormat::Rgbx ==> (r is Ok <==> src@.len() >= 4 * (width * height)),
        format == PixelFormat::Bgr || format == PixelFormat::Rgb ==> (r is Ok <==> src@.len() >= 3 * (
        width * height)),
        r matches Ok(out) ==> out@.len() == 4 * (width * height),
{
}

/// The session stays the one that was opened: no frame, request, loss or poll changes its handle or its
/// configuration, and each changes only what it is about.
pub proof fn law_frames_keep_their_session(
    planned: &mut NvencD3d11Encoder,
    p: FramePlan,
    finished: &mut NvencD3d11Encoder,
    plan: FramePlan,
    pts_ns: u64,
    data: Vec<u8>,
    key: bool,
    polled: &mut NvencD3d11Encoder,
    got: Option<EncodedFrame>,
    asked: &mut NvencD3d11Encoder,
    pinned: &mut NvencD3d11Encoder,
    index: u32,
    lost: &mut NvencD3d11Encoder,
    range: RangePlan,
    accepted: bool,
    answered: bool,
)
    requires
        call_ensures(NvencD3d11Encoder::plan_frame, (planned,), p),
        call_ensures(NvencD3d11Encoder::finish_frame, (finished, plan, pts_ns, data, key), ()),
        call_ensures(NvencD3d11Encoder::poll, (polled,), got),
        call_ensures(NvencD3d11Encoder::request_keyframe, (asked,), ()),
        call_ensures(NvencD3d11Encoder::set_wire_index, (pinned, index), ()),
        call_ensures(NvencD3d11Encoder::invalidate_ref_frames, (lost, range, accepted), answered),
    ensures
        final(planned).encoder == old(planned).encoder && final(planned).cfg == old(planned).cfg,
        final(planned).pending == old(planned).pending
            && final(planned).last_rfi_range == old(planned).last_rfi_range,
        final(finished).encoder == old(finished).encoder && final(finished).cfg == old(finished).cfg,
        final(finished).frame_idx == old(finished).frame_idx
            && final(finished).force_kf == old(finished).force_kf
            && final(finished).pending_anchor == old(finished).pending_anchor,
        final(polled).encoder == old(polled).encoder && final(polled).cfg == old(polled).cfg,
        final(polled).frame_idx == old(polled).frame_idx
            && final(polled).force_kf == old(polled).force_kf
            && final(polled).pending_anchor == old(polled).pending_anchor,
        final(asked).encoder == old(asked).encoder && final(asked).cfg == old(asked).cfg,
        final(asked).force_kf && final(asked).frame_idx == old(asked).frame_idx && final(asked).pending
            == old(asked).pending && final(asked).pending_anchor == old(asked).pending_anchor,
        final(pinned).encoder == old(pinned).encoder && final(pinned).cfg == old(pinned).cfg,
        final(pinned).frame_idx == index && final(pinned).force_kf == old(pinned).force_kf
            && final(pinned).pending == old(pinned).pending,
        final(lost).encoder == old(lost).encoder && final(lost).cfg == old(lost).cfg,
        final(lost).frame_idx == old(lost).frame_idx && final(lost).force_kf == old(lost).force_kf
            && final(lost).pending == old(lost).pending,
{
}

/// The backend promises no intra refresh, and so no period of one.
pub proof fn law_no_wave_is_promised(enc: NvencD3d11Encoder, c: EncoderCaps)
    requires
        call_ensures(NvencD3d11Encoder::caps, (&enc,), c),
    ensures
        !c.intra_refresh && !c.intra_refresh_recovery && c.intra_refresh_period == 0,
        c.supports_rfi == enc.cfg.rfi_supported && c.chroma_444 == enc.cfg.chroma_444,
{
}

/// Without a wanted adapter, or where it is not there, the first of the vendor's is picked.
pub proof fn law_the_first_adapter_is_the_default(
    adapters: Vec<Adapter>,
    want: Option<u64>,
    r: Option<usize>,
)
    requires
        call_ensures(nvidia_device, (&adapters, want), r),
        forall|j: int|
            0 <= j < adapters@.len() && want == Some((#[trigger] adapters@[j]).luid)
                ==> adapters@[j].vendor_id != 0x10de,
    ensures
        r matches Some(i) ==> forall|j: int|
            0 <= j < i ==> (#[trigger] adapters@[j]).vendor_id != 0x10de,
{
}

/// A poll, a plan and a changed rate leave the answered range alone.
pub proof fn law_the_answered_range_is_kept(
    enc: &mut NvencD3d11Encoder,
    op: int,
    got: Option<EncodedFrame>,
    p: FramePlan,
    data: Vec<u8>,
    pts_ns: u64,
    key: bool,
    index: u32,
    bps: u64,
    ok: bool,
)
    requires
        0 <= op <= 5,
        op == 0 ==> call_ensures(NvencD3d11Encoder::poll, (enc,), got),
        op == 1 ==> call_ensures(NvencD3d11Encoder::plan_frame, (enc,), p),
        op == 2 ==> call_ensures(NvencD3d11Encoder::finish_frame, (enc, p, pts_ns, data, key), ()),
        op == 3 ==> call_ensures(NvencD3d11Encoder::request_keyframe, (enc,), ()),
        op == 4 ==> call_ensures(NvencD3d11Encoder::set_wire_index, (enc, index), ()),
        op == 5 ==> call_ensures(NvencD3d11Encoder::reconfigure_bitrate, (enc, bps, key), ok),
    ensures
        final(enc).last_rfi_range == old(enc).last_rfi_range,
        op != 1 ==> final(enc).pending_anchor == old(enc).pending_anchor,
        op != 1 && op != 4 ==> final(enc).frame_idx == old(enc).frame_idx,
        op != 0 && op != 2 ==> final(enc).pending == old(enc).pending,
        op != 1 && op != 3 ==> final(enc).force_kf == old(enc).force_kf,
        final(enc).encoder == old(enc).encoder,
{
}

} // verus!

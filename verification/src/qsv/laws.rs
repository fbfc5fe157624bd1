//! What holds of the QSV backend across its operations.
//!
//! The laws speak of what the executable functions return, for all inputs: a premise `call_ensures`
//! names a call, its arguments and its result.
use crate::ltr::LtrPlan;
use crate::qsv::params::{
    align16, build_params, create_session, find_impl, frame_ctrl, intra_refresh_period,
    intra_refresh_requested, kilobits, ltr_disabled, ltr_mark_interval, ltr_test_force_at,
    luid_bytes, probe_candidates, probe_config, split_rate, sts_name, vpl_ok, EncodeConfig,
    ExtBuffer, FrameCtrl, ParamSet, Profile, QsvError, Status, VplImpl,
};
use crate::flow::{DrainStep, PollBegin, ResetPlan};
use crate::qsv::submit::{FrameIn, SubmitAction, SubmitEvent, SubmitPhase, SubmitStep};
use crate::qsv::{
    au_bytes, probe_can_encode, probe_can_encode_10bit, timestamp, FramePlan, InitCalls,
    Initialised, QsvEncoder, SettleStep, SyncEvent,
};
use crate::text::{decimal, trimmed};
use crate::types::{
    ChromaFormat, Codec, EncodedFrame, EncoderCaps, HdrMeta, PayloadKind, PixelFormat,
};
use vstd::prelude::*;

verus! {

/// The signalled frame rate is the configured one: frames per second times the rate's denominator are
/// its numerator. A rate of zero is signalled as one frame per second.
pub proof fn law_frame_rate_is_the_configured_one(cfg: EncodeConfig, period: u16, set: ParamSet)
    requires
        cfg.representable(),
        call_ensures(build_params, (&cfg, period), set),
    ensures
        set.frame.frame_rate_d >= 1,
        cfg.fps >= 1 ==> set.frame.frame_rate_n == cfg.fps * set.frame.frame_rate_d,
        cfg.fps == 0 ==> set.frame.frame_rate_n == set.frame.frame_rate_d,
{
}

/// The signalled rate is the configured one, in steps of the multiplier: it is never above it, and one
/// more step would be. The rate is constant, and the multiplier no larger than the rate needs.
pub proof fn law_signalled_rate_is_the_configured_one(cfg: EncodeConfig, period: u16, set: ParamSet)
    requires
        cfg.representable(),
        call_ensures(build_params, (&cfg, period), set),
        1000 <= cfg.bitrate_bps < (65535 * 65535 + 1) * 1000,
    ensures
        set.stream.max_kbps == set.stream.target_kbps,
        set.stream.target_kbps >= 1,
        set.stream.brc_multiplier >= 1,
        set.stream.target_kbps * set.stream.brc_multiplier * 1000 <= cfg.bitrate_bps,
        cfg.bitrate_bps < (set.stream.target_kbps + 1) * set.stream.brc_multiplier * 1000,
        (set.stream.brc_multiplier - 1) * 65535 * 1000 < cfg.bitrate_bps,
{
    lemma_split(cfg.bitrate_bps, set.stream.target_kbps as int, set.stream.brc_multiplier as int);
}

/// The same of the split alone: both parts fit sixteen bits, and a rate below one kilobit counts as
/// one.
pub proof fn law_a_rate_splits_into_value_and_multiplier(bps: u64, r: (u16, u16))
    requires
        bps < (65535 * 65535 + 1) * 1000,
        call_ensures(split_rate, (bps,), r),
    ensures
        bps < 1000 ==> r.0 == 1 && r.1 == 1,
        bps >= 1000 ==> {
            &&& r.0 * r.1 * 1000 <= bps < (r.0 + 1) * r.1 * 1000
            &&& (r.1 - 1) * 65535 * 1000 < bps
        },
        bps < 65536 * 1000 ==> r.1 == 1,
{
    lemma_split(bps, r.0 as int, r.1 as int);
}

proof fn lemma_split(bps: u64, part: int, mult: int)
    requires
        bps < (65535 * 65535 + 1) * 1000,
        mult == crate::qsv::params::rate_multiplier(bps),
        part == (kilobits(bps) / mult) % 65536,
    ensures
        bps < 1000 ==> part == 1 && mult == 1,
        bps >= 1000 ==> {
            &&& part >= 1
            &&& mult >= 1
            &&& part * mult * 1000 <= bps
            &&& bps < (part + 1) * mult * 1000
            &&& (mult - 1) * 65535 * 1000 < bps
        },
        bps < 65536 * 1000 ==> mult == 1,
{
    crate::qsv::params::law_rate_splits_without_loss(bps);
    let k = kilobits(bps);
    assert(part == k / mult);
    assert(part * mult * 1000 == 1000 * (part * mult) && (part + 1) * mult * 1000 == 1000 * ((part + 1)
        * mult)) by (nonlinear_arith);
    if bps >= 1000 {
        assert(part >= 1) by (nonlinear_arith)
            requires
                1 <= k < (part + 1) * mult,
                part >= 0,
                mult == (k + 65534) / 65535,
                k <= 65535 * 65535,
        {
            if part == 0 {
                assert(k < mult);
            }
        }
    } else {
        assert(mult == 1 && part == 1);
    }
}

/// The picture is cropped to the configured size out of whole macroblocks, with less than one to spare
/// in either direction.
pub proof fn law_pictures_are_whole_macroblocks_cropped(cfg: EncodeConfig, period: u16, set: ParamSet)
    requires
        cfg.representable(),
        call_ensures(build_params, (&cfg, period), set),
        cfg.width <= 65520,
        cfg.height <= 65520,
    ensures
        set.frame.crop_w == cfg.width,
        set.frame.crop_h == cfg.height,
        set.frame.width % 16 == 0,
        set.frame.height % 16 == 0,
        cfg.width <= set.frame.width < cfg.width + 16,
        cfg.height <= set.frame.height < cfg.height + 16,
{
}

/// Rounding up reaches a multiple of sixteen, and the nearest one.
pub proof fn law_rounding_up_is_the_nearest_multiple(v: u32, r: u16)
    requires
        v <= 65520,
        call_ensures(align16, (v,), r),
    ensures
        r % 16 == 0,
        v <= r < v + 16,
{
}

/// Layout, depth and profile agree on the sample depth: ten-bit samples lie in the high bits of two
/// bytes, eight-bit input leaves depth and shift open.
pub proof fn law_depth_runs_through_the_parameters(cfg: EncodeConfig, period: u16, set: ParamSet)
    requires
        cfg.representable(),
        call_ensures(build_params, (&cfg, period), set),
    ensures
        cfg.ten_bit ==> set.frame.format == PixelFormat::P010 && set.frame.bit_depth == 10
            && set.frame.shift == 1,
        !cfg.ten_bit ==> set.frame.format == PixelFormat::Nv12 && set.frame.bit_depth == 0
            && set.frame.shift == 0,
        set.stream.profile == Profile::AvcHigh <==> cfg.codec == Codec::H264,
        set.stream.profile == Profile::Av1Main <==> cfg.codec == Codec::Av1,
        set.stream.profile == Profile::HevcMain10 <==> cfg.codec == Codec::H265 && cfg.ten_bit,
        set.stream.profile == Profile::HevcMain <==> cfg.codec == Codec::H265 && !cfg.ten_bit,
{
}

/// Colours are signalled in limited range: BT.2020 with the PQ curve for ten-bit streams of a codec
/// that carries them, BT.709 for all others. A mastering grade goes out with the former only, and a
/// light level with a grade that knows one.
pub proof fn law_colours_follow_the_depth(cfg: EncodeConfig, period: u16, set: ParamSet)
    requires
        cfg.representable(),
        call_ensures(build_params, (&cfg, period), set),
    ensures
        set.vsi.full_range == 0,
        set.vsi.description_present == 1,
        set.vsi.video_format == 5,
        ({
            let hdr = cfg.ten_bit && (cfg.codec == Codec::H265 || cfg.codec == Codec::Av1);
            &&& hdr ==> set.vsi.primaries == 9 && set.vsi.transfer == 16 && set.vsi.matrix == 9
            &&& !hdr ==> set.vsi.primaries == 1 && set.vsi.transfer == 1 && set.vsi.matrix == 1
            &&& set.mastering is Some <==> hdr && cfg.hdr_meta is Some
            &&& set.cll is Some ==> set.mastering is Some
            &&& set.mastering is Some ==> (set.cll is None <==> cfg.hdr_meta->0.max_cll == 0
                && cfg.hdr_meta->0.max_fall == 0)
        }),
{
}

/// A signalled grade is the source's: every point keeps its place and its axes, and neither luminance
/// nor light level changes its unit.
pub proof fn law_a_grade_is_sent_as_it_is(cfg: EncodeConfig, period: u16, set: ParamSet)
    requires
        cfg.representable(),
        call_ensures(build_params, (&cfg, period), set),
        set.mastering is Some,
    ensures
        cfg.hdr_meta is Some,
        ({
            let m = cfg.hdr_meta->0;
            let sent = set.mastering->0;
            &&& sent.primaries_x@[0] == m.display_primaries@[0]@[0] && sent.primaries_y@[0]
                == m.display_primaries@[0]@[1]
            &&& sent.primaries_x@[1] == m.display_primaries@[1]@[0] && sent.primaries_y@[1]
                == m.display_primaries@[1]@[1]
            &&& sent.primaries_x@[2] == m.display_primaries@[2]@[0] && sent.primaries_y@[2]
                == m.display_primaries@[2]@[1]
            &&& sent.white_x == m.white_point@[0] && sent.white_y == m.white_point@[1]
            &&& sent.max_luminance == m.max_display_mastering_luminance
            &&& sent.min_luminance == m.min_display_mastering_luminance
            &&& set.cll matches Some(level) ==> level.max_content == m.max_cll && level.max_average
                == m.max_fall
        }),
{
}

/// No frame is reordered and none is held back; keyframes come on demand only, and the decoder's
/// buffer is as deep as the references go.
pub proof fn law_streams_are_not_reordered(cfg: EncodeConfig, period: u16, set: ParamSet)
    requires
        cfg.representable(),
        call_ensures(build_params, (&cfg, period), set),
    ensures
        set.stream.gop_ref_dist == 1,
        set.stream.async_depth == 1,
        set.stream.idr_interval == 0,
        set.stream.gop_pic_size == 0xffff,
        set.stream.low_power,
        set.co.max_dec_frame_buffering == set.stream.num_ref_frame,
        set.stream.num_ref_frame == 4,
        !set.co.nal_hrd_conformance && !set.co.vui_nal_hrd_parameters,
        set.co2 is Some <==> cfg.intra_refresh && (cfg.codec == Codec::H264 || cfg.codec
            == Codec::H265),
        set.co2 matches Some(wave) ==> wave.cycle == period && wave.kind == 1,
{
}

/// Every part of the parameters is attached exactly once, and no part that is missing.
pub proof fn law_every_part_is_attached_once(set: ParamSet, bufs: Vec<ExtBuffer>)
    requires
        call_ensures(ParamSet::seal, (&set,), bufs),
    ensures
        forall|i: int, j: int|
            #![trigger bufs@[i], bufs@[j]]
            0 <= i < j < bufs@.len() ==> bufs@[i] != bufs@[j],
        bufs@.contains(ExtBuffer::CodingOption),
        bufs@.contains(ExtBuffer::VideoSignal),
        bufs@.contains(ExtBuffer::CodingOption2) <==> set.co2 is Some,
        bufs@.contains(ExtBuffer::Mastering) <==> set.mastering is Some,
        bufs@.contains(ExtBuffer::LightLevel) <==> set.cll is Some,
{
    let a: int = if set.co2 is Some {
        1
    } else {
        0
    };
    assert(bufs@[0] == ExtBuffer::CodingOption);
    assert(bufs@[1 + a] == ExtBuffer::VideoSignal);
    if set.co2 is Some {
        assert(bufs@[1] == ExtBuffer::CodingOption2);
    }
    if set.mastering is Some {
        assert(bufs@[2 + a] == ExtBuffer::Mastering);
    }
    if set.cll is Some {
        assert(bufs@.last() == ExtBuffer::LightLevel);
    }
}

/// A recovery frame prefers its anchor and, where the codec takes rejections, is barred from the two
/// frames before it and from the other long-term reference, but never from the anchor; it then has one
/// reference only. Frames are named by their own numbers.
pub proof fn law_a_recovery_frame_sees_its_anchor_only(
    codec: Codec,
    cur_idx: i64,
    forced: bool,
    plan: LtrPlan,
    slots: [Option<i64>; 2],
    slot: usize,
    anchor: i64,
    c: Option<FrameCtrl>,
)
    requires
        2 <= cur_idx <= 0xffff_ffff,
        slot < 2,
        0 <= anchor <= 0xffff_ffff,
        slots@[1 - slot] matches Some(other) ==> 0 <= other <= 0xffff_ffff,
        plan.mark is None,
        plan.force == Some((slot, anchor)),
        call_ensures(frame_ctrl, (codec, cur_idx, forced, &plan, &slots), c),
    ensures
        c is Some,
        c->0.reflist is Some,
        ({
            let r = c->0.reflist->0;
            let other = slots@[1 - slot];
            &&& r.preferred is Some && r.preferred->0 == anchor
            &&& r.long_term is None
            &&& codec == Codec::Av1 ==> r.rejected@.len() == 0 && r.num_ref_idx_l0 == 0
            &&& codec != Codec::Av1 ==> {
                &&& r.num_ref_idx_l0 == 1
                &&& anchor != cur_idx - 1 ==> r.rejected@.contains((cur_idx - 1) as u32)
                &&& anchor != cur_idx - 2 ==> r.rejected@.contains((cur_idx - 2) as u32)
                &&& other is Some && other->0 != anchor ==> r.rejected@.contains(other->0 as u32)
                &&& !r.rejected@.contains(anchor as u32)
                &&& r.rejected@.len() <= 3
            }
        }),
{
    let r = c->0.reflist->0;
    if codec != Codec::Av1 {
        let a = crate::qsv::params::rejects((cur_idx - 1) as i64, anchor);
        let b = crate::qsv::params::rejects((cur_idx - 2) as i64, anchor);
        if anchor != cur_idx - 1 {
            assert(r.rejected@[0] == (cur_idx - 1) as u32);
        }
        if anchor != cur_idx - 2 {
            assert(r.rejected@[a.len() as int] == (cur_idx - 2) as u32);
        }
        if slots@[1 - slot] is Some && slots@[1 - slot]->0 != anchor {
            assert(r.rejected@[(a.len() + b.len()) as int] == slots@[1 - slot]->0 as u32);
        }
    }
}

/// A frame has a control only where something is to be said of it: a keyframe is asked for exactly
/// where it is due, and a marked frame is kept under its own number in the slot of its mark.
pub proof fn law_controls_say_what_was_planned(
    codec: Codec,
    cur_idx: i64,
    forced: bool,
    plan: LtrPlan,
    slots: [Option<i64>; 2],
    c: Option<FrameCtrl>,
)
    requires
        0 <= cur_idx <= 0xffff_ffff,
        plan.mark matches Some(s) ==> s < 2,
        plan.force matches Some(f) ==> f.0 < 2,
        call_ensures(frame_ctrl, (codec, cur_idx, forced, &plan, &slots), c),
    ensures
        c is None <==> !forced && plan.mark is None && plan.force is None,
        c is Some ==> c->0.idr == forced,
        c is Some ==> (c->0.reflist is None <==> plan.mark is None && plan.force is None),
        plan.mark matches Some(s) ==> (c->0.reflist->0.long_term matches Some(kept) && kept.0 == cur_idx
            && kept.1 == plan.mark->0),
        c is Some && c->0.reflist is Some && plan.force is None ==> c->0.reflist->0.preferred is None
            && c->0.reflist->0.rejected@.len() == 0,
{
}

/// Presentation times are in units of 1/90000 s: nine ticks make 100 microseconds, a part of a tick is
/// dropped, and later frames never come before earlier ones.
pub proof fn law_ticks_are_ninety_thousand_a_second(pts_ns: u64, later: u64, t: u64, u: u64)
    requires
        call_ensures(timestamp, (pts_ns,), t),
        call_ensures(timestamp, (later,), u),
        pts_ns <= later,
        later as int * 9 < 0x1_0000_0000_0000_0000,
    ensures
        t * 1_000_000_000 <= pts_ns * 90_000 < (t + 1) * 1_000_000_000,
        t <= u,
{
}

/// A unit's buffer holds what the runtime reports, in thousands of bytes times its multiplier, and is
/// never below a quarter mebibyte.
pub proof fn law_units_fit_their_buffer(kb: u16, multiplier: u16, b: usize)
    requires
        call_ensures(au_bytes, (kb, multiplier), b),
    ensures
        b >= 0x4_0000,
        b >= 1000 * kb * multiplier,
        b >= 1000 * kb,
        b > 0x4_0000 && multiplier >= 1 ==> b == 1000 * kb * multiplier,
        b > 0x4_0000 && multiplier == 0 ==> b == 1000 * kb,
{
    assert(1000 * kb * multiplier == kb * multiplier * 1000) by (nonlinear_arith);
    assert(multiplier >= 1 ==> kb * multiplier >= kb) by (nonlinear_arith)
        requires
            kb >= 0,
    ;
    assert(kb * 1 == kb);
    if multiplier == 0 {
        assert(kb * multiplier == 0) by (nonlinear_arith)
            requires
                multiplier == 0,
        ;
    }
}

/// The bytes of an adapter's identity are both its words, low word and low byte first; so different
/// adapters have different bytes.
pub proof fn law_adapter_bytes_are_its_words(low: u32, high: u32, b: [u8; 8])
    requires
        call_ensures(luid_bytes, (low, high), b),
    ensures
        b@[0] + 0x100 * b@[1] + 0x1_0000 * b@[2] + 0x100_0000 * b@[3] == low,
        b@[4] + 0x100 * b@[5] + 0x1_0000 * b@[6] + 0x100_0000 * b@[7] == high,
{
    assert(b@[0] == crate::qsv::params::luid_byte(low, high, 0));
    assert(b@[1] == crate::qsv::params::luid_byte(low, high, 1));
    assert(b@[2] == crate::qsv::params::luid_byte(low, high, 2));
    assert(b@[3] == crate::qsv::params::luid_byte(low, high, 3));
    assert(b@[4] == crate::qsv::params::luid_byte(low, high, 4));
    assert(b@[5] == crate::qsv::params::luid_byte(low, high, 5));
    assert(b@[6] == crate::qsv::params::luid_byte(low, high, 6));
    assert(b@[7] == crate::qsv::params::luid_byte(low, high, 7));
    lemma_bytes_of_word(low as int);
    lemma_bytes_of_word(high as int);
}

proof fn lemma_bytes_of_word(w: int)
    requires
        0 <= w <= 0xffff_ffff,
    ensures
        w % 256 + 0x100 * (w / 256 % 256) + 0x1_0000 * (w / 65536 % 256) + 0x100_0000 * (w / 16777216)
            == w,
{
    assert(w / 65536 == w / 256 / 256);
    assert(w / 16777216 == w / 65536 / 256);
}

/// A session with a target runs on the target: the chosen implementation knows its adapter, and that
/// is the wanted one. Where no implementation runs there, none is chosen.
pub proof fn law_a_session_runs_on_its_target(
    impls: Vec<VplImpl>,
    want: [u8; 8],
    r: Result<u32, QsvError>,
)
    requires
        call_ensures(create_session, (&impls, Some(want)), r),
    ensures
        r matches Ok(index) ==> exists|i: int|
            0 <= i < impls@.len() && (#[trigger] impls@[i]).index == index && impls@[i].luid_valid
                && impls@[i].luid@ == want@,
        r is Err && impls@.len() > 0 ==> r->Err_0 == QsvError::WrongAdapter && forall|i: int|
            0 <= i < impls@.len() ==> !((#[trigger] impls@[i]).luid_valid && impls@[i].luid@ == want@),
        impls@.len() == 0 <==> r == Err::<u32, QsvError>(QsvError::NoImplementation),
{
}

/// A session without a target takes the first implementation, and fails only where there is none. A
/// probe tries that one too, and last; it tries no more than two.
pub proof fn law_the_first_implementation_is_the_default(
    impls: Vec<VplImpl>,
    selected: Option<[u8; 8]>,
    r: Result<u32, QsvError>,
    c: Vec<u32>,
)
    requires
        call_ensures(create_session, (&impls, None), r),
        call_ensures(probe_candidates, (&impls, selected), c),
    ensures
        r is Ok <==> impls@.len() > 0,
        r is Ok ==> r->Ok_0 == impls@[0].index && c@.len() > 0 && c@.last() == r->Ok_0,
        c@.len() <= 2,
        c@.len() == 0 <==> impls@.len() == 0,
        c@.len() == 2 ==> selected is Some && exists|i: int|
            0 <= i < impls@.len() && (#[trigger] impls@[i]).index == c@[0] && impls@[i].luid_valid
                && impls@[i].luid@ == (selected->0)@,
{
}

/// A probe asks about a small stream of the codec at the wanted depth, with nothing optional.
pub proof fn law_a_probe_asks_about_the_wanted_depth(
    codec: Codec,
    ten_bit: bool,
    cfg: EncodeConfig,
    period: u16,
    set: ParamSet,
)
    requires
        codec != Codec::PyroWave,
        call_ensures(probe_config, (codec, ten_bit), cfg),
        call_ensures(build_params, (&cfg, period), set),
    ensures
        cfg.representable(),
        cfg.codec == codec && cfg.ten_bit == ten_bit,
        set.co2 is None && set.mastering is None && set.cll is None,
        set.frame.crop_w == set.frame.width && set.frame.crop_h == set.frame.height,
        3 * set.frame.width == 4 * set.frame.height,
        set.frame.bit_depth == 10 <==> ten_bit,
{
}

/// Warnings pass and errors do not: a call failed exactly where its code is negative.
pub proof fn law_warnings_pass(s: Status, r: Result<(), QsvError>, ok: bool)
    requires
        call_ensures(vpl_ok, (s,), r),
        call_ensures(Status::is_ok, (&s,), ok),
    ensures
        r is Ok <==> ok,
        r is Err ==> r->Err_0 == QsvError::Call(s),
        s == Status::Success ==> ok,
        s == Status::WarnDeviceBusy || s == Status::WarnInExecution || s
            == Status::WarnIncompatibleVideoParam || s == Status::WarnPartialAcceleration ==> ok,
        s matches Status::Other(code) ==> (ok <==> code >= 0),
        s == Status::MoreData || s == Status::Unsupported || s == Status::DeviceLost || s
            == Status::DeviceFailed || s == Status::GpuHang || s == Status::NotFound || s
            == Status::NotEnoughBuffer || s == Status::MemoryAlloc || s
            == Status::IncompatibleVideoParam || s == Status::InvalidVideoParam || s
            == Status::UndefinedBehavior || s == Status::NotInitialized ==> !ok,
{
}

/// Without a setting frames are marked four times a second, and a wave takes half a second, but never
/// fewer than 8 frames nor more than 240, whatever the setting.
pub proof fn law_cadences_follow_the_frame_rate(
    fps: u32,
    raw: Option<&str>,
    marks: i64,
    wave: u16,
    any_wave: u16,
    any_marks: i64,
)
    requires
        call_ensures(ltr_mark_interval, (None, fps), marks),
        call_ensures(intra_refresh_period, (None, fps), wave),
        call_ensures(intra_refresh_period, (raw, fps), any_wave),
        call_ensures(ltr_mark_interval, (raw, fps), any_marks),
    ensures
        any_marks >= 1,
        fps >= 4 ==> 4 * marks <= fps < 4 * (marks + 1),
        fps < 4 ==> marks == 1,
        8 <= any_wave <= 240,
        16 <= fps < 482 ==> 2 * wave <= fps < 2 * (wave + 1),
        fps < 16 ==> wave == 8,
        fps >= 480 ==> wave == 240,
{
}

/// An opened encoder encodes what it was opened for, at the depth of the delivered pixels. It opens for
/// the two planar layouts only, ten-bit ones not as H.264, and AV1 only where a probe found it.
pub proof fn law_an_opened_encoder_is_the_wanted_one(
    found: bool,
    av1_probed: bool,
    codec: Codec,
    format: PixelFormat,
    width: u32,
    height: u32,
    fps: u32,
    bitrate_bps: u64,
    depth: u8,
    chroma: ChromaFormat,
    mark_interval: i64,
    hook: Option<i64>,
    r: Result<QsvEncoder, QsvError>,
)
    requires
        mark_interval >= 1,
        call_ensures(
            QsvEncoder::open,
            (
                found,
                av1_probed,
                codec,
                format,
                width,
                height,
                fps,
                bitrate_bps,
                depth,
                chroma,
                mark_interval,
                hook,
            ),
            r,
        ),
    ensures
        r is Ok <==> found && codec != Codec::PyroWave && (codec == Codec::Av1 ==> av1_probed)
            && (format
            == PixelFormat::Nv12 || (format == PixelFormat::P010 && codec != Codec::H264)),
        r matches Ok(enc) ==> {
            &&& enc.wf()
            &&& enc.cfg.codec == codec && enc.cfg.width == width && enc.cfg.height == height
            &&& enc.cfg.fps == fps && enc.cfg.bitrate_bps == bitrate_bps
            &&& enc.cfg.ten_bit <==> format == PixelFormat::P010
            &&& !enc.ses.live && enc.pending@.len() == 0 && enc.ready@.len() == 0
            &&& enc.ltr.mark_interval == mark_interval && enc.flow.test_force_at == hook
            &&& enc.flow.frame_idx == 0 && enc.flow.hdr_meta is None
        },
        r matches Err(e) ==> {
            &&& e == QsvError::UnsupportedCodec <==> codec == Codec::PyroWave
            &&& e == QsvError::NoImplementation <==> codec != Codec::PyroWave && !found
            &&& e == QsvError::Av1Declined ==> codec == Codec::Av1 && !av1_probed
            &&& e == QsvError::TenBitH264 ==> codec == Codec::H264
            &&& e matches QsvError::FormatMismatch { expected, delivered } ==> delivered == format
                && expected != format && (expected == PixelFormat::P010 || expected
                == PixelFormat::Nv12)
        },
{
}

/// The configuration of a session is the encoder's own, with the grade of the source.
pub proof fn law_a_session_is_configured_as_opened(enc: QsvEncoder, wave: bool, cfg: EncodeConfig)
    requires
        call_ensures(QsvEncoder::encode_config, (&enc, wave), cfg),
    ensures
        cfg.codec == enc.cfg.codec && cfg.width == enc.cfg.width && cfg.height == enc.cfg.height,
        cfg.fps == enc.cfg.fps && cfg.bitrate_bps == enc.cfg.bitrate_bps,
        cfg.ten_bit == enc.cfg.ten_bit && cfg.intra_refresh == wave,
        cfg.hdr_meta == enc.flow.hdr_meta,
{
}

/// A session recovers by long-term references or by a wave, never by both, and claims neither that it
/// was not asked for. The runtime's refusal of the former costs no session, a failed initialisation
/// does.
pub proof fn law_a_session_claims_what_it_was_granted(
    enc: QsvEncoder,
    ltr_off: bool,
    wave: bool,
    calls: InitCalls,
    r: Result<Initialised, QsvError>,
)
    requires
        call_ensures(QsvEncoder::init_encode, (&enc, ltr_off, wave, &calls), r),
    ensures
        r matches Ok(i) ==> {
            &&& !(i.ltr_active && i.ir_active)
            &&& ltr_off || wave ==> !i.ltr_active
            &&& !ltr_off && !wave ==> (i.ltr_active <==> calls.query.succeeded())
            &&& !wave || enc.cfg.codec == Codec::Av1 ==> !i.ir_active
            &&& wave && (enc.cfg.codec == Codec::H264 || enc.cfg.codec == Codec::H265) ==> (
            !i.ir_active <==> calls.wave_readback.succeeded() && calls.wave_kind == 0)
            &&& i.bs_bytes >= 1000 * calls.buffer_kb
        },
        r is Ok <==> calls.init.succeeded() && calls.readback.succeeded(),
        r matches Err(QsvError::Call(s)) ==> !s.succeeded() && (s == calls.init || s
            == calls.readback),
        r is Err ==> r->Err_0 is Call,
{
    let m: int = if calls.multiplier == 0 {
        1
    } else {
        calls.multiplier as int
    };
    assert(calls.buffer_kb * m >= calls.buffer_kb) by (nonlinear_arith)
        requires
            m >= 1,
            calls.buffer_kb >= 0,
    ;
}

/// The frame that a new session was built for is its first, a keyframe, and is copied without waiting:
/// nothing else is in flight. It has the number it would have had without the building.
pub proof fn law_a_new_session_starts_with_a_keyframe(
    enc: &mut QsvEncoder,
    pts_ns: u64,
    init: Initialised,
    r: Result<SubmitStep, QsvError>,
)
    requires
        old(enc).within_limits(),
        call_ensures(
            QsvEncoder::submit_step,
            (enc, SubmitPhase::Building, pts_ns, SubmitEvent::Built(init)),
            r,
        ),
    ensures
        r is Ok,
        r->Ok_0.action is Copy,
        r->Ok_0.phase matches SubmitPhase::Copying(plan) && plan.forced
            && plan.cur_idx == old(enc).flow.frame_idx,
        final(enc).ses.live,
        final(enc).ses.bs_bytes == init.bs_bytes,
        final(enc).ses.ltr_active == init.ltr_active && final(enc).ses.ir_active == init.ir_active,
        final(enc).ses.hdr_applied == old(enc).flow.hdr_meta,
        final(enc).ses.bound_device == old(enc).ses.bound_device,
        final(enc).pending@.len() == 0 && final(enc).ready@.len() == 0,
        final(enc).flow.frame_idx == old(enc).flow.frame_idx + 1,
        !final(enc).flow.force_kf,
{
}

/// A frame that fits goes on in one of three ways. It has a session built where there is none on its
/// device, or one for another grade; it waits where four frames are in flight; else it is copied. So
/// no submit puts a fifth frame in flight.
pub proof fn law_a_submit_builds_waits_or_copies(
    enc: &mut QsvEncoder,
    f: FrameIn,
    r: Result<SubmitStep, QsvError>,
)
    requires
        old(enc).within_limits(),
        call_ensures(QsvEncoder::submit, (enc, &f), r),
    ensures
        r is Ok <==> f.width == old(enc).cfg.width && f.height == old(enc).cfg.height && f.payload
            == PayloadKind::D3d11 && f.format == (if old(enc).cfg.ten_bit {
            PixelFormat::P010
        } else {
            PixelFormat::Nv12
        }),
        r is Err ==> final(enc).flow == old(enc).flow && final(enc).ses == old(enc).ses
            && final(enc).pending@ == old(enc).pending@ && final(enc).ready@ == old(enc).ready@,
        r matches Ok(s) ==> {
            &&& s.phase is Building <==> !old(enc).ses.live || old(enc).ses.bound_device != f.device
                || old(enc).hdr_is_stale()
            &&& s.phase is Building ==> {
                &&& s.action is Build
                &&& !final(enc).ses.live && final(enc).ses.bound_device == f.device
                &&& final(enc).pending@.len() == 0 && final(enc).ready@.len() == 0
                &&& final(enc).flow == old(enc).flow
            }
            &&& s.phase is Room ==> s.action is Sync && final(enc).pending@.len() >= 4
            &&& s.phase is Copying ==> s.action is Copy && final(enc).pending@.len() < 4
            &&& s.phase is Building || s.phase is Room || s.phase is Copying
            &&& !(s.phase is Building) ==> {
                &&& final(enc).pending@ == old(enc).pending@ && final(enc).ready@ == old(enc).ready@
                &&& final(enc).flow.frame_idx == old(enc).flow.frame_idx + 1
            }
        },
{
}

/// While a submit waits for room, its plan stays as it is; it copies as soon as fewer than four frames
/// are in flight, and a wait that outlasts its budget reports how many were.
pub proof fn law_a_wait_for_room_ends(
    enc: &mut QsvEncoder,
    plan: FramePlan,
    pts_ns: u64,
    event: SyncEvent,
    spent: bool,
    r: Result<SubmitStep, QsvError>,
)
    requires
        old(enc).pending@.len() > 0,
        call_ensures(
            QsvEncoder::submit_step,
            (
                enc,
                SubmitPhase::Room(plan),
                pts_ns,
                SubmitEvent::Synced { event, budget_spent: spent },
            ),
            r,
        ),
    ensures
        r matches Ok(s) ==> {
            &&& s.phase == SubmitPhase::Copying(plan) <==> final(enc).pending@.len() < 4
            &&& s.phase == SubmitPhase::Room(plan) <==> final(enc).pending@.len() >= 4
            &&& s.action is Copy <==> final(enc).pending@.len() < 4
        },
        event.sts == Status::WarnInExecution && spent ==> r == Err::<SubmitStep, QsvError>(
            QsvError::Wedged { in_flight: old(enc).pending@.len() as usize },
        ) && final(enc).flow.force_kf,
        event.sts == Status::WarnInExecution ==> final(enc).pending@ == old(enc).pending@
            && final(enc).ready@ == old(enc).ready@,
        r is Ok && event.sts != Status::WarnInExecution ==> final(enc).pending@.len() + 1
            == old(enc).pending@.len() && final(enc).ready@.len() == old(enc).ready@.len() + 1,
{
}

/// A unit carries its frame: the bytes the runtime names out of the frame's own buffer, the frame's
/// time, and its mark as the answer to a loss. It is a keyframe where the frame was submitted as one or
/// the runtime made it one.
pub proof fn law_a_unit_carries_its_frame(
    sent: &mut QsvEncoder,
    synced: &mut QsvEncoder,
    handle: u64,
    buf: Vec<u8>,
    plan: FramePlan,
    pts_ns: u64,
    sts: Status,
    r: Result<(), QsvError>,
    event: SyncEvent,
    got: Result<Option<EncodedFrame>, QsvError>,
)
    requires
        old(sent).pending@.len() == 0,
        call_ensures(QsvEncoder::finish_submit, (sent, sts, Some(handle), buf, &plan, pts_ns), r),
        call_ensures(QsvEncoder::sync_one, (synced, event), got),
    ensures
        sts == Status::Success ==> r is Ok,
        r is Err ==> final(sent).flow.force_kf && final(sent).pending@.len() == 0,
        r is Ok && *old(synced) == *final(sent) && event.sts == Status::Success && event.offset
            + event.length <= buf@.len() ==> {
            &&& got is Ok && got->Ok_0 is Some
            &&& ({
                let au = got->Ok_0->0;
                &&& au.data@.len() == event.length
                &&& forall|i: int|
                    0 <= i < event.length ==> #[trigger] au.data@[i] == buf@[event.offset + i]
                &&& au.pts_ns == pts_ns
                &&& au.keyframe <==> plan.forced || event.idr || event.intra
                &&& au.recovery_anchor <==> plan.ltr.force is Some
                &&& !au.chunk_aligned
            })
            &&& final(synced).pending@.len() == 0
            &&& final(synced).pool@ == old(sent).pool@.push(buf)
        },
        r is Ok && *old(synced) == *final(sent) && event.sts == Status::WarnInExecution ==> got == Ok::<
            Option<EncodedFrame>,
            QsvError,
        >(None) && final(synced).pending@ == old(synced).pending@,
        r is Ok && *old(synced) == *final(sent) && event.sts == Status::Success && event.offset
            + event.length > buf@.len() ==> got is Err && final(synced).pending@.len() == 0,
{
}

/// A refused frame is not in flight, and is made up for by a keyframe: the next frame planned is one.
pub proof fn law_a_refused_frame_is_followed_by_a_keyframe(
    sent: &mut QsvEncoder,
    next: &mut QsvEncoder,
    sts: Status,
    syncp: Option<u64>,
    buf: Vec<u8>,
    plan: FramePlan,
    pts_ns: u64,
    r: Result<(), QsvError>,
    p: FramePlan,
)
    requires
        old(sent).within_limits(),
        old(next).within_limits(),
        old(next).ses.live,
        call_ensures(QsvEncoder::finish_submit, (sent, sts, syncp, buf, &plan, pts_ns), r),
        call_ensures(QsvEncoder::plan_frame, (next,), p),
    ensures
        r is Ok <==> sts.succeeded() && sts != Status::WarnDeviceBusy && syncp is Some,
        sts == Status::WarnDeviceBusy ==> r->Err_0 == QsvError::DeviceBusy,
        sts == Status::MoreData ==> r->Err_0 == QsvError::MoreData,
        r is Ok ==> final(sent).pending@.len() == old(sent).pending@.len() + 1
            && final(sent).ses.frames_submitted == old(sent).ses.frames_submitted + 1
            && final(sent).flow == old(sent).flow,
        r is Err ==> final(sent).pending@ == old(sent).pending@,
        r is Err && *old(next) == *final(sent) ==> p.forced,
        r is Ok && *old(next) == *final(sent) && !old(sent).flow.force_kf ==> !p.forced,
        p.cur_idx == old(next).flow.frame_idx,
        p.forced && old(next).ses.frames_submitted > 0 ==> old(next).flow.force_kf,
        final(next).flow.frame_idx == old(next).flow.frame_idx + 1 && !final(next).flow.force_kf,
        !old(next).ses.ltr_active ==> p.ltr.mark is None && p.ltr.force is None,
{
}

/// The recovery ladder: a first reset restarts the encoder, a second without a unit in between drops
/// the session with everything in it, and a unit starts the ladder over. What a reset will do is
/// foretold, and after it the next frame is a keyframe.
pub proof fn law_the_recovery_ladder_has_two_rungs(
    first: &mut QsvEncoder,
    second: &mut QsvEncoder,
    polled: &mut QsvEncoder,
    foretold: ResetPlan,
    p1: ResetPlan,
    p2: ResetPlan,
    b: PollBegin,
)
    requires
        call_ensures(QsvEncoder::reset_plan, (&*old(first),), foretold),
        call_ensures(QsvEncoder::reset, (first,), p1),
        call_ensures(QsvEncoder::reset, (second,), p2),
        call_ensures(QsvEncoder::poll, (polled,), b),
    ensures
        p1 == foretold,
        p1 == ResetPlan::Idle <==> !old(first).ses.live,
        old(first).ses.live && old(first).flow.resets_without_output == 0 ==> p1 == ResetPlan::Rebuild,
        final(first).flow.force_kf,
        p1 == ResetPlan::TornDown ==> !final(first).ses.live && !final(first).ses.ltr_active
            && !final(first).ses.ir_active && final(first).pending@.len() == 0
                && final(first).ready@.len() == 0 && final(first).pool@.len() == 0,
        p1 == ResetPlan::Rebuild ==> final(first).ses == old(first).ses && final(first).pending@
            == old(first).pending@,
        *old(second) == *final(first) && p1 == ResetPlan::Rebuild ==> p2 == ResetPlan::TornDown,
        *old(second) == *final(first) && p1 == ResetPlan::TornDown ==> p2 == ResetPlan::Idle,
        b matches PollBegin::Ready(au) ==> old(polled).ready@.len() > 0
            && au == old(polled).ready@[0] && final(polled).ready@ == old(polled).ready@.drop_first(),
        b is Ready && *old(second) == *final(polled) ==> p2 == ResetPlan::Rebuild,
        b is Idle <==> !old(polled).ses.live,
        b is Query ==> final(polled).ready@.len() == 0,
{
}

/// A change of rate takes at once where no session runs, and else where the runtime takes it; a refused
/// one leaves the old rate. Buffers for units never shrink over it.
pub proof fn law_a_rate_change_takes_or_leaves_the_rate(
    asked: &mut QsvEncoder,
    done: bool,
    ended: &mut QsvEncoder,
    bps: u64,
    answer: Status,
    refreshed: Option<(u16, u16)>,
    ok: bool,
)
    requires
        refreshed matches Some(m) ==> crate::qsv::unit_bytes(m.0, m.1) <= usize::MAX,
        call_ensures(QsvEncoder::reconfigure_bitrate, (asked, bps), done),
        call_ensures(QsvEncoder::finish_reconfigure, (ended, bps, answer, refreshed), ok),
    ensures
        done <==> !old(asked).ses.live,
        done ==> final(asked).cfg.bitrate_bps == bps,
        !done ==> final(asked).cfg == old(asked).cfg,
        final(asked).cfg.codec == old(asked).cfg.codec && final(asked).cfg.fps == old(asked).cfg.fps,
        ok <==> answer.succeeded(),
        ok ==> final(ended).cfg.bitrate_bps == bps,
        !ok ==> final(ended).cfg == old(ended).cfg && final(ended).ses == old(ended).ses,
        final(ended).ses.bs_bytes >= old(ended).ses.bs_bytes,
        ok && refreshed is Some ==> final(ended).ses.bs_bytes >= 1000 * (refreshed->0).0,
        final(ended).ses.live == old(ended).ses.live && final(ended).pending@ == old(ended).pending@,
        !final(ended).flow.force_kf || old(ended).flow.force_kf,
{
    if refreshed is Some {
        let kb = (refreshed->0).0;
        let m: int = if (refreshed->0).1 == 0 {
            1
        } else {
            (refreshed->0).1 as int
        };
        assert(kb * m >= kb) by (nonlinear_arith)
            requires
                m >= 1,
                kb >= 0,
        ;
    }
}

/// While frames settle before a change, every unit that comes is kept for the next poll, in order; the
/// change is given up on a failed wait and once the budget is spent.
pub proof fn law_settling_keeps_every_unit(
    enc: &mut QsvEncoder,
    event: SyncEvent,
    spent: bool,
    step: SettleStep,
)
    requires
        old(enc).pending@.len() > 0,
        call_ensures(QsvEncoder::settle_turn, (enc, event, spent), step),
    ensures
        step == SettleStep::Again ==> final(enc).ready@.len() == old(enc).ready@.len() + 1
            && final(enc).pending@ == old(enc).pending@.drop_first()
            && final(enc).ready@.last().pts_ns == old(enc).pending@[0].unit.pts_ns,
        step == SettleStep::Wait <==> event.sts == Status::WarnInExecution && !spent,
        step == SettleStep::Wait ==> final(enc).pending@ == old(enc).pending@,
        !event.sts.succeeded() ==> step == SettleStep::GiveUp,
        final(enc).cfg == old(enc).cfg && final(enc).ses == old(enc).ses,
{
}

/// A poll waits at most three quarters of a frame's time, but at least one millisecond and at most
/// twelve.
pub proof fn law_a_poll_waits_part_of_a_frame(enc: QsvEncoder, ms: u32)
    requires
        call_ensures(QsvEncoder::poll_budget_ms, (&enc,), ms),
    ensures
        1 <= ms <= 12,
        ms > 1 ==> 4 * ms * enc.cfg.fps <= 3000,
        ms < 12 ==> 4 * (ms + 1) * enc.cfg.fps > 3000,
{
    let fps: int = if enc.cfg.fps == 0 {
        1
    } else {
        enc.cfg.fps as int
    };
    let share = 750int / fps;
    vstd::arithmetic::div_mod::lemma_fundamental_div_mod(750, fps);
    assert(share * fps <= 750 && 750 < (share + 1) * fps) by (nonlinear_arith)
        requires
            750 == fps * share + 750int % fps,
            0 <= 750int % fps < fps,
    ;
    if ms > 1 {
        assert(ms * fps <= share * fps) by (nonlinear_arith)
            requires
                ms <= share,
                fps >= 1,
        ;
        assert(enc.cfg.fps <= fps);
        assert(4 * ms * enc.cfg.fps <= 4 * (ms * fps)) by (nonlinear_arith)
            requires
                enc.cfg.fps <= fps,
                ms >= 0,
        ;
    }
    if ms < 12 {
        assert(ms >= share);
        assert((ms + 1) * fps >= (share + 1) * fps) by (nonlinear_arith)
            requires
                ms >= share,
                fps >= 1,
        ;
        assert(enc.cfg.fps == fps);
        assert(4 * (ms + 1) * enc.cfg.fps == 4 * ((ms + 1) * fps)) by (nonlinear_arith)
            requires
                enc.cfg.fps == fps,
        ;
    }
}

/// A buffer handed out for a unit is at least as long as the session's units get.
pub proof fn law_buffers_are_long_enough(enc: &mut QsvEncoder, buf: Vec<u8>)
    requires
        call_ensures(QsvEncoder::take_bs, (enc,), buf),
    ensures
        buf@.len() >= old(enc).ses.bs_bytes,
        final(enc).pool@.len() <= old(enc).pool@.len(),
        old(enc).pool@.len() > 0 && old(enc).pool@.last()@.len() >= old(enc).ses.bs_bytes
            ==> buf == old(enc).pool@.last() && final(enc).pool@ == old(enc).pool@.drop_last(),
        old(enc).pool@.len() == 0 ==> buf@.len() == old(enc).ses.bs_bytes,
        final(enc).pending@ == old(enc).pending@ && final(enc).ready@ == old(enc).ready@,
{
    crate::qsv::law_fitting_buffer_fits(old(enc).pool@, old(enc).ses.bs_bytes);
    let pool = old(enc).pool@;
    if pool.len() > 0 {
        assert(pool.take(pool.len() - 1) =~= pool.drop_last());
    }
    lemma_last_fitting_in_range(pool, old(enc).ses.bs_bytes);
}

proof fn lemma_last_fitting_in_range(pool: Seq<Vec<u8>>, n: usize)
    ensures
        crate::qsv::last_fitting(pool, n) < pool.len(),
    decreases pool.len(),
{
    if pool.len() > 0 && pool.last()@.len() < n {
        lemma_last_fitting_in_range(pool.drop_last(), n);
    }
}

/// A grade is stale exactly in a ten-bit session that was built with another one, or none, than the
/// source now has; losing the grade makes none stale.
pub proof fn law_a_changed_grade_is_stale(
    enc: QsvEncoder,
    stale: bool,
    built: &mut QsvEncoder,
    init: Initialised,
    then: bool,
)
    requires
        call_ensures(QsvEncoder::has_stale_hdr, (&enc,), stale),
        call_ensures(QsvEncoder::session_built, (built, &init), ()),
        call_ensures(QsvEncoder::has_stale_hdr, (&*final(built),), then),
    ensures
        !enc.cfg.ten_bit || enc.flow.hdr_meta is None ==> !stale,
        enc.cfg.ten_bit && enc.flow.hdr_meta is Some && enc.ses.hdr_applied is None ==> stale,
        enc.cfg.ten_bit && enc.flow.hdr_meta is Some && enc.ses.hdr_applied is Some ==> {
            let a = enc.flow.hdr_meta->0;
            let b = enc.ses.hdr_applied->0;
            &&& a == b ==> !stale
            &&& a.max_cll != b.max_cll || a.max_fall != b.max_fall
                || a.max_display_mastering_luminance != b.max_display_mastering_luminance
                || a.min_display_mastering_luminance != b.min_display_mastering_luminance ==> stale
            &&& a.white_point@[0] != b.white_point@[0] || a.white_point@[1] != b.white_point@[1]
                ==> stale
            &&& forall|i: int, k: int|
                0 <= i < 3 && 0 <= k < 2 && #[trigger] a.display_primaries@[i]@[k]
                    != b.display_primaries@[i]@[k] ==> stale
        },
        !then,
{
    if enc.flow.hdr_meta is Some && enc.ses.hdr_applied is Some {
        let a = enc.flow.hdr_meta->0;
        let b = enc.ses.hdr_applied->0;
        assert forall|i: int, k: int|
            enc.cfg.ten_bit && 0 <= i < 3 && 0 <= k < 2 && #[trigger] a.display_primaries@[i]@[k]
                != b.display_primaries@[i]@[k] implies stale by {
            assert(k == 0 || k == 1);
            if a.same_as(b) {
                assert(a.display_primaries@[i]@[0] == b.display_primaries@[i]@[0]);
            }
        }
    }
}

/// A loss is answered exactly where references run and one of them was marked before it and is still
/// trusted; the next frame is then forced onto the newest such. No trusted reference from the loss on
/// stays trusted.
pub proof fn law_a_loss_is_answered_by_an_older_reference(
    enc: &mut QsvEncoder,
    first: i64,
    last: i64,
    answered: bool,
)
    requires
        old(enc).wf(),
        call_ensures(QsvEncoder::invalidate_ref_frames, (enc, first, last), answered),
    ensures
        answered <==> old(enc).ses.ltr_active && 0 <= first <= last && exists|s: int|
            0 <= s < 2 && !old(enc).ltr.tainted@[s] && (#[trigger] old(enc).ltr.slots@[s]) is Some
                && old(enc).ltr.slots@[s]->0 < first,
        answered ==> {
            let to = final(enc).ltr.pending_force;
            &&& to is Some && to->0 < 2 && old(enc).ltr.slots@[to->0 as int] is Some
            &&& old(enc).ltr.slots@[to->0 as int]->0 < first
            &&& forall|s: int|
                0 <= s < 2 && !old(enc).ltr.tainted@[s] && (#[trigger] old(enc).ltr.slots@[s]) is Some
                    && old(enc).ltr.slots@[s]->0 < first
                        ==> old(enc).ltr.slots@[s]->0 <= old(enc).ltr.slots@[to->0 as int]->0
        },
        old(enc).ses.ltr_active && 0 <= first <= last ==> forall|s: int|
            0 <= s < 2 && (#[trigger] final(enc).ltr.slots@[s]) is Some
                && final(enc).ltr.slots@[s]->0 >= first ==> final(enc).ltr.tainted@[s],
        !old(enc).ses.ltr_active || first < 0 || first > last ==> final(enc).ltr == old(enc).ltr,
        final(enc).flow == old(enc).flow && final(enc).ses == old(enc).ses,
{
    let t = old(enc).ltr;
    let applies = old(enc).ses.ltr_active && 0 <= first <= last;
    if applies {
        assert(t.trusted(0) is Some ==> t.slots@[0] is Some);
        assert(t.trusted(1) is Some ==> t.slots@[1] is Some);
        if answered {
            let s = t.anchor_slot(first)->0;
            assert(t.slots@[s as int] is Some);
        }
        assert forall|s: int|
            0 <= s < 2 && (#[trigger] final(enc).ltr.slots@[s]) is Some && final(enc).ltr.slots@[s]->0
                >= first implies final(enc).ltr.tainted@[s] by {
            assert(t.slots@[s] == final(enc).ltr.slots@[s]);
        }
    }
}

/// What a session promises its client is what runs in it, and nothing the backend does not do.
pub proof fn law_promises_are_what_runs(enc: QsvEncoder, c: EncoderCaps)
    requires
        call_ensures(QsvEncoder::caps, (&enc,), c),
    ensures
        c.supports_rfi == enc.ses.ltr_active,
        c.intra_refresh == enc.ses.ir_active,
        !c.blends_cursor && !c.chroma_444 && !c.intra_refresh_recovery && c.intra_refresh_period == 0,
{
}

/// A probe succeeds where the runtime took the configuration; at ten bits never for H.264.
pub proof fn law_a_probe_needs_an_accepted_configuration(
    codec: Codec,
    query: Option<Status>,
    base: bool,
    deep: bool,
)
    requires
        call_ensures(probe_can_encode, (codec, query), base),
        call_ensures(probe_can_encode_10bit, (codec, query), deep),
    ensures
        base <==> codec != Codec::PyroWave && query is Some && query->0.succeeded(),
        deep ==> base && codec != Codec::H264,
        base && codec != Codec::H264 ==> deep,
{
}

/// A cadence that is set in frames is that many frames; a wave is held between 8 and 240 of them, and a
/// setting of none or one frame counts as unset. A trial loss is at the frame that is set.
pub proof fn law_cadences_are_as_set(
    fps: u32,
    raw: &str,
    n: nat,
    marks: i64,
    wave: u16,
    hook: Option<i64>,
    unset_wave: u16,
    unset_marks: i64,
)
    requires
        raw@ == decimal(n),
        n <= u32::MAX,
        call_ensures(ltr_mark_interval, (Some(raw), fps), marks),
        call_ensures(intra_refresh_period, (Some(raw), fps), wave),
        call_ensures(ltr_test_force_at, (Some(raw),), hook),
        call_ensures(ltr_mark_interval, (None, fps), unset_marks),
        call_ensures(intra_refresh_period, (None, fps), unset_wave),
    ensures
        n >= 1 ==> marks == n,
        n == 0 ==> marks == unset_marks,
        8 <= n <= 240 ==> wave == n,
        2 <= n < 8 ==> wave == 8,
        n > 240 ==> wave == 240,
        n < 2 ==> wave == unset_wave,
        hook == Some(n as i64),
{
    crate::text::law_decimal_notation_reads_as_its_number(n);
}

/// Both switches are off unless set, and on exactly for the spellings of "on".
pub proof fn law_switches_are_opt_in(raw: &str, wave: bool, refs: bool, unset: bool, unset_refs: bool)
    requires
        call_ensures(intra_refresh_requested, (Some(raw),), wave),
        call_ensures(ltr_disabled, (Some(raw),), refs),
        call_ensures(intra_refresh_requested, (None,), unset),
        call_ensures(ltr_disabled, (None,), unset_refs),
    ensures
        !unset && !unset_refs,
        wave == refs,
        wave <==> trimmed(raw@) == "1"@ || trimmed(raw@) == "true"@ || trimmed(raw@) == "yes"@
            || trimmed(raw@) == "on"@,
{
}

/// An implementation is on an adapter where it names one and all eight bytes agree. The first such is
/// found, and none only where there is none.
pub proof fn law_the_found_implementation_is_the_first(
    impls: Vec<VplImpl>,
    want: [u8; 8],
    at: Option<usize>,
    one: VplImpl,
    on: bool,
)
    requires
        call_ensures(find_impl, (&impls, &want), at),
        call_ensures(VplImpl::is_on, (&one, &want), on),
    ensures
        on <==> one.luid_valid && forall|i: int| 0 <= i < 8 ==> #[trigger] one.luid@[i] == want@[i],
        at matches Some(k) ==> {
            &&& k < impls@.len()
            &&& impls@[k as int].luid_valid && impls@[k as int].luid@ == want@
            &&& forall|j: int|
                0 <= j < k ==> !((#[trigger] impls@[j]).luid_valid && impls@[j].luid@ == want@)
        },
        at is None ==> forall|j: int|
            0 <= j < impls@.len() ==> !((#[trigger] impls@[j]).luid_valid && impls@[j].luid@ == want@),
{
    if one.luid_valid && (forall|i: int| 0 <= i < 8 ==> #[trigger] one.luid@[i] == want@[i]) {
        assert(one.luid@ =~= want@);
    }
    if at is None {
        assert forall|j: int| 0 <= j < impls@.len() implies !((#[trigger] impls@[j]).luid_valid
            && impls@[j].luid@ == want@) by {
            assert(!impls@[j].runs_on(want@));
        }
    }
}

/// Every rate below 65535 times 65535 kilobits, and every size that can be rounded up to macroblocks,
/// can be asked for.
pub proof fn law_ordinary_streams_are_representable(cfg: EncodeConfig, r: bool)
    requires
        call_ensures(EncodeConfig::is_representable, (&cfg,), r),
    ensures
        cfg.codec != Codec::PyroWave && cfg.width <= 0xffff_fff0 && cfg.height <= 0xffff_fff0
            && cfg.bitrate_bps < (65535 * 65535 + 1) * 1000 ==> r,
        cfg.codec == Codec::PyroWave || cfg.width > 0xffff_fff0 || cfg.height > 0xffff_fff0 ==> !r,
{
    let bps = cfg.bitrate_bps;
    let k = crate::qsv::params::kilobits(bps);
    if bps < (65535 * 65535 + 1) * 1000 {
        assert(1 <= k <= 65535 * 65535);
        assert(1 <= (k + 65534) / 65535 <= 65535);
    }
}

/// A status has the runtime's name; no two named ones share one, and an error is told from a warning by
/// it.
pub proof fn law_statuses_have_their_own_names(s: Status, t: Status, a: &str, b: &str)
    requires
        call_ensures(sts_name, (s,), a),
        call_ensures(sts_name, (t,), b),
        s !is Other && t !is Other,
    ensures
        a@ == b@ ==> s == t,
        s == Status::Success ==> a@ == "MFX_ERR_NONE"@,
        s.succeeded() && s != Status::Success ==> "MFX_WRN_"@.is_prefix_of(a@),
        !s.succeeded() ==> "MFX_ERR_"@.is_prefix_of(a@),
{
    reveal_strlit("MFX_WRN_");
    reveal_strlit("MFX_ERR_");
    reveal_strlit("MFX_ERR_NONE");
    reveal_strlit("MFX_ERR_UNSUPPORTED");
    reveal_strlit("MFX_ERR_MORE_DATA");
    reveal_strlit("MFX_ERR_NOT_FOUND");
    reveal_strlit("MFX_ERR_DEVICE_LOST");
    reveal_strlit("MFX_ERR_DEVICE_FAILED");
    reveal_strlit("MFX_ERR_GPU_HANG");
    reveal_strlit("MFX_ERR_NOT_ENOUGH_BUFFER");
    reveal_strlit("MFX_ERR_MEMORY_ALLOC");
    reveal_strlit("MFX_ERR_INCOMPATIBLE_VIDEO_PARAM");
    reveal_strlit("MFX_ERR_INVALID_VIDEO_PARAM");
    reveal_strlit("MFX_ERR_UNDEFINED_BEHAVIOR");
    reveal_strlit("MFX_ERR_NOT_INITIALIZED");
    reveal_strlit("MFX_WRN_DEVICE_BUSY");
    reveal_strlit("MFX_WRN_IN_EXECUTION");
    reveal_strlit("MFX_WRN_INCOMPATIBLE_VIDEO_PARAM");
    reveal_strlit("MFX_WRN_PARTIAL_ACCELERATION");
    if a@ == b@ {
        assert(a@.len() == b@.len() && a@[4] == b@[4] && a@[8] == b@[8] && a@[9] == b@[9] && a@[10]
            == b@[10] && a@[11] == b@[11]);
    }
}

/// A running session stays where its device is the frame's; on any other device there is none until one
/// is built, and nothing is in flight. A session for another grade is given up before a frame that
/// fits, and only then.
pub proof fn law_a_session_serves_one_device(
    enc: &mut QsvEncoder,
    device: u64,
    bound: bool,
    build: bool,
    stale: &mut QsvEncoder,
    has: bool,
    dropped: bool,
)
    requires
        old(enc).wf() && old(stale).wf(),
        call_ensures(QsvEncoder::is_bound_to, (&*old(enc), device), bound),
        call_ensures(QsvEncoder::ensure_inner, (enc, device), build),
        call_ensures(QsvEncoder::has_stale_hdr, (&*old(stale),), has),
        call_ensures(QsvEncoder::drop_stale_hdr, (stale,), dropped),
    ensures
        bound <==> old(enc).ses.live && old(enc).ses.bound_device == device,
        build <==> !bound,
        !build ==> final(enc).ses == old(enc).ses && final(enc).pending@ == old(enc).pending@
            && final(enc).ready@ == old(enc).ready@ && final(enc).pool@ == old(enc).pool@,
        build ==> !final(enc).ses.live && final(enc).ses.bound_device == device
            && final(enc).pending@.len() == 0 && final(enc).ready@.len() == 0,
        final(enc).cfg == old(enc).cfg && final(enc).flow == old(enc).flow,
        dropped <==> has,
        dropped ==> !final(stale).ses.live && final(stale).pending@.len() == 0
            && final(stale).ready@.len() == 0,
        !dropped ==> final(stale).ses == old(stale).ses && final(stale).pending@ == old(stale).pending@
            && final(stale).ready@ == old(stale).ready@,
        final(stale).cfg == old(stale).cfg && final(stale).flow == old(stale).flow,
{
}

/// A frame gives the session up exactly where it fits the encoder and the session is another device's
/// or another grade's.
pub proof fn law_only_a_fitting_frame_gives_up_a_session(
    enc: QsvEncoder,
    f: FrameIn,
    stale: bool,
    bound: bool,
    r: bool,
)
    requires
        call_ensures(QsvEncoder::has_stale_hdr, (&enc,), stale),
        call_ensures(QsvEncoder::is_bound_to, (&enc, f.device), bound),
        call_ensures(QsvEncoder::gives_up_session, (&enc, &f), r),
    ensures
        r <==> enc.ses.live && (!bound || stale) && f.width == enc.cfg.width && f.height
            == enc.cfg.height && f.payload == PayloadKind::D3d11 && f.format == (if enc.cfg.ten_bit {
            PixelFormat::P010
        } else {
            PixelFormat::Nv12
        }),
{
}

/// Four frames fill the flight. A wait for room, for a busy device and of a poll all take the oldest
/// frame and nothing else: its unit is the bytes the runtime names, its buffer goes back to the pool,
/// and a wait that brings nothing changes nothing.
pub proof fn law_waits_take_the_oldest_frame(
    room: &mut QsvEncoder,
    busy: &mut QsvEncoder,
    poll: &mut QsvEncoder,
    event: SyncEvent,
    spent: bool,
    full: bool,
    unsettled: bool,
    r: Result<DrainStep, QsvError>,
    b: Result<(), QsvError>,
    p: Result<Option<EncodedFrame>, QsvError>,
)
    requires
        old(room).wf(),
        old(room).pending@.len() > 0,
        *old(busy) == *old(room) && *old(poll) == *old(room),
        call_ensures(QsvEncoder::in_flight_full, (&*old(room),), full),
        call_ensures(QsvEncoder::unsettled, (&*old(room),), unsettled),
        call_ensures(QsvEncoder::make_room, (room, event, spent), r),
        call_ensures(QsvEncoder::busy_turn, (busy, event), b),
        call_ensures(QsvEncoder::poll_wait, (poll, event), p),
    ensures
        full <==> old(room).pending@.len() >= 4,
        unsettled,
        event.sts == Status::Success && event.offset + event.length <= old(room).pending@[0].buf@.len()
            ==> {
            let front = old(room).pending@[0];
            &&& r == Ok::<DrainStep, QsvError>(DrainStep::Again) && b is Ok && p is Ok
                && p->Ok_0 is Some
            &&& final(room).pending@ == old(room).pending@.drop_first()
            &&& final(busy).pending@ == old(room).pending@.drop_first()
            &&& final(poll).pending@ == old(room).pending@.drop_first()
            &&& final(room).pool@ == old(room).pool@.push(front.buf)
                && final(busy).pool@ == old(room).pool@.push(front.buf)
            &&& final(room).ready@.len() == old(room).ready@.len() + 1
            &&& final(busy).ready@.len() == old(room).ready@.len() + 1
            &&& final(poll).ready@ == old(room).ready@
            &&& ({
                let au = final(room).ready@.last();
                let au2 = final(busy).ready@.last();
                let au3 = p->Ok_0->0;
                &&& au.data@ == au2.data@ && au.data@ == au3.data@
                &&& au.data@.len() == event.length
                &&& forall|i: int|
                    0 <= i < event.length ==> #[trigger] au.data@[i] == front.buf@[event.offset + i]
                &&& au.pts_ns == front.unit.pts_ns && au2.pts_ns == front.unit.pts_ns && au3.pts_ns
                    == front.unit.pts_ns
                &&& (au.keyframe <==> front.unit.forced || event.idr || event.intra) && au2.keyframe
                    == au.keyframe && au3.keyframe == au.keyframe
            })
            &&& final(poll).flow.resets_without_output == 0
        },
        event.sts == Status::WarnInExecution ==> {
            &&& final(room).pending@ == old(room).pending@ && final(room).ready@ == old(room).ready@
            &&& final(busy).pending@ == old(room).pending@ && final(busy).ready@ == old(room).ready@
            &&& final(poll).pending@ == old(room).pending@ && final(poll).ready@ == old(room).ready@
            &&& b is Ok && p == Ok::<Option<EncodedFrame>, QsvError>(None)
            &&& !spent ==> r == Ok::<DrainStep, QsvError>(DrainStep::Wait)
            &&& spent ==> r is Err && final(room).flow.force_kf
        },
        event.sts == Status::DeviceLost || event.sts == Status::GpuHang || event.sts
            == Status::DeviceFailed ==> {
            &&& r == Err::<DrainStep, QsvError>(QsvError::Call(event.sts))
            &&& b is Err && b->Err_0 == QsvError::Call(event.sts)
            &&& p == Err::<Option<EncodedFrame>, QsvError>(QsvError::Call(event.sts))
            &&& final(room).pending@ == old(room).pending@
        },
        final(room).ses == old(room).ses && final(busy).ses == old(room).ses && final(poll).ses
            == old(room).ses,
{
}

/// A flush hands the frames that the runtime still holds over one by one, until it has none; giving up
/// empties flight and queue, and the next frame is a keyframe.
pub proof fn law_a_flush_ends_where_nothing_is_held(
    enc: &mut QsvEncoder,
    sts: Status,
    syncp: Option<u64>,
    buf: Vec<u8>,
    more: bool,
    gone: &mut QsvEncoder,
    p: &mut QsvEncoder,
    plan: FramePlan,
)
    requires
        old(enc).wf() && old(gone).wf(),
        old(p).within_limits(),
        old(gone).ses.live,
        call_ensures(QsvEncoder::flush_turn, (enc, sts, syncp, buf), more),
        call_ensures(QsvEncoder::abandon_in_flight, (gone,), ()),
        call_ensures(QsvEncoder::plan_frame, (p,), plan),
    ensures
        sts == Status::MoreData || syncp is None ==> !more,
        sts == Status::Success && syncp is Some ==> more,
        more ==> final(enc).pending@.len() == old(enc).pending@.len() + 1
            && final(enc).pending@.last().syncp == syncp->0 && final(enc).pending@.last().buf == buf
            && !final(enc).pending@.last().unit.forced
            && !final(enc).pending@.last().unit.recovery_anchor && final(enc).pending@.drop_last()
            == old(enc).pending@,
        !more ==> final(enc).pending@ == old(enc).pending@,
        final(enc).ready@ == old(enc).ready@ && final(enc).flow == old(enc).flow && final(enc).ses
            == old(enc).ses,
        final(gone).pending@.len() == 0 && final(gone).ready@.len() == 0,
        final(gone).ses.live && final(gone).ses.bound_device == old(gone).ses.bound_device,
        final(gone).cfg == old(gone).cfg && final(gone).flow == old(gone).flow,
        *old(p) == *final(gone) ==> plan.forced,
{
}

/// A submitted frame is numbered by its place in the stream and timed in ticks; it has controls exactly
/// where something was planned for it.
pub proof fn law_a_frame_is_numbered_and_timed(
    enc: QsvEncoder,
    plan: FramePlan,
    pts_ns: u64,
    t: u64,
    r: (Option<FrameCtrl>, u32, u64),
)
    requires
        0 <= plan.cur_idx <= 0xffff_ffff,
        plan.ltr.mark matches Some(s) ==> s < 2,
        plan.ltr.force matches Some(f) ==> f.0 < 2,
        call_ensures(QsvEncoder::frame_params, (&enc, &plan, pts_ns), r),
        call_ensures(timestamp, (pts_ns,), t),
    ensures
        r.1 == plan.cur_idx,
        r.2 == t,
        r.0 is None <==> !plan.forced && plan.ltr.mark is None && plan.ltr.force is None,
        r.0 matches Some(c) ==> c.idr == plan.forced && (c.reflist is None <==> plan.ltr.mark is None
            && plan.ltr.force is None),
        plan.ltr.force is Some ==> r.0->0.reflist->0.preferred == Some((plan.ltr.force->0).1 as u32),
{
}

/// A busy device is waited for with the frame's own buffer and plan; any other answer ends the submit,
/// with the frame in flight or refused.
pub proof fn law_a_busy_device_is_waited_for(
    enc: &mut QsvEncoder,
    plan: FramePlan,
    pts_ns: u64,
    sts: Status,
    syncp: Option<u64>,
    buf: Vec<u8>,
    r: Result<SubmitStep, QsvError>,
)
    requires
        old(enc).within_limits(),
        call_ensures(
            QsvEncoder::submit_step,
            (enc, SubmitPhase::Encoding(plan), pts_ns, SubmitEvent::Answer { sts, syncp, buf }),
            r,
        ),
    ensures
        sts == Status::WarnDeviceBusy ==> {
            &&& r is Ok
            &&& r->Ok_0.phase == SubmitPhase::Busy(plan)
            &&& r->Ok_0.action == SubmitAction::SyncBusy(buf)
            &&& final(enc).pending@ == old(enc).pending@ && final(enc).flow == old(enc).flow
        },
        sts != Status::WarnDeviceBusy ==> {
            &&& r is Ok <==> sts.succeeded() && syncp is Some
            &&& r is Ok ==> r->Ok_0.phase is Done && r->Ok_0.action is Nothing
            &&& r is Ok ==> final(enc).pending@.len() == old(enc).pending@.len() + 1
                && final(enc).pending@.last().syncp == syncp->0 && final(enc).pending@.last().buf == buf
                && final(enc).pending@.last().unit.pts_ns == pts_ns
                && final(enc).pending@.last().unit.forced == plan.forced && (
            final(enc).pending@.last().unit.recovery_anchor <==> plan.ltr.force is Some)
            &&& r is Ok ==> final(enc).ses.frames_submitted == old(enc).ses.frames_submitted + 1
            &&& r is Err ==> final(enc).pending@ == old(enc).pending@ && final(enc).flow.force_kf
            &&& sts == Status::MoreData ==> r->Err_0 == QsvError::MoreData
            &&& sts.succeeded() && syncp is None ==> r->Err_0 == QsvError::NoSyncPoint
            &&& sts == Status::DeviceLost || sts == Status::GpuHang ==> r->Err_0 == QsvError::Call(sts)
        },
        final(enc).ready@ == old(enc).ready@,
{
}

/// A submit that waits for the device takes what becomes ready meanwhile and encodes again; it gives up
/// where a wait fails or its time is up, and the next frame is then a keyframe.
pub proof fn law_a_wait_for_the_device_ends(
    enc: &mut QsvEncoder,
    plan: FramePlan,
    pts_ns: u64,
    event: SyncEvent,
    spent: bool,
    r: Result<SubmitStep, QsvError>,
)
    requires
        call_ensures(
            QsvEncoder::submit_step,
            (
                enc,
                SubmitPhase::Busy(plan),
                pts_ns,
                SubmitEvent::Synced { event, budget_spent: spent },
            ),
            r,
        ),
    ensures
        r is Ok ==> !spent && r->Ok_0.phase == SubmitPhase::Encoding(plan)
            && r->Ok_0.action is EncodeAgain,
        event.sts == Status::WarnInExecution || old(enc).pending@.len() == 0 ==> {
            &&& r is Ok <==> !spent
            &&& spent ==> r->Err_0 == QsvError::DeviceBusy && final(enc).flow.force_kf
            &&& final(enc).pending@ == old(enc).pending@ && final(enc).ready@ == old(enc).ready@
        },
        event.sts == Status::DeviceLost && old(enc).pending@.len() > 0 ==> r is Err && r->Err_0
            == QsvError::Call(Status::DeviceLost),
        event.sts == Status::Success && old(enc).pending@.len() > 0
            && event.offset + event.length <= old(enc).pending@[0].buf@.len() ==> {
            &&& r is Ok <==> !spent
            &&& final(enc).pending@ == old(enc).pending@.drop_first()
            &&& final(enc).ready@.len() == old(enc).ready@.len() + 1
        },
{
}

/// A copied frame is encoded into a buffer of the session's length, by the plan it was copied under; a
/// failed action ends the submit with its error and changes nothing.
pub proof fn law_a_copied_frame_is_encoded(
    enc: &mut QsvEncoder,
    plan: FramePlan,
    pts_ns: u64,
    r: Result<SubmitStep, QsvError>,
    failed: &mut QsvEncoder,
    phase: SubmitPhase,
    e: QsvError,
    f: Result<SubmitStep, QsvError>,
)
    requires
        call_ensures(
            QsvEncoder::submit_step,
            (enc, SubmitPhase::Copying(plan), pts_ns, SubmitEvent::Copied),
            r,
        ),
        call_ensures(QsvEncoder::submit_step, (failed, phase, pts_ns, SubmitEvent::Failed(e)), f),
    ensures
        r is Ok && r->Ok_0.phase == SubmitPhase::Encoding(plan),
        r->Ok_0.action matches SubmitAction::Encode(buf) && buf@.len() >= old(enc).ses.bs_bytes,
        final(enc).pending@ == old(enc).pending@ && final(enc).ready@ == old(enc).ready@,
        f is Err && f->Err_0 == e,
        final(failed).pending@ == old(failed).pending@ && final(failed).ready@ == old(failed).ready@
            && final(failed).flow == old(failed).flow && final(failed).ses == old(failed).ses,
{
}

/// Every operation leaves alone what it is not about: the configuration but for its rate, the numbering
/// but for a frame or a new number, the grade, the session, the references and the queues.
pub proof fn law_operations_leave_the_rest_alone(
    enc: &mut QsvEncoder,
    op: int,
    wire: u32,
    meta: Option<HdrMeta>,
    first: i64,
    last: i64,
    bps: u64,
    event: SyncEvent,
    spent: bool,
    yes: bool,
    planned: FramePlan,
    buf: Vec<u8>,
    begin: PollBegin,
    polled: Result<Option<EncodedFrame>, QsvError>,
    room: Result<DrainStep, QsvError>,
    turn: Result<(), QsvError>,
    step: SettleStep,
    plan_of_reset: ResetPlan,
)
    requires
        old(enc).wf(),
        old(enc).within_limits(),
        old(enc).pending@.len() > 0,
        0 <= op <= 13,
        op == 0 ==> call_ensures(QsvEncoder::set_wire_index, (enc, wire), ()),
        op == 1 ==> call_ensures(QsvEncoder::request_keyframe, (enc,), ()),
        op == 2 ==> call_ensures(QsvEncoder::set_hdr_meta, (enc, meta), ()),
        op == 3 ==> call_ensures(QsvEncoder::invalidate_ref_frames, (enc, first, last), yes),
        op == 4 ==> call_ensures(QsvEncoder::reconfigure_bitrate, (enc, bps), yes),
        op == 5 ==> call_ensures(QsvEncoder::plan_frame, (enc,), planned),
        op == 6 ==> call_ensures(QsvEncoder::take_bs, (enc,), buf),
        op == 7 ==> call_ensures(QsvEncoder::sync_one, (enc, event), polled),
        op == 8 ==> call_ensures(QsvEncoder::make_room, (enc, event, spent), room),
        op == 9 ==> call_ensures(QsvEncoder::busy_turn, (enc, event), turn),
        op == 10 ==> call_ensures(QsvEncoder::poll_wait, (enc, event), polled),
        op == 11 ==> call_ensures(QsvEncoder::settle_turn, (enc, event, spent), step),
        op == 12 ==> call_ensures(QsvEncoder::poll, (enc,), begin),
        op == 13 ==> call_ensures(QsvEncoder::reset, (enc,), plan_of_reset),
    ensures
        op != 4 ==> final(enc).cfg == old(enc).cfg,
        final(enc).cfg.codec == old(enc).cfg.codec && final(enc).cfg.width == old(enc).cfg.width
            && final(enc).cfg.height == old(enc).cfg.height && final(enc).cfg.fps == old(enc).cfg.fps
            && final(enc).cfg.ten_bit == old(enc).cfg.ten_bit,
        op != 0 && op != 5 ==> final(enc).flow.frame_idx == old(enc).flow.frame_idx,
        op != 2 ==> final(enc).flow.hdr_meta == old(enc).flow.hdr_meta,
        final(enc).flow.test_force_at == old(enc).flow.test_force_at,
        op != 1 && op != 5 && op != 8 && op != 13
            ==> final(enc).flow.force_kf == old(enc).flow.force_kf,
        op != 10 && op != 12 && op != 13
            ==> final(enc).flow.resets_without_output == old(enc).flow.resets_without_output,
        op != 13 ==> final(enc).ses == old(enc).ses,
        op != 3 && op != 5 ==> final(enc).ltr == old(enc).ltr,
        op <= 6 || op == 12 ==> final(enc).pending@ == old(enc).pending@,
        op <= 7 || op == 10 ==> final(enc).ready@ == old(enc).ready@,
        op <= 5 || op == 12 ==> final(enc).pool@ == old(enc).pool@,
{
}

/// Nothing is unsettled where nothing is in flight; a probe asks about thirty frames of 640 by 480 a
/// second at four megabits.
pub proof fn law_an_empty_flight_is_settled(
    enc: QsvEncoder,
    unsettled: bool,
    codec: Codec,
    ten_bit: bool,
    cfg: EncodeConfig,
)
    requires
        call_ensures(QsvEncoder::unsettled, (&enc,), unsettled),
        call_ensures(probe_config, (codec, ten_bit), cfg),
    ensures
        enc.pending@.len() == 0 ==> !unsettled,
        cfg.width == 640 && cfg.height == 480 && cfg.fps == 30 && cfg.bitrate_bps == 4_000_000,
        !cfg.intra_refresh && cfg.hdr_meta is None,
{
}

/// Of a rate beyond what sixteen bits and a multiplier reach, both parts are cut to their low sixteen
/// bits: the multiplier is that of the smallest `m` that reaches the rate.
pub proof fn law_rates_out_of_reach_are_cut(bps: u64, m: int, r: (u16, u16))
    requires
        bps >= 1000,
        (m - 1) * 65535 < bps / 1000 <= m * 65535,
        m % 65536 != 0,
        call_ensures(split_rate, (bps,), r),
    ensures
        r.1 == m % 65536,
        r.0 == (bps as int / 1000 / (m % 65536)) % 65536,
{
    let k = bps as int / 1000;
    assert((k + 65534) / 65535 == m);
}

} // verus!

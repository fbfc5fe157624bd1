//! What holds of the AMF backend's configuration and frame properties.
//!
//! The laws speak of what the executable functions return, for all inputs: a premise `call_ensures`
//! names a call, its arguments and its result. Property values are stated as the runtime sees them, by
//! type tag and payload.
use crate::amf::props::{
    apply_static_props, blocks_per_frame, cap_bps, ceil_div, codec_props, intra_refresh_period,
    models, usage_from_env, AmfVariantKind, CodecProps, PropRun, PropStep, Role, RunNext,
    StaticInputs,
};
use crate::amf::{
    amf_ok, amf_version_str, dll_file_version, frame_steps, hdr_buffer, intra_refresh_requested,
    load_factory, ltr_disabled, ltr_mark_interval, ltr_test_force_at, probe_can_encode,
    probe_can_encode_10bit, probe_open_on, probe_props, surface_format, AmfEncoder, AmfError,
    FramePlan, ProbeTrail,
};
use crate::amf_sys::{
    iid_amf_buffer, result_name, AmfGuid, AmfHdrMetadata, AmfVariant, AMF_EOF, AMF_INPUT_FULL,
    AMF_NEED_MORE_INPUT, AMF_OK, AMF_REPEAT,
};
use crate::text::{decimal, opt_view, trimmed};
use crate::types::{Codec, HdrMeta};
use vstd::prelude::*;

verus! {

/// The value is the integer `v`.
pub open spec fn holds_int(value: AmfVariant, v: int) -> bool {
    value.vtype == 2 && value.payload@[1] == 0 && (v >= 0 ==> value.payload@[0] == v) && (v < 0
        ==> value.payload@[0] == v + 0x1_0000_0000_0000_0000)
}

/// The value is the boolean `b`.
pub open spec fn holds_bool(value: AmfVariant, b: bool) -> bool {
    &&& value.vtype == 1
    &&& value.payload@[0] == (if b {
        1int
    } else {
        0
    })
}

/// Some step sets the property `name` to the integer `v`.
pub open spec fn sets_int(steps: Seq<PropStep>, name: Seq<char>, v: int, required: bool) -> bool {
    exists|i: int|
        0 <= i < steps.len() && (#[trigger] steps[i]).name@ == name && holds_int(steps[i].value, v)
            && steps[i].required == required
}

/// Some step sets the property `name` to the boolean `b`.
pub open spec fn sets_bool(steps: Seq<PropStep>, name: Seq<char>, b: bool) -> bool {
    exists|i: int|
        0 <= i < steps.len() && (#[trigger] steps[i]).name@ == name && holds_bool(
            steps[i].value,
            b,
        ) && !steps[i].required
}

proof fn lemma_int_payload(v: i64)
    ensures
        v >= 0 ==> v as u64 == v,
        v < 0 ==> v as u64 == v + 0x1_0000_0000_0000_0000,
{
    assert(v < 0 ==> v as u64 == v + 0x1_0000_0000_0000_0000) by (bit_vector);
}

/// The steps of a configuration, one by one, as the executable function lists them.
proof fn lemma_steps(p: CodecProps, inp: StaticInputs, steps: Vec<PropStep>)
    requires
        call_ensures(apply_static_props, (&p, &inp), steps),
    ensures
        steps@.len() == inp.steps(p).len(),
        forall|i: int| 0 <= i < steps@.len() ==> (#[trigger] steps@[i])@ == inp.steps(p)[i],
{
    assert forall|i: int| 0 <= i < steps@.len() implies (#[trigger] steps@[i])@ == inp.steps(p)[i] by {
        assert(models(steps@)[i] == steps@[i]@);
    }
}

/// Every static configuration asks for the configured rate, both as the target and as the peak, and
/// cannot do without either. A rate that no signed number holds is asked for as the largest one.
pub proof fn law_target_and_peak_are_the_configured_rate(
    p: CodecProps,
    inp: StaticInputs,
    steps: Vec<PropStep>,
)
    requires
        inp.wf(),
        call_ensures(codec_props, (inp.codec,), p),
        call_ensures(apply_static_props, (&p, &inp), steps),
    ensures
        inp.bitrate_bps <= i64::MAX ==> {
            &&& sets_int(steps@, p.target_bitrate@, inp.bitrate_bps as int, true)
            &&& sets_int(steps@, p.peak_bitrate@, inp.bitrate_bps as int, true)
        },
        inp.bitrate_bps > i64::MAX ==> {
            &&& sets_int(steps@, p.target_bitrate@, i64::MAX as int, true)
            &&& sets_int(steps@, p.peak_bitrate@, i64::MAX as int, true)
        },
        sets_int(
            steps@,
            p.rc_method@,
            if inp.codec == Codec::H264 {
                1
            } else {
                3
            },
            true,
        ),
{
    lemma_steps(p, inp, steps);
    lemma_int_payload(p.rc_cbr);
    assert(steps@[1]@ == inp.steps(p)[1] && inp.steps(p)[1] == inp.base_steps(p)[1]);
    assert(steps@[2]@ == inp.steps(p)[2] && inp.steps(p)[2] == inp.base_steps(p)[2]);
    assert(steps@[3]@ == inp.steps(p)[3] && inp.steps(p)[3] == inp.base_steps(p)[3]);
}

/// The frame rate of a static configuration is the configured one, over one; a rate of zero is one
/// frame per second.
pub proof fn law_frame_rate_is_the_configured_one(
    p: CodecProps,
    inp: StaticInputs,
    steps: Vec<PropStep>,
)
    requires
        inp.wf(),
        call_ensures(codec_props, (inp.codec,), p),
        call_ensures(apply_static_props, (&p, &inp), steps),
    ensures
        exists|i: int|
            {
                &&& 0 <= i < steps@.len()
                &&& (#[trigger] steps@[i]).name@ == p.framerate@
                &&& steps@[i].required
                &&& steps@[i].value.vtype == 7
                &&& steps@[i].value.payload@[0] == 0x1_0000_0000 + (if inp.fps == 0 {
                    1
                } else {
                    inp.fps as int
                })
            },
{
    lemma_steps(p, inp, steps);
    assert(steps@[4]@ == inp.steps(p)[4] && inp.steps(p)[4] == inp.base_steps(p)[4]);
}

/// A static configuration asks for the usage preset and the rate buffer it was given, keeps to the
/// buffer without filling it up, takes the fastest preset and the lowest latency of the codec, and asks
/// for no periodic keyframes. Only the preset is indispensable.
pub proof fn law_rate_control_trades_quality_for_latency(
    p: CodecProps,
    inp: StaticInputs,
    steps: Vec<PropStep>,
)
    requires
        inp.wf(),
        call_ensures(codec_props, (inp.codec,), p),
        call_ensures(apply_static_props, (&p, &inp), steps),
    ensures
        sets_int(steps@, p.usage@, inp.usage as int, true),
        sets_int(steps@, p.vbv_size@, inp.vbv_bits as int, false),
        sets_bool(steps@, p.enforce_hrd@, true),
        sets_bool(steps@, p.filler_data@, false),
        inp.codec == Codec::H264 ==> sets_int(steps@, p.quality_preset@, 1, false),
        inp.codec == Codec::H265 ==> sets_int(steps@, p.quality_preset@, 10, false),
        inp.codec == Codec::Av1 ==> sets_int(steps@, p.quality_preset@, 100, false),
        inp.codec != Codec::Av1 ==> sets_bool(steps@, p.lowlatency@, true) && sets_int(
            steps@,
            p.idr_period@,
            0x7fff_ffff,
            false,
        ),
        inp.codec == Codec::Av1 ==> sets_int(steps@, p.lowlatency@, 3, false) && sets_int(
            steps@,
            p.idr_period@,
            0,
            false,
        ),
{
    lemma_steps(p, inp, steps);
    lemma_int_payload(inp.usage);
    lemma_int_payload(inp.vbv_bits);
    assert(steps@[0]@ == inp.steps(p)[0] && inp.steps(p)[0] == inp.base_steps(p)[0]);
    assert(steps@[5]@ == inp.steps(p)[5] && inp.steps(p)[5] == inp.base_steps(p)[5]);
    assert(steps@[6]@ == inp.steps(p)[6] && inp.steps(p)[6] == inp.base_steps(p)[6]);
    assert(steps@[7]@ == inp.steps(p)[7] && inp.steps(p)[7] == inp.base_steps(p)[7]);
    assert(steps@[8]@ == inp.steps(p)[8] && inp.steps(p)[8] == inp.base_steps(p)[8]);
    assert(steps@[9]@ == inp.steps(p)[9] && inp.steps(p)[9] == inp.base_steps(p)[9]);
    assert(steps@[10]@ == inp.steps(p)[10] && inp.steps(p)[10] == inp.base_steps(p)[10]);
}

/// Where long-term references are wanted and the codec has them, a static configuration asks for two
/// of them and for two reference frames, each by its own name and role, and for no wave.
pub proof fn law_two_references_are_asked_for(
    p: CodecProps,
    inp: StaticInputs,
    steps: Vec<PropStep>,
)
    requires
        inp.wf(),
        inp.codec != Codec::Av1,
        inp.ltr_wanted,
        call_ensures(codec_props, (inp.codec,), p),
        call_ensures(apply_static_props, (&p, &inp), steps),
    ensures
        p.ltr is Some,
        exists|i: int|
            0 <= i < steps@.len() && (#[trigger] steps@[i]).role == Role::LtrSlots
                && steps@[i].name@ == (p.ltr->0).max_ltr_frames@ && holds_int(steps@[i].value, 2),
        exists|i: int|
            0 <= i < steps@.len() && (#[trigger] steps@[i]).role == Role::LtrRefs
                && steps@[i].name@ == (p.ltr->0).max_num_ref_frames@ && holds_int(steps@[i].value, 2),
        forall|i: int| 0 <= i < steps@.len() ==> (#[trigger] steps@[i]).role != Role::IntraRefresh,
{
    lemma_steps(p, inp, steps);
    let b = inp.recovery_steps(p);
    assert(inp.base_steps(p).len() == 11);
    assert(inp.steps(p)[11] == b[0]);
    assert(inp.steps(p)[12] == b[1]);
    assert(steps@[11]@ == b[0]);
    assert(steps@[12]@ == b[1]);
    assert forall|i: int| 0 <= i < steps@.len() implies (#[trigger] steps@[i]).role
        != Role::IntraRefresh by {
        assert(steps@[i]@ == inp.steps(p)[i]);
        if inp.steps(p)[i].role == Role::IntraRefresh {
            crate::amf::props::law_recovery_features_exclude_each_other(inp, p, i, 11);
        }
    }
}

/// A wave covers the picture within its period, and with no block per frame more than that takes:
/// `across` times `down` blocks of the codec's size cover the picture, and the blocks refreshed over one
/// period are no fewer. Blocks are 16 samples wide for H.264 and 64 for HEVC.
pub proof fn law_a_wave_covers_the_picture_in_one_period(
    p: CodecProps,
    inp: StaticInputs,
    steps: Vec<PropStep>,
    across: int,
    down: int,
    i: int,
)
    requires
        inp.wf(),
        inp.codec == Codec::H264 || inp.codec == Codec::H265,
        inp.wave is Some,
        call_ensures(codec_props, (inp.codec,), p),
        call_ensures(apply_static_props, (&p, &inp), steps),
        ({
            let block: int = if inp.codec == Codec::H264 {
                16
            } else {
                64
            };
            &&& (across - 1) * block < inp.width <= across * block
            &&& (down - 1) * block < inp.height <= down * block
        }),
        0 <= i < steps@.len(),
        steps@[i].role == Role::IntraRefresh,
    ensures
        p.intra_refresh is Some,
        !inp.ltr_wanted,
        steps@[i].name@ == (p.intra_refresh->0).0@,
        exists|per: int|
            #![trigger holds_int(steps@[i].value, per)]
            {
                &&& per >= 1
                &&& holds_int(steps@[i].value, per)
                &&& per * inp.wave->0 >= across * down
                &&& per > 1 ==> (per - 1) * inp.wave->0 < across * down
            },
{
    lemma_steps(p, inp, steps);
    let all = inp.steps(p);
    let a = inp.base_steps(p);
    let b = inp.recovery_steps(p);
    let c = inp.codec_steps();
    let d = inp.colour_steps(p);
    assert(a.len() == 11);
    assert(all == a + b + c + d);
    assert(steps@[i]@ == all[i]);
    assert(11 <= i < 11 + b.len()) by {
        if i < 11 {
            assert(all[i] == a[i]);
        } else if i >= 11 + b.len() {
            if i < 11 + b.len() + c.len() {
                assert(all[i] == c[i - 11 - b.len()]);
            } else {
                assert(all[i] == d[i - 11 - b.len() - c.len()]);
            }
        }
    }
    assert(all[i] == b[i - 11]);
    let block = (p.intra_refresh->0).1;
    let period = inp.wave->0;
    lemma_ceil(inp.width as int, block as int, across);
    lemma_ceil(inp.height as int, block as int, down);
    let per = blocks_per_frame(inp.width, inp.height, block, period);
    let total = across * down;
    assert(across >= 0 && down >= 0) by (nonlinear_arith)
        requires
            0 <= inp.width <= across * block,
            0 <= inp.height <= down * block,
            block > 0,
    ;
    assert(total >= 0) by (nonlinear_arith)
        requires
            across >= 0,
            down >= 0,
            total == across * down,
    ;
    lemma_up(total, period as int);
    let up = ceil_div(total, period as int);
    assert(up <= total) by (nonlinear_arith)
        requires
            period >= 1,
            total >= 0,
            up == 0 || (up - 1) * period < total,
            up >= 0,
    ;
    assert(0 <= per <= u32::MAX);
    lemma_int_payload(per as i64);
    if up < 1 {
        assert(up == 0);
        assert(1 * period >= total) by (nonlinear_arith)
            requires
                up * period >= total,
                up == 0,
                period >= 1,
        ;
    }
    assert(holds_int(steps@[i].value, per));
}

/// The quotient rounded up is the one number between the two multiples.
proof fn lemma_ceil(size: int, block: int, n: int)
    requires
        block > 0,
        size >= 0,
        (n - 1) * block < size <= n * block,
    ensures
        ceil_div(size, block) == n,
{
    let r = size + block - 1 - n * block;
    assert(0 <= r < block) by (nonlinear_arith)
        requires
            (n - 1) * block < size <= n * block,
            r == size + block - 1 - n * block,
    ;
    vstd::arithmetic::div_mod::lemma_fundamental_div_mod_converse(size + block - 1, block, n, r);
}

proof fn lemma_up(total: int, period: int)
    requires
        period >= 1,
        total >= 0,
    ensures
        ceil_div(total, period) >= 0,
        ceil_div(total, period) * period >= total,
        ceil_div(total, period) == 0 || (ceil_div(total, period) - 1) * period < total,
{
    let q = ceil_div(total, period);
    vstd::arithmetic::div_mod::lemma_fundamental_div_mod(total + period - 1, period);
    let r = (total + period - 1) % period;
    assert(total + period - 1 == period * q + r && 0 <= r < period);
    assert(q * period >= total && (q - 1) * period < total && q >= 0) by (nonlinear_arith)
        requires
            total + period - 1 == period * q + r,
            0 <= r < period,
            period >= 1,
            total >= 0,
    ;
}

/// A ten-bit configuration cannot do without its depth and its colours: BT.2020 with the PQ curve. An
/// eight-bit one asks for BT.709, and does without it where it must.
pub proof fn law_depth_and_colours_go_together(
    p: CodecProps,
    inp: StaticInputs,
    steps: Vec<PropStep>,
)
    requires
        inp.wf(),
        call_ensures(codec_props, (inp.codec,), p),
        call_ensures(apply_static_props, (&p, &inp), steps),
    ensures
        inp.ten_bit ==> {
            &&& sets_int(steps@, p.out_color_profile@, 2, true)
            &&& sets_int(steps@, p.out_transfer@, 16, true)
            &&& sets_int(steps@, p.out_primaries@, 9, true)
            &&& inp.codec == Codec::H265 ==> sets_int(steps@, "HevcProfile"@, 2, true) && sets_int(
                steps@,
                "HevcColorBitDepth"@,
                10,
                true,
            )
            &&& inp.codec == Codec::Av1 ==> sets_int(steps@, "Av1ColorBitDepth"@, 10, true)
        },
        !inp.ten_bit ==> {
            &&& sets_int(steps@, p.out_color_profile@, 1, false)
            &&& sets_int(steps@, p.out_transfer@, 1, false)
            &&& sets_int(steps@, p.out_primaries@, 1, false)
        },
{
    lemma_steps(p, inp, steps);
    let all = inp.steps(p);
    let a = inp.base_steps(p);
    let b = inp.recovery_steps(p);
    let c = inp.codec_steps();
    let d = inp.colour_steps(p);
    let at: int = (a.len() + b.len() + c.len()) as int;
    assert(all == a + b + c + d);
    assert(steps@[at]@ == all[at] && all[at] == d[0]);
    assert(steps@[at + 1]@ == all[at + 1] && all[at + 1] == d[1]);
    assert(steps@[at + 2]@ == all[at + 2] && all[at + 2] == d[2]);
    if inp.ten_bit && inp.codec != Codec::H264 {
        assert(steps@[at - 1]@ == all[at - 1] && all[at - 1] == c[c.len() - 1]);
        assert(steps@[at - 2]@ == all[at - 2] && all[at - 2] == c[c.len() - 2]);
    }
}

/// Streams carry their headers with each keyframe, have limited range and no reordered pictures; AV1
/// asks to code the exact frame size first, and the padded one only for heights that are not whole
/// blocks.
pub proof fn law_headers_range_and_coded_size(
    p: CodecProps,
    inp: StaticInputs,
    steps: Vec<PropStep>,
)
    requires
        inp.wf(),
        call_ensures(codec_props, (inp.codec,), p),
        call_ensures(apply_static_props, (&p, &inp), steps),
    ensures
        inp.codec == Codec::H264 ==> sets_int(steps@, "BPicturesPattern"@, 0, false) && sets_bool(
            steps@,
            "FullRangeColor"@,
            false,
        ),
        inp.codec == Codec::H265 ==> sets_int(steps@, "HevcHeaderInsertionMode"@, 2, false) && sets_int(
            steps@,
            "HevcNominalRange"@,
            0,
            false,
        ),
        inp.codec == Codec::Av1 ==> {
            &&& sets_int(steps@, "Av1HeaderInsertionMode"@, 2, false)
            &&& exists|i: int|
                {
                    &&& 0 <= i < steps@.len() - 1
                    &&& (#[trigger] steps@[i]).role == Role::AlignFree
                    &&& steps@[i].name@ == "Av1AlignmentMode"@
                    &&& holds_int(steps@[i].value, 3)
                    &&& steps@[i + 1].role == Role::AlignPadded <==> inp.height % 16 != 0
                    &&& steps@[i + 1].role == Role::AlignPadded ==> steps@[i + 1].name@
                        == "Av1AlignmentMode"@ && holds_int(steps@[i + 1].value, 2)
                }
        },
{
    lemma_steps(p, inp, steps);
    let all = inp.steps(p);
    let a = inp.base_steps(p);
    let b = inp.recovery_steps(p);
    let c = inp.codec_steps();
    let d = inp.colour_steps(p);
    let at: int = (a.len() + b.len()) as int;
    assert(all == a + b + c + d);
    assert(c.len() >= 2 && d.len() == 3);
    assert(steps@[at]@ == all[at] && all[at] == c[0]);
    assert(steps@[at + 1]@ == all[at + 1] && all[at + 1] == c[1]);
    if inp.codec == Codec::Av1 {
        assert(steps@[at + 2]@ == all[at + 2]);
        assert(all[at + 2] == if c.len() > 2 {
            c[2]
        } else {
            d[0]
        });
        assert(steps@[at + 1].role == Role::AlignFree);
        assert(steps@[at + 2].role == Role::AlignPadded <==> inp.height % 16 != 0);
    }
}

/// A property of HEVC is called like the one of H.264, behind the codec's prefix, and so are those of
/// AV1 that both have; the two other names of a keyframe period are alike, too. AV1 has neither
/// long-term references nor a wave, and H.264 takes no HDR metadata.
pub proof fn law_property_names_carry_their_codec(avc: CodecProps, hevc: CodecProps, av1: CodecProps)
    requires
        call_ensures(codec_props, (Codec::H264,), avc),
        call_ensures(codec_props, (Codec::H265,), hevc),
        call_ensures(codec_props, (Codec::Av1,), av1),
    ensures
        ({
            let pre = seq!['H', 'e', 'v', 'c'];
            &&& hevc.usage@ == pre + avc.usage@
            &&& hevc.rc_method@ == pre + avc.rc_method@
            &&& hevc.target_bitrate@ == pre + avc.target_bitrate@
            &&& hevc.peak_bitrate@ == pre + avc.peak_bitrate@
            &&& hevc.vbv_size@ == pre + avc.vbv_size@
            &&& hevc.enforce_hrd@ == pre + avc.enforce_hrd@
            &&& hevc.filler_data@ == pre + avc.filler_data@
            &&& hevc.quality_preset@ == pre + avc.quality_preset@
            &&& hevc.framerate@ == pre + avc.framerate@
            &&& hevc.force_picture_type@ == pre + avc.force_picture_type@
            &&& hevc.output_data_type@ == pre + avc.output_data_type@
            &&& hevc.out_color_profile@ == pre + avc.out_color_profile@
            &&& hevc.out_transfer@ == pre + avc.out_transfer@
            &&& hevc.out_primaries@ == pre + avc.out_primaries@
            &&& (hevc.ltr->0).max_ltr_frames@ == pre + (avc.ltr->0).max_ltr_frames@
            &&& (hevc.ltr->0).max_num_ref_frames@ == pre + (avc.ltr->0).max_num_ref_frames@
            &&& (hevc.ltr->0).mark_ltr_index@ == pre + (avc.ltr->0).mark_ltr_index@
            &&& (hevc.ltr->0).force_ltr_bitfield@ == pre + (avc.ltr->0).force_ltr_bitfield@
        }),
        ({
            let pre = seq!['A', 'v', '1'];
            &&& av1.usage@ == pre + avc.usage@
            &&& av1.rc_method@ == pre + avc.rc_method@
            &&& av1.target_bitrate@ == pre + avc.target_bitrate@
            &&& av1.peak_bitrate@ == pre + avc.peak_bitrate@
            &&& av1.vbv_size@ == pre + avc.vbv_size@
            &&& av1.enforce_hrd@ == pre + avc.enforce_hrd@
            &&& av1.quality_preset@ == pre + avc.quality_preset@
            &&& av1.framerate@ == pre + avc.framerate@
        }),
        hevc.lowlatency@ == avc.lowlatency@,
        av1.idr_period@.skip(3) == hevc.idr_period@.skip(4),
        (hevc.hdr_metadata->0)@.skip(4) == (av1.hdr_metadata->0)@.skip(3),
        hevc.hdr_metadata is Some && av1.hdr_metadata is Some && avc.hdr_metadata is None,
        avc.ltr is Some && hevc.ltr is Some && av1.ltr is None,
        avc.intra_refresh is Some && hevc.intra_refresh is Some && av1.intra_refresh is None,
{
    reveal_strlit("Usage");
    reveal_strlit("HevcUsage");
    reveal_strlit("Av1Usage");
    reveal_strlit("RateControlMethod");
    reveal_strlit("HevcRateControlMethod");
    reveal_strlit("Av1RateControlMethod");
    reveal_strlit("TargetBitrate");
    reveal_strlit("HevcTargetBitrate");
    reveal_strlit("Av1TargetBitrate");
    reveal_strlit("PeakBitrate");
    reveal_strlit("HevcPeakBitrate");
    reveal_strlit("Av1PeakBitrate");
    reveal_strlit("VBVBufferSize");
    reveal_strlit("HevcVBVBufferSize");
    reveal_strlit("Av1VBVBufferSize");
    reveal_strlit("EnforceHRD");
    reveal_strlit("HevcEnforceHRD");
    reveal_strlit("Av1EnforceHRD");
    reveal_strlit("FillerDataEnable");
    reveal_strlit("HevcFillerDataEnable");
    reveal_strlit("QualityPreset");
    reveal_strlit("HevcQualityPreset");
    reveal_strlit("Av1QualityPreset");
    reveal_strlit("FrameRate");
    reveal_strlit("HevcFrameRate");
    reveal_strlit("Av1FrameRate");
    reveal_strlit("ForcePictureType");
    reveal_strlit("HevcForcePictureType");
    reveal_strlit("OutputDataType");
    reveal_strlit("HevcOutputDataType");
    reveal_strlit("OutColorProfile");
    reveal_strlit("HevcOutColorProfile");
    reveal_strlit("OutColorTransferChar");
    reveal_strlit("HevcOutColorTransferChar");
    reveal_strlit("OutColorPrimaries");
    reveal_strlit("HevcOutColorPrimaries");
    reveal_strlit("MaxOfLTRFrames");
    reveal_strlit("HevcMaxOfLTRFrames");
    reveal_strlit("MaxNumRefFrames");
    reveal_strlit("HevcMaxNumRefFrames");
    reveal_strlit("MarkCurrentWithLTRIndex");
    reveal_strlit("HevcMarkCurrentWithLTRIndex");
    reveal_strlit("ForceLTRReferenceBitfield");
    reveal_strlit("HevcForceLTRReferenceBitfield");
    reveal_strlit("HevcGOPSize");
    reveal_strlit("Av1GOPSize");
    reveal_strlit("HevcInHDRMetadata");
    reveal_strlit("Av1InHDRMetadata");
}

/// The components and the properties that each codec calls its own way.
pub proof fn law_names_of_each_codec(avc: CodecProps, hevc: CodecProps, av1: CodecProps)
    requires
        call_ensures(codec_props, (Codec::H264,), avc),
        call_ensures(codec_props, (Codec::H265,), hevc),
        call_ensures(codec_props, (Codec::Av1,), av1),
    ensures
        avc.component@ == "AMFVideoEncoderVCE_AVC"@,
        hevc.component@ == "AMFVideoEncoderHW_HEVC"@,
        av1.component@ == "AMFVideoEncoderHW_AV1"@,
        avc.output_data_type@ == "OutputDataType"@,
        av1.output_data_type@ == "Av1OutputFrameType"@,
        av1.force_picture_type@ == "Av1ForceFrameType"@,
        av1.filler_data@ == "Av1FillerData"@,
        av1.lowlatency@ == "Av1EncodingLatencyMode"@,
        av1.idr_period@ == "Av1GOPSize"@,
        av1.out_color_profile@ == "Av1OutputColorProfile"@,
        av1.out_transfer@ == "Av1OutputColorTransferChar"@,
        av1.out_primaries@ == "Av1OutputColorPrimaries"@,
        (avc.intra_refresh->0).0@ == "IntraRefreshMBsNumberPerSlot"@,
        (hevc.intra_refresh->0).0@ == "HevcIntraRefreshCTBsNumberPerSlot"@,
        (avc.ltr->0).mark_ltr_index@ == "MarkCurrentWithLTRIndex"@,
        (avc.ltr->0).force_ltr_bitfield@ == "ForceLTRReferenceBitfield"@,
        (hevc.hdr_metadata->0)@ == "HevcInHDRMetadata"@,
        avc.output_key_max == 1 && hevc.output_key_max == 1 && av1.output_key_max == 0,
{
}

/// A forced reference names its slot by its bit: of the bits of the property's value exactly that of
/// the slot is set. It is the last property of its frame, best effort, and there only for the codecs
/// that have references.
pub proof fn law_a_forced_reference_is_the_bit_of_its_slot(
    enc: AmfEncoder,
    p: CodecProps,
    plan: FramePlan,
    slot: usize,
    steps: Vec<PropStep>,
    k: u64,
)
    requires
        enc.cfg.codec == Codec::H264 || enc.cfg.codec == Codec::H265,
        call_ensures(codec_props, (enc.cfg.codec,), p),
        plan.force == Some(slot),
        slot < 2,
        call_ensures(AmfEncoder::surface_props, (&enc, &p, &plan), steps),
        k < 64,
    ensures
        steps@.len() > 0,
        steps@.last().name@ == (p.ltr->0).force_ltr_bitfield@,
        steps@.last().value.vtype == 2,
        !steps@.last().required,
        (steps@.last().value.payload@[0] >> k) & 1 == 1 <==> k == slot,
{
    let all = frame_steps(enc.cfg.codec, p, plan);
    assert(models(steps@).last() == all.last());
    assert(models(steps@).last() == steps@.last()@);
    let v = steps@.last().value.payload@[0];
    lemma_int_payload(1);
    lemma_int_payload(2);
    assert(slot == 0 ==> v == 1);
    assert(slot == 1 ==> v == 2);
    assert((1u64 >> k) & 1 == 1 <==> k == 0) by (bit_vector)
        requires
            k < 64,
    ;
    assert((2u64 >> k) & 1 == 1 <==> k == 1) by (bit_vector)
        requires
            k < 64,
    ;
}

/// A mark names its slot, and a frame without mark, force and keyframe carries no property at all.
pub proof fn law_a_mark_names_its_slot(
    enc: AmfEncoder,
    p: CodecProps,
    plan: FramePlan,
    steps: Vec<PropStep>,
)
    requires
        enc.cfg.codec != Codec::PyroWave,
        call_ensures(codec_props, (enc.cfg.codec,), p),
        plan.force matches Some(s) ==> s < 2,
        plan.mark matches Some(s) ==> s < 2,
        call_ensures(AmfEncoder::surface_props, (&enc, &p, &plan), steps),
    ensures
        plan.mark is Some && enc.cfg.codec != Codec::Av1 ==> sets_int(
            steps@,
            (p.ltr->0).mark_ltr_index@,
            plan.mark->0 as int,
            false,
        ),
        !plan.forced && ((plan.mark is None && plan.force is None) || enc.cfg.codec == Codec::Av1)
            ==> steps@.len() == 0,
        forall|i: int| 0 <= i < steps@.len() ==> !(#[trigger] steps@[i]).required,
{
    let all = frame_steps(enc.cfg.codec, p, plan);
    assert forall|i: int| 0 <= i < steps@.len() implies !(#[trigger] steps@[i]).required by {
        assert(models(steps@)[i] == all[i]);
        assert(models(steps@)[i] == steps@[i]@);
    }
    if plan.mark is Some && enc.cfg.codec != Codec::Av1 {
        let at = if plan.forced {
            crate::amf::keyframe_steps(enc.cfg.codec, p).len() as int
        } else {
            0
        };
        lemma_int_payload(plan.mark->0 as i64);
        assert(models(steps@)[at] == all[at]);
        assert(models(steps@)[at] == steps@[at]@);
    }
}

/// A forced keyframe is asked for by the codec's own number, together with its headers where they are
/// separate.
pub proof fn law_a_keyframe_is_asked_for_with_its_headers(
    enc: AmfEncoder,
    p: CodecProps,
    plan: FramePlan,
    steps: Vec<PropStep>,
)
    requires
        enc.cfg.codec != Codec::PyroWave,
        call_ensures(codec_props, (enc.cfg.codec,), p),
        plan.forced,
        plan.force matches Some(s) ==> s < 2,
        call_ensures(AmfEncoder::surface_props, (&enc, &p, &plan), steps),
    ensures
        enc.cfg.codec != Codec::Av1 ==> sets_int(steps@, p.force_picture_type@, 2, false),
        enc.cfg.codec == Codec::Av1 ==> sets_int(steps@, p.force_picture_type@, 1, false),
        enc.cfg.codec == Codec::H264 ==> sets_bool(steps@, "InsertSPS"@, true) && sets_bool(
            steps@,
            "InsertPPS"@,
            true,
        ),
        enc.cfg.codec == Codec::H265 ==> sets_bool(steps@, "HevcInsertHeader"@, true),
{
    let all = frame_steps(enc.cfg.codec, p, plan);
    lemma_int_payload(p.force_idr_value);
    assert(models(steps@)[0] == all[0] && models(steps@)[0] == steps@[0]@);
    if enc.cfg.codec != Codec::Av1 {
        assert(models(steps@)[1] == all[1] && models(steps@)[1] == steps@[1]@);
    }
    if enc.cfg.codec == Codec::H264 {
        assert(models(steps@)[2] == all[2] && models(steps@)[2] == steps@[2]@);
    }
}

/// A run through the configuration goes on exactly while no required step was rejected. It passes over
/// nothing but the padded size, and that only after the exact one was taken; long-term references run
/// where both their steps were taken, a wave where its step was.
pub proof fn law_a_run_tells_what_was_taken(
    run: PropRun,
    steps: Vec<PropStep>,
    n: RunNext,
    rec: &mut PropRun,
    at: usize,
    accepted: bool,
    go_on: bool,
    fresh: PropRun,
)
    requires
        call_ensures(PropRun::start, (), fresh),
        run.done <= steps@.len(),
        call_ensures(PropRun::next, (&run, &steps), n),
        at < steps@.len(),
        call_ensures(PropRun::record, (rec, &steps, at, accepted), go_on),
    ensures
        fresh.done == 0 && !fresh.refs_ok && !fresh.slots_ok && !fresh.wave_ok && !fresh.exact_size_ok,
        n matches RunNext::Put(i) ==> {
            &&& run.done <= i < steps@.len()
            &&& forall|j: int|
                run.done <= j < i ==> run.exact_size_ok && (#[trigger] steps@[j]).role
                    == Role::AlignPadded
            &&& !(run.exact_size_ok && steps@[i as int].role == Role::AlignPadded)
        },
        n matches RunNext::Done { ir_active, ltr_active } ==> {
            &&& ir_active == run.wave_ok
            &&& ltr_active == (run.refs_ok && run.slots_ok)
            &&& forall|j: int|
                run.done <= j < steps@.len() ==> run.exact_size_ok && (#[trigger] steps@[j]).role
                    == Role::AlignPadded
        },
        go_on <==> accepted || !steps@[at as int].required,
        final(rec).done == at + 1,
        ({
            let role = steps@[at as int].role;
            &&& final(rec).slots_ok == (if role == Role::LtrSlots {
                accepted
            } else {
                old(rec).slots_ok
            })
            &&& final(rec).refs_ok == (if role == Role::LtrRefs {
                accepted
            } else {
                old(rec).refs_ok
            })
            &&& final(rec).wave_ok == (if role == Role::IntraRefresh {
                accepted
            } else {
                old(rec).wave_ok
            })
            &&& final(rec).exact_size_ok == (if role == Role::AlignFree {
                accepted
            } else {
                old(rec).exact_size_ok
            })
        }),
{
    assert(steps.len() == steps@.len());
    lemma_first_due(run, steps@, run.done as int);
}

proof fn lemma_first_due(run: PropRun, steps: Seq<PropStep>, at: int)
    requires
        0 <= at <= steps.len(),
    ensures
        ({
            let due = run.first_due(models(steps), at);
            &&& at <= due <= steps.len()
            &&& forall|j: int|
                at <= j < due ==> run.exact_size_ok && (#[trigger] steps[j]).role == Role::AlignPadded
            &&& due < steps.len() ==> !(run.exact_size_ok && steps[due].role == Role::AlignPadded)
        }),
    decreases steps.len() - at,
{
    if at < steps.len() {
        assert(models(steps)[at] == steps[at]@);
        if steps[at].role == Role::AlignPadded && run.exact_size_ok {
            lemma_first_due(run, steps, at + 1);
        }
    }
}

/// Values reach the runtime under their type's tag and read back as what they were made of: integers
/// with their sign, rates with both parts, addresses whole. Only integers read back as integers.
pub proof fn law_values_keep_type_and_content(
    v: i64,
    b: bool,
    num: u32,
    den: u32,
    address: u64,
    number: AmfVariant,
    flag: AmfVariant,
    rate: AmfVariant,
    object: AmfVariant,
    empty: AmfVariant,
    back: Option<i64>,
)
    requires
        call_ensures(AmfVariant::from_i64, (v,), number),
        call_ensures(AmfVariant::from_bool, (b,), flag),
        call_ensures(AmfVariant::from_rate, (num, den), rate),
        call_ensures(AmfVariant::from_interface, (address,), object),
        call_ensures(AmfVariant::zeroed, (), empty),
        call_ensures(AmfVariant::as_i64, (&number,), back),
    ensures
        holds_int(number, v as int),
        back == Some(v),
        holds_bool(flag, b),
        rate.vtype == 7 && rate.payload@[0] % 0x1_0000_0000 == num && rate.payload@[0]
            / 0x1_0000_0000 == den,
        object.vtype == 12 && object.payload@[0] == address,
        empty.vtype == 0 && empty.payload@[0] == 0 && empty.payload@[1] == 0,
        forall|other: AmfVariant, read: Option<i64>|
            #[trigger] call_ensures(AmfVariant::as_i64, (&other,), read) ==> (read is Some
                <==> other.vtype == 2),
{
    lemma_int_payload(v);
    crate::amf_sys::law_integers_read_back(v, b, num, den);
    crate::amf_sys::law_rates_keep_both_parts(num, den);
}

/// The codes that the flow of frames turns on are the runtime's: each has its own name.
pub proof fn law_codes_have_their_own_names(
    ok: &'static str,
    eof: &'static str,
    repeat: &'static str,
    full: &'static str,
    more: &'static str,
)
    requires
        call_ensures(result_name, (AMF_OK,), ok),
        call_ensures(result_name, (AMF_EOF,), eof),
        call_ensures(result_name, (AMF_REPEAT,), repeat),
        call_ensures(result_name, (AMF_INPUT_FULL,), full),
        call_ensures(result_name, (AMF_NEED_MORE_INPUT,), more),
    ensures
        ok@ == "AMF_OK"@,
        eof@ == "AMF_EOF"@,
        repeat@ == "AMF_REPEAT"@,
        full@ == "AMF_INPUT_FULL"@,
        more@ == "AMF_NEED_MORE_INPUT"@,
        AMF_OK == 0 && AMF_EOF == 23 && AMF_REPEAT == 24 && AMF_INPUT_FULL == 25 && AMF_NEED_MORE_INPUT
            == 44,
{
}

/// The buffer interface is identified by its 128 bits.
pub proof fn law_the_buffer_interface_is_identified(g: AmfGuid)
    requires
        call_ensures(iid_amf_buffer, (), g),
    ensures
        g.data1 * 0x1_0000_0000 + g.data2 * 0x1_0000 + g.data3 == 0xb04b_7248_b6f0_4321,
        forall|i: int|
            0 <= i < 8 ==> #[trigger] g.data4@[i] == seq![
                0xb6u8,
                0x91,
                0xba,
                0xa4,
                0x74,
                0x0f,
                0x9f,
                0xcb,
            ][i],
{
}

/// Metadata handed to the runtime keeps every value: each primary under its own colour, the white
/// point, both luminances and both light levels in their units.
pub proof fn law_metadata_keeps_its_colours(meta: HdrMeta, m: AmfHdrMetadata)
    requires
        call_ensures(hdr_buffer, (&meta,), m),
    ensures
        m.green_primary@ == meta.display_primaries@[0]@,
        m.blue_primary@ == meta.display_primaries@[1]@,
        m.red_primary@ == meta.display_primaries@[2]@,
        m.white_point@ == meta.white_point@,
        m.max_mastering_luminance == meta.max_display_mastering_luminance,
        m.min_mastering_luminance == meta.min_display_mastering_luminance,
        m.max_content_light_level == meta.max_cll,
        m.max_frame_average_light_level == meta.max_fall,
{
}

/// An accepted runtime is asked for an interface no newer than itself and no newer than the one spoken
/// here, 1.4.36; older ones than 1.4.34 are refused. Newer runtimes are never asked for less.
pub proof fn law_runtimes_are_asked_for_what_they_speak(
    version: u64,
    newer: u64,
    r: Result<(u64, bool), AmfError>,
    s: Result<(u64, bool), AmfError>,
)
    requires
        call_ensures(load_factory, (version,), r),
        call_ensures(load_factory, (newer,), s),
        version <= newer,
    ensures
        r is Ok <==> version >= 0x0001_0004_0022_0000,
        r is Err ==> r->Err_0 == (AmfError::RuntimeTooOld { version }),
        r matches Ok(got) ==> {
            &&& got.0 <= version && got.0 <= 0x0001_0004_0024_0000
            &&& got.0 == version || got.0 == 0x0001_0004_0024_0000
            &&& got.1 <==> version >= 0x0001_0004_0024_0000
        },
        r is Ok ==> s is Ok && s->Ok_0.0 >= r->Ok_0.0,
{
}

/// Each depth has its own surface format.
pub proof fn law_surfaces_have_the_depth_of_the_input(deep: i32, flat: i32)
    requires
        call_ensures(surface_format, (true,), deep),
        call_ensures(surface_format, (false,), flat),
    ensures
        deep == 10,
        flat == 1,
{
}

/// Without a setting frames are marked twice a second, and a wave takes half a second but at least
/// eight frames; no setting gives an interval below one frame or a wave below two.
pub proof fn law_cadences_follow_the_frame_rate(
    fps: u32,
    raw: Option<&str>,
    marks: i64,
    wave: u32,
    any_marks: i64,
    any_wave: u32,
    hook: Option<i64>,
)
    requires
        call_ensures(ltr_mark_interval, (None, fps), marks),
        call_ensures(intra_refresh_period, (None, fps), wave),
        call_ensures(ltr_mark_interval, (raw, fps), any_marks),
        call_ensures(intra_refresh_period, (raw, fps), any_wave),
        call_ensures(ltr_test_force_at, (raw,), hook),
    ensures
        fps >= 2 ==> 2 * marks <= fps < 2 * (marks + 1),
        fps < 2 ==> marks == 1,
        fps >= 16 ==> 2 * wave <= fps < 2 * (wave + 1),
        fps < 16 ==> wave == 8,
        any_marks >= 1,
        any_wave >= 2,
        hook matches Some(at) ==> at > 0,
        hook is Some ==> any_marks == hook->0,
{
}

/// An unset or unknown preset is the ultra-low-latency one, and AV1 numbers the two low-latency presets
/// the other way round; the presets keep apart.
pub proof fn law_presets_are_numbered_per_codec(
    raw: Option<&str>,
    avc: i64,
    hevc: i64,
    av1: i64,
    default_avc: i64,
    default_av1: i64,
)
    requires
        call_ensures(usage_from_env, (raw, Codec::H264), avc),
        call_ensures(usage_from_env, (raw, Codec::H265), hevc),
        call_ensures(usage_from_env, (raw, Codec::Av1), av1),
        call_ensures(usage_from_env, (None, Codec::H264), default_avc),
        call_ensures(usage_from_env, (None, Codec::Av1), default_av1),
    ensures
        avc == hevc,
        avc + av1 == 3 || (avc == av1 && (avc == 0 || avc == 4 || avc == 5)),
        default_avc == 1 && default_av1 == 2,
        opt_view(raw) == Some("ultralowlatency"@) ==> avc == 1 && av1 == 2,
        opt_view(raw) == Some("lowlatency"@) ==> avc == 2 && av1 == 1,
        opt_view(raw) == Some("lowlatency_high_quality"@) ==> avc == 5,
        opt_view(raw) == Some("transcoding"@) ==> avc == 0,
        opt_view(raw) == Some("highquality"@) || opt_view(raw) == Some("high_quality"@) ==> avc == 4,
{
    reveal_strlit("ultralowlatency");
    reveal_strlit("lowlatency");
    reveal_strlit("lowlatency_high_quality");
    reveal_strlit("transcoding");
    reveal_strlit("highquality");
    reveal_strlit("high_quality");
    assert("ultralowlatency"@.len() == 15 && "lowlatency"@.len() == 10
        && "lowlatency_high_quality"@.len() == 23 && "transcoding"@.len() == 11
        && "highquality"@.len() == 11 && "high_quality"@.len() == 12);
    assert("transcoding"@[0] == 't' && "highquality"@[0] == 'h');
}

/// A probe tries the preset, and a ten-bit one the codec's depth as well; it counts only where every
/// call of it succeeded, and H.264 has no ten-bit mode.
pub proof fn law_a_probe_tries_the_wanted_depth(
    codec: Codec,
    usage: i64,
    p: CodecProps,
    base: Vec<PropStep>,
    deep: Vec<PropStep>,
    trail: ProbeTrail,
    can: bool,
    can10: bool,
)
    requires
        codec != Codec::PyroWave,
        call_ensures(codec_props, (codec,), p),
        call_ensures(probe_props, (codec, false, usage), base),
        call_ensures(probe_props, (codec, true, usage), deep),
        call_ensures(probe_can_encode, (codec, Some(&trail)), can),
        call_ensures(probe_can_encode_10bit, (codec, Some(&trail)), can10),
    ensures
        base@.len() == 1 && sets_int(base@, p.usage@, usage as int, true),
        sets_int(deep@, p.usage@, usage as int, true),
        codec == Codec::H265 ==> sets_int(deep@, "HevcProfile"@, 2, true) && sets_int(
            deep@,
            "HevcColorBitDepth"@,
            10,
            true,
        ),
        codec == Codec::Av1 ==> sets_int(deep@, "Av1ColorBitDepth"@, 10, true),
        can || can10 ==> {
            &&& trail.runtime_ok
            &&& trail.create_context == 0 && trail.init_device == 0 && trail.create_component == 0
            &&& trail.init == 0
            &&& forall|i: int| 0 <= i < trail.properties@.len() ==> trail.properties@[i] == 0
        },
        can ==> trail.properties@.len() == base@.len(),
        can10 ==> trail.properties@.len() == deep@.len() && codec != Codec::H264,
        trail.runtime_ok && trail.create_context == 0 && trail.init_device == 0
            && trail.create_component == 0 && trail.init == 0 && (forall|i: int|
            0 <= i < trail.properties@.len() ==> trail.properties@[i] == 0) ==> {
            &&& trail.properties@.len() == base@.len() ==> can
            &&& trail.properties@.len() == deep@.len() && codec != Codec::H264 ==> can10
        },
{
    lemma_int_payload(usage);
    let q = choose|q: CodecProps| #[trigger]
        q.is_for(codec) && models(base@) =~= crate::amf::probe_steps(q, codec, false, usage);
    assert(models(base@)[0] == base@[0]@);
    let q = choose|q: CodecProps| #[trigger]
        q.is_for(codec) && models(deep@) =~= crate::amf::probe_steps(q, codec, true, usage);
    assert(models(deep@)[0] == deep@[0]@);
    if codec != Codec::H264 {
        assert(models(deep@)[1] == deep@[1]@);
    }
    if codec == Codec::H265 {
        assert(models(deep@)[2] == deep@[2]@);
    }
}

/// A version packs four fields of sixteen bits, the major one first; it is written out as the first
/// three, and the version of a file as all four of its two words.
pub proof fn law_versions_are_written_field_by_field(
    major: u16,
    minor: u16,
    release: u16,
    build: u16,
    v: u64,
    ms: u32,
    ls: u32,
    s: String,
    file: String,
)
    requires
        v == major * 0x1_0000_0000_0000 + minor * 0x1_0000_0000 + release * 0x1_0000 + build,
        ms == major * 0x1_0000 + minor,
        ls == release * 0x1_0000 + build,
        call_ensures(amf_version_str, (v,), s),
        call_ensures(dll_file_version, (ms, ls), file),
    ensures
        s@ == decimal(major as nat) + seq!['.'] + decimal(minor as nat) + seq!['.'] + decimal(
            release as nat,
        ),
        file@ == s@ + seq!['.'] + decimal(build as nat),
{
    crate::text::law_dotted_numbers_keep_their_order(
        major as u64,
        minor as u64,
        release as u64,
        build as u64,
    );
    lemma_version_fields(major, minor, release, build, v);
    assert(ms / 0x1_0000 == major && ms % 0x1_0000 == minor);
    assert(ls / 0x1_0000 == release && ls % 0x1_0000 == build);
}

proof fn lemma_version_fields(major: u16, minor: u16, release: u16, build: u16, v: u64)
    requires
        v == major * 0x1_0000_0000_0000 + minor * 0x1_0000_0000 + release * 0x1_0000 + build,
    ensures
        crate::amf::version_field(v, 3) == major,
        crate::amf::version_field(v, 2) == minor,
        crate::amf::version_field(v, 1) == release,
{
    let high = major * 0x1_0000 + minor;
    assert(v / 0x1_0000 == high * 0x1_0000 + release);
    assert(v / 0x1_0000_0000 == high);
    assert(v / 0x1_0000_0000_0000 == major);
}

/// A call succeeded exactly where its code is zero; any other code is the error.
pub proof fn law_a_code_is_its_error(code: i32, r: Result<(), AmfError>)
    requires
        call_ensures(amf_ok, (code,), r),
    ensures
        r is Ok <==> code == 0,
        r is Err ==> r->Err_0 == AmfError::Call(code),
{
}

/// Rates are handed on as they are, as far as the runtime's signed numbers reach; a value is handed on
/// under its own type.
pub proof fn law_rates_and_values_are_handed_on(
    bps: u64,
    r: i64,
    n: i64,
    b: bool,
    number: AmfVariant,
    flag: AmfVariant,
)
    requires
        call_ensures(cap_bps, (bps,), r),
        call_ensures(AmfVariantKind::to_variant, (&AmfVariantKind::I64(n),), number),
        call_ensures(AmfVariantKind::to_variant, (&AmfVariantKind::Bool(b),), flag),
    ensures
        r >= 0,
        r <= bps,
        r < bps ==> r == i64::MAX,
        holds_int(number, n as int),
        holds_bool(flag, b),
{
    lemma_int_payload(n);
}

/// Both switches are off unless set, and on exactly for the spellings of "on".
pub proof fn law_switches_are_opt_in(raw: &str, wave: bool, refs: bool, unset: bool, unset_refs: bool)
    requires
        call_ensures(intra_refresh_requested, (Some(raw),), wave),
        call_ensures(ltr_disabled, (Some(raw),), refs),
        call_ensures(intra_refresh_requested, (None,), unset),
        call_ensures(ltr_disabled, (None,), unset_refs),
    ensures
        !unset && !unset_refs,
        wave == refs,
        wave <==> trimmed(raw@) == "1"@ || trimmed(raw@) == "true"@ || trimmed(raw@) == "yes"@
            || trimmed(raw@) == "on"@,
{
}

/// A trial session counts exactly where the runtime loaded, every call returned zero and every property
/// of the wanted depth was tried.
pub proof fn law_a_trial_counts_where_every_call_did(
    codec: Codec,
    ten_bit: bool,
    trail: ProbeTrail,
    r: bool,
)
    requires
        codec != Codec::PyroWave,
        call_ensures(probe_open_on, (codec, ten_bit, &trail), r),
    ensures
        r <==> {
            &&& trail.runtime_ok
            &&& trail.create_context == 0 && trail.init_device == 0 && trail.create_component == 0
            &&& trail.init == 0
            &&& forall|i: int| 0 <= i < trail.properties@.len() ==> #[trigger] trail.properties@[i] == 0
            &&& ten_bit ==> codec != Codec::H264
            &&& trail.properties@.len() == (if !ten_bit {
                1int
            } else if codec == Codec::H265 {
                3
            } else {
                2
            })
        },
{
}

/// A cadence that is set in frames is that many frames, where it makes sense: a mark at least every
/// frame, a wave over at least two. Any other setting counts as unset.
pub proof fn law_cadences_are_as_set(
    fps: u32,
    raw: &str,
    n: nat,
    marks: i64,
    wave: u32,
    hook: Option<i64>,
    unset_marks: i64,
    unset_wave: u32,
)
    requires
        raw@ == decimal(n),
        n <= u32::MAX,
        call_ensures(ltr_mark_interval, (Some(raw), fps), marks),
        call_ensures(intra_refresh_period, (Some(raw), fps), wave),
        call_ensures(ltr_test_force_at, (Some(raw),), hook),
        call_ensures(ltr_mark_interval, (None, fps), unset_marks),
        call_ensures(intra_refresh_period, (None, fps), unset_wave),
    ensures
        n >= 1 ==> marks == n && hook == Some(n as i64),
        n == 0 ==> marks == unset_marks && hook is None,
        n >= 2 ==> wave == n,
        n < 2 ==> wave == unset_wave,
{
    crate::text::law_decimal_notation_reads_as_its_number(n);
}

} // verus!

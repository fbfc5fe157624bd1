//! Encoder properties of the AMF runtime: their names per codec, and the static configuration.
//!
//! The static configuration is a list of steps. Each sets one property; a rejected step ends the set-up
//! where it is required and is skipped over where it is not. Some steps tell by their acceptance
//! whether a recovery feature runs.
use crate::amf_sys::{AmfVariant, VariantModel};
use crate::text::{opt_view, parse_u32, same_text, unsigned_up_to};
use crate::types::{at_least_one, Codec};
use vstd::prelude::*;

verus! {

pub const HEVC_HEADER_IDR_ALIGNED: i64 = 2;

pub const AV1_HEADER_KEY_ALIGNED: i64 = 2;

pub const HEVC_PROFILE_MAIN_10: i64 = 2;

pub const COLOR_BIT_DEPTH_10: i64 = 10;

pub const AV1_ALIGNMENT_NO_RESTRICTIONS: i64 = 3;

pub const AV1_ALIGNMENT_1080P_CODED_1082: i64 = 2;

pub const AV1_LATENCY_LOWEST: i64 = 3;

pub const COLOR_PROFILE_709: i64 = 1;

pub const COLOR_PROFILE_2020: i64 = 2;

pub const TRANSFER_BT709: i64 = 1;

pub const TRANSFER_SMPTE2084: i64 = 16;

pub const PRIMARIES_BT709: i64 = 1;

pub const PRIMARIES_BT2020: i64 = 9;

/// A property value of one of two types.
#[derive(Clone, Copy, Debug, PartialEq, Eq, Structural)]
pub enum AmfVariantKind {
    Bool(bool),
    I64(i64),
}

impl AmfVariantKind {
    pub open spec fn model(self) -> VariantModel {
        match self {
            AmfVariantKind::Bool(b) => VariantModel::of_bool(b),
            AmfVariantKind::I64(v) => VariantModel::of_int(v),
        }
    }

    pub fn to_variant(&self) -> (v: AmfVariant)
        ensures
            v@ == self.model(),
    {
        match self {
            AmfVariantKind::Bool(b) => AmfVariant::from_bool(*b),
            AmfVariantKind::I64(v) => AmfVariant::from_i64(*v),
        }
    }
}

/// Property names of the long-term references.
#[derive(Clone, Copy, Debug)]
pub struct LtrProps {
    pub max_ltr_frames: &'static str,
    pub max_num_ref_frames: &'static str,
    /// Marks the current frame into a slot.
    pub mark_ltr_index: &'static str,
    /// Forces the current frame to reference the slots of a bit set.
    pub force_ltr_bitfield: &'static str,
}

/// What a codec's properties are called, and the values that differ between codecs.
#[derive(Clone, Copy, Debug)]
pub struct CodecProps {
    /// Name of the encoder component.
    pub component: &'static str,
    pub usage: &'static str,
    pub rc_method: &'static str,
    /// Constant bitrate, in the codec's own numbering.
    pub rc_cbr: i64,
    pub target_bitrate: &'static str,
    pub peak_bitrate: &'static str,
    pub vbv_size: &'static str,
    pub enforce_hrd: &'static str,
    pub filler_data: &'static str,
    pub quality_preset: &'static str,
    /// The fastest preset, in the codec's own numbering.
    pub quality_speed: i64,
    pub lowlatency: &'static str,
    pub framerate: &'static str,
    pub idr_period: &'static str,
    /// No periodic keyframes.
    pub idr_period_value: i64,
    pub force_picture_type: &'static str,
    /// The forced type of a keyframe.
    pub force_idr_value: i64,
    pub output_data_type: &'static str,
    /// Output types up to this one are keyframes.
    pub output_key_max: i64,
    pub out_color_profile: &'static str,
    pub out_transfer: &'static str,
    pub out_primaries: &'static str,
    pub lowlatency_value: AmfVariantKind,
    pub hdr_metadata: Option<&'static str>,
    /// Intra-refresh property and the size of its blocks.
    pub intra_refresh: Option<(&'static str, u32)>,
    pub ltr: Option<LtrProps>,
}

/// One of three values, by the codec.
pub open spec fn by_codec<T>(codec: Codec, h264: T, h265: T, av1: T) -> T {
    match codec {
        Codec::H264 => h264,
        Codec::H265 => h265,
        _ => av1,
    }
}

/// The characters of an optional name.
pub open spec fn name_view(name: Option<&'static str>) -> Option<Seq<char>> {
    match name {
        Some(s) => Some(s@),
        None => None,
    }
}

impl LtrProps {
    pub open spec fn is_for(self, codec: Codec) -> bool {
        &&& self.max_ltr_frames@ == by_codec(
            codec,
            "MaxOfLTRFrames"@,
            "HevcMaxOfLTRFrames"@,
            ""@,
        )
        &&& self.max_num_ref_frames@ == by_codec(
            codec,
            "MaxNumRefFrames"@,
            "HevcMaxNumRefFrames"@,
            ""@,
        )
        &&& self.mark_ltr_index@ == by_codec(
            codec,
            "MarkCurrentWithLTRIndex"@,
            "HevcMarkCurrentWithLTRIndex"@,
            ""@,
        )
        &&& self.force_ltr_bitfield@ == by_codec(
            codec,
            "ForceLTRReferenceBitfield"@,
            "HevcForceLTRReferenceBitfield"@,
            ""@,
        )
    }
}

impl CodecProps {
    /// The properties of `codec`. AV1 has no user-controlled references and no intra-refresh wave, and
    /// H.264 no HDR metadata.
    pub open spec fn is_for(self, codec: Codec) -> bool {
        &&& self.component@ == by_codec(codec, "AMFVideoEncoderVCE_AVC"@, "AMFVideoEncoderHW_HEVC"@, "AMFVideoEncoderHW_AV1"@)
        &&& self.usage@ == by_codec(codec, "Usage"@, "HevcUsage"@, "Av1Usage"@)
        &&& self.rc_method@ == by_codec(codec, "RateControlMethod"@, "HevcRateControlMethod"@, "Av1RateControlMethod"@)
        &&& self.rc_cbr == by_codec(codec, 1i64, 3i64, 3i64)
        &&& self.target_bitrate@ == by_codec(codec, "TargetBitrate"@, "HevcTargetBitrate"@, "Av1TargetBitrate"@)
        &&& self.peak_bitrate@ == by_codec(codec, "PeakBitrate"@, "HevcPeakBitrate"@, "Av1PeakBitrate"@)
        &&& self.vbv_size@ == by_codec(codec, "VBVBufferSize"@, "HevcVBVBufferSize"@, "Av1VBVBufferSize"@)
        &&& self.enforce_hrd@ == by_codec(codec, "EnforceHRD"@, "HevcEnforceHRD"@, "Av1EnforceHRD"@)
        &&& self.filler_data@ == by_codec(codec, "FillerDataEnable"@, "HevcFillerDataEnable"@, "Av1FillerData"@)
        &&& self.quality_preset@ == by_codec(codec, "QualityPreset"@, "HevcQualityPreset"@, "Av1QualityPreset"@)
        &&& self.quality_speed == by_codec(codec, 1i64, 10i64, 100i64)
        &&& self.lowlatency@ == by_codec(codec, "LowLatencyInternal"@, "LowLatencyInternal"@, "Av1EncodingLatencyMode"@)
        &&& self.framerate@ == by_codec(codec, "FrameRate"@, "HevcFrameRate"@, "Av1FrameRate"@)
        &&& self.idr_period@ == by_codec(codec, "IDRPeriod"@, "HevcGOPSize"@, "Av1GOPSize"@)
        &&& self.idr_period_value == by_codec(codec, 0x7fff_ffffi64, 0x7fff_ffffi64, 0i64)
        &&& self.force_picture_type@ == by_codec(codec, "ForcePictureType"@, "HevcForcePictureType"@, "Av1ForceFrameType"@)
        &&& self.force_idr_value == by_codec(codec, 2i64, 2i64, 1i64)
        &&& self.output_data_type@ == by_codec(codec, "OutputDataType"@, "HevcOutputDataType"@, "Av1OutputFrameType"@)
        &&& self.output_key_max == by_codec(codec, 1i64, 1i64, 0i64)
        &&& self.out_color_profile@ == by_codec(codec, "OutColorProfile"@, "HevcOutColorProfile"@, "Av1OutputColorProfile"@)
        &&& self.out_transfer@ == by_codec(codec, "OutColorTransferChar"@, "HevcOutColorTransferChar"@, "Av1OutputColorTransferChar"@)
        &&& self.out_primaries@ == by_codec(codec, "OutColorPrimaries"@, "HevcOutColorPrimaries"@, "Av1OutputColorPrimaries"@)
        &&& self.lowlatency_value == by_codec(
            codec,
            AmfVariantKind::Bool(true),
            AmfVariantKind::Bool(true),
            AmfVariantKind::I64(AV1_LATENCY_LOWEST),
        )
        &&& name_view(self.hdr_metadata) == by_codec(
            codec,
            None,
            Some("HevcInHDRMetadata"@),
            Some("Av1InHDRMetadata"@),
        )
        &&& self.intra_refresh is Some == (codec != Codec::Av1)
        &&& self.intra_refresh matches Some((name, block)) ==> name@ == by_codec(
            codec,
            "IntraRefreshMBsNumberPerSlot"@,
            "HevcIntraRefreshCTBsNumberPerSlot"@,
            ""@,
        ) && block == by_codec(codec, 16u32, 64u32, 0u32)
        &&& self.ltr is Some == (codec != Codec::Av1)
        &&& self.ltr matches Some(l) ==> l.is_for(codec)
    }
}

/// The properties of a codec this backend encodes.
pub fn codec_props(codec: Codec) -> (p: CodecProps)
    requires
        codec != Codec::PyroWave,
    ensures
        p.is_for(codec),
{
    match codec {
        Codec::H264 => CodecProps {
            component: "AMFVideoEncoderVCE_AVC",
            usage: "Usage",
            rc_method: "RateControlMethod",
            rc_cbr: 1,
            target_bitrate: "TargetBitrate",
            peak_bitrate: "PeakBitrate",
            vbv_size: "VBVBufferSize",
            enforce_hrd: "EnforceHRD",
            filler_data: "FillerDataEnable",
            quality_preset: "QualityPreset",
            quality_speed: 1,
            lowlatency: "LowLatencyInternal",
            framerate: "FrameRate",
            idr_period: "IDRPeriod",
            idr_period_value: 0x7fff_ffff,
            force_picture_type: "ForcePictureType",
            force_idr_value: 2,
            output_data_type: "OutputDataType",
            output_key_max: 1,
            out_color_profile: "OutColorProfile",
            out_transfer: "OutColorTransferChar",
            out_primaries: "OutColorPrimaries",
            lowlatency_value: AmfVariantKind::Bool(true),
            hdr_metadata: None,
            intra_refresh: Some(("IntraRefreshMBsNumberPerSlot", 16)),
            ltr: Some(
                LtrProps {
                    max_ltr_frames: "MaxOfLTRFrames",
                    max_num_ref_frames: "MaxNumRefFrames",
                    mark_ltr_index: "MarkCurrentWithLTRIndex",
                    force_ltr_bitfield: "ForceLTRReferenceBitfield",
                },
            ),
        },
        Codec::H265 => CodecProps {
            component: "AMFVideoEncoderHW_HEVC",
            usage: "HevcUsage",
            rc_method: "HevcRateControlMethod",
            rc_cbr: 3,
            target_bitrate: "HevcTargetBitrate",
            peak_bitrate: "HevcPeakBitrate",
            vbv_size: "HevcVBVBufferSize",
            enforce_hrd: "HevcEnforceHRD",
            filler_data: "HevcFillerDataEnable",
            quality_preset: "HevcQualityPreset",
            quality_speed: 10,
            lowlatency: "LowLatencyInternal",
            framerate: "HevcFrameRate",
            idr_period: "HevcGOPSize",
            idr_period_value: 0x7fff_ffff,
            force_picture_type: "HevcForcePictureType",
            force_idr_value: 2,
            output_data_type: "HevcOutputDataType",
            output_key_max: 1,
            out_color_profile: "HevcOutColorProfile",
            out_transfer: "HevcOutColorTransferChar",
            out_primaries: "HevcOutColorPrimaries",
            lowlatency_value: AmfVariantKind::Bool(true),
            hdr_metadata: Some("HevcInHDRMetadata"),
            intra_refresh: Some(("HevcIntraRefreshCTBsNumberPerSlot", 64)),
            ltr: Some(
                LtrProps {
                    max_ltr_frames: "HevcMaxOfLTRFrames",
                    max_num_ref_frames: "HevcMaxNumRefFrames",
                    mark_ltr_index: "HevcMarkCurrentWithLTRIndex",
                    force_ltr_bitfield: "HevcForceLTRReferenceBitfield",
                },
            ),
        },
        _ => CodecProps {
            component: "AMFVideoEncoderHW_AV1",
            usage: "Av1Usage",
            rc_method: "Av1RateControlMethod",
            rc_cbr: 3,
            target_bitrate: "Av1TargetBitrate",
            peak_bitrate: "Av1PeakBitrate",
            vbv_size: "Av1VBVBufferSize",
            enforce_hrd: "Av1EnforceHRD",
            filler_data: "Av1FillerData",
            quality_preset: "Av1QualityPreset",
            quality_speed: 100,
            lowlatency: "Av1EncodingLatencyMode",
            framerate: "Av1FrameRate",
            idr_period: "Av1GOPSize",
            idr_period_value: 0,
            force_picture_type: "Av1ForceFrameType",
            force_idr_value: 1,
            output_data_type: "Av1OutputFrameType",
            output_key_max: 0,
            out_color_profile: "Av1OutputColorProfile",
            out_transfer: "Av1OutputColorTransferChar",
            out_primaries: "Av1OutputColorPrimaries",
            lowlatency_value: AmfVariantKind::I64(AV1_LATENCY_LOWEST),
            hdr_metadata: Some("Av1InHDRMetadata"),
            intra_refresh: None,
            ltr: None,
        },
    }
}

/// The usage preset that a setting names. AV1 numbers the two low-latency presets the other way round.
pub open spec fn usage_value(raw: Option<Seq<char>>, codec: Codec) -> i64 {
    let av1 = codec == Codec::Av1;
    let ultra: i64 = if av1 {
        2
    } else {
        1
    };
    match raw {
        Some(v) => if v == "ultralowlatency"@ {
            ultra
        } else if v == "lowlatency"@ {
            (3 - ultra) as i64
        } else if v == "lowlatency_high_quality"@ {
            5
        } else if v == "transcoding"@ {
            0
        } else if v == "highquality"@ || v == "high_quality"@ {
            4
        } else {
            ultra
        },
        None => ultra,
    }
}

/// Reads the usage preset. Anything unknown is the ultra-low-latency preset.
pub fn usage_from_env(raw: Option<&str>, codec: Codec) -> (usage: i64)
    ensures
        usage == usage_value(opt_view(raw), codec),
{
    let ultra: i64 = match codec {
        Codec::Av1 => 2,
        _ => 1,
    };
    match raw {
        Some(v) => if same_text(v, "ultralowlatency") {
            ultra
        } else if same_text(v, "lowlatency") {
            3 - ultra
        } else if same_text(v, "lowlatency_high_quality") {
            5
        } else if same_text(v, "transcoding") {
            0
        } else if same_text(v, "highquality") || same_text(v, "high_quality") {
            4
        } else {
            ultra
        },
        None => ultra,
    }
}

/// Frames of an intra-refresh wave: the setting where it is at least two, else half a second.
pub open spec fn wave_period(raw: Option<Seq<char>>, fps: u32) -> int {
    let default = if fps < 16 {
        8int
    } else {
        fps as int / 2
    };
    match raw {
        Some(s) => match unsigned_up_to(s, u32::MAX as int) {
            Some(v) => if v >= 2 {
                v
            } else {
                default
            },
            None => default,
        },
        None => default,
    }
}

/// Reads the length of the intra-refresh wave.
pub fn intra_refresh_period(raw: Option<&str>, fps: u32) -> (period: u32)
    ensures
        period == wave_period(opt_view(raw), fps),
        period >= 2,
{
    let default: u32 = if fps < 16 {
        8
    } else {
        fps / 2
    };
    match raw {
        Some(s) => match parse_u32(s) {
            Some(v) => if v >= 2 {
                v
            } else {
                default
            },
            None => default,
        },
        None => default,
    }
}

/// How the acceptance of a step counts.
#[derive(Clone, Copy, Debug, PartialEq, Eq, Structural)]
pub enum Role {
    Plain,
    /// Reference frames for the long-term slots.
    LtrRefs,
    /// The long-term slots themselves.
    LtrSlots,
    /// The intra-refresh wave.
    IntraRefresh,
    /// Coding at the exact frame size.
    AlignFree,
    /// Coding at a padded size, set only where the exact size was rejected.
    AlignPadded,
}

/// One property to set.
#[derive(Clone, Copy, Debug)]
pub struct PropStep {
    pub name: &'static str,
    pub value: AmfVariant,
    /// A rejection ends the set-up.
    pub required: bool,
    pub role: Role,
}

/// Content of a [`PropStep`].
pub struct StepModel {
    pub name: Seq<char>,
    pub value: VariantModel,
    pub required: bool,
    pub role: Role,
}

impl View for PropStep {
    type V = StepModel;

    open spec fn view(&self) -> StepModel {
        StepModel {
            name: self.name@,
            value: self.value@,
            required: self.required,
            role: self.role,
        }
    }
}

/// What the static configuration depends on.
#[derive(Clone, Copy, Debug)]
pub struct StaticInputs {
    pub codec: Codec,
    pub width: u32,
    pub height: u32,
    pub fps: u32,
    pub bitrate_bps: u64,
    pub ten_bit: bool,
    pub usage: i64,
    /// Size of the rate-control buffer in bits.
    pub vbv_bits: i64,
    pub ltr_wanted: bool,
    /// Length of the intra-refresh wave, where one is asked for.
    pub wave: Option<u32>,
}

/// A required integer property.
pub open spec fn must_int(name: Seq<char>, v: i64) -> StepModel {
    StepModel { name, value: VariantModel::of_int(v), required: true, role: Role::Plain }
}

/// An optional integer property.
pub open spec fn may_int(name: Seq<char>, v: i64) -> StepModel {
    StepModel { name, value: VariantModel::of_int(v), required: false, role: Role::Plain }
}

/// An optional boolean property.
pub open spec fn may_bool(name: Seq<char>, v: bool) -> StepModel {
    StepModel { name, value: VariantModel::of_bool(v), required: false, role: Role::Plain }
}

/// An optional integer property whose acceptance counts.
pub open spec fn counts(name: Seq<char>, v: i64, role: Role) -> StepModel {
    StepModel { name, value: VariantModel::of_int(v), required: false, role }
}

/// A rate as a signed number, at the largest one where it exceeds it.
pub open spec fn capped_bps(bps: u64) -> i64 {
    if bps <= i64::MAX {
        bps as i64
    } else {
        i64::MAX
    }
}

/// `a / b` rounded up.
pub open spec fn ceil_div(a: int, b: int) -> int {
    (a + b - 1) / b
}

/// Blocks each frame refreshes so that a wave of `period` frames covers the picture.
pub open spec fn blocks_per_frame(width: u32, height: u32, block: u32, period: u32) -> int {
    let per = ceil_div(
        ceil_div(width as int, block as int) * ceil_div(height as int, block as int),
        period as int,
    );
    if per < 1 {
        1
    } else {
        per
    }
}

impl StaticInputs {
    /// Where a wave is asked for, it has a length, and the picture's blocks can be counted in 32 bits.
    pub open spec fn wf(self) -> bool {
        let block = by_codec(self.codec, 16int, 64int, 0int);
        &&& self.codec != Codec::PyroWave
        &&& self.codec != Codec::Av1 && !self.ltr_wanted && self.wave is Some ==> self.wave->0 >= 1
            && ceil_div(self.width as int, block) * ceil_div(self.height as int, block) <= u32::MAX
    }

    /// Rate control and latency.
    pub open spec fn base_steps(self, p: CodecProps) -> Seq<StepModel> {
        let bps = capped_bps(self.bitrate_bps);
        let fps = at_least_one(self.fps);
        seq![
            must_int(p.usage@, self.usage),
            must_int(p.rc_method@, p.rc_cbr),
            must_int(p.target_bitrate@, bps),
            must_int(p.peak_bitrate@, bps),
            StepModel {
                name: p.framerate@,
                value: VariantModel::of_rate(fps, 1),
                required: true,
                role: Role::Plain,
            },
            may_int(p.vbv_size@, self.vbv_bits),
            may_bool(p.enforce_hrd@, true),
            may_bool(p.filler_data@, false),
            may_int(p.quality_preset@, p.quality_speed),
            StepModel {
                name: p.lowlatency@,
                value: p.lowlatency_value.model(),
                required: false,
                role: Role::Plain,
            },
            may_int(p.idr_period@, p.idr_period_value),
        ]
    }

    /// Loss recovery: the long-term slots where they are wanted, else the intra-refresh wave. The
    /// runtime has room for one of the two.
    pub open spec fn recovery_steps(self, p: CodecProps) -> Seq<StepModel> {
        if p.ltr is Some && self.ltr_wanted {
            seq![
                counts((p.ltr->0).max_num_ref_frames@, 2, Role::LtrRefs),
                counts((p.ltr->0).max_ltr_frames@, 2, Role::LtrSlots),
            ]
        } else if p.intra_refresh is Some && self.wave is Some {
            seq![
                counts(
                    (p.intra_refresh->0).0@,
                    blocks_per_frame(
                        self.width,
                        self.height,
                        (p.intra_refresh->0).1,
                        self.wave->0,
                    ) as i64,
                    Role::IntraRefresh,
                ),
            ]
        } else {
            Seq::empty()
        }
    }

    /// Bitstream headers, sample depth and coded size.
    pub open spec fn codec_steps(self) -> Seq<StepModel> {
        match self.codec {
            Codec::H264 => seq![
                may_int("BPicturesPattern"@, 0),
                may_bool("FullRangeColor"@, false),
            ],
            Codec::H265 => seq![
                may_int("HevcHeaderInsertionMode"@, HEVC_HEADER_IDR_ALIGNED),
                may_int("HevcNominalRange"@, 0),
            ] + if self.ten_bit {
                seq![
                    must_int("HevcProfile"@, HEVC_PROFILE_MAIN_10),
                    must_int("HevcColorBitDepth"@, COLOR_BIT_DEPTH_10),
                ]
            } else {
                Seq::empty()
            },
            _ => seq![
                may_int("Av1HeaderInsertionMode"@, AV1_HEADER_KEY_ALIGNED),
                counts("Av1AlignmentMode"@, AV1_ALIGNMENT_NO_RESTRICTIONS, Role::AlignFree),
            ] + (if self.height % 16 != 0 {
                seq![
                    counts("Av1AlignmentMode"@, AV1_ALIGNMENT_1080P_CODED_1082, Role::AlignPadded),
                ]
            } else {
                Seq::empty()
            }) + if self.ten_bit {
                seq![must_int("Av1ColorBitDepth"@, COLOR_BIT_DEPTH_10)]
            } else {
                Seq::empty()
            },
        }
    }

    /// Colour signalling: BT.2020 with the PQ curve for ten-bit streams, BT.709 for the others. A
    /// ten-bit stream without it would be mislabelled, so there it is required.
    pub open spec fn colour_steps(self, p: CodecProps) -> Seq<StepModel> {
        if self.ten_bit {
            seq![
                must_int(p.out_color_profile@, COLOR_PROFILE_2020),
                must_int(p.out_transfer@, TRANSFER_SMPTE2084),
                must_int(p.out_primaries@, PRIMARIES_BT2020),
            ]
        } else {
            seq![
                may_int(p.out_color_profile@, COLOR_PROFILE_709),
                may_int(p.out_transfer@, TRANSFER_BT709),
                may_int(p.out_primaries@, PRIMARIES_BT709),
            ]
        }
    }

    /// The whole static configuration, in order.
    pub open spec fn steps(self, p: CodecProps) -> Seq<StepModel> {
        self.base_steps(p) + self.recovery_steps(p) + self.codec_steps() + self.colour_steps(p)
    }
}

/// The content of a list of steps.
pub open spec fn models(steps: Seq<PropStep>) -> Seq<StepModel> {
    Seq::new(steps.len(), |i: int| steps[i]@)
}

proof fn lemma_models_push(steps: Seq<PropStep>, step: PropStep)
    ensures
        models(steps.push(step)) == models(steps).push(step@),
{
    assert(models(steps.push(step)) =~= models(steps).push(step@));
}

fn add_step(steps: &mut Vec<PropStep>, name: &'static str, value: AmfVariant, required: bool, role: Role)
    ensures
        models(final(steps)@) == models(old(steps)@).push(
            StepModel { name: name@, value: value@, required, role },
        ),
{
    let step = PropStep { name, value, required, role };
    proof {
        lemma_models_push(steps@, step);
    }
    steps.push(step);
}

fn div_up(a: u32, b: u32) -> (r: u32)
    requires
        b >= 1,
    ensures
        r == ceil_div(a as int, b as int),
{
    let wide: u64 = (a as u64 + b as u64 - 1) / (b as u64);
    assert(wide <= 0xffff_ffff) by (nonlinear_arith)
        requires
            wide == (a + b - 1) / (b as int),
            b >= 1,
            a <= 0xffff_ffff,
    ;
    wide as u32
}

/// Blocks each frame refreshes.
fn wave_blocks(width: u32, height: u32, block: u32, period: u32) -> (per: u32)
    requires
        block == 16 || block == 64,
        period >= 1,
        ceil_div(width as int, block as int) * ceil_div(height as int, block as int) <= u32::MAX,
    ensures
        per == blocks_per_frame(width, height, block, period),
{
    let across: u32 = div_up(width, block);
    let down: u32 = div_up(height, block);
    let blocks: u32 = across * down;
    let per: u32 = div_up(blocks, period);
    if per < 1 {
        1
    } else {
        per
    }
}

fn base_steps(steps: &mut Vec<PropStep>, p: &CodecProps, inp: &StaticInputs)
    requires
        old(steps)@.len() == 0,
    ensures
        models(final(steps)@) =~= inp.base_steps(*p),
{
    let bps: i64 = cap_bps(inp.bitrate_bps);
    let fps: u32 = if inp.fps == 0 {
        1
    } else {
        inp.fps
    };
    add_step(steps, p.usage, AmfVariant::from_i64(inp.usage), true, Role::Plain);
    add_step(steps, p.rc_method, AmfVariant::from_i64(p.rc_cbr), true, Role::Plain);
    add_step(steps, p.target_bitrate, AmfVariant::from_i64(bps), true, Role::Plain);
    add_step(steps, p.peak_bitrate, AmfVariant::from_i64(bps), true, Role::Plain);
    add_step(steps, p.framerate, AmfVariant::from_rate(fps, 1), true, Role::Plain);
    add_step(steps, p.vbv_size, AmfVariant::from_i64(inp.vbv_bits), false, Role::Plain);
    add_step(steps, p.enforce_hrd, AmfVariant::from_bool(true), false, Role::Plain);
    add_step(steps, p.filler_data, AmfVariant::from_bool(false), false, Role::Plain);
    add_step(steps, p.quality_preset, AmfVariant::from_i64(p.quality_speed), false, Role::Plain);
    add_step(steps, p.lowlatency, p.lowlatency_value.to_variant(), false, Role::Plain);
    add_step(steps, p.idr_period, AmfVariant::from_i64(p.idr_period_value), false, Role::Plain);
}

fn recovery_steps(steps: &mut Vec<PropStep>, p: &CodecProps, inp: &StaticInputs)
    requires
        inp.wf(),
        p.is_for(inp.codec),
    ensures
        models(final(steps)@) =~= models(old(steps)@) + inp.recovery_steps(*p),
{
    if inp.ltr_wanted {
        if let Some(ltr) = p.ltr {
            add_step(steps, ltr.max_num_ref_frames, AmfVariant::from_i64(2), false, Role::LtrRefs);
            add_step(steps, ltr.max_ltr_frames, AmfVariant::from_i64(2), false, Role::LtrSlots);
            return;
        }
    }
    if let Some((name, block)) = p.intra_refresh {
        if let Some(period) = inp.wave {
            let per: u32 = wave_blocks(inp.width, inp.height, block, period);
            add_step(steps, name, AmfVariant::from_i64(per as i64), false, Role::IntraRefresh);
        }
    }
}

fn codec_steps(steps: &mut Vec<PropStep>, inp: &StaticInputs)
    ensures
        models(final(steps)@) =~= models(old(steps)@) + inp.codec_steps(),
{
    match inp.codec {
        Codec::H264 => {
            add_step(steps, "BPicturesPattern", AmfVariant::from_i64(0), false, Role::Plain);
            add_step(steps, "FullRangeColor", AmfVariant::from_bool(false), false, Role::Plain);
        },
        Codec::H265 => {
            add_step(
                steps,
                "HevcHeaderInsertionMode",
                AmfVariant::from_i64(HEVC_HEADER_IDR_ALIGNED),
                false,
                Role::Plain,
            );
            add_step(steps, "HevcNominalRange", AmfVariant::from_i64(0), false, Role::Plain);
            if inp.ten_bit {
                add_step(
                    steps,
                    "HevcProfile",
                    AmfVariant::from_i64(HEVC_PROFILE_MAIN_10),
                    true,
                    Role::Plain,
                );
                add_step(
                    steps,
                    "HevcColorBitDepth",
                    AmfVariant::from_i64(COLOR_BIT_DEPTH_10),
                    true,
                    Role::Plain,
                );
            }
        },
        _ => {
            add_step(
                steps,
                "Av1HeaderInsertionMode",
                AmfVariant::from_i64(AV1_HEADER_KEY_ALIGNED),
                false,
                Role::Plain,
            );
            add_step(
                steps,
                "Av1AlignmentMode",
                AmfVariant::from_i64(AV1_ALIGNMENT_NO_RESTRICTIONS),
                false,
                Role::AlignFree,
            );
            if inp.height % 16 != 0 {
                add_step(
                    steps,
                    "Av1AlignmentMode",
                    AmfVariant::from_i64(AV1_ALIGNMENT_1080P_CODED_1082),
                    false,
                    Role::AlignPadded,
                );
            }
            if inp.ten_bit {
                add_step(
                    steps,
                    "Av1ColorBitDepth",
                    AmfVariant::from_i64(COLOR_BIT_DEPTH_10),
                    true,
                    Role::Plain,
                );
            }
        },
    }
}

fn colour_steps(steps: &mut Vec<PropStep>, p: &CodecProps, inp: &StaticInputs)
    ensures
        models(final(steps)@) =~= models(old(steps)@) + inp.colour_steps(*p),
{
    let (profile, transfer, primaries): (i64, i64, i64) = if inp.ten_bit {
        (COLOR_PROFILE_2020, TRANSFER_SMPTE2084, PRIMARIES_BT2020)
    } else {
        (COLOR_PROFILE_709, TRANSFER_BT709, PRIMARIES_BT709)
    };
    let must = inp.ten_bit;
    add_step(steps, p.out_color_profile, AmfVariant::from_i64(profile), must, Role::Plain);
    add_step(steps, p.out_transfer, AmfVariant::from_i64(transfer), must, Role::Plain);
    add_step(steps, p.out_primaries, AmfVariant::from_i64(primaries), must, Role::Plain);
}

/// A rate as a signed number.
pub fn cap_bps(bps: u64) -> (r: i64)
    ensures
        r == capped_bps(bps),
{
    if bps <= 0x7fff_ffff_ffff_ffff {
        bps as i64
    } else {
        0x7fff_ffff_ffff_ffff
    }
}

/// Lists the static configuration, in the order the properties are set.
pub fn apply_static_props(p: &CodecProps, inp: &StaticInputs) -> (steps: Vec<PropStep>)
    requires
        inp.wf(),
        p.is_for(inp.codec),
    ensures
        models(steps@) =~= inp.steps(*p),
{
    let mut steps: Vec<PropStep> = Vec::new();
    base_steps(&mut steps, p, inp);
    recovery_steps(&mut steps, p, inp);
    codec_steps(&mut steps, inp);
    colour_steps(&mut steps, p, inp);
    steps
}

/// Progress through the static configuration.
#[derive(Clone, Copy, Debug, PartialEq, Eq, Structural)]
pub struct PropRun {
    /// Steps done or passed over.
    pub done: usize,
    pub refs_ok: bool,
    pub slots_ok: bool,
    pub wave_ok: bool,
    pub exact_size_ok: bool,
}

/// How the run goes on.
#[derive(Clone, Copy, Debug, PartialEq, Eq, Structural)]
pub enum RunNext {
    /// Set the property of this step.
    Put(usize),
    /// All set. Tells whether the intra-refresh wave and the long-term slots run.
    Done { ir_active: bool, ltr_active: bool },
}

impl PropRun {
    pub open spec fn begin() -> PropRun {
        PropRun {
            done: 0,
            refs_ok: false,
            slots_ok: false,
            wave_ok: false,
            exact_size_ok: false,
        }
    }

    /// The first step from `done` on that is to be set.
    pub open spec fn first_due(self, steps: Seq<StepModel>, at: int) -> int
        decreases steps.len() - at,
    {
        if at < steps.len() && steps[at].role == Role::AlignPadded && self.exact_size_ok {
            self.first_due(steps, at + 1)
        } else {
            at
        }
    }

    /// The run once the step `at` was answered.
    pub open spec fn after(self, at: int, role: Role, accepted: bool) -> PropRun {
        PropRun {
            done: (at + 1) as usize,
            refs_ok: if role == Role::LtrRefs {
                accepted
            } else {
                self.refs_ok
            },
            slots_ok: if role == Role::LtrSlots {
                accepted
            } else {
                self.slots_ok
            },
            wave_ok: if role == Role::IntraRefresh {
                accepted
            } else {
                self.wave_ok
            },
            exact_size_ok: if role == Role::AlignFree {
                accepted
            } else {
                self.exact_size_ok
            },
        }
    }

    pub fn start() -> (r: PropRun)
        ensures
            r == Self::begin(),
    {
        PropRun {
            done: 0,
            refs_ok: false,
            slots_ok: false,
            wave_ok: false,
            exact_size_ok: false,
        }
    }

    /// The next property to set, or the result.
    pub fn next(&self, steps: &Vec<PropStep>) -> (n: RunNext)
        requires
            self.done <= steps@.len(),
        ensures
            ({
                let at = self.first_due(models(steps@), self.done as int);
                n == if at < steps@.len() {
                    RunNext::Put(at as usize)
                } else {
                    RunNext::Done {
                        ir_active: self.wave_ok,
                        ltr_active: self.refs_ok && self.slots_ok,
                    }
                }
            }),
    {
        let mut at: usize = self.done;
        let ghost all = models(steps@);
        while at < steps.len() && self.exact_size_ok && steps[at].role == Role::AlignPadded
            invariant
                self.done <= at <= steps@.len(),
                all == models(steps@),
                self.first_due(all, self.done as int) == self.first_due(all, at as int),
            decreases steps@.len() - at,
        {
            assert(all[at as int].role == steps@[at as int].role);
            at = at + 1;
        }
        if at < steps.len() {
            assert(all[at as int].role == steps@[at as int].role);
            RunNext::Put(at)
        } else {
            RunNext::Done { ir_active: self.wave_ok, ltr_active: self.refs_ok && self.slots_ok }
        }
    }

    /// Records the answer to step `at`. Returns whether the set-up goes on: a rejected step ends it
    /// where it is required.
    pub fn record(&mut self, steps: &Vec<PropStep>, at: usize, accepted: bool) -> (go_on: bool)
        requires
            at < steps@.len(),
        ensures
            *final(self) == old(self).after(at as int, steps@[at as int].role, accepted),
            go_on == (accepted || !steps@[at as int].required),
    {
        let step = steps[at];
        let run = *self;
        assert(at < steps.len());
        *self = PropRun {
            done: at + 1,
            refs_ok: if step.role == Role::LtrRefs {
                accepted
            } else {
                run.refs_ok
            },
            slots_ok: if step.role == Role::LtrSlots {
                accepted
            } else {
                run.slots_ok
            },
            wave_ok: if step.role == Role::IntraRefresh {
                accepted
            } else {
                run.wave_ok
            },
            exact_size_ok: if step.role == Role::AlignFree {
                accepted
            } else {
                run.exact_size_ok
            },
        };
        accepted || !step.required
    }
}

/// No static configuration asks for both the long-term slots and the intra-refresh wave.
pub proof fn law_recovery_features_exclude_each_other(
    inp: StaticInputs,
    p: CodecProps,
    i: int,
    j: int,
)
    requires
        0 <= i < inp.steps(p).len(),
        0 <= j < inp.steps(p).len(),
        inp.steps(p)[i].role == Role::IntraRefresh,
    ensures
        inp.steps(p)[j].role != Role::LtrRefs && inp.steps(p)[j].role != Role::LtrSlots,
{
    let a = inp.base_steps(p);
    let b = inp.recovery_steps(p);
    let c = inp.codec_steps();
    let d = inp.colour_steps(p);
    let all = inp.steps(p);
    assert(a.len() == 11);
    assert(forall|k: int| 0 <= k < a.len() ==> (#[trigger] a[k]).role == Role::Plain);
    assert(forall|k: int| 0 <= k < d.len() ==> (#[trigger] d[k]).role == Role::Plain);
    assert(forall|k: int|
        0 <= k < c.len() ==> {
            let r = (#[trigger] c[k]).role;
            r == Role::Plain || r == Role::AlignFree || r == Role::AlignPadded
        });
    assert(all == a + b + c + d);
    assert forall|k: int| 0 <= k < all.len() implies {
        let r = (#[trigger] all[k]).role;
        r == Role::Plain || r == Role::AlignFree || r == Role::AlignPadded || (a.len() <= k < a.len()
            + b.len() && all[k] == b[k - a.len()])
    } by {
        if k < a.len() {
            assert(all[k] == a[k]);
        } else if k < a.len() + b.len() {
            assert(all[k] == b[k - a.len()]);
        } else if k < a.len() + b.len() + c.len() {
            assert(all[k] == c[k - a.len() - b.len()]);
        } else {
            assert(all[k] == d[k - a.len() - b.len() - c.len()]);
        }
    }
}

/// A ten-bit configuration requires its colour signalling, and an eight-bit one never fails for it.
pub proof fn law_ten_bit_requires_its_colours(inp: StaticInputs, p: CodecProps, i: int)
    requires
        0 <= i < inp.colour_steps(p).len(),
    ensures
        inp.colour_steps(p).len() == 3,
        inp.colour_steps(p)[i].required == inp.ten_bit,
{
}

} // verus!

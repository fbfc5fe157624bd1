//! What holds of the libavcodec backend across its operations.
//!
//! The laws speak of what the executable functions return, for all inputs: a premise `call_ensures`
//! names a call, its arguments and its result.
use crate::ffmpeg_win::{
    amf_usage, copy_plane, mapped_len, open_win_encoder, parse_poll_spin_cap_us, pool_bind_flags,
    probe_can_encode, probe_can_encode_444, probe_stream, readback_route, readback_yuv,
    staging_outdated, submit_cpu, submit_d3d11, sws_src, vendor_opts, zerocopy_active, Colours,
    EncoderParams, FfmpegWinEncoder, FrameKind, FrameStep, InnerKind, PollOutcome, PollStep,
    ReadbackPlan, ReadbackRoute, StagingFormat, SwsMatrix, SwsPixel, WinError, WinVendor,
};
use crate::text::decimal;
use crate::types::{is_10bit_format, ChromaFormat, Codec, PixelFormat};
use vstd::prelude::*;

verus! {

/// A conversion reads the memory layout of its staging texture: blue, green, red, alpha in bytes, or
/// ten bits each from red up. A texture of two planes is not converted.
pub proof fn law_conversion_reads_its_staging_texture(
    format: PixelFormat,
    ten_bit: bool,
    plan: ReadbackPlan,
)
    requires
        call_ensures(submit_d3d11, (format, ten_bit), Ok(plan)),
    ensures
        plan.staging == StagingFormat::B8g8r8a8 <==> (plan.lane matches Some(lane) && lane.src
            == SwsPixel::Bgra),
        plan.staging == StagingFormat::R10g10b10a2 <==> (plan.lane matches Some(lane) && lane.src
            == SwsPixel::X2Bgr10),
        plan.staging == StagingFormat::Nv12
            || plan.staging == StagingFormat::P010 <==> plan.lane is None,
{
}

/// What is read back is what the encoder of that depth takes in: a conversion ends in its input layout
/// and in the matrix of the colours it signals, and what is not converted is in that layout already.
pub proof fn law_readback_ends_in_the_encoder_input(
    format: PixelFormat,
    ten_bit: bool,
    plan: ReadbackPlan,
    vendor: WinVendor,
    zero_copy: bool,
    params: EncoderParams,
)
    requires
        call_ensures(submit_d3d11, (format, ten_bit), Ok(plan)),
        call_ensures(open_win_encoder, (vendor, zero_copy, ten_bit), params),
    ensures
        params.sw_format == PixelFormat::P010 <==> ten_bit,
        params.sw_format == PixelFormat::Nv12 <==> !ten_bit,
        params.colours == Colours::Bt2020Pq <==> ten_bit,
        plan.lane matches Some(lane) ==> {
            &&& lane.dst == params.sw_format
            &&& lane.matrix == SwsMatrix::Bt2020 <==> params.colours == Colours::Bt2020Pq
            &&& lane.matrix == SwsMatrix::Itu709 <==> params.colours == Colours::Bt709
        },
        plan.lane is None ==> {
            &&& format == params.sw_format
            &&& plan.staging == StagingFormat::P010 <==> format == PixelFormat::P010
            &&& plan.staging == StagingFormat::Nv12 <==> format == PixelFormat::Nv12
        },
{
}

/// The staging texture has the layout of the captured one, whichever of two formats that differ in
/// their alpha byte alone it has.
pub proof fn law_staging_has_the_captured_layout(
    format: PixelFormat,
    ten_bit: bool,
    plan: ReadbackPlan,
)
    requires
        call_ensures(submit_d3d11, (format, ten_bit), Ok(plan)),
    ensures
        plan.staging == StagingFormat::Nv12 <==> format == PixelFormat::Nv12,
        plan.staging == StagingFormat::P010 <==> format == PixelFormat::P010,
        plan.staging == StagingFormat::B8g8r8a8 <==> format == PixelFormat::Bgra || format
            == PixelFormat::Bgrx,
        plan.staging == StagingFormat::R10g10b10a2 <==> format == PixelFormat::Rgb10a2,
{
}

/// A texture is refused for its depth exactly where that is not the encoder's, whatever else speaks
/// against it; both the route and the plan refuse the same textures with the same error.
pub proof fn law_depth_is_judged_first(
    format: PixelFormat,
    ten_bit: bool,
    deep: bool,
    route: Result<ReadbackRoute, WinError>,
    plan: Result<ReadbackPlan, WinError>,
)
    requires
        call_ensures(is_10bit_format, (format,), deep),
        call_ensures(readback_route, (format, ten_bit), route),
        call_ensures(submit_d3d11, (format, ten_bit), plan),
    ensures
        deep <==> format == PixelFormat::P010 || format == PixelFormat::Rgb10a2,
        deep != ten_bit <==> route == Err::<ReadbackRoute, WinError>(WinError::DepthChanged(format)),
        deep != ten_bit <==> plan == Err::<ReadbackPlan, WinError>(WinError::DepthChanged(format)),
        route is Ok <==> plan is Ok,
        route is Err ==> plan->Err_0 == route->Err_0,
        route is Err && deep == ten_bit ==> route->Err_0 == WinError::NoReadback(format),
        plan matches Ok(p) ==> {
            &&& route->Ok_0 == ReadbackRoute::Yuv <==> p.lane is None
            &&& route->Ok_0 == ReadbackRoute::Rgb10 ==> deep
            &&& route->Ok_0 == ReadbackRoute::Bgra ==> !deep
        },
{
}

/// A staging texture of the wanted format is kept, and only that one.
pub proof fn law_staging_is_kept_while_it_fits(
    have: Option<StagingFormat>,
    want: StagingFormat,
    outdated: bool,
)
    requires
        call_ensures(staging_outdated, (have, want), outdated),
    ensures
        !outdated <==> have == Some(want),
{
}

/// Zero-copy input hands textures over on the device they live on, system input as frames in memory.
/// Only the Intel encoder maps its input, and the overriding setting wins over the vendor's default.
pub proof fn law_input_frames_follow_vendor_and_way_in(
    vendor: WinVendor,
    zero_copy: bool,
    ten_bit: bool,
    params: EncoderParams,
    setting: Option<bool>,
    active: bool,
)
    requires
        call_ensures(open_win_encoder, (vendor, zero_copy, ten_bit), params),
        call_ensures(zerocopy_active, (setting, vendor), active),
    ensures
        params.frames == FrameKind::System <==> !zero_copy,
        params.frames == FrameKind::Qsv <==> zero_copy && vendor == WinVendor::Qsv,
        params.gop_size == 0x7fff_ffff,
        setting is Some ==> active == setting->0,
        setting is None ==> (active <==> vendor == WinVendor::Amf),
{
}

/// Two vendors' pools share no bind flag, and each pool has exactly two: render target and shader
/// resource, or decoder and video encoder.
pub proof fn law_pools_bind_what_their_encoder_reads(amf: u32, qsv: u32)
    requires
        call_ensures(pool_bind_flags, (WinVendor::Amf,), amf),
        call_ensures(pool_bind_flags, (WinVendor::Qsv,), qsv),
    ensures
        amf & qsv == 0,
        forall|bit: u32|
            bit < 32 ==> ((#[trigger] (amf >> bit)) & 1 == 1 <==> bit == 3 || bit == 5),
        forall|bit: u32|
            bit < 32 ==> ((#[trigger] (qsv >> bit)) & 1 == 1 <==> bit == 9 || bit == 10),
{
    assert(amf & qsv == 0 && (forall|bit: u32|
        bit < 32 ==> ((#[trigger] (amf >> bit)) & 1 == 1 <==> bit == 3 || bit == 5)) && (forall|
        bit: u32,
    |
        bit < 32 ==> ((#[trigger] (qsv >> bit)) & 1 == 1 <==> bit == 9 || bit == 10)))
        by (bit_vector)
        requires
            amf == 40,
            qsv == 1536,
    ;
}

/// A wait is given in whole milliseconds and never exceeds one second.
pub proof fn law_poll_waits_are_bounded(raw: Option<&str>, us: u64)
    requires
        call_ensures(parse_poll_spin_cap_us, (raw,), us),
    ensures
        us <= 1_000_000,
        us % 1000 == 0,
{
}

/// A copied plane holds the source's byte at every row and column, and nothing else of it changes.
pub proof fn law_planes_are_copied_byte_by_byte(
    src: &[u8],
    base: usize,
    pitch: usize,
    rows: usize,
    row_bytes: usize,
    dst: &mut [u8],
    stride: usize,
    row: int,
    col: int,
)
    requires
        call_ensures(copy_plane, (src, base, pitch, rows, row_bytes, dst, stride), ()),
        0 <= row,
        0 <= col < stride,
        row * stride + col < old(dst)@.len(),
    ensures
        final(dst)@.len() == old(dst)@.len(),
        row < rows && col < row_bytes ==> final(dst)@[row * stride + col] == src@[base + row * pitch
            + col],
        row >= rows || col >= row_bytes ==> final(dst)@[row * stride + col] == old(dst)@[row * stride
            + col],
{
    lemma_row_and_column(row, col, stride as int);
}

proof fn lemma_row_and_column(row: int, col: int, stride: int)
    requires
        0 <= row,
        0 <= col < stride,
    ensures
        (row * stride + col) / stride == row,
        (row * stride + col) % stride == col,
        0 <= row * stride + col,
{
    let i = row * stride + col;
    assert(row * stride >= 0) by (nonlinear_arith)
        requires
            row >= 0,
            stride > 0,
    ;
    vstd::arithmetic::div_mod::lemma_fundamental_div_mod_converse(i, stride, row, col);
}

/// A read-back keeps every sample: luma row by row from the start of the mapping, chroma behind the
/// last luma row. Ten-bit samples take two bytes, and an odd height has a chroma row for its last luma
/// row.
pub proof fn law_readback_keeps_every_sample(
    mapped: &[u8],
    pitch: usize,
    width: u32,
    height: u32,
    ten_bit: bool,
    y_dst: &mut [u8],
    y_stride: usize,
    uv_dst: &mut [u8],
    uv_stride: usize,
    row: int,
    col: int,
)
    requires
        call_ensures(
            readback_yuv,
            (mapped, pitch, width, height, ten_bit, y_dst, y_stride, uv_dst, uv_stride),
            (),
        ),
        0 <= row < height,
        0 <= col < width * (if ten_bit {
            2int
        } else {
            1
        }),
        col < y_stride,
        col < uv_stride,
        row * y_stride + col < old(y_dst)@.len(),
        row / 2 * uv_stride + col < old(uv_dst)@.len(),
    ensures
        final(y_dst)@[row * y_stride + col] == mapped@[row * pitch + col],
        final(uv_dst)@[row / 2 * uv_stride + col] == mapped@[(height + row / 2) * pitch + col],
{
    lemma_row_and_column(row, col, y_stride as int);
    lemma_row_and_column(row / 2, col, uv_stride as int);
    assert((height + row / 2) * pitch == pitch * height + row / 2 * pitch) by (nonlinear_arith);
}

/// A mapping is as long as its three half-height parts: for each two luma rows there is one of chroma.
pub proof fn law_mapping_holds_luma_and_chroma(pitch: u32, height: u32, len: usize)
    requires
        call_ensures(mapped_len, (pitch, height), len),
        len < usize::MAX,
    ensures
        2 * len == pitch * (3 * height + height % 2),
{
    let whole = height as int + (height as int + 1) / 2;
    assert(2 * whole == 3 * height + height % 2);
    assert(2 * (pitch * whole) == pitch * (2 * whole)) by (nonlinear_arith);
}

/// A frame in system memory is converted only where it holds all its rows, is of the encoder's own
/// format and has eight-bit samples; its rows are as long as its pixels.
pub proof fn law_system_frames_are_whole(
    own: PixelFormat,
    ten_bit: bool,
    width: u32,
    height: u32,
    format: PixelFormat,
    bytes_per_pixel: usize,
    len: usize,
    r: Result<(usize, SwsPixel), WinError>,
    layout: Result<SwsPixel, WinError>,
)
    requires
        width * bytes_per_pixel <= usize::MAX,
        width * bytes_per_pixel * height <= usize::MAX,
        call_ensures(
            submit_cpu,
            (own, ten_bit, width, height, format, bytes_per_pixel, len),
            r,
        ),
        call_ensures(sws_src, (format,), layout),
    ensures
        r is Ok <==> format == own && !ten_bit && height * (width * bytes_per_pixel) <= len
            && layout is Ok,
        r matches Ok(found) ==> found.0 == width * bytes_per_pixel && layout == Ok::<
            SwsPixel,
            WinError,
        >(found.1),
        layout is Ok <==> format == PixelFormat::Bgrx || format == PixelFormat::Rgbx || format
            == PixelFormat::Bgra || format == PixelFormat::Rgba || format == PixelFormat::Rgb || format
            == PixelFormat::Bgr,
        r matches Err(e) ==> {
            &&& format != own <==> e == (WinError::FormatMismatch { expected: own, delivered: format })
            &&& e == WinError::EightBitOnly <==> format == own && ten_bit
            &&& e is ShortFrame ==> e == (WinError::ShortFrame { len }) && len < height * (width
                * bytes_per_pixel)
        },
{
    assert(height * (width * bytes_per_pixel) == width * bytes_per_pixel * height)
        by (nonlinear_arith);
}

/// Different formats are converted from different layouts.
pub proof fn law_source_layouts_are_told_apart(
    a: PixelFormat,
    b: PixelFormat,
    from_a: SwsPixel,
    from_b: SwsPixel,
)
    requires
        call_ensures(sws_src, (a,), Ok(from_a)),
        call_ensures(sws_src, (b,), Ok(from_b)),
    ensures
        from_a == from_b <==> a == b,
{
}

/// An opened encoder encodes what it was opened for, has no way in yet and owes nothing.
pub proof fn law_an_opened_encoder_is_the_wanted_one(
    init_ok: bool,
    found: bool,
    vendor: WinVendor,
    codec: Codec,
    format: PixelFormat,
    width: u32,
    height: u32,
    fps: u32,
    bitrate_bps: u64,
    depth: u8,
    chroma: ChromaFormat,
    r: Result<FfmpegWinEncoder, WinError>,
)
    requires
        call_ensures(
            FfmpegWinEncoder::open,
            (
                init_ok,
                found,
                vendor,
                codec,
                format,
                width,
                height,
                fps,
                bitrate_bps,
                depth,
                chroma,
            ),
            r,
        ),
    ensures
        r is Ok <==> init_ok && found,
        r matches Err(e) ==> (e == WinError::Init <==> !init_ok) && (e == WinError::NoEncoder
            <==> init_ok && !found),
        r matches Ok(enc) ==> {
            &&& enc.cfg.vendor == vendor && enc.cfg.codec == codec && enc.cfg.format == format
            &&& enc.cfg.width == width && enc.cfg.height == height
            &&& enc.cfg.fps == fps && enc.cfg.bitrate_bps == bitrate_bps
            &&& enc.inner is None && enc.in_flight == 0 && enc.frame_idx == 0 && !enc.force_kf
        },
{
}

/// Of two frames submitted in a row the second comes one tick after the first, and a keyframe request
/// is used up by the first. A frame of another size changes nothing.
pub proof fn law_frames_count_up_and_use_up_the_request(
    first: &mut FfmpegWinEncoder,
    second: &mut FfmpegWinEncoder,
    w1: u32,
    h1: u32,
    w2: u32,
    h2: u32,
    r1: Result<(i64, bool), WinError>,
    r2: Result<(i64, bool), WinError>,
)
    requires
        call_ensures(FfmpegWinEncoder::submit, (first, w1, h1), r1),
        call_ensures(FfmpegWinEncoder::submit, (second, w2, h2), r2),
    ensures
        r1 is Ok <==> w1 == old(first).cfg.width && h1 == old(first).cfg.height,
        r1 is Err ==> *final(first) == *old(first),
        r1 is Ok ==> r1->Ok_0.1 == old(first).force_kf,
        *old(second) == *final(first) && r1 is Ok && r2 is Ok ==> r2->Ok_0.0 == r1->Ok_0.0 + 1
            && !r2->Ok_0.1,
        *old(second) == *final(first) && r1 is Err && r2 is Ok ==> r2->Ok_0 == (
            old(first).frame_idx,
            old(first).force_kf,
        ),
{
}

/// After a reset, and after a request, the next frame that fits is a keyframe; a reset also leaves no
/// way in and nothing owed, and the frames go on counting.
pub proof fn law_a_reset_is_followed_by_a_keyframe(
    enc: &mut FfmpegWinEncoder,
    asked: &mut FfmpegWinEncoder,
    next: &mut FfmpegWinEncoder,
    reset_ok: bool,
    w: u32,
    h: u32,
    r: Result<(i64, bool), WinError>,
)
    requires
        call_ensures(FfmpegWinEncoder::reset, (enc,), reset_ok),
        call_ensures(FfmpegWinEncoder::request_keyframe, (asked,), ()),
        call_ensures(FfmpegWinEncoder::submit, (next, w, h), r),
    ensures
        reset_ok,
        final(enc).inner is None && final(enc).in_flight == 0,
        final(enc).cfg == old(enc).cfg && final(enc).frame_idx == old(enc).frame_idx,
        *old(next) == *final(enc) && r is Ok ==> r->Ok_0 == (old(enc).frame_idx, true),
        *old(next) == *final(asked) && r is Ok ==> r->Ok_0 == (old(asked).frame_idx, true),
        final(asked).inner == old(asked).inner && final(asked).in_flight == old(asked).in_flight,
{
}

/// A way in serves one device: a texture of another has it built anew, and once it is built the same
/// device's textures need no building. Textures go in uncopied only through zero-copy input, and only
/// in the layout of the encoder's input; system input takes them all.
pub proof fn law_a_way_in_serves_one_device(
    first: &mut FfmpegWinEncoder,
    made: &mut FfmpegWinEncoder,
    second: &mut FfmpegWinEncoder,
    kind: InnerKind,
    device: u64,
    format: PixelFormat,
    again: PixelFormat,
    setting: Option<bool>,
    s1: FrameStep,
    s2: FrameStep,
)
    requires
        call_ensures(FfmpegWinEncoder::step_d3d11, (first, device, format, setting), s1),
        call_ensures(FfmpegWinEncoder::built, (made, kind), ()),
        call_ensures(FfmpegWinEncoder::step_d3d11, (second, device, again, setting), s2),
    ensures
        s1 is Build <==> old(first).inner is None || old(first).bound_device != device,
        s1 is Build ==> final(first).inner is None,
        s1 matches FrameStep::Build { zero_copy } && setting is Some ==> s1->zero_copy == setting->0,
        s1 == FrameStep::System <==> old(first).inner == Some(InnerKind::System)
            && old(first).bound_device == device,
        s1 == FrameStep::ZeroCopy ==> old(first).inner == Some(InnerKind::ZeroCopy),
        *old(made) == *final(first) && *old(second) == *final(made) ==> {
            &&& s2 !is Build
            &&& s2 == FrameStep::System <==> kind == InnerKind::System
            &&& kind == InnerKind::ZeroCopy
                ==> (s2 == FrameStep::ZeroCopy <==> again == (if old(first).cfg.format
                == PixelFormat::P010 || old(first).cfg.format == PixelFormat::Rgb10a2 {
                PixelFormat::P010
            } else {
                PixelFormat::Nv12
            }))
        },
        final(first).cfg == old(first).cfg && final(first).in_flight == old(first).in_flight,
{
}

/// A frame in system memory goes in through system input, has it built where there is no way in, and
/// is refused by zero-copy input. A way in that cannot be built falls back to system input once.
pub proof fn law_system_frames_need_system_input(
    enc: FfmpegWinEncoder,
    s: Result<FrameStep, WinError>,
    zero_copy: bool,
    kind: InnerKind,
    next: Option<InnerKind>,
    after: Option<InnerKind>,
)
    requires
        call_ensures(FfmpegWinEncoder::step_cpu, (&enc,), s),
        call_ensures(InnerKind::first, (zero_copy,), kind),
        call_ensures(InnerKind::fallback, (kind,), next),
        next is Some ==> call_ensures(InnerKind::fallback, (next->0,), after),
    ensures
        s is Err <==> enc.inner == Some(InnerKind::ZeroCopy),
        s is Err ==> s->Err_0 == WinError::CpuFrame,
        s == Ok::<FrameStep, WinError>(FrameStep::System) <==> enc.inner == Some(InnerKind::System),
        s == Ok::<FrameStep, WinError>(FrameStep::SwitchToSystem) <==> enc.inner is None,
        kind == InnerKind::ZeroCopy <==> zero_copy,
        zero_copy ==> next == Some(InnerKind::System) && after is None,
        !zero_copy ==> next is None,
{
}

/// What is owed goes up by one for each frame sent and down by one for each packet; the end of the
/// stream settles everything, and a query without output settles nothing. A poll waits only while it
/// has budget left, and has none where nothing is owed.
pub proof fn law_units_settle_what_is_owed(
    sent: &mut FfmpegWinEncoder,
    polled: &mut FfmpegWinEncoder,
    took: bool,
    outcome: PollOutcome,
    spent: bool,
    s: PollStep,
    cap: u64,
    budget: u64,
)
    requires
        call_ensures(FfmpegWinEncoder::finish_submit, (sent, took), ()),
        call_ensures(FfmpegWinEncoder::poll, (polled, outcome, spent), s),
        call_ensures(FfmpegWinEncoder::poll_budget_us, (&*old(polled), cap), budget),
    ensures
        final(sent).in_flight - old(sent).in_flight == (if took {
            1int
        } else {
            0
        }),
        *old(polled) == *final(sent) && took && outcome is Packet ==> *final(polled) == *old(sent),
        outcome matches PollOutcome::Packet(au) ==> s == PollStep::Unit(au),
        outcome is Packet && old(polled).in_flight > 0 ==> final(polled).in_flight
            == old(polled).in_flight - 1,
        outcome is Eof ==> s is Nothing && final(polled).in_flight == 0,
        outcome is Again ==> final(polled).in_flight == old(polled).in_flight,
        s is Wait <==> outcome is Again && !spent,
        s is Unit <==> outcome is Packet,
        old(polled).in_flight == 0 ==> budget == 0,
        old(polled).in_flight > 0 ==> budget == cap,
{
}

/// A wait set in milliseconds is that many thousand microseconds, up to a second; where none is set a
/// poll does not wait.
pub proof fn law_a_poll_waits_as_set(raw: &str, ms: nat, us: u64, unset: u64)
    requires
        raw@ == decimal(ms),
        ms <= u64::MAX,
        call_ensures(parse_poll_spin_cap_us, (Some(raw),), us),
        call_ensures(parse_poll_spin_cap_us, (None,), unset),
    ensures
        unset == 0,
        ms <= 1000 ==> us == 1000 * ms,
        ms > 1000 ==> us == 1_000_000,
{
    crate::text::law_decimal_notation_reads_as_its_number(ms);
}

/// An encoder's name is that of its codec, an underscore and that of its vendor.
pub proof fn law_encoders_are_named_by_codec_and_vendor(
    vendor: WinVendor,
    codec: Codec,
    name: &str,
    label: &str,
)
    requires
        codec != Codec::PyroWave,
        call_ensures(WinVendor::encoder_name, (vendor, codec), name),
        call_ensures(WinVendor::label, (vendor,), label),
    ensures
        codec == Codec::H264 ==> "h264_"@.is_prefix_of(name@) && name@.len() == 8,
        codec == Codec::H265 ==> "hevc_"@.is_prefix_of(name@) && name@.len() == 8,
        codec == Codec::Av1 ==> "av1_"@.is_prefix_of(name@) && name@.len() == 7,
        vendor == WinVendor::Amf ==> name@.skip(name@.len() - 3) == "amf"@ && label@ == "AMF"@,
        vendor == WinVendor::Qsv ==> name@.skip(name@.len() - 3) == "qsv"@ && label@ == "QSV"@,
{
    reveal_strlit("h264_");
    reveal_strlit("hevc_");
    reveal_strlit("av1_");
    reveal_strlit("amf");
    reveal_strlit("qsv");
    reveal_strlit("h264_amf");
    reveal_strlit("hevc_amf");
    reveal_strlit("av1_amf");
    reveal_strlit("h264_qsv");
    reveal_strlit("hevc_qsv");
    reveal_strlit("av1_qsv");
    match vendor {
        WinVendor::Amf => {
            assert(name@.skip(name@.len() - 3) =~= "amf"@);
        },
        WinVendor::Qsv => {
            assert(name@.skip(name@.len() - 3) =~= "qsv"@);
        },
    }
}

/// The options hold the entry `name` with the value `value`.
pub open spec fn sets_option(
    opts: Seq<(&'static str, String)>,
    name: Seq<char>,
    value: Seq<char>,
) -> bool {
    exists|i: int| 0 <= i < opts.len() && (#[trigger] opts[i]).0@ == name && opts[i].1@ == value
}

/// Both vendors are set up for one frame in, one unit out: no reordering, no look-ahead and no
/// pre-analysis. AMF runs at a constant rate under the preset that was asked for.
pub proof fn law_options_trade_quality_for_latency(
    usage: &str,
    amf: Vec<(&'static str, String)>,
    qsv: Vec<(&'static str, String)>,
)
    requires
        call_ensures(vendor_opts, (WinVendor::Amf, usage), amf),
        call_ensures(vendor_opts, (WinVendor::Qsv, usage), qsv),
    ensures
        amf@.len() == 8 && qsv@.len() == 6,
        sets_option(amf@, "usage"@, usage@),
        sets_option(amf@, "rc"@, "cbr"@) && sets_option(amf@, "enforce_hrd"@, "true"@),
        sets_option(amf@, "quality"@, "speed"@) && sets_option(amf@, "preanalysis"@, "false"@),
        sets_option(amf@, "latency"@, "true"@) && sets_option(amf@, "bf"@, "0"@),
        sets_option(amf@, "header_insertion_mode"@, "idr"@),
        sets_option(qsv@, "preset"@, "veryfast"@) && sets_option(qsv@, "async_depth"@, "1"@),
        sets_option(qsv@, "low_power"@, "1"@) && sets_option(qsv@, "look_ahead"@, "0"@),
        sets_option(qsv@, "forced_idr"@, "1"@) && sets_option(
            qsv@,
            "scenario"@,
            "displayremoting"@,
        ),
{
    let a = crate::ffmpeg_win::option_views(amf@);
    let q = crate::ffmpeg_win::option_views(qsv@);
    assert(a.len() == 8 && q.len() == 6);
    assert forall|i: int| 0 <= i < 8 implies #[trigger] a[i] == (amf@[i].0@, amf@[i].1@) by {}
    assert forall|i: int| 0 <= i < 6 implies #[trigger] q[i] == (qsv@[i].0@, qsv@[i].1@) by {}
    assert(a[0].0 == "usage"@ && a[1].0 == "rc"@ && a[2].0 == "quality"@ && a[3].0 == "preanalysis"@);
    assert(a[4].0 == "enforce_hrd"@ && a[5].0 == "latency"@ && a[6].0 == "bf"@ && a[7].0
        == "header_insertion_mode"@);
    assert(q[0].0 == "preset"@ && q[1].0 == "async_depth"@ && q[2].0 == "low_power"@);
    assert(q[3].0 == "look_ahead"@ && q[4].0 == "forced_idr"@ && q[5].0 == "scenario"@);
}

/// The preset is the one that is set, and the ultra-low-latency one where none is; a trial stream is
/// small, and an encoder's input has the depth of its pixels.
pub proof fn law_presets_and_trials(
    raw: &str,
    set: &str,
    unset: &str,
    trial: (u32, u32, u32, u64),
    enc: FfmpegWinEncoder,
    deep: bool,
)
    requires
        call_ensures(amf_usage, (Some(raw),), set),
        call_ensures(amf_usage, (None,), unset),
        call_ensures(probe_stream, (), trial),
        call_ensures(FfmpegWinEncoder::input_is_ten_bit, (&enc,), deep),
    ensures
        set@ == raw@,
        unset@ == "ultralowlatency"@,
        trial.0 == 640 && trial.1 == 480 && trial.2 == 30 && trial.3 == 2_000_000,
        deep <==> enc.cfg.format == PixelFormat::P010 || enc.cfg.format == PixelFormat::Rgb10a2,
{
}

/// A read-back writes the picture and nothing else: bytes behind the end of a row, behind the last luma
/// row and behind the last chroma row, of which there is one for each two luma rows, stay as they are.
pub proof fn law_readback_writes_the_picture_only(
    mapped: &[u8],
    pitch: usize,
    width: u32,
    height: u32,
    ten_bit: bool,
    y_dst: &mut [u8],
    y_stride: usize,
    uv_dst: &mut [u8],
    uv_stride: usize,
    row: int,
    col: int,
)
    requires
        call_ensures(
            readback_yuv,
            (mapped, pitch, width, height, ten_bit, y_dst, y_stride, uv_dst, uv_stride),
            (),
        ),
        0 <= row,
        0 <= col < y_stride,
        col < uv_stride,
    ensures
        final(y_dst)@.len() == old(y_dst)@.len() && final(uv_dst)@.len() == old(uv_dst)@.len(),
        ({
            let outside = col >= width * (if ten_bit {
                2int
            } else {
                1
            });
            &&& row * y_stride + col < old(y_dst)@.len() && (row >= height || outside)
                ==> final(y_dst)@[row * y_stride + col] == old(y_dst)@[row * y_stride + col]
            &&& row * uv_stride + col < old(uv_dst)@.len() && (2 * row >= height || outside)
                ==> final(uv_dst)@[row * uv_stride + col] == old(uv_dst)@[row * uv_stride + col]
        }),
{
    lemma_row_and_column(row, col, y_stride as int);
    lemma_row_and_column(row, col, uv_stride as int);
}

/// A texture can be read back exactly where it has the encoder's depth and one of five layouts; a probe
/// finds a codec only where the library runs and its encoder opens.
pub proof fn law_five_layouts_are_read_back(
    format: PixelFormat,
    ten_bit: bool,
    plan: Result<ReadbackPlan, WinError>,
    init_ok: bool,
    open_ok: bool,
    can: bool,
    vendor: WinVendor,
    codec: Codec,
    full: bool,
)
    requires
        call_ensures(submit_d3d11, (format, ten_bit), plan),
        call_ensures(probe_can_encode, (init_ok, open_ok), can),
        call_ensures(probe_can_encode_444, (vendor, codec), full),
    ensures
        plan is Ok <==> if ten_bit {
            format == PixelFormat::P010 || format == PixelFormat::Rgb10a2
        } else {
            format == PixelFormat::Nv12 || format == PixelFormat::Bgra || format == PixelFormat::Bgrx
        },
        can <==> init_ok && open_ok,
        !full,
{
}

/// A packet that nothing is owed for leaves nothing owed.
pub proof fn law_nothing_owed_stays_nothing(
    enc: &mut FfmpegWinEncoder,
    outcome: PollOutcome,
    spent: bool,
    s: PollStep,
)
    requires
        old(enc).in_flight == 0,
        call_ensures(FfmpegWinEncoder::poll, (enc, outcome, spent), s),
    ensures
        final(enc).in_flight == 0,
        final(enc).cfg == old(enc).cfg && final(enc).inner == old(enc).inner && final(enc).frame_idx
            == old(enc).frame_idx && final(enc).force_kf == old(enc).force_kf,
{
}

/// Every operation leaves alone what it is not about; none changes the configuration.
pub proof fn law_operations_leave_the_rest_alone(
    enc: &mut FfmpegWinEncoder,
    op: int,
    width: u32,
    height: u32,
    device: u64,
    format: PixelFormat,
    zerocopy: Option<bool>,
    kind: InnerKind,
    flag: bool,
    outcome: PollOutcome,
    r: Result<(i64, bool), WinError>,
    step: FrameStep,
    ok: bool,
    s: PollStep,
)
    requires
        0 <= op <= 6,
        op == 0 ==> call_ensures(FfmpegWinEncoder::submit, (enc, width, height), r),
        op == 1 ==> call_ensures(FfmpegWinEncoder::step_d3d11, (enc, device, format, zerocopy), step),
        op == 2 ==> call_ensures(FfmpegWinEncoder::built, (enc, kind), ()),
        op == 3 ==> call_ensures(FfmpegWinEncoder::finish_submit, (enc, flag), ()),
        op == 4 ==> call_ensures(FfmpegWinEncoder::request_keyframe, (enc,), ()),
        op == 5 ==> call_ensures(FfmpegWinEncoder::reset, (enc,), ok),
        op == 6 ==> call_ensures(FfmpegWinEncoder::poll, (enc, outcome, flag), s),
    ensures
        final(enc).cfg == old(enc).cfg,
        op != 0 ==> final(enc).frame_idx == old(enc).frame_idx,
        op != 0 && op != 4 && op != 5 ==> final(enc).force_kf == old(enc).force_kf,
        op != 3 && op != 5 && op != 6 ==> final(enc).in_flight == old(enc).in_flight,
        op != 1 && op != 2 && op != 5 ==> final(enc).inner == old(enc).inner,
        op != 1 && op != 5 ==> final(enc).bound_device == old(enc).bound_device,
        op == 2 ==> final(enc).inner == Some(kind),
        op == 5 ==> final(enc).bound_device == 0,
{
}

} // verus!

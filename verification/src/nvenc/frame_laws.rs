//! What holds of the NVENC encoder from frame to frame, and of the session budget.
//!
//! The laws speak of what the executable functions return and do, for all inputs: a premise
//! `call_ensures` names a call, its arguments and its result.
use crate::nvenc::budget::{
    can_open_another_session, session_cap, split_mode_units, units_of, DestroyOutcome,
    ParkedSession, SessionBudget,
};
use crate::nvenc::open_search::{OpenOutcome, OpenSearch};
use crate::nvenc::submit::{FrameEvent, FrameIn, SetupEvent, SubmitAction, SubmitPhase, SubmitStep};
use crate::nvenc::{
    async_inflight_cap, async_retrieve_requested, check_api_version, check_delivered, join_luid,
    probe_can_encode_10bit, probe_can_encode_444, probe_codec_support, Absorbed, BufferFormat,
    CeilingKey, ChunkStep, ChunkVerdict, EncodeCapabilities, LowLatencyConfig, NvencD3d11Encoder,
    NvencError, PendingFrame, PicturePlan, PollStep, RangePlan, ReconfigurePlan, RetrieveDone,
    RetrieveJob, RetrieveLatch,
};
use crate::text::{decimal, trimmed};
use crate::types::{
    AuChunk, ChromaFormat, Codec, CodecSupport, EncodedFrame, EncoderCaps, HdrMeta, PayloadKind,
    PixelFormat,
};
use vstd::prelude::*;

verus! {

/// A driver's version word is its major number above four bits of its minor one; it is accepted exactly
/// where it is not older than the headers.
pub proof fn law_drivers_are_not_older_than_the_headers(
    version: u32,
    major: u32,
    minor: u32,
    r: Result<(u32, u32), NvencError>,
)
    requires
        call_ensures(check_api_version, (version, major, minor), r),
    ensures
        r matches Ok(v) ==> v.0 * 16 + v.1 == version && v.1 < 16 && (v.0 > major || (v.0 == major
            && v.1 >= minor)),
        r matches Err(e) ==> (e matches NvencError::DriverTooOld { major: have, minor: have_minor } && {
            &&& have * 16 + have_minor == version && have_minor < 16
            &&& have < major || (have == major && have_minor < minor)
        }),
{
}

/// Between two and seven frames may be in flight on the two-thread path, four where nothing is set.
pub proof fn law_flight_settings_are_bounded(raw: Option<&str>, cap: usize, unset: usize)
    requires
        call_ensures(async_inflight_cap, (raw,), cap),
        call_ensures(async_inflight_cap, (None,), unset),
    ensures
        2 <= cap <= 7,
        unset == 4,
{
}

/// The retrieve thread waits five seconds for a completion, and a twentieth of that after one was
/// missed, until the next one comes.
pub proof fn law_a_missed_completion_shortens_the_wait(
    fresh: RetrieveLatch,
    latch: &mut RetrieveLatch,
    came: bool,
    first: u32,
    next: u32,
)
    requires
        call_ensures(RetrieveLatch::new, (), fresh),
        call_ensures(RetrieveLatch::wait_ms, (&fresh,), first),
        call_ensures(RetrieveLatch::observe, (latch, came), ()),
        call_ensures(RetrieveLatch::wait_ms, (&*final(latch),), next),
    ensures
        first == 5000,
        came ==> next == first,
        !came ==> 20 * next == first,
{
}

/// An opened encoder encodes what it was opened for, and full chroma only for HEVC that was asked for
/// it.
pub proof fn law_an_opened_encoder_is_the_wanted_one(
    api: bool,
    codec: Codec,
    format: PixelFormat,
    width: u32,
    height: u32,
    fps: u32,
    bitrate_bps: u64,
    depth: u8,
    chroma: ChromaFormat,
    max_slices: u32,
    r: Result<NvencD3d11Encoder, NvencError>,
)
    requires
        call_ensures(
            NvencD3d11Encoder::open,
            (api, codec, format, width, height, fps, bitrate_bps, depth, chroma, max_slices),
            r,
        ),
    ensures
        r is Ok <==> api,
        r is Err ==> r->Err_0 == NvencError::ApiUnavailable,
        r matches Ok(enc) ==> {
            &&& enc.wf()
            &&& enc.cfg.codec == codec && enc.cfg.width == width && enc.cfg.height == height
            &&& enc.cfg.fps == fps && enc.cfg.bitrate_bps == bitrate_bps && enc.cfg.bit_depth == depth
            &&& enc.cfg.chroma_444 <==> codec == Codec::H265 && chroma == ChromaFormat::Yuv444
            &&& enc.cfg.max_slices >= 1 && (max_slices >= 1 ==> enc.cfg.max_slices == max_slices)
            &&& enc.cfg.slices == 1 && !enc.cfg.rfi_supported && enc.cfg.hdr_meta is None
            &&& enc.ses.encoder == 0 && enc.pending@.len() == 0 && enc.ready@.len() == 0
            &&& enc.flow.frame_idx == 0 && !enc.flow.force_kf
            &&& !enc.ses.inited && !enc.ses.async_on && enc.ses.init_device == 0 && enc.ses.next == 0
            &&& enc.ses.session_units == 0 && enc.ses.last_rfi_range is None
                && !enc.ses.pending_anchor && enc.flow.input_ring_depth is None
        },
{
}

/// A frame larger than what the adapter encodes is refused, and only that; depth, full chroma and HDR
/// are given up where the adapter has no such thing, and never gained.
pub proof fn law_the_adapter_bounds_the_session(
    enc: &mut NvencD3d11Encoder,
    caps: EncodeCapabilities,
    r: Result<(), NvencError>,
)
    requires
        old(enc).wf(),
        old(enc).cfg.width <= i32::MAX,
        old(enc).cfg.height <= i32::MAX,
        call_ensures(NvencD3d11Encoder::query_caps, (enc, caps), r),
    ensures
        r is Err <==> caps.wmax > 0 && caps.hmax > 0 && (old(enc).cfg.width > caps.wmax
            || old(enc).cfg.height > caps.hmax),
        r is Err ==> r->Err_0 == (NvencError::SizeUnsupported { wmax: caps.wmax, hmax: caps.hmax })
            && final(enc).cfg == old(enc).cfg,
        r is Ok ==> {
            let before = old(enc).cfg;
            let after = final(enc).cfg;
            &&& caps.ten_bit == 0 && before.bit_depth >= 10 ==> after.bit_depth == 8 && !after.hdr
                && after.hdr_unsupported
            &&& caps.ten_bit != 0 || before.bit_depth < 10 ==> after.bit_depth == before.bit_depth
                && after.hdr == before.hdr && after.hdr_unsupported == before.hdr_unsupported
            &&& after.chroma_444 <==> before.chroma_444 && caps.yuv444 != 0
            &&& after.rfi_supported <==> caps.rfi != 0
            &&& after.custom_vbv <==> caps.custom_vbv != 0
            &&& after.async_supported <==> caps.async_encode != 0
            &&& after.subframe_cap <==> caps.subframe != 0
            &&& after.bitrate_bps == before.bitrate_bps && after.width == before.width && after.height
                == before.height && after.codec == before.codec && after.fps == before.fps
        },
{
}

/// The driver is configured with the asked rate and the session's own stream: full chroma input where
/// frames arrive as RGB, two more bits of AV1 input where they arrive with ten.
pub proof fn law_the_driver_is_configured_as_the_session(
    enc: NvencD3d11Encoder,
    bitrate: u64,
    c: LowLatencyConfig,
)
    requires
        call_ensures(NvencD3d11Encoder::build_config, (&enc, bitrate), c),
    ensures
        c.bitrate == bitrate,
        c.codec == enc.cfg.codec && c.fps == enc.cfg.fps && c.bit_depth == enc.cfg.bit_depth,
        c.hdr == enc.cfg.hdr && c.chroma_444 == enc.cfg.chroma_444 && c.slices == enc.cfg.slices,
        c.custom_vbv == enc.cfg.custom_vbv && c.rfi_supported == enc.cfg.rfi_supported,
        c.full_chroma_input <==> enc.cfg.buffer_fmt == BufferFormat::Argb || enc.cfg.buffer_fmt
            == BufferFormat::Abgr10,
        8 + c.av1_input_depth_minus8 == (if enc.cfg.buffer_fmt == BufferFormat::Abgr10
            || enc.cfg.buffer_fmt == BufferFormat::Yuv420TenBit {
            10int
        } else {
            8
        }),
{
}

/// A found ceiling is remembered for its own configuration alone: two sessions share a key only where
/// adapter, codec, size, rate, depth, chroma and split mode all agree.
pub proof fn law_ceilings_are_kept_apart(
    a: NvencD3d11Encoder,
    b: NvencD3d11Encoder,
    luid_a: (u32, u32),
    luid_b: (u32, u32),
    split_a: u32,
    split_b: u32,
    ka: CeilingKey,
    kb: CeilingKey,
    joined: u64,
)
    requires
        call_ensures(NvencD3d11Encoder::ceiling_key, (&a, Some(luid_a), split_a), ka),
        call_ensures(NvencD3d11Encoder::ceiling_key, (&b, Some(luid_b), split_b), kb),
        call_ensures(join_luid, luid_a, joined),
    ensures
        ka == kb <==> luid_a == luid_b && split_a == split_b && a.cfg.codec == b.cfg.codec
            && a.cfg.width == b.cfg.width && a.cfg.height == b.cfg.height && a.cfg.fps == b.cfg.fps
            && a.cfg.bit_depth == b.cfg.bit_depth && a.cfg.chroma_444 == b.cfg.chroma_444,
        ka.gpu == joined,
        joined / 0x1_0000_0000 == luid_a.0 && joined % 0x1_0000_0000 == luid_a.1,
{
}

/// The pixel rate is that of all frames of a second, and a session asks for between one and four slices
/// as far as its client takes them.
pub proof fn law_rates_and_slices_follow_the_client(enc: NvencD3d11Encoder, rate: u64, n: u32)
    requires
        enc.cfg.fps >= 1,
        call_ensures(NvencD3d11Encoder::pixel_rate, (&enc,), rate),
        call_ensures(NvencD3d11Encoder::slice_budget, (&enc,), n),
    ensures
        rate == enc.cfg.width * enc.cfg.height * enc.cfg.fps,
        n <= 4 && n <= enc.cfg.max_slices,
        n == 4 || n == enc.cfg.max_slices,
{
}

/// A session adopts the first frame's size, layout and depth; a frame like it needs no other session,
/// and one of another size, device or depth does. Full chroma is kept only where the layout has it.
pub proof fn law_a_session_fits_the_frame_it_adopted(
    enc: &mut NvencD3d11Encoder,
    width: u32,
    height: u32,
    format: PixelFormat,
    later: NvencD3d11Encoder,
    device: u64,
    w2: u32,
    h2: u32,
    f2: PixelFormat,
    again: bool,
)
    requires
        old(enc).wf(),
        call_ensures(NvencD3d11Encoder::adopt_frame, (enc, width, height, format), ()),
        later.cfg == final(enc).cfg,
        later.ses.inited,
        call_ensures(NvencD3d11Encoder::needs_reinit, (&later, device, w2, h2, f2), again),
    ensures
        ({
            let deep = format == PixelFormat::P010 || format == PixelFormat::Rgb10a2;
            let deep2 = f2 == PixelFormat::P010 || f2 == PixelFormat::Rgb10a2;
            let cfg = final(enc).cfg;
            &&& again <==> later.ses.init_device != device || w2 != width || h2 != height || deep
                != deep2
            &&& cfg.width == width && cfg.height == height
            &&& cfg.hdr == deep && cfg.hdr_requested == deep
            &&& deep ==> cfg.bit_depth == 10
            &&& format == PixelFormat::Nv12 ==> cfg.bit_depth == 8
            &&& !deep && format != PixelFormat::Nv12 ==> cfg.bit_depth == old(enc).cfg.bit_depth
            &&& cfg.buffer_fmt == BufferFormat::Nv12 <==> format == PixelFormat::Nv12
            &&& cfg.buffer_fmt == BufferFormat::Yuv420TenBit <==> format == PixelFormat::P010
            &&& cfg.buffer_fmt == BufferFormat::Abgr10 <==> format == PixelFormat::Rgb10a2
            &&& cfg.chroma_444 <==> old(enc).cfg.chroma_444_requested && format != PixelFormat::Nv12
                && format != PixelFormat::P010
            &&& cfg.codec == old(enc).cfg.codec && cfg.bitrate_bps == old(enc).cfg.bitrate_bps
        }),
{
}

/// On the two-thread path a frame waits exactly where as many are in flight as the setting or the
/// capturer's ring allows, whichever is less; a capturer that said nothing allows two, and one that can
/// spare none one.
pub proof fn law_frames_wait_at_the_lower_limit(
    enc: NvencD3d11Encoder,
    env_cap: usize,
    wait: bool,
)
    requires
        call_ensures(NvencD3d11Encoder::must_absorb, (&enc, env_cap), wait),
    ensures
        !enc.ses.async_on ==> !wait,
        enc.ses.async_on ==> {
            &&& enc.pending@.len() >= env_cap ==> wait
            &&& enc.flow.input_ring_depth is None ==> (wait <==> enc.pending@.len() >= 2
                || enc.pending@.len() >= env_cap)
            &&& enc.flow.input_ring_depth is Some && enc.flow.input_ring_depth->0 >= 1
                ==> (wait <==> enc.pending@.len()
                >= env_cap || enc.pending@.len() >= enc.flow.input_ring_depth->0)
            &&& enc.flow.input_ring_depth == Some(0usize) && enc.pending@.len() >= 1 ==> wait
        },
{
}

/// A picture is a forced keyframe exactly where one was asked for, and then no recovery anchor; an
/// anchor is used up by the next frame. Pictures are numbered on, use the buffer and event of their
/// slot, and carry HDR messages with keyframes of a codec that has them.
pub proof fn law_a_picture_is_keyframe_or_anchor(
    enc: &mut NvencD3d11Encoder,
    next: &mut NvencD3d11Encoder,
    slot: usize,
    opening: bool,
    slot2: usize,
    p: PicturePlan,
    q: PicturePlan,
)
    requires
        old(enc).wf() && old(next).wf(),
        slot < 8,
        slot2 < 8,
        old(enc).ses.inited,
        0 <= old(enc).flow.frame_idx < i64::MAX - 1,
        call_ensures(NvencD3d11Encoder::plan_picture, (enc, slot, opening), p),
        call_ensures(NvencD3d11Encoder::plan_picture, (next, slot2, false), q),
    ensures
        p.flags == (if old(enc).flow.force_kf {
            6int
        } else {
            0
        }),
        p.anchor <==> old(enc).ses.pending_anchor && !old(enc).flow.force_kf,
        p.idr_hint <==> opening || p.flags != 0,
        p.timestamp == old(enc).flow.frame_idx,
        p.slot == slot && p.bitstream == old(enc).bitstreams@[slot as int],
        old(enc).events@.len() == 8 ==> p.event == old(enc).events@[slot as int],
        old(enc).events@.len() == 0 ==> p.event == 0,
        p.hdr_sei <==> p.idr_hint && old(enc).cfg.hdr && old(enc).cfg.hdr_meta is Some
            && old(enc).cfg.codec != Codec::Av1 && old(enc).cfg.codec != Codec::PyroWave,
        *old(next) == *final(enc) ==> q.flags == 0 && !q.anchor && !q.idr_hint && q.timestamp
            == p.timestamp + 1,
{
}

/// A unit retrieved on the second thread carries its frame: time and recovery mark as submitted, bytes
/// and type as the driver reports them. Its input is released. A completion for another buffer than the
/// oldest is an error and yields no unit.
pub proof fn law_a_completion_carries_its_frame(
    sent: &mut NvencD3d11Encoder,
    got: &mut NvencD3d11Encoder,
    plan: PicturePlan,
    mapped: u64,
    pts_ns: u64,
    job: Option<RetrieveJob>,
    done: RetrieveDone,
    a: Absorbed,
)
    requires
        old(sent).wf() && old(got).wf(),
        old(sent).pending@.len() == 0,
        mapped != 0,
        call_ensures(NvencD3d11Encoder::note_submitted, (sent, plan, mapped, pts_ns), job),
        call_ensures(NvencD3d11Encoder::absorb_done, (got, done), a),
    ensures
        job is Some <==> old(sent).ses.async_on,
        job matches Some(j) ==> j.bs == plan.bitstream && j.event == plan.event,
        *old(got) == *final(sent) && done.bs == plan.bitstream ==> {
            &&& a.unmap == Some(mapped)
            &&& final(got).pending@.len() == 0
            &&& a.result is Ok <==> done.result is Ok
            &&& done.result matches Ok(out) ==> {
                let au = final(got).ready@.last();
                &&& final(got).ready@.len() == old(sent).ready@.len() + 1
                &&& au.data@ == out.0@ && au.keyframe == out.1
                &&& au.pts_ns == pts_ns && au.recovery_anchor == plan.anchor && !au.chunk_aligned
            }
            &&& done.result matches Err(status) ==> a.result == Err::<(), NvencError>(
                NvencError::Retrieve(status),
            )
        },
        *old(got) == *final(sent) && done.bs != plan.bitstream ==> a.result == Err::<(), NvencError>(
            NvencError::CompletionOutOfOrder,
        ) && final(got).ready@ == old(got).ready@,
        old(got).pending@.len() == 0 ==> a.result == Err::<(), NvencError>(
            NvencError::UnpairedCompletion,
        ) && a.unmap is None,
{
}

/// A loss is answered where the session can invalidate and the policy's plan went through; the next
/// frame that is no keyframe is then the anchor. A declined or failed one changes nothing.
pub proof fn law_an_answered_loss_is_anchored(
    enc: &mut NvencD3d11Encoder,
    next: &mut NvencD3d11Encoder,
    plan: RangePlan,
    accepted: bool,
    answered: bool,
    can: bool,
    slot: usize,
    p: PicturePlan,
)
    requires
        old(enc).wf() && old(next).wf(),
        call_ensures(NvencD3d11Encoder::can_invalidate, (&*old(enc),), can),
        call_ensures(NvencD3d11Encoder::invalidate_ref_frames, (enc, plan, accepted), answered),
        call_ensures(NvencD3d11Encoder::plan_picture, (next, slot, false), p),
    ensures
        can <==> old(enc).ses.encoder != 0 && old(enc).cfg.rfi_supported,
        answered ==> can,
        plan == RangePlan::Decline ==> !answered,
        can && plan == RangePlan::Covered ==> answered,
        can && plan is Invalidate ==> answered == accepted,
        !answered ==> final(enc).ses == old(enc).ses,
        answered && *old(next) == *final(enc) && !old(enc).flow.force_kf ==> p.anchor,
        answered && old(enc).flow.force_kf && *old(next) == *final(enc) ==> !p.anchor && p.flags != 0,
        plan matches RangePlan::Invalidate { first, last } && answered
            ==> final(enc).ses.last_rfi_range == Some((plan->first, plan->last)),
        plan == RangePlan::Covered ==> final(enc).ses.last_rfi_range == old(enc).ses.last_rfi_range,
        final(enc).flow == old(enc).flow,
{
}

/// A poll for whole units hands out the oldest that is owed: a retrieved one on the two-thread path,
/// else the frame to wait for. In the middle of a chunked unit it is refused.
pub proof fn law_a_poll_takes_the_oldest(
    enc: &mut NvencD3d11Encoder,
    r: Result<PollStep, NvencError>,
    frame: PendingFrame,
    data: Vec<u8>,
    key: bool,
    au: EncodedFrame,
)
    requires
        old(enc).wf(),
        call_ensures(NvencD3d11Encoder::poll, (enc,), r),
        call_ensures(NvencD3d11Encoder::finish_unit, (frame, data, key), au),
    ensures
        r is Err <==> old(enc).flow.chunk is Some,
        r is Err ==> r->Err_0 == NvencError::MidChunk && final(enc).pending@ == old(enc).pending@,
        r matches Ok(PollStep::Ready(unit)) ==> old(enc).ses.async_on && old(enc).ready@.len() > 0
            && unit == old(enc).ready@[0] && final(enc).ready@ == old(enc).ready@.drop_first(),
        r matches Ok(PollStep::Lock(next)) ==> !old(enc).ses.async_on && old(enc).pending@.len() > 0
            && next == old(enc).pending@[0] && final(enc).pending@ == old(enc).pending@.drop_first(),
        r is Ok && r->Ok_0 is Idle ==> (if old(enc).ses.async_on {
            old(enc).ready@.len() == 0
        } else {
            old(enc).pending@.len() == 0
        }),
        au.data@ == data@ && au.pts_ns == frame.pts_ns && au.keyframe == key && au.recovery_anchor
            == frame.anchor && !au.chunk_aligned,
{
}

/// Chunks of a growing unit: one that is delivered holds what the sample adds to those before, the
/// finishing one the rest; so a first chunk and a finishing one are together the whole unit. A unit
/// that shrank below what was delivered is an error, and either way the delivery is over.
pub proof fn law_a_chunk_and_the_rest_are_the_unit(
    enc: &mut NvencD3d11Encoder,
    ended: &mut NvencD3d11Encoder,
    slices: u32,
    sample: &[u8],
    full: &[u8],
    key: bool,
    frame: PendingFrame,
    c: AuChunk,
    r: Result<AuChunk, NvencError>,
)
    requires
        old(enc).wf() && old(ended).wf(),
        old(enc).pending@.len() > 0,
        old(enc).flow.chunk is None,
        sample@.len() <= full@.len(),
        sample@ == full@.take(sample@.len() as int),
        call_ensures(NvencD3d11Encoder::emit_chunk, (enc, slices, sample), c),
        call_ensures(NvencD3d11Encoder::finish_chunk, (ended, frame, full, key), r),
    ensures
        c.data@ == sample@,
        c.first && !c.last,
        c.pts_ns == old(enc).pending@[0].pts_ns && c.recovery_anchor == old(enc).pending@[0].anchor
            && c.keyframe == old(enc).pending@[0].idr_hint && !c.chunk_aligned,
        final(enc).pending@ == old(enc).pending@,
        old(ended).flow == final(enc).flow ==> {
            &&& r matches Ok(rest) && {
                &&& c.data@ + rest.data@ == full@
                &&& !rest.first && rest.last
                &&& rest.pts_ns == frame.pts_ns && rest.recovery_anchor == frame.anchor
                    && rest.keyframe == key
            }
        },
        old(ended).flow.chunk is None ==> (r matches Ok(whole) && whole.data@ == full@ && whole.first
            && whole.last),
        final(ended).flow.chunk is None,
        r matches Err(e) ==> e is EmittedBeyondUnit,
{
    let n = sample@.len() as int;
    assert(sample.len() == sample@.len());
    assert(sample@.subrange(0, n) =~= sample@);
    assert(sample@ + full@.subrange(n, full@.len() as int) =~= full@);
    assert(full@.subrange(0, full@.len() as int) =~= full@);
}

/// A sample finishes the unit where it has all slices, is delivered where it adds both slices and
/// bytes, and else is waited on, unless the budget, two frame intervals, is spent.
pub proof fn law_samples_are_judged_by_their_slices(
    enc: NvencD3d11Encoder,
    slices: u32,
    len: usize,
    spent: bool,
    v: ChunkVerdict,
    w: ChunkVerdict,
    none: ChunkVerdict,
    us: u64,
    begin: ChunkStep,
    can: bool,
)
    requires
        call_ensures(NvencD3d11Encoder::judge_sample, (&enc, slices, len), v),
        call_ensures(NvencD3d11Encoder::chunk_step, (&enc, Some((slices, len)), spent), w),
        call_ensures(NvencD3d11Encoder::chunk_step, (&enc, None, spent), none),
        call_ensures(NvencD3d11Encoder::chunk_budget_us, (&enc,), us),
        call_ensures(NvencD3d11Encoder::poll_chunk, (&enc,), begin),
        call_ensures(NvencD3d11Encoder::supports_chunked_poll, (&enc,), can),
    ensures
        slices >= enc.cfg.slices <==> v == ChunkVerdict::Finish,
        v == ChunkVerdict::Emit && enc.flow.chunk is Some ==> slices > enc.flow.chunk->0.slices_out
            && len > enc.flow.chunk->0.emitted,
        v == ChunkVerdict::Emit && enc.flow.chunk is None ==> slices > 0 && len > 0,
        v != ChunkVerdict::Wait ==> w == v,
        v == ChunkVerdict::Wait ==> (w == ChunkVerdict::Finish <==> spent) && w != ChunkVerdict::Emit,
        none == ChunkVerdict::Finish <==> spent,
        none != ChunkVerdict::Emit,
        us <= 2_000_000,
        enc.cfg.fps >= 1 ==> us * enc.cfg.fps <= 2_000_000 < (us + 1) * enc.cfg.fps,
        can <==> enc.ses.subframe_chunks && !enc.ses.async_on,
        begin == ChunkStep::Whole <==> !can && enc.flow.chunk is None,
        begin matches ChunkStep::Sample(f) ==> enc.pending@.len() > 0 && f == enc.pending@[0],
        begin == ChunkStep::Idle ==> enc.pending@.len() == 0,
{
    let fps: int = if enc.cfg.fps == 0 {
        1
    } else {
        enc.cfg.fps as int
    };
    vstd::arithmetic::div_mod::lemma_fundamental_div_mod(2_000_000, fps);
    let q = 2_000_000int / fps;
    assert(q * fps <= 2_000_000 < (q + 1) * fps && q <= 2_000_000) by (nonlinear_arith)
        requires
            2_000_000 == fps * q + 2_000_000int % fps,
            0 <= 2_000_000int % fps < fps,
            fps >= 1,
            q >= 0,
    ;
}

/// What was delivered is accepted exactly where the finished unit begins with it.
pub proof fn law_delivered_bytes_begin_the_unit(
    delivered: &[u8],
    full: &[u8],
    r: Result<(), NvencError>,
)
    requires
        call_ensures(check_delivered, (delivered, full), r),
    ensures
        r is Ok <==> delivered@.is_prefix_of(full@),
        delivered@.len() > full@.len() <==> r is Err && r->Err_0 is EmittedBeyondUnit,
        r is Err && delivered@.len() <= full@.len() ==> r->Err_0 == NvencError::ChunksDiverge,
{
    assert(delivered.len() == delivered@.len() && full.len() == full@.len());
}

/// A torn-down encoder has no session and nothing in flight, and its units are off the books unless the
/// driver may still hold it; a reset also asks for a keyframe. Without a session a teardown does
/// nothing.
pub proof fn law_a_teardown_leaves_no_session(
    enc: &mut NvencD3d11Encoder,
    budget: &mut SessionBudget,
    outcome: DestroyOutcome,
    cap: u32,
    aged: Vec<ParkedSession>,
    reset: &mut NvencD3d11Encoder,
    books: &mut SessionBudget,
    rebuilt: bool,
)
    requires
        old(enc).wf() && old(reset).wf() && old(budget).wf() && old(books).wf(),
        call_ensures(NvencD3d11Encoder::teardown, (enc, outcome, budget, cap), aged),
        call_ensures(NvencD3d11Encoder::reset, (reset, outcome, books, cap), rebuilt),
    ensures
        final(enc).ses.encoder == 0 && !final(enc).ses.inited && final(enc).pending@.len() == 0
            && final(enc).bitstreams@.len() == 0 && final(enc).events@.len() == 0,
        old(enc).ses.encoder != 0 ==> final(enc).ses.next == 0 && !final(enc).ses.pending_anchor
            && final(enc).flow.chunk is None && final(enc).ses.last_rfi_range is None,
        final(enc).flow.frame_idx == old(enc).flow.frame_idx
            && final(enc).flow.force_kf == old(enc).flow.force_kf,
        old(enc).ses.encoder == 0 ==> final(budget).live_units == old(budget).live_units
            && aged@.len() == 0,
        old(enc).ses.encoder != 0 && outcome != DestroyOutcome::Ambiguous ==> final(budget).live_units
            == old(budget).live_units - old(enc).ses.session_units
                && final(budget).parked@ == old(budget).parked@,
        old(enc).ses.encoder != 0 && outcome == DestroyOutcome::Ambiguous
            ==> final(budget).parked@.len() > 0
            && final(budget).parked@.last().enc == old(enc).ses.encoder
            && final(budget).parked@.last().units == old(enc).ses.session_units,
        rebuilt,
        final(reset).flow.force_kf,
        final(reset).ses.encoder == 0 && final(reset).pending@.len() == 0,
        final(reset).flow.frame_idx == old(reset).flow.frame_idx,
{
    if old(enc).ses.encoder != 0 && outcome == DestroyOutcome::Ambiguous {
        let all = old(budget).parked@.push(
            ParkedSession { enc: old(enc).ses.encoder, units: old(enc).ses.session_units },
        );
        assert(aged@ + final(budget).parked@ == all);
        assert((aged@ + final(budget).parked@).len() == aged@.len() + final(budget).parked@.len());
        assert(all.last() == (aged@ + final(budget).parked@).last());
    }
}

/// A changed rate is never asked for above the remembered ceiling, nor above the wish, and is the wish
/// wherever that is within the ceiling. Without a session it is stored as it is; with one, it counts
/// once the driver takes it.
pub proof fn law_rates_stay_below_the_ceiling(
    enc: &mut NvencD3d11Encoder,
    noted: &mut NvencD3d11Encoder,
    bps: u64,
    ceiling: Option<u64>,
    p: ReconfigurePlan,
    took: bool,
    ok: bool,
    applied: Option<u64>,
)
    requires
        old(enc).wf() && old(noted).wf(),
        call_ensures(NvencD3d11Encoder::reconfigure_bitrate, (enc, bps, ceiling), p),
        call_ensures(NvencD3d11Encoder::note_reconfigured, (noted, bps, took), ok),
        call_ensures(NvencD3d11Encoder::applied_bitrate_bps, (&*final(noted),), applied),
    ensures
        p is Stored <==> !old(enc).ses.inited,
        p is Stored ==> final(enc).cfg.bitrate_bps == bps,
        p matches ReconfigurePlan::Apply(t) ==> {
            &&& t <= bps
            &&& ceiling matches Some(c) ==> t <= c
            &&& ceiling is None || ceiling->0 >= bps ==> t == bps
            &&& t == bps || ceiling == Some(t)
            &&& final(enc).cfg == old(enc).cfg
        },
        ok == took,
        took ==> applied == Some(bps),
        !took ==> applied == Some(old(noted).cfg.bitrate_bps),
        final(enc).flow == old(enc).flow && final(enc).ses == old(enc).ses,
{
}

/// A set-up remembers a ceiling only for a session whose wanted rate the search has seen refused, and
/// then the very rate and split mode that the session runs at. The session is charged for its engines.
pub proof fn law_a_ceiling_is_what_the_session_runs_at(
    enc: &mut NvencD3d11Encoder,
    f: FrameIn,
    env_cap: usize,
    search: OpenSearch,
    subframe: bool,
    use_async: bool,
    outcome: OpenOutcome,
    budget: &mut SessionBudget,
    s: SubmitStep,
    units: u32,
)
    requires
        old(enc).wf() && old(budget).wf(),
        search.wf(),
        call_ensures(
            NvencD3d11Encoder::setup_step,
            (
                enc,
                SubmitPhase::Opening { search, subframe, use_async },
                &f,
                env_cap,
                SetupEvent::Open(outcome),
                budget,
            ),
            s,
        ),
        call_ensures(split_mode_units, (final(enc).ses.split_mode,), units),
    ensures
        s.ceiling matches Some(c) ==> {
            &&& s.phase == SubmitPhase::Buffers
            &&& final(enc).cfg.bitrate_bps == c.bps
            &&& final(enc).ses.split_mode == c.split_mode
            &&& search.phase is Bisect || search.phase is Floor || search.phase is FloorWithoutSplit
        },
        s.phase == SubmitPhase::Buffers && (search.phase is Bisect || search.phase is Floor
            || search.phase is FloorWithoutSplit) ==> s.ceiling is Some,
        s.phase == SubmitPhase::Buffers ==> {
            &&& final(enc).ses.encoder != 0
            &&& final(enc).ses.session_units == units
            &&& final(budget).live_units == old(budget).live_units + units
            &&& final(enc).ses.subframe_on == subframe && final(enc).ses.session_async == use_async
            &&& final(enc).ses.subframe_chunks <==> old(enc).cfg.slices >= 2 && subframe && !use_async
        },
        s.phase != SubmitPhase::Buffers ==> final(budget).live_units == old(budget).live_units,
        s.phase is Failing ==> s.action == SubmitAction::TearDown,
        s.action matches SubmitAction::Open(a) ==> (s.phase matches SubmitPhase::Opening {
            search: n,
            subframe: sub,
            use_async: two,
        } && sub == subframe && two == use_async && n.requested_bps == search.requested_bps),
{
}

/// A frame without a texture is refused at once; one that the session does not fit has it torn down;
/// the first of a session has the adapter asked. Any other waits for room or takes the next of eight
/// slots, and registers its texture only the first time.
pub proof fn law_a_submit_begins_with_what_is_missing(
    enc: &mut NvencD3d11Encoder,
    f: FrameIn,
    env_cap: usize,
    s: SubmitStep,
)
    requires
        old(enc).wf(),
        old(enc).within_limits(f),
        !old(enc).ses.inited ==> old(enc).ses.encoder == 0,
        call_ensures(NvencD3d11Encoder::submit, (enc, &f, env_cap), s),
    ensures
        s.phase == SubmitPhase::Refused(NvencError::NeedsTexture) <==> f.payload != PayloadKind::D3d11,
        f.payload == PayloadKind::D3d11 ==> {
            let deep = f.format == PixelFormat::P010 || f.format == PixelFormat::Rgb10a2;
            let fits = old(enc).ses.init_device == f.device && old(enc).cfg.width == f.width
                && old(enc).cfg.height == f.height && old(enc).cfg.hdr_requested == deep;
            &&& s.phase == SubmitPhase::TearingDown <==> old(enc).ses.inited && !fits
            &&& s.action == SubmitAction::TearDown <==> old(enc).ses.inited && !fits
            &&& s.phase == SubmitPhase::Caps <==> !old(enc).ses.inited
            &&& s.action == SubmitAction::QueryCaps <==> !old(enc).ses.inited
            &&& s.phase is Texture || s.phase is Mapping
                ==> final(enc).ses.next == old(enc).ses.next + 1
            &&& s.phase matches SubmitPhase::Texture { slot, opening } ==> slot == old(enc).ses.next % 8
                && (opening <==> old(enc).ses.next == 0) && !old(enc).regs@.contains_key(f.texture)
            &&& s.phase matches SubmitPhase::Mapping { slot, opening } ==> slot == old(enc).ses.next % 8
                && (opening <==> old(enc).ses.next == 0) && old(enc).regs@.contains_key(f.texture)
                && s.action == SubmitAction::MapInput(old(enc).regs@[f.texture])
            &&& s.phase == SubmitPhase::Room ==> old(enc).ses.async_on && s.action
                == SubmitAction::Receive
        },
        final(enc).pending@ == old(enc).pending@,
{
}

/// A failed action on a frame refuses it, with the failure's own error; a missed completion is a stall,
/// and an unsent job means that the thread is gone. A registered texture is remembered, and an accepted
/// frame is in flight with the time it was captured.
pub proof fn law_a_frame_goes_on_or_is_refused(
    enc: &mut NvencD3d11Encoder,
    phase: SubmitPhase,
    f: FrameIn,
    env_cap: usize,
    event: FrameEvent,
    s: SubmitStep,
)
    requires
        old(enc).stands_at(phase),
        phase.awaits(event),
        old(enc).within_limits(f),
        call_ensures(NvencD3d11Encoder::frame_step, (enc, phase, &f, env_cap, event), s),
    ensures
        event matches FrameEvent::Failed(e) ==> {
            &&& s.action == SubmitAction::Nothing
            &&& final(enc).pending@ == old(enc).pending@
            &&& phase == SubmitPhase::Room ==> s.phase == SubmitPhase::Refused(NvencError::Stalled)
            &&& phase == SubmitPhase::Sending ==> s.phase == SubmitPhase::Refused(
                NvencError::RetrieveGone,
            )
            &&& phase is Encoding || phase is Mapping || phase is Texture ==> s.phase
                == SubmitPhase::Refused(event->Failed_0)
        },
        event matches FrameEvent::Handle(h) && phase is Texture ==> s.action == SubmitAction::MapInput(
            event->Handle_0,
        ) && final(enc).regs@.contains_key(f.texture) && final(enc).regs@[f.texture]
            == event->Handle_0,
        event matches FrameEvent::Handle(h) && phase is Mapping
            ==> (s.action matches SubmitAction::Encode {
            plan,
            mapped,
        } && mapped == event->Handle_0 && plan.slot == phase->Mapping_slot
            && plan.timestamp == old(enc).flow.frame_idx),
        event is Accepted && phase is Encoding
            ==> final(enc).pending@.len() == old(enc).pending@.len() + 1
            && final(enc).pending@.last().pts_ns == f.pts_ns
            && final(enc).pending@.last().bitstream == phase->Encoding_plan.bitstream
            && final(enc).pending@.last().mapped == phase->mapped,
        event is Accepted && phase is Encoding ==> (s.action is Send <==> old(enc).ses.async_on),
{
}

/// What a session promises its client is what the adapter does, and nothing the backend does not do.
pub proof fn law_promises_are_what_runs(enc: NvencD3d11Encoder, c: EncoderCaps)
    requires
        call_ensures(NvencD3d11Encoder::caps, (&enc,), c),
    ensures
        c.supports_rfi == enc.cfg.rfi_supported,
        c.chroma_444 == enc.cfg.chroma_444,
        !c.blends_cursor && !c.intra_refresh && !c.intra_refresh_recovery
            && c.intra_refresh_period == 0,
{
}

/// Numbers, requests, depths and grades that are set take effect on the next frame, and on nothing
/// else.
pub proof fn law_settings_change_one_thing(
    indexed: &mut NvencD3d11Encoder,
    asked: &mut NvencD3d11Encoder,
    graded: &mut NvencD3d11Encoder,
    ringed: &mut NvencD3d11Encoder,
    wire: u32,
    meta: Option<HdrMeta>,
    depth: usize,
)
    requires
        old(indexed).wf() && old(asked).wf() && old(graded).wf() && old(ringed).wf(),
        call_ensures(NvencD3d11Encoder::set_wire_index, (indexed, wire), ()),
        call_ensures(NvencD3d11Encoder::request_keyframe, (asked,), ()),
        call_ensures(NvencD3d11Encoder::set_hdr_meta, (graded, meta), ()),
        call_ensures(NvencD3d11Encoder::set_input_ring_depth, (ringed, depth), ()),
    ensures
        final(indexed).flow.frame_idx == wire && final(indexed).flow.force_kf
            == old(indexed).flow.force_kf,
        final(asked).flow.force_kf && final(asked).flow.frame_idx == old(asked).flow.frame_idx,
        final(graded).cfg.hdr_meta == meta && final(graded).cfg.bitrate_bps
            == old(graded).cfg.bitrate_bps && final(graded).flow == old(graded).flow,
        final(ringed).flow.input_ring_depth == Some(depth) && final(ringed).flow.frame_idx
            == old(ringed).flow.frame_idx,
        final(indexed).pending@ == old(indexed).pending@
            && final(asked).pending@ == old(asked).pending@,
{
}

/// A codec is claimed exactly where the driver lists its identifier, and full chroma and ten bits only
/// for codecs that have them and where the adapter says so.
pub proof fn law_probes_claim_what_the_driver_lists(
    guids: Vec<u128>,
    s: CodecSupport,
    none: CodecSupport,
    codec: Codec,
    answer: Option<i32>,
    full: bool,
    deep: bool,
)
    requires
        call_ensures(probe_codec_support, (Some(&guids),), s),
        call_ensures(probe_codec_support, (None,), none),
        call_ensures(probe_can_encode_444, (codec, answer), full),
        call_ensures(probe_can_encode_10bit, (codec, answer), deep),
    ensures
        s.h264 <==> guids@.contains(0x6bc82762_4e63_4ca4_aa85_1e50f321f6bf),
        s.h265 <==> guids@.contains(0x790cdc88_4522_4d7b_9425_bda9975f7603),
        s.av1 <==> guids@.contains(0x0a352289_0aa7_4759_862d_5d15cd16d254),
        !none.h264 && !none.h265 && !none.av1,
        full <==> codec == Codec::H265 && answer is Some && answer->0 != 0,
        deep <==> (codec == Codec::H265 || codec == Codec::Av1) && answer is Some && answer->0 != 0,
{
}

/// A session is charged for the engines of its split mode: three, two, or one where it does not split.
/// Another session may open while nothing is charged or the limit, eight where none is set, is not
/// reached.
pub proof fn law_sessions_are_charged_by_engine(
    mode: u32,
    units: u32,
    unset: u32,
    live: u32,
    cap: u32,
    open: bool,
)
    requires
        call_ensures(split_mode_units, (mode,), units),
        call_ensures(session_cap, (None,), unset),
        call_ensures(can_open_another_session, (live, cap), open),
    ensures
        units == 3 <==> mode == 3,
        units == 2 <==> mode == 1 || mode == 2,
        units == 1 <==> mode != 1 && mode != 2 && mode != 3,
        unset == 8,
        live == 0 ==> open,
        live > 0 ==> (open <==> live < cap),
{
}

/// Opening and closing a session balances the books: what was charged comes back where the slot is
/// free, and stays charged, parked under its handle, where the driver may still hold it.
pub proof fn law_the_books_balance(
    opened: &mut SessionBudget,
    closed: &mut SessionBudget,
    enc: u64,
    units: u32,
    outcome: DestroyOutcome,
    cap: u32,
    aged: Vec<ParkedSession>,
    fresh: SessionBudget,
)
    requires
        old(opened).wf() && old(closed).wf(),
        call_ensures(SessionBudget::new, (), fresh),
        call_ensures(SessionBudget::charge, (opened, units), ()),
        call_ensures(SessionBudget::session_closed, (closed, enc, units, outcome, cap), aged),
    ensures
        fresh.live_units == 0 && fresh.parked@.len() == 0,
        final(opened).live_units == old(opened).live_units + units,
        final(opened).parked@ == old(opened).parked@,
        *old(closed) == *final(opened) && outcome != DestroyOutcome::Ambiguous
            ==> final(closed).live_units == old(opened).live_units
            && final(closed).parked@ == old(opened).parked@,
        outcome == DestroyOutcome::Ambiguous ==> {
            &&& final(closed).parked@.len() > 0
            &&& final(closed).parked@.last() == (ParkedSession { enc, units })
            &&& aged@.len() + final(closed).parked@.len() == old(closed).parked@.len() + 1
            &&& units_of(final(closed).parked@) <= cap || final(closed).parked@.len() == 1
            &&& final(closed).live_units + units_of(aged@) == old(closed).live_units
        },
        outcome == DestroyOutcome::Ambiguous && units_of(old(closed).parked@) + units <= cap
            ==> aged@.len() == 0,
{
    if outcome == DestroyOutcome::Ambiguous {
        let all = old(closed).parked@.push(ParkedSession { enc, units });
        assert(aged@ + final(closed).parked@ == all);
        assert((aged@ + final(closed).parked@).len() == aged@.len() + final(closed).parked@.len());
        assert(all.last() == (aged@ + final(closed).parked@).last());
        if aged@.len() > 0 {
            assert(old(closed).parked@.skip(0) =~= old(closed).parked@);
            assert(units_of(old(closed).parked@.skip(0)) + units > cap);
        }
    }
}

/// Parked sessions are tried again only while nothing else is charged; each whose slot turns out free
/// is off the books, and no other session's charge changes.
pub proof fn law_reaping_frees_what_is_proven_free(
    books: &mut SessionBudget,
    outcomes: Vec<DestroyOutcome>,
    may: bool,
)
    requires
        old(books).wf(),
        outcomes@.len() == old(books).parked@.len(),
        call_ensures(SessionBudget::may_reap, (&*old(books),), may),
        call_ensures(SessionBudget::reap_parked_sessions, (books, &outcomes), ()),
    ensures
        may ==> old(books).parked@.len() > 0 && old(books).live_units == units_of(old(books).parked@),
        old(books).parked@.len() > 0 && old(books).live_units == units_of(old(books).parked@) ==> may,
        final(books).live_units - units_of(final(books).parked@) == old(books).live_units - units_of(
            old(books).parked@,
        ),
        (forall|i: int|
            0 <= i < outcomes@.len() ==> (#[trigger] outcomes@[i]) != DestroyOutcome::Ambiguous)
            ==> final(books).parked@.len() == 0,
        (forall|i: int|
            0 <= i < outcomes@.len() ==> (#[trigger] outcomes@[i]) == DestroyOutcome::Ambiguous)
            ==> final(books).parked@ == old(books).parked@
                && final(books).live_units == old(books).live_units,
{
    crate::nvenc::budget::law_reaping_never_charges(old(books).parked@, outcomes@);
    if forall|i: int|
        0 <= i < outcomes@.len() ==> (#[trigger] outcomes@[i]) != DestroyOutcome::Ambiguous {
        assert forall|i: int| 0 <= i < outcomes@.len() implies (
        #[trigger] outcomes@[i]).frees_the_slot() by {}
    }
    if forall|i: int|
        0 <= i < outcomes@.len() ==> (#[trigger] outcomes@[i]) == DestroyOutcome::Ambiguous {
        assert forall|i: int| 0 <= i < outcomes@.len() implies !(
        #[trigger] outcomes@[i]).frees_the_slot() by {}
    }
}

/// A limit that is set is taken as it is: of frames in flight between two and seven, of sessions any
/// number. The switch for the second thread is off unless set to a spelling of "on", and without the
/// adapter's support it does nothing.
pub proof fn law_limits_are_as_set(
    raw: &str,
    n: nat,
    cap: usize,
    sessions: u32,
    on: bool,
    unset: bool,
    enc: NvencD3d11Encoder,
    used: bool,
)
    requires
        call_ensures(async_inflight_cap, (Some(raw),), cap),
        call_ensures(session_cap, (Some(raw),), sessions),
        call_ensures(async_retrieve_requested, (Some(raw),), on),
        call_ensures(async_retrieve_requested, (None,), unset),
        call_ensures(NvencD3d11Encoder::use_async, (&enc, on), used),
    ensures
        raw@ == decimal(n) && 2 <= n <= 7 ==> cap == n,
        raw@ == decimal(n) && n < 2 ==> cap == 2,
        raw@ == decimal(n) && 7 < n <= u32::MAX ==> cap == 7,
        raw@ == decimal(n) && n <= u32::MAX ==> sessions == n,
        raw@ == seq!['-'] + decimal(n) ==> sessions == 8,
        !unset,
        on <==> trimmed(raw@) == "1"@ || trimmed(raw@) == "true"@ || trimmed(raw@) == "yes"@ || trimmed(
            raw@,
        ) == "on"@,
        used <==> on && enc.cfg.async_supported,
{
    crate::text::law_decimal_notation_reads_as_its_number(n);
}

/// A session is adopted under its handle, at the rate and split it opened with, and charged for its
/// engines; it runs only once it is ready, on the device it was opened for.
pub proof fn law_a_session_runs_once_it_is_ready(
    enc: &mut NvencD3d11Encoder,
    handle: u64,
    bps: u64,
    mode: u32,
    subframe: bool,
    two: bool,
    budget: &mut SessionBudget,
    units: u32,
    ready: &mut NvencD3d11Encoder,
    device: u64,
)
    requires
        old(enc).wf() && old(ready).wf(),
        old(enc).ses.encoder == 0,
        call_ensures(split_mode_units, (mode,), units),
        call_ensures(
            NvencD3d11Encoder::session_opened,
            (enc, handle, bps, mode, subframe, two, budget),
            (),
        ),
        call_ensures(NvencD3d11Encoder::session_ready, (ready, device), ()),
    ensures
        final(enc).ses.encoder == handle && final(enc).cfg.bitrate_bps == bps,
        final(enc).ses.split_mode == mode && final(enc).ses.session_units == units,
        final(enc).ses.subframe_on == subframe && final(enc).ses.session_async == two,
        final(enc).ses.subframe_chunks <==> subframe && !two && old(enc).cfg.slices >= 2,
        final(enc).ses.inited == old(enc).ses.inited
            && final(enc).ses.async_on == old(enc).ses.async_on,
        final(enc).cfg.width == old(enc).cfg.width && final(enc).cfg.height == old(enc).cfg.height
            && final(enc).cfg.codec == old(enc).cfg.codec && final(enc).cfg.fps == old(enc).cfg.fps,
        final(enc).flow == old(enc).flow && final(enc).pending@ == old(enc).pending@,
        final(budget).live_units == old(budget).live_units + units
            && final(budget).parked@ == old(budget).parked@,
        final(ready).ses.inited && final(ready).ses.init_device == device,
        final(ready).ses.async_on == old(ready).ses.session_async,
        final(ready).ses.encoder == old(ready).ses.encoder && final(ready).cfg == old(ready).cfg
            && final(ready).flow == old(ready).flow,
        final(ready).bitstreams@ == old(ready).bitstreams@
            && final(ready).events@ == old(ready).events@,
{
}

/// Buffers and events are kept in the order in which they were made, and nothing else changes.
pub proof fn law_buffers_are_kept_in_order(
    enc: &mut NvencD3d11Encoder,
    bs: u64,
    other: &mut NvencD3d11Encoder,
    event: u64,
)
    requires
        old(enc).wf() && old(other).wf(),
        call_ensures(NvencD3d11Encoder::add_bitstream, (enc, bs), ()),
        call_ensures(NvencD3d11Encoder::add_event, (other, event), ()),
    ensures
        final(enc).bitstreams@.len() == old(enc).bitstreams@.len() + 1,
        final(enc).bitstreams@.last() == bs
            && final(enc).bitstreams@.drop_last() == old(enc).bitstreams@,
        final(enc).events@ == old(enc).events@ && final(enc).ses == old(enc).ses && final(enc).cfg
            == old(enc).cfg && final(enc).pending@ == old(enc).pending@,
        final(other).events@.len() == old(other).events@.len() + 1,
        final(other).events@.last() == event && final(other).events@.drop_last() == old(other).events@,
        final(other).bitstreams@ == old(other).bitstreams@ && final(other).ses == old(other).ses
            && final(other).cfg == old(other).cfg && final(other).pending@ == old(other).pending@,
{
    assert(final(enc).bitstreams@.drop_last() =~= old(enc).bitstreams@);
    assert(final(other).events@.drop_last() =~= old(other).events@);
}

/// Slots are taken in turn, eight in all: eight frames on, the same one is taken again, and none of the
/// seven in between is. The first frame of a session is told as its opening.
pub proof fn law_slots_are_taken_in_turn(
    enc: &mut NvencD3d11Encoder,
    next: &mut NvencD3d11Encoder,
    a: (usize, bool),
    b: (usize, bool),
)
    requires
        old(enc).wf() && old(next).wf(),
        old(enc).ses.next < usize::MAX && old(next).ses.next < usize::MAX,
        call_ensures(NvencD3d11Encoder::take_slot, (enc,), a),
        call_ensures(NvencD3d11Encoder::take_slot, (next,), b),
    ensures
        a.0 < 8 && b.0 < 8,
        a.1 <==> old(enc).ses.next == 0,
        a.1 ==> a.0 == 0,
        *old(next) == *final(enc) ==> b.0 == (a.0 + 1) % 8 && !b.1,
        old(next).ses.next == old(enc).ses.next + 8 ==> b.0 == a.0,
        old(enc).ses.next < old(next).ses.next < old(enc).ses.next + 8 ==> b.0 != a.0,
        final(enc).pending@ == old(enc).pending@ && final(enc).ready@ == old(enc).ready@
            && final(enc).flow == old(enc).flow && final(enc).cfg == old(enc).cfg,
{
}

/// A texture's registration is found again, and registering one texture does not touch another's. Only
/// textures are taken.
pub proof fn law_registrations_are_found_again(
    enc: &mut NvencD3d11Encoder,
    texture: u64,
    registered: u64,
    other: u64,
    found: Option<u64>,
    before: Option<u64>,
    after: Option<u64>,
    payload: PayloadKind,
    r: Result<(), NvencError>,
)
    requires
        old(enc).wf(),
        call_ensures(NvencD3d11Encoder::note_registration, (enc, texture, registered), ()),
        call_ensures(NvencD3d11Encoder::registration, (&*final(enc), texture), found),
        call_ensures(NvencD3d11Encoder::registration, (&*old(enc), other), before),
        call_ensures(NvencD3d11Encoder::registration, (&*final(enc), other), after),
        call_ensures(NvencD3d11Encoder::check_payload, (payload,), r),
    ensures
        found == Some(registered),
        other != texture ==> after == before,
        final(enc).ses == old(enc).ses && final(enc).pending@ == old(enc).pending@,
        r is Ok <==> payload == PayloadKind::D3d11,
        r is Err ==> r->Err_0 == NvencError::NeedsTexture,
{
}

/// A finished frame is the oldest in flight, and the others keep their order.
pub proof fn law_frames_finish_in_order(enc: &mut NvencD3d11Encoder, frame: PendingFrame)
    requires
        old(enc).wf(),
        old(enc).pending@.len() > 0,
        call_ensures(NvencD3d11Encoder::take_finished, (enc,), frame),
    ensures
        frame == old(enc).pending@[0],
        final(enc).pending@.len() + 1 == old(enc).pending@.len(),
        forall|i: int|
            0 <= i < final(enc).pending@.len()
                ==> #[trigger] final(enc).pending@[i] == old(enc).pending@[i + 1],
        final(enc).ses == old(enc).ses && final(enc).flow == old(enc).flow
            && final(enc).ready@ == old(enc).ready@,
{
}

/// A refund takes back what was charged. A parked session stays charged; the oldest are aged out only
/// as far as the limit asks for it, and what is parked is counted by its engines.
pub proof fn law_parking_ages_out_the_oldest(
    books: &mut SessionBudget,
    units: u32,
    lot: &mut SessionBudget,
    enc: u64,
    cap: u32,
    aged: Vec<ParkedSession>,
    parked: u32,
    one: SessionBudget,
)
    requires
        old(books).wf() && old(lot).wf() && one.wf(),
        call_ensures(SessionBudget::refund, (books, units), ()),
        call_ensures(SessionBudget::park_session, (lot, enc, units, cap), aged),
        call_ensures(SessionBudget::parked_units, (&one,), parked),
    ensures
        final(books).live_units + units == old(books).live_units
            && final(books).parked@ == old(books).parked@,
        final(lot).parked@.len() + aged@.len() == old(lot).parked@.len() + 1,
        final(lot).parked@.last().enc == enc && final(lot).parked@.last().units == units,
        forall|i: int| 0 <= i < aged@.len() ==> #[trigger] aged@[i] == old(lot).parked@[i],
        forall|i: int|
            0 <= i < final(lot).parked@.len() - 1
                ==> #[trigger] final(lot).parked@[i] == old(lot).parked@[aged@.len() + i],
        units_of(old(lot).parked@) + units <= cap ==> aged@.len() == 0
            && final(lot).live_units == old(lot).live_units,
        one.parked@.len() == 0 ==> parked == 0,
        one.parked@.len() == 1 ==> parked == one.parked@[0].units,
        one.parked@.len() == 2 ==> parked == one.parked@[0].units + one.parked@[1].units,
{
    let kept = final(lot).parked@.drop_last();
    assert((aged@ + kept).len() == old(lot).parked@.len());
    assert forall|i: int| 0 <= i < aged@.len() implies #[trigger] aged@[i] == old(lot).parked@[i] by {
        assert((aged@ + kept)[i] == aged@[i]);
    }
    assert forall|i: int| 0 <= i < final(lot).parked@.len() - 1 implies #[trigger] final(lot).parked@[i]
        == old(lot).parked@[aged@.len() + i] by {
        assert((aged@ + kept)[aged@.len() + i] == kept[i]);
    }
    if aged@.len() > 0 {
        assert(old(lot).parked@.skip(0) =~= old(lot).parked@);
        assert(units_of(old(lot).parked@.skip(0)) + units > cap);
    } else {
        assert(units_of(aged@) == 0);
    }
    reveal_with_fuel(units_of, 3);
}

/// Every operation leaves alone what it is not about: the configuration but for its rate and grade, the
/// numbering but for a frame or a new number, the session, and what was made for it.
pub proof fn law_operations_leave_the_rest_alone(
    enc: &mut NvencD3d11Encoder,
    op: int,
    wire: u32,
    meta: Option<HdrMeta>,
    depth: usize,
    range: RangePlan,
    ok: bool,
    bps: u64,
    ceiling: Option<u64>,
    slot: usize,
    plan: PicturePlan,
    mapped: u64,
    pts_ns: u64,
    done: RetrieveDone,
    yes: bool,
    rate: ReconfigurePlan,
    planned: PicturePlan,
    job: Option<RetrieveJob>,
    absorbed: Absorbed,
    polled: Result<PollStep, NvencError>,
)
    requires
        old(enc).wf(),
        old(enc).flow.frame_idx < i64::MAX,
        0 <= op <= 10,
        op == 0 ==> call_ensures(NvencD3d11Encoder::set_wire_index, (enc, wire), ()),
        op == 1 ==> call_ensures(NvencD3d11Encoder::request_keyframe, (enc,), ()),
        op == 2 ==> call_ensures(NvencD3d11Encoder::set_hdr_meta, (enc, meta), ()),
        op == 3 ==> call_ensures(NvencD3d11Encoder::set_input_ring_depth, (enc, depth), ()),
        op == 4 ==> call_ensures(NvencD3d11Encoder::invalidate_ref_frames, (enc, range, ok), yes),
        op == 5 ==> call_ensures(NvencD3d11Encoder::reconfigure_bitrate, (enc, bps, ceiling), rate),
        op == 6 ==> call_ensures(NvencD3d11Encoder::note_reconfigured, (enc, bps, ok), yes),
        op == 7 ==> call_ensures(NvencD3d11Encoder::plan_picture, (enc, slot, ok), planned),
        op == 8 ==> call_ensures(
            NvencD3d11Encoder::note_submitted,
            (enc, plan, mapped, pts_ns),
            job,
        ),
        op == 9 ==> call_ensures(NvencD3d11Encoder::absorb_done, (enc, done), absorbed),
        op == 10 ==> call_ensures(NvencD3d11Encoder::poll, (enc,), polled),
    ensures
        op != 2 && op != 5 && op != 6 ==> final(enc).cfg == old(enc).cfg,
        final(enc).cfg.codec == old(enc).cfg.codec && final(enc).cfg.width == old(enc).cfg.width
            && final(enc).cfg.height == old(enc).cfg.height && final(enc).cfg.fps == old(enc).cfg.fps
            && final(enc).cfg.slices == old(enc).cfg.slices
                && final(enc).cfg.rfi_supported == old(enc).cfg.rfi_supported,
        op != 2 ==> final(enc).cfg.hdr_meta == old(enc).cfg.hdr_meta,
        op != 5 && op != 6 ==> final(enc).cfg.bitrate_bps == old(enc).cfg.bitrate_bps,
        op != 0 && op != 7 ==> final(enc).flow.frame_idx == old(enc).flow.frame_idx,
        op != 1 && op != 7 && op != 9 ==> final(enc).flow.force_kf == old(enc).flow.force_kf,
        op != 3 ==> final(enc).flow.input_ring_depth == old(enc).flow.input_ring_depth,
        final(enc).flow.chunk == old(enc).flow.chunk,
        op != 4 && op != 7 ==> final(enc).ses == old(enc).ses,
        op == 4 || op == 7 ==> final(enc).ses.encoder == old(enc).ses.encoder
            && final(enc).ses.inited == old(enc).ses.inited
                && final(enc).ses.init_device == old(enc).ses.init_device
                && final(enc).ses.next == old(enc).ses.next && final(enc).ses.split_mode
            == old(enc).ses.split_mode && final(enc).ses.async_on == old(enc).ses.async_on
            && final(enc).ses.session_units == old(enc).ses.session_units,
        final(enc).regs@ == old(enc).regs@ && final(enc).bitstreams@ == old(enc).bitstreams@
            && final(enc).events@ == old(enc).events@,
        op <= 7 ==> final(enc).pending@ == old(enc).pending@,
        op <= 8 ==> final(enc).ready@ == old(enc).ready@,
{
}

/// A session is set up step by step: eight output buffers, and on the two-thread path eight registered
/// events and the thread. Only then does it run, on the frame's device, and its first frame takes the
/// first slot.
pub proof fn law_a_session_is_equipped_before_it_runs(
    enc: &mut NvencD3d11Encoder,
    phase: SubmitPhase,
    f: FrameIn,
    env_cap: usize,
    handle: u64,
    accepted: bool,
    budget: &mut SessionBudget,
    s: SubmitStep,
)
    requires
        old(enc).stands_at(phase),
        phase == SubmitPhase::Buffers || phase == SubmitPhase::Events || phase
            == SubmitPhase::Registering || phase == SubmitPhase::Starting,
        accepted <==> phase == SubmitPhase::Registering || phase == SubmitPhase::Starting,
        old(enc).within_limits(f),
        call_ensures(
            NvencD3d11Encoder::setup_step,
            (
                enc,
                phase,
                &f,
                env_cap,
                if accepted {
                    SetupEvent::Accepted
                } else {
                    SetupEvent::Handle(handle)
                },
                budget,
            ),
            s,
        ),
    ensures
        phase == SubmitPhase::Buffers ==> final(enc).bitstreams@.len() == old(enc).bitstreams@.len() + 1
            && final(enc).bitstreams@.last() == handle,
        phase == SubmitPhase::Buffers && old(enc).bitstreams@.len() + 1 < 8 ==> s.phase
            == SubmitPhase::Buffers && s.action == SubmitAction::CreateBuffer,
        phase == SubmitPhase::Buffers && old(enc).bitstreams@.len() + 1 >= 8
            && old(enc).ses.session_async ==> s.phase == SubmitPhase::Events && s.action
            == SubmitAction::CreateEvent,
        phase == SubmitPhase::Events ==> s.phase == SubmitPhase::Registering && s.action
            == SubmitAction::RegisterEvent(handle)
                && final(enc).events@.len() == old(enc).events@.len() + 1
                && final(enc).events@.last() == handle,
        phase == SubmitPhase::Registering
            ==> (s.action == SubmitAction::Start <==> old(enc).events@.len() >= 8)
            && (s.action == SubmitAction::CreateEvent <==> old(enc).events@.len()
            < 8),
        ({
            let runs = phase == SubmitPhase::Starting || (phase == SubmitPhase::Buffers
                && old(enc).bitstreams@.len() + 1 >= 8 && !old(enc).ses.session_async);
            &&& runs ==> final(enc).ses.inited && final(enc).ses.init_device == f.device
                && final(enc).ses.async_on == old(enc).ses.session_async
            &&& !runs ==> final(enc).ses == old(enc).ses
            &&& runs && !old(enc).ses.session_async && !old(enc).regs@.contains_key(f.texture)
                ==> s.action == SubmitAction::RegisterTexture && s.phase == (SubmitPhase::Texture {
                slot: (old(enc).ses.next % 8) as usize,
                opening: old(enc).ses.next == 0,
            }) && final(enc).ses.next == old(enc).ses.next + 1
        }),
        final(enc).cfg == old(enc).cfg && final(enc).flow == old(enc).flow && final(enc).pending@
            == old(enc).pending@ && final(enc).ses.encoder == old(enc).ses.encoder,
        final(budget).live_units == old(budget).live_units,
{
}

/// After a teardown a frame is adopted and the adapter asked, unless the teardown was for a failure,
/// which is then told. A failed action has everything torn down.
pub proof fn law_a_teardown_starts_over_or_tells_its_failure(
    enc: &mut NvencD3d11Encoder,
    phase: SubmitPhase,
    f: FrameIn,
    env_cap: usize,
    budget: &mut SessionBudget,
    s: SubmitStep,
    failed: &mut NvencD3d11Encoder,
    at: SubmitPhase,
    e: NvencError,
    other: &mut SessionBudget,
    t: SubmitStep,
)
    requires
        call_ensures(
            NvencD3d11Encoder::setup_step,
            (enc, phase, &f, env_cap, SetupEvent::TornDown, budget),
            s,
        ),
        call_ensures(
            NvencD3d11Encoder::setup_step,
            (failed, at, &f, env_cap, SetupEvent::Failed(e), other),
            t,
        ),
    ensures
        phase matches SubmitPhase::Failing(cause) ==> s.phase == SubmitPhase::Refused(cause) && s.action
            == SubmitAction::Nothing,
        !(phase is Failing) ==> s.phase == SubmitPhase::Caps && s.action == SubmitAction::QueryCaps
            && final(enc).cfg.width == f.width && final(enc).cfg.height == f.height,
        t.phase == SubmitPhase::Failing(e) && t.action == SubmitAction::TearDown,
        final(failed).ses == old(failed).ses && final(failed).bitstreams@ == old(failed).bitstreams@,
        final(budget).live_units == old(budget).live_units
            && final(other).live_units == old(other).live_units,
{
}

/// A session is asked for at the wanted rate, or at the ceiling remembered for it, split and sliced as
/// resolved; two threads are used only where the adapter can and it was asked for.
pub proof fn law_a_session_is_asked_for_as_resolved(
    enc: &mut NvencD3d11Encoder,
    f: FrameIn,
    env_cap: usize,
    slices: u32,
    split_mode: u32,
    subframe: bool,
    asked: bool,
    ceiling: Option<u64>,
    budget: &mut SessionBudget,
    s: SubmitStep,
)
    requires
        call_ensures(
            NvencD3d11Encoder::setup_step,
            (
                enc,
                SubmitPhase::Resolving,
                &f,
                env_cap,
                SetupEvent::Resolved {
                    slices,
                    split_mode,
                    subframe,
                    async_requested: asked,
                    ceiling,
                },
                budget,
            ),
            s,
        ),
    ensures
        s.action matches SubmitAction::Open(a) && a.split_mode == split_mode
            && a.bps <= old(enc).cfg.bitrate_bps,
        s.phase matches SubmitPhase::Opening { search, subframe: sub, use_async } && sub == subframe
            && use_async == (asked && old(enc).cfg.async_supported),
        ceiling is None ==> (s.action matches SubmitAction::Open(a)
            && a.bps == old(enc).cfg.bitrate_bps),
        ceiling matches Some(c) ==> (s.action matches SubmitAction::Open(a)
            && a.bps == (if c < old(enc).cfg.bitrate_bps {
            c
        } else {
            old(enc).cfg.bitrate_bps
        })),
        final(enc).cfg.slices == slices,
        final(enc).cfg.width == old(enc).cfg.width && final(enc).ses.encoder == old(enc).ses.encoder,
{
}

} // verus!

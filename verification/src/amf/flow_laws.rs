//! What holds of the AMF encoder from frame to frame.
//!
//! The laws speak of what the executable functions return and do, for all inputs: a premise
//! `call_ensures` names a call, its arguments and its result.
use crate::amf::props::StaticInputs;
use crate::amf::submit::{FrameIn, SubmitAction, SubmitEvent, SubmitPhase, SubmitStep};
use crate::amf::{AmfEncoder, AmfError, DrainOutcome, FramePlan, OutputEvent, PollStep};
use crate::amf_sys::{AMF_EOF, AMF_NEED_MORE_INPUT, AMF_OK, AMF_REPEAT};
use crate::flow::{DrainStep, PollBegin, ResetPlan};
use crate::types::{ChromaFormat, Codec, EncoderCaps, HdrMeta, PayloadKind, PixelFormat};
use vstd::prelude::*;

verus! {

/// An opened encoder encodes what it was opened for, at the depth of the delivered pixels. It opens for
/// the two planar layouts only, ten-bit ones not as H.264, and AV1 only where a probe found it.
pub proof fn law_an_opened_encoder_is_the_wanted_one(
    runtime_ok: bool,
    av1_probed: bool,
    codec: Codec,
    format: PixelFormat,
    width: u32,
    height: u32,
    fps: u32,
    bitrate_bps: u64,
    depth: u8,
    chroma: ChromaFormat,
    mark_interval: i64,
    hook: Option<i64>,
    r: Result<AmfEncoder, AmfError>,
)
    requires
        codec != Codec::PyroWave,
        mark_interval >= 1,
        call_ensures(
            AmfEncoder::open,
            (
                runtime_ok,
                av1_probed,
                codec,
                format,
                width,
                height,
                fps,
                bitrate_bps,
                depth,
                chroma,
                mark_interval,
                hook,
            ),
            r,
        ),
    ensures
        r is Ok <==> runtime_ok && (codec == Codec::Av1 ==> av1_probed) && (format == PixelFormat::Nv12
            || (format == PixelFormat::P010 && codec != Codec::H264)),
        r matches Ok(enc) ==> {
            &&& enc.wf()
            &&& enc.cfg.codec == codec && enc.cfg.width == width && enc.cfg.height == height
            &&& enc.cfg.fps == fps && enc.cfg.bitrate_bps == bitrate_bps
            &&& enc.cfg.ten_bit <==> format == PixelFormat::P010
            &&& !enc.ses.live && enc.pending@.len() == 0 && enc.ready@.len() == 0
            &&& !enc.ses.ltr_active && !enc.ses.ir_active
            &&& enc.ltr.mark_interval == mark_interval && enc.flow.test_force_at == hook
            &&& enc.flow.frame_idx == 0 && enc.flow.hdr_meta is None
        },
        r matches Err(e) ==> {
            &&& e == AmfError::Unavailable <==> !runtime_ok
            &&& e == AmfError::Av1Declined <==> runtime_ok && codec == Codec::Av1 && !av1_probed
            &&& e == AmfError::TenBitH264 ==> codec == Codec::H264 && format == PixelFormat::P010
            &&& e matches AmfError::FormatMismatch { expected, delivered } ==> delivered == format
                && expected != format && (expected == PixelFormat::P010 || expected
                == PixelFormat::Nv12)
        },
{
}

/// A component is configured for the encoder's own stream; long-term references are wanted unless
/// switched off, and only of the codecs that have them.
pub proof fn law_a_component_is_configured_as_opened(
    enc: AmfEncoder,
    usage: i64,
    vbv_bits: i64,
    off: bool,
    wave: Option<u32>,
    inp: StaticInputs,
    wanted: bool,
)
    requires
        enc.wf(),
        call_ensures(AmfEncoder::static_inputs, (&enc, usage, vbv_bits, off, wave), inp),
        call_ensures(AmfEncoder::ltr_wanted, (&enc, off), wanted),
    ensures
        inp.codec == enc.cfg.codec && inp.width == enc.cfg.width && inp.height == enc.cfg.height,
        inp.fps == enc.cfg.fps && inp.bitrate_bps == enc.cfg.bitrate_bps,
        inp.ten_bit == enc.cfg.ten_bit && inp.usage == usage && inp.vbv_bits == vbv_bits,
        inp.wave == wave && inp.ltr_wanted == wanted,
        wanted <==> !off && enc.cfg.codec != Codec::Av1,
{
}

/// Frames are timed in units of 100 ns by their number and the frame rate: a frame's time, times the
/// rate, is its number in seconds, short of it by less than one unit's worth.
pub proof fn law_frames_are_timed_by_their_number(
    enc: &mut AmfEncoder,
    next: &mut AmfEncoder,
    p: FramePlan,
    q: FramePlan,
)
    requires
        old(enc).wf() && old(next).wf(),
        old(enc).within_limits() && old(next).within_limits(),
        call_ensures(AmfEncoder::plan_frame, (enc,), p),
        call_ensures(AmfEncoder::plan_frame, (next,), q),
    ensures
        old(enc).cfg.fps >= 1 ==> p.pts_100ns * old(enc).cfg.fps <= old(enc).flow.frame_idx * 10_000_000
            < (p.pts_100ns + 1) * old(enc).cfg.fps,
        old(enc).cfg.fps == 0 ==> p.pts_100ns == old(enc).flow.frame_idx * 10_000_000,
        *old(next) == *final(enc) ==> q.pts_100ns >= p.pts_100ns
            && q.forced == (old(enc).ses.next == 0),
        final(enc).flow.frame_idx == old(enc).flow.frame_idx + 1,
        p.forced <==> old(enc).flow.force_kf || old(enc).ses.next == 0,
        p.recovery_anchor <==> p.force is Some,
        !(p.mark is Some && p.force is Some),
        !old(enc).ses.ltr_active ==> p.mark is None && p.force is None,
{
    let fps: int = if old(enc).cfg.fps == 0 {
        1
    } else {
        old(enc).cfg.fps as int
    };
    let t = old(enc).flow.frame_idx * 10_000_000;
    vstd::arithmetic::div_mod::lemma_fundamental_div_mod(t, fps);
    let quot = t / fps;
    assert(quot * fps <= t < (quot + 1) * fps) by (nonlinear_arith)
        requires
            t == fps * quot + t % fps,
            0 <= t % fps < fps,
    ;
    if *old(next) == *final(enc) {
        vstd::arithmetic::div_mod::lemma_div_is_ordered(t, t + 10_000_000, fps);
    }
}

/// A new component's first frame is a keyframe and is offered at once, in the first texture of the
/// ring: nothing else is in flight.
pub proof fn law_a_new_session_starts_with_a_keyframe(
    enc: &mut AmfEncoder,
    pts_ns: u64,
    r: Result<SubmitStep, AmfError>,
)
    requires
        old(enc).wf(),
        old(enc).within_limits(),
        !old(enc).ses.live,
        call_ensures(
            AmfEncoder::submit_step,
            (enc, SubmitPhase::Equipping, pts_ns, SubmitEvent::Built),
            r,
        ),
    ensures
        r is Ok,
        r->Ok_0.action == SubmitAction::Offer(0),
        r->Ok_0.phase matches SubmitPhase::Offered { plan, again, ended } && plan.forced && !again
            && !ended,
        final(enc).ses.live,
        final(enc).ses.ltr_active == old(enc).ses.ltr_active && final(enc).ses.ir_active
            == old(enc).ses.ir_active,
        final(enc).ses.next == 1,
        final(enc).pending@.len() == 0,
        old(enc).ses.hdr_pushed is None && old(enc).cfg.ten_bit && old(enc).cfg.codec != Codec::H264
            ==> r->Ok_0.hdr == old(enc).flow.hdr_meta,
        !old(enc).cfg.ten_bit || old(enc).cfg.codec == Codec::H264 ==> r->Ok_0.hdr is None,
{
}

/// The recovery features a session claims are those its component was initialised with; the textures
/// come after.
pub proof fn law_features_come_with_the_component(
    enc: &mut AmfEncoder,
    pts_ns: u64,
    wave: bool,
    refs: bool,
    r: Result<SubmitStep, AmfError>,
)
    requires
        old(enc).wf(),
        call_ensures(
            AmfEncoder::submit_step,
            (
                enc,
                SubmitPhase::Building,
                pts_ns,
                SubmitEvent::Initialised { ir_active: wave, ltr_active: refs },
            ),
            r,
        ),
    ensures
        r is Ok && r->Ok_0.phase is Equipping && r->Ok_0.action == SubmitAction::MakeRing,
        final(enc).ses.ir_active == wave && final(enc).ses.ltr_active == refs,
        final(enc).ses.live == old(enc).ses.live,
        refs ==> final(enc).ltr.is_cleared(),
        final(enc).flow == old(enc).flow && final(enc).cfg == old(enc).cfg,
{
}

/// A frame that fits has a component built where none runs on its device, waits where five frames are
/// in flight, and else is offered in the texture whose turn it is, one of six. So a texture is not
/// written while a frame in flight may be read from it.
pub proof fn law_a_submit_builds_waits_or_offers(
    enc: &mut AmfEncoder,
    f: FrameIn,
    r: Result<SubmitStep, AmfError>,
)
    requires
        old(enc).wf(),
        old(enc).within_limits(),
        call_ensures(AmfEncoder::submit, (enc, &f), r),
    ensures
        r is Ok <==> f.width == old(enc).cfg.width && f.height == old(enc).cfg.height && f.payload
            == PayloadKind::D3d11 && f.format == (if old(enc).cfg.ten_bit {
            PixelFormat::P010
        } else {
            PixelFormat::Nv12
        }),
        r is Err ==> final(enc).flow == old(enc).flow && final(enc).ses == old(enc).ses
            && final(enc).pending@ == old(enc).pending@ && final(enc).ready@ == old(enc).ready@,
        r matches Ok(s) ==> {
            &&& s.phase is Building <==> !old(enc).ses.live || old(enc).ses.bound_device != f.device
            &&& s.phase is Building ==> {
                &&& s.action == SubmitAction::Build
                &&& !final(enc).ses.live && final(enc).ses.bound_device == f.device
                &&& final(enc).ses.next == 0
                &&& final(enc).pending@.len() == 0 && final(enc).ready@.len() == 0
                &&& final(enc).flow == old(enc).flow
            }
            &&& s.phase is Room <==> !(s.phase is Building) && old(enc).pending@.len() >= 5
            &&& s.phase is Offered <==> !(s.phase is Building) && old(enc).pending@.len() < 5
            &&& s.phase is Room ==> s.action == SubmitAction::Query
            &&& s.phase is Offered ==> s.action == SubmitAction::Offer(
                (old(enc).ses.next % 6) as usize,
            ) && final(enc).ses.next == old(enc).ses.next + 1
            &&& !(s.phase is Building) ==> {
                &&& final(enc).pending@ == old(enc).pending@ && final(enc).ready@ == old(enc).ready@
                &&& final(enc).flow.frame_idx == old(enc).flow.frame_idx + 1
            }
        },
{
}

/// While a submit waits for a texture its plan stays as it is. It offers once fewer than five frames
/// are in flight or the stream has ended; a wait that outlasts its budget reports how many frames were,
/// and asks for a keyframe.
pub proof fn law_a_wait_for_a_texture_ends(
    enc: &mut AmfEncoder,
    plan: FramePlan,
    pts_ns: u64,
    event: OutputEvent,
    spent: bool,
    r: Result<SubmitStep, AmfError>,
)
    requires
        old(enc).wf(),
        old(enc).ses.next < usize::MAX,
        call_ensures(
            AmfEncoder::submit_step,
            (
                enc,
                SubmitPhase::Room(plan),
                pts_ns,
                SubmitEvent::Output { event, budget_spent: spent },
            ),
            r,
        ),
    ensures
        r matches Ok(s) ==> {
            &&& s.phase is Room || s.phase is Offered
            &&& s.phase matches SubmitPhase::Room(p) ==> p == plan && final(enc).pending@.len() >= 5
            &&& s.phase matches SubmitPhase::Offered { plan: p, again, ended } ==> p == plan && !again
                && (ended || final(enc).pending@.len() < 5) && (ended <==> event
                == OutputEvent::Empty(23))
            &&& s.phase is Offered ==> s.action == SubmitAction::Offer(
                (old(enc).ses.next % 6) as usize,
            )
        },
        (event == OutputEvent::Empty(0) || event == OutputEvent::Empty(24) || event
            == OutputEvent::Empty(44)) && spent ==> r == Err::<SubmitStep, AmfError>(
            AmfError::Wedged { in_flight: old(enc).pending@.len() as usize },
        ) && final(enc).flow.force_kf,
        event matches OutputEvent::Unit { kind, data } && data@.len() > 0 ==> r is Ok
            && final(enc).ready@.len() == old(enc).ready@.len() + 1,
{
}

/// An answer to an offer ends the submit, unless the queue is full and may still be drained: it is
/// drained once whatever the budget says. A frame that was taken is in flight; any other ending leaves
/// it out and asks for a keyframe.
pub proof fn law_an_offer_is_taken_drained_for_or_refused(
    enc: &mut AmfEncoder,
    plan: FramePlan,
    again: bool,
    ended: bool,
    pts_ns: u64,
    code: i32,
    spent: bool,
    r: Result<SubmitStep, AmfError>,
)
    requires
        old(enc).wf(),
        call_ensures(
            AmfEncoder::submit_step,
            (
                enc,
                SubmitPhase::Offered { plan, again, ended },
                pts_ns,
                SubmitEvent::Answer { code, budget_spent: spent },
            ),
            r,
        ),
    ensures
        code == 0 || code == 44 ==> r is Ok && r->Ok_0.phase is Done && r->Ok_0.action
            == SubmitAction::Nothing && final(enc).pending@.len() == old(enc).pending@.len() + 1
            && final(enc).pending@.last().pts_ns == pts_ns && final(enc).pending@.last().forced
            == plan.forced && final(enc).pending@.last().recovery_anchor == plan.recovery_anchor
            && final(enc).flow == old(enc).flow,
        code == 25 && !(again && spent) ==> r is Ok && r->Ok_0.phase == (SubmitPhase::Full {
            plan,
            ended,
        }) && r->Ok_0.action == SubmitAction::Query && final(enc).pending@ == old(enc).pending@,
        code == 25 && again && spent ==> r == Err::<SubmitStep, AmfError>(AmfError::InputFull),
        code != 0 && code != 44 && code != 25 ==> r == Err::<SubmitStep, AmfError>(
            AmfError::Call(code),
        ),
        r is Err ==> final(enc).flow.force_kf && final(enc).pending@ == old(enc).pending@,
{
}

/// While the queue is full, a unit that comes is kept for the next poll and the same frame is offered
/// again; without one it is offered again after a rest. The end of the stream leaves the queue full.
pub proof fn law_a_full_queue_is_drained(
    enc: &mut AmfEncoder,
    plan: FramePlan,
    ended: bool,
    pts_ns: u64,
    event: OutputEvent,
    spent: bool,
    r: Result<SubmitStep, AmfError>,
)
    requires
        old(enc).wf(),
        call_ensures(
            AmfEncoder::submit_step,
            (
                enc,
                SubmitPhase::Full { plan, ended },
                pts_ns,
                SubmitEvent::Output { event, budget_spent: spent },
            ),
            r,
        ),
    ensures
        event matches OutputEvent::Unit { kind, data } && data@.len() > 0 ==> r is Ok
            && r->Ok_0.action == SubmitAction::OfferAgain
                && final(enc).ready@.len() == old(enc).ready@.len() + 1,
        event == OutputEvent::Empty(0) || event == OutputEvent::Empty(24) || event
            == OutputEvent::Empty(44) ==> r is Ok && r->Ok_0.action == SubmitAction::WaitAndOffer
            && final(enc).ready@ == old(enc).ready@,
        r is Ok ==> r->Ok_0.phase == (SubmitPhase::Offered { plan, again: true, ended }),
        event == OutputEvent::Empty(23) ==> r == Err::<SubmitStep, AmfError>(AmfError::InputFull)
            && final(enc).flow.force_kf,
        event matches OutputEvent::NoBuffer(code) ==> r == Err::<SubmitStep, AmfError>(
            AmfError::Call(code),
        ),
{
}

/// A unit carries its frame: the component's bytes, the time of the oldest frame in flight, and its
/// mark as the answer to a loss. It is a keyframe where the frame was submitted as one, or by its output
/// type: up to type 1, for AV1 type 0 alone.
pub proof fn law_a_unit_carries_its_frame(
    sent: &mut AmfEncoder,
    drained: &mut AmfEncoder,
    code: i32,
    plan: FramePlan,
    pts_ns: u64,
    x: Result<(), AmfError>,
    kind: Option<i64>,
    data: Vec<u8>,
    got: Result<DrainOutcome, AmfError>,
)
    requires
        old(sent).wf(),
        old(sent).pending@.len() == 0,
        code == 0 || code == 44,
        data@.len() > 0,
        call_ensures(AmfEncoder::finish_submit, (sent, code, &plan, pts_ns), x),
        call_ensures(AmfEncoder::drain_one_output, (drained, OutputEvent::Unit { kind, data }), got),
    ensures
        x is Ok,
        *old(drained) == *final(sent) ==> {
            &&& got matches Ok(DrainOutcome::Frame(au)) && {
                &&& au.data@ == data@
                &&& au.pts_ns == pts_ns
                &&& au.recovery_anchor == plan.recovery_anchor
                &&& !au.chunk_aligned
                &&& au.keyframe <==> plan.forced || (kind is Some && (if old(sent).cfg.codec
                    == Codec::Av1 {
                    kind->0 <= 0
                } else {
                    kind->0 <= 1
                }))
            }
            &&& final(drained).pending@.len() == 0
        },
{
}

/// What a query without a unit means: the codes for "nothing yet", the end of the stream, and a failure
/// for every other one. None of them costs a frame.
pub proof fn law_queries_without_a_unit(
    enc: &mut AmfEncoder,
    event: OutputEvent,
    got: Result<DrainOutcome, AmfError>,
)
    requires
        old(enc).wf(),
        call_ensures(AmfEncoder::drain_one_output, (enc, event), got),
    ensures
        event matches OutputEvent::Empty(code) ==> {
            &&& code == 23 <==> (got is Ok && got->Ok_0 is Eof)
            &&& code == 0 || code == 24 || code == 44 <==> (got is Ok && got->Ok_0 is NotReady)
            &&& got is Err ==> got->Err_0 == AmfError::Call(code)
        },
        event matches OutputEvent::NoBuffer(code) ==> got is Err && got->Err_0 == AmfError::Call(code),
        event matches OutputEvent::Unit { kind, data } && data@.len() == 0 ==> got is Err
            && got->Err_0 == AmfError::EmptyOutput,
        !(got is Ok && got->Ok_0 is Frame) ==> final(enc).pending@ == old(enc).pending@,
        final(enc).ready@ == old(enc).ready@,
{
}

/// A poll hands out units that were retrieved before first, then what a query brings; it waits only
/// while something is owed and its budget lasts, and owes nothing after the end of the stream.
pub proof fn law_a_poll_ends_or_waits(
    enc: &mut AmfEncoder,
    begun: &mut AmfEncoder,
    event: OutputEvent,
    spent: bool,
    r: Result<PollStep, AmfError>,
    b: PollBegin,
)
    requires
        old(enc).wf() && old(begun).wf(),
        call_ensures(AmfEncoder::poll_step, (enc, event, spent), r),
        call_ensures(AmfEncoder::poll, (begun,), b),
    ensures
        b is Idle <==> !old(begun).ses.live,
        b matches PollBegin::Ready(au) ==> old(begun).ready@.len() > 0 && au == old(begun).ready@[0]
            && final(begun).ready@ == old(begun).ready@.drop_first()
                && final(begun).flow.resets_without_output == 0,
        b is Query ==> old(begun).ready@.len() == 0,
        final(begun).pending@ == old(begun).pending@,
        r is Ok && r->Ok_0 is Wait <==> (event == OutputEvent::Empty(0) || event == OutputEvent::Empty(
            24,
        ) || event == OutputEvent::Empty(44)) && old(enc).pending@.len() > 0 && !spent,
        r is Ok && r->Ok_0 is Unit ==> final(enc).flow.resets_without_output == 0 && (
        old(enc).pending@.len() > 0 ==> final(enc).pending@ == old(enc).pending@.drop_first()
            && r->Ok_0->Unit_0.pts_ns == old(enc).pending@[0].pts_ns),
        event matches OutputEvent::Unit { kind, data } && data@.len() > 0 ==> r is Ok && r->Ok_0 is Unit
            && r->Ok_0->Unit_0.data@ == event->Unit_data@,
        event == OutputEvent::Empty(23) ==> r is Ok && r->Ok_0 is Nothing
            && final(enc).pending@.len() == 0,
{
}

/// The recovery ladder: a first reset restarts the component, a second without a unit in between drops
/// the session, and a unit starts the ladder over. The next frame is a keyframe, and metadata goes out
/// again.
pub proof fn law_the_recovery_ladder_has_two_rungs(
    first: &mut AmfEncoder,
    second: &mut AmfEncoder,
    polled: &mut AmfEncoder,
    p1: ResetPlan,
    p2: ResetPlan,
    b: PollBegin,
)
    requires
        old(first).wf() && old(second).wf() && old(polled).wf(),
        call_ensures(AmfEncoder::reset, (first,), p1),
        call_ensures(AmfEncoder::reset, (second,), p2),
        call_ensures(AmfEncoder::poll, (polled,), b),
    ensures
        p1 == ResetPlan::Idle <==> !old(first).ses.live,
        old(first).ses.live && old(first).flow.resets_without_output == 0 ==> p1 == ResetPlan::Rebuild,
        final(first).flow.force_kf,
        final(first).pending@.len() == 0 && final(first).ready@.len() == 0,
        final(first).flow.frame_idx == old(first).flow.frame_idx && final(first).cfg == old(first).cfg,
        p1 == ResetPlan::TornDown ==> !final(first).ses.live && final(first).ses.next == 0
            && !final(first).ses.ltr_active && !final(first).ses.ir_active,
        p1 != ResetPlan::Idle ==> final(first).ses.hdr_pushed is None,
        *old(second) == *final(first) && p1 == ResetPlan::Rebuild ==> p2 == ResetPlan::TornDown,
        *old(second) == *final(first) && p1 == ResetPlan::TornDown ==> p2 == ResetPlan::Idle,
        b is Ready && *old(second) == *final(polled) ==> p2 == ResetPlan::Rebuild,
{
}

/// A restart succeeds where the component took its configuration and was initialised; a failed one
/// leaves no session. Long-term references start over with every configuration.
pub proof fn law_a_restart_succeeds_or_drops_the_session(
    enc: &mut AmfEncoder,
    configured: Option<(bool, bool)>,
    init_ok: bool,
    rebuilt: bool,
)
    requires
        old(enc).wf(),
        call_ensures(AmfEncoder::finish_rebuild, (enc, configured, init_ok), rebuilt),
    ensures
        rebuilt <==> configured is Some && init_ok,
        rebuilt ==> final(enc).ses.live == old(enc).ses.live && final(enc).ses.ir_active == (
        configured->0).0 && final(enc).ses.ltr_active == (configured->0).1,
        !rebuilt ==> !final(enc).ses.live && !final(enc).ses.ltr_active && !final(enc).ses.ir_active
            && final(enc).pending@.len() == 0,
        configured is Some ==> final(enc).ltr.is_cleared(),
        final(enc).flow == old(enc).flow,
{
}

/// A change of rate takes at once where no component runs; else both rates have to be taken, and the
/// old rate stands where one was not. The rate to set is the wanted one, as far as signed numbers go.
pub proof fn law_a_rate_change_needs_both_rates(
    asked: &mut AmfEncoder,
    ended: &mut AmfEncoder,
    bps: u64,
    apply: Option<i64>,
    target_ok: bool,
    peak_ok: bool,
    ok: bool,
)
    requires
        old(asked).wf() && old(ended).wf(),
        call_ensures(AmfEncoder::reconfigure_bitrate, (asked, bps), apply),
        call_ensures(AmfEncoder::finish_reconfigure, (ended, bps, target_ok, peak_ok), ok),
    ensures
        apply is Some <==> old(asked).ses.live,
        apply matches Some(v) ==> (bps <= i64::MAX ==> v == bps) && (bps > i64::MAX ==> v == i64::MAX),
        apply is Some ==> final(asked).cfg == old(asked).cfg,
        apply is None ==> final(asked).cfg.bitrate_bps == bps,
        ok <==> target_ok && peak_ok,
        ok ==> final(ended).cfg.bitrate_bps == bps,
        !ok ==> final(ended).cfg == old(ended).cfg,
        final(ended).cfg.codec == old(ended).cfg.codec && final(ended).cfg.fps == old(ended).cfg.fps
            && final(ended).cfg.width == old(ended).cfg.width,
        final(ended).flow == old(ended).flow && final(ended).pending@ == old(ended).pending@,
{
}

/// A poll waits at most three quarters of a frame's time, and at most twelve milliseconds.
pub proof fn law_a_poll_waits_part_of_a_frame(enc: AmfEncoder, us: u64)
    requires
        call_ensures(AmfEncoder::poll_budget_us, (&enc,), us),
    ensures
        us <= 12_000,
        4 * us * enc.cfg.fps <= 3_000_000,
        us < 12_000 ==> 4 * (us + 1) * enc.cfg.fps > 3_000_000,
{
    let fps: int = if enc.cfg.fps == 0 {
        1
    } else {
        enc.cfg.fps as int
    };
    let share = 750_000int / fps;
    vstd::arithmetic::div_mod::lemma_fundamental_div_mod(750_000, fps);
    assert(share * fps <= 750_000 && 750_000 < (share + 1) * fps) by (nonlinear_arith)
        requires
            750_000 == fps * share + 750_000int % fps,
            0 <= 750_000int % fps < fps,
    ;
    assert(4 * us * enc.cfg.fps <= 4 * (share * fps)) by (nonlinear_arith)
        requires
            0 <= us <= share,
            0 <= enc.cfg.fps <= fps,
    ;
    if us < 12_000 {
        assert(us == share);
        assert(enc.cfg.fps == fps);
        assert(4 * (us + 1) * enc.cfg.fps == 4 * ((share + 1) * fps)) by (nonlinear_arith)
            requires
                us == share,
                enc.cfg.fps == fps,
        ;
    }
}

/// Metadata goes out once per change: what was handed out is not handed out again, and a stream that
/// cannot carry it never hands any out.
pub proof fn law_metadata_goes_out_once_per_change(
    enc: &mut AmfEncoder,
    again: &mut AmfEncoder,
    push: Option<HdrMeta>,
    second: Option<HdrMeta>,
)
    requires
        old(enc).wf() && old(again).wf(),
        call_ensures(AmfEncoder::take_hdr_update, (enc,), push),
        call_ensures(AmfEncoder::take_hdr_update, (again,), second),
    ensures
        push is Some ==> push == old(enc).flow.hdr_meta && old(enc).cfg.ten_bit && old(enc).cfg.codec
            != Codec::H264,
        old(enc).cfg.ten_bit && old(enc).cfg.codec != Codec::H264 && old(enc).ses.hdr_pushed is None
            ==> push == old(enc).flow.hdr_meta,
        push is Some && old(enc).ses.hdr_pushed is Some ==> push != old(enc).ses.hdr_pushed,
        *old(again) == *final(enc) ==> second is None,
{
}

/// A loss is answered exactly where references run and one of them was marked before it; the next frame
/// is then forced onto the newest such. No reference from the loss on is kept.
pub proof fn law_a_loss_is_answered_by_an_older_reference(
    enc: &mut AmfEncoder,
    first: i64,
    last: i64,
    answered: bool,
)
    requires
        old(enc).wf(),
        !old(enc).ltr.tainted@[0] && !old(enc).ltr.tainted@[1],
        call_ensures(AmfEncoder::invalidate_ref_frames, (enc, first, last), answered),
    ensures
        answered <==> old(enc).ses.ltr_active && 0 <= first <= last && exists|s: int|
            0 <= s < 2 && (#[trigger] old(enc).ltr.slots@[s]) is Some && old(enc).ltr.slots@[s]->0
                < first,
        answered ==> {
            let to = final(enc).ltr.pending_force;
            &&& to is Some && to->0 < 2 && old(enc).ltr.slots@[to->0 as int] is Some
            &&& old(enc).ltr.slots@[to->0 as int]->0 < first
            &&& forall|s: int|
                0 <= s < 2 && (#[trigger] old(enc).ltr.slots@[s]) is Some && old(enc).ltr.slots@[s]->0
                    < first ==> old(enc).ltr.slots@[s]->0 <= old(enc).ltr.slots@[to->0 as int]->0
        },
        old(enc).ses.ltr_active && 0 <= first <= last ==> forall|s: int|
            0 <= s < 2 && (#[trigger] final(enc).ltr.slots@[s]) is Some
                ==> final(enc).ltr.slots@[s]->0 < first,
        !old(enc).ses.ltr_active || first < 0 || first > last ==> final(enc).ltr == old(enc).ltr,
        final(enc).flow == old(enc).flow && final(enc).ses == old(enc).ses,
{
    let t = old(enc).ltr;
    let applies = old(enc).ses.ltr_active && 0 <= first <= last;
    if applies {
        if answered {
            let s = t.anchor_slot(first)->0;
            assert(t.slots@[s as int] is Some);
        }
        assert(t.slots@[0] is Some ==> t.trusted(0) is Some);
        assert(t.slots@[1] is Some ==> t.trusted(1) is Some);
    }
}

/// What a session promises its client is what runs in it, and nothing the backend does not do.
pub proof fn law_promises_are_what_runs(enc: AmfEncoder, c: EncoderCaps)
    requires
        call_ensures(AmfEncoder::caps, (&enc,), c),
    ensures
        c.supports_rfi == enc.ses.ltr_active,
        c.intra_refresh == enc.ses.ir_active,
        !c.blends_cursor && !c.chroma_444 && !c.intra_refresh_recovery && c.intra_refresh_period == 0,
{
}

/// Numbers, requests and grades that are set take effect on the next frame, and on nothing else.
pub proof fn law_settings_change_one_thing(
    indexed: &mut AmfEncoder,
    asked: &mut AmfEncoder,
    graded: &mut AmfEncoder,
    wire: u32,
    meta: Option<HdrMeta>,
)
    requires
        old(indexed).wf() && old(asked).wf() && old(graded).wf(),
        call_ensures(AmfEncoder::set_wire_index, (indexed, wire), ()),
        call_ensures(AmfEncoder::request_keyframe, (asked,), ()),
        call_ensures(AmfEncoder::set_hdr_meta, (graded, meta), ()),
    ensures
        final(indexed).flow.frame_idx == wire && final(indexed).flow.force_kf
            == old(indexed).flow.force_kf && final(indexed).ltr == old(indexed).ltr,
        final(asked).flow.force_kf && final(asked).flow.frame_idx == old(asked).flow.frame_idx
            && final(asked).pending@ == old(asked).pending@,
        final(graded).flow.hdr_meta == meta && final(graded).ses == old(graded).ses
            && final(graded).flow.force_kf == old(graded).flow.force_kf,
{
}

/// A running session stays where its device is the frame's; on any other device there is none until one
/// is built, nothing is in flight, and the next frame is a keyframe. The same question asked again is
/// answered the same way.
pub proof fn law_a_session_serves_one_device(
    enc: &mut AmfEncoder,
    device: u64,
    bound: bool,
    build: bool,
    again: &mut AmfEncoder,
    build_again: bool,
)
    requires
        old(enc).wf() && old(again).wf(),
        call_ensures(AmfEncoder::is_bound_to, (&*old(enc), device), bound),
        call_ensures(AmfEncoder::ensure_inner, (enc, device), build),
        call_ensures(AmfEncoder::ensure_inner, (again, device), build_again),
    ensures
        bound <==> old(enc).ses.live && old(enc).ses.bound_device == device,
        build <==> !bound,
        !build ==> final(enc).ses == old(enc).ses && final(enc).pending@ == old(enc).pending@
            && final(enc).ready@ == old(enc).ready@ && final(enc).flow == old(enc).flow,
        build ==> !final(enc).ses.live && final(enc).ses.bound_device == device && final(enc).ses.next
            == 0 && final(enc).ses.hdr_pushed is None && final(enc).pending@.len() == 0
            && final(enc).ready@.len() == 0,
        final(enc).cfg == old(enc).cfg && final(enc).flow == old(enc).flow,
        *old(again) == *final(enc) ==> build_again == build,
{
}

/// Textures are taken in turn, six in a ring: six frames on, the same one is taken again, and none of
/// the five in between is. Five frames in flight fill the ring.
pub proof fn law_textures_are_taken_in_turn(
    enc: &mut AmfEncoder,
    next: &mut AmfEncoder,
    slot: usize,
    following: usize,
    full: bool,
)
    requires
        old(enc).wf() && old(next).wf(),
        old(enc).ses.next < usize::MAX && old(next).ses.next < usize::MAX,
        call_ensures(AmfEncoder::take_slot, (enc,), slot),
        call_ensures(AmfEncoder::take_slot, (next,), following),
        call_ensures(AmfEncoder::ring_full, (&*old(enc),), full),
    ensures
        slot < 6 && following < 6,
        *old(next) == *final(enc) ==> following == (slot + 1) % 6,
        old(next).ses.next == old(enc).ses.next + 6 ==> following == slot,
        old(enc).ses.next < old(next).ses.next < old(enc).ses.next + 6 ==> following != slot,
        old(enc).ses.next == 0 ==> slot == 0,
        final(enc).pending@ == old(enc).pending@ && final(enc).ready@ == old(enc).ready@,
        final(enc).flow == old(enc).flow && final(enc).ses.live == old(enc).ses.live,
        full <==> old(enc).pending@.len() >= 5,
{
}

/// A wait for room moves one unit from flight to the queue, waits, or ends: where the runtime is done,
/// where a query fails, or where the time is up and a keyframe is due.
pub proof fn law_a_wait_for_room_ends(
    enc: &mut AmfEncoder,
    event: OutputEvent,
    spent: bool,
    r: Result<DrainStep, AmfError>,
)
    requires
        old(enc).wf(),
        old(enc).ses.live,
        call_ensures(AmfEncoder::make_room, (enc, event, spent), r),
    ensures
        event matches OutputEvent::Unit { kind, data } ==> {
            &&& r is Err <==> data@.len() == 0
            &&& r is Err ==> r->Err_0 == AmfError::EmptyOutput && final(enc).ready@ == old(enc).ready@
            &&& r is Ok ==> r->Ok_0 == DrainStep::Again
                && final(enc).ready@.len() == old(enc).ready@.len() + 1
                && final(enc).ready@.last().data@ == data@
            &&& r is Ok && old(enc).pending@.len() > 0 ==> {
                &&& final(enc).pending@ == old(enc).pending@.drop_first()
                &&& final(enc).ready@.last().pts_ns == old(enc).pending@[0].pts_ns
                &&& old(enc).pending@[0].forced ==> final(enc).ready@.last().keyframe
                &&& final(enc).ready@.last().recovery_anchor == old(enc).pending@[0].recovery_anchor
            }
        },
        event matches OutputEvent::NoBuffer(code) ==> r is Err && r->Err_0 == AmfError::Call(code),
        event matches OutputEvent::Empty(code) ==> {
            &&& code == AMF_EOF ==> r is Ok && r->Ok_0 == DrainStep::Ended
            &&& code == AMF_OK || code == AMF_REPEAT || code == AMF_NEED_MORE_INPUT ==> {
                &&& !spent ==> r is Ok && r->Ok_0 == DrainStep::Wait
                &&& spent ==> r is Err && r->Err_0 == (AmfError::Wedged {
                    in_flight: old(enc).pending@.len() as usize,
                })
            }
            &&& code != AMF_OK && code != AMF_EOF && code != AMF_REPEAT && code != AMF_NEED_MORE_INPUT
                ==> r is Err && r->Err_0 == AmfError::Call(code)
        },
        event !is Unit || r is Err ==> final(enc).pending@ == old(enc).pending@ && final(enc).ready@
            == old(enc).ready@,
        final(enc).flow.force_kf <==> old(enc).flow.force_kf || (r is Err && r->Err_0 is Wedged),
        final(enc).ses == old(enc).ses && final(enc).cfg == old(enc).cfg,
{
}

/// A component claims the recovery features that it was initialised with; references start afresh.
pub proof fn law_a_component_claims_what_it_has(enc: &mut AmfEncoder, wave: bool, refs: bool)
    requires
        old(enc).wf(),
        call_ensures(AmfEncoder::component_initialised, (enc, wave, refs), ()),
    ensures
        final(enc).ses.ir_active == wave && final(enc).ses.ltr_active == refs,
        refs ==> final(enc).ltr.slots@[0] is None && final(enc).ltr.slots@[1] is None
            && final(enc).ltr.next == 0,
        !refs ==> final(enc).ltr == old(enc).ltr,
        final(enc).ses.live == old(enc).ses.live
            && final(enc).ses.bound_device == old(enc).ses.bound_device
            && final(enc).ses.next == old(enc).ses.next,
        final(enc).pending@ == old(enc).pending@ && final(enc).flow == old(enc).flow,
{
}

/// Every operation leaves alone what it is not about: the configuration but for its rate, the numbering
/// but for a frame or a new number, the grade, the session, the references and the queues.
pub proof fn law_operations_leave_the_rest_alone(
    enc: &mut AmfEncoder,
    op: int,
    wire: u32,
    meta: Option<HdrMeta>,
    first: i64,
    last: i64,
    bps: u64,
    a: bool,
    b: bool,
    event: OutputEvent,
    code: i32,
    plan: FramePlan,
    pts_ns: u64,
    yes: bool,
    apply: Option<i64>,
    push: Option<HdrMeta>,
    planned: FramePlan,
    drained: Result<DrainOutcome, AmfError>,
    begin: PollBegin,
    polled: Result<PollStep, AmfError>,
    sent: Result<(), AmfError>,
    plan_of_reset: ResetPlan,
)
    requires
        old(enc).wf(),
        old(enc).within_limits(),
        0 <= op <= 12,
        op == 0 ==> call_ensures(AmfEncoder::set_wire_index, (enc, wire), ()),
        op == 1 ==> call_ensures(AmfEncoder::request_keyframe, (enc,), ()),
        op == 2 ==> call_ensures(AmfEncoder::set_hdr_meta, (enc, meta), ()),
        op == 3 ==> call_ensures(AmfEncoder::invalidate_ref_frames, (enc, first, last), yes),
        op == 4 ==> call_ensures(AmfEncoder::reconfigure_bitrate, (enc, bps), apply),
        op == 5 ==> call_ensures(AmfEncoder::finish_reconfigure, (enc, bps, a, b), yes),
        op == 6 ==> call_ensures(AmfEncoder::take_hdr_update, (enc,), push),
        op == 7 ==> call_ensures(AmfEncoder::plan_frame, (enc,), planned),
        op == 8 ==> call_ensures(AmfEncoder::drain_one_output, (enc, event), drained),
        op == 9 ==> call_ensures(AmfEncoder::poll, (enc,), begin),
        op == 10 ==> call_ensures(AmfEncoder::poll_step, (enc, event, a), polled),
        op == 11 ==> call_ensures(AmfEncoder::finish_submit, (enc, code, &plan, pts_ns), sent),
        op == 12 ==> call_ensures(AmfEncoder::reset, (enc,), plan_of_reset),
    ensures
        op != 4 && op != 5 ==> final(enc).cfg == old(enc).cfg,
        final(enc).cfg.codec == old(enc).cfg.codec && final(enc).cfg.width == old(enc).cfg.width
            && final(enc).cfg.height == old(enc).cfg.height && final(enc).cfg.fps == old(enc).cfg.fps
            && final(enc).cfg.ten_bit == old(enc).cfg.ten_bit,
        op != 0 && op != 7 ==> final(enc).flow.frame_idx == old(enc).flow.frame_idx,
        op != 2 ==> final(enc).flow.hdr_meta == old(enc).flow.hdr_meta,
        final(enc).flow.test_force_at == old(enc).flow.test_force_at,
        op != 1 && op != 7 && op != 11 && op != 12
            ==> final(enc).flow.force_kf == old(enc).flow.force_kf,
        op != 9 && op != 10 && op != 12
            ==> final(enc).flow.resets_without_output == old(enc).flow.resets_without_output,
        op != 6 && op != 11 && op != 12 ==> final(enc).ses == old(enc).ses,
        op != 3 && op != 7 ==> final(enc).ltr == old(enc).ltr,
        op <= 7 ==> final(enc).pending@ == old(enc).pending@,
        op <= 7 || op == 11 ==> final(enc).ready@ == old(enc).ready@,
        op == 6 || op == 11 ==> final(enc).ses.live == old(enc).ses.live && final(enc).ses.bound_device
            == old(enc).ses.bound_device && final(enc).ses.next == old(enc).ses.next
            && final(enc).ses.ltr_active == old(enc).ses.ltr_active && final(enc).ses.ir_active
            == old(enc).ses.ir_active,
{
}

/// A unit that no frame in flight stands for carries its bytes alone: no time, no anchor, and it is a
/// keyframe only by its own type.
pub proof fn law_a_stray_unit_carries_its_bytes_alone(
    enc: &mut AmfEncoder,
    kind: Option<i64>,
    data: Vec<u8>,
    spent: bool,
    r: Result<DrainStep, AmfError>,
)
    requires
        old(enc).wf(),
        old(enc).ses.live,
        old(enc).pending@.len() == 0,
        data@.len() > 0,
        call_ensures(AmfEncoder::make_room, (enc, OutputEvent::Unit { kind, data }, spent), r),
    ensures
        r is Ok,
        final(enc).pending@.len() == 0,
        final(enc).ready@.len() == old(enc).ready@.len() + 1,
        ({
            let au = final(enc).ready@.last();
            &&& au.data@ == data@ && au.pts_ns == 0 && !au.recovery_anchor
            &&& kind is None ==> !au.keyframe
            &&& kind == Some(0i64) ==> au.keyframe
            &&& kind == Some(1i64) ==> (au.keyframe <==> old(enc).cfg.codec != Codec::Av1)
            &&& kind is Some && kind->0 > 1 ==> !au.keyframe
        }),
        final(enc).ready@.drop_last() == old(enc).ready@,
{
}

} // verus!

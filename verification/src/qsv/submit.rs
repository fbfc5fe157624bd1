//! Submitting a frame, from the captured frame to the frame in flight.
//!
//! The order of a submit is fixed here: [`QsvEncoder::submit`] begins it, [`QsvEncoder::submit_step`]
//! takes what the last action brought and names the next one.
use crate::flow::{input_refusal, DrainStep, FlowState};
use crate::qsv::params::{frame_ctrl, FrameCtrl, QsvError, Status};
use crate::qsv::{
    ticks_90k, timestamp, FramePlan, Initialised, QsvEncoder, SyncEvent, IN_FLIGHT_MAX,
};
use crate::types::{PayloadKind, PixelFormat};
use vstd::prelude::*;

verus! {

/// A captured frame as the encoder sees it.
#[derive(Clone, Copy, Debug, PartialEq, Eq, Structural)]
pub struct FrameIn {
    pub width: u32,
    pub height: u32,
    pub payload: PayloadKind,
    pub format: PixelFormat,
    pub device: u64,
    pub pts_ns: u64,
}

/// Where a submit stands.
#[derive(Clone, Copy, Debug)]
pub enum SubmitPhase {
    /// A session is being built.
    Building,
    /// Too many frames are in flight.
    Room(FramePlan),
    /// The frame is being copied into a surface.
    Copying(FramePlan),
    /// The frame was handed to the encoder.
    Encoding(FramePlan),
    /// The device was busy; output may free it.
    Busy(FramePlan),
    /// The frame is in flight.
    Done,
}

/// What the caller does next.
#[derive(Debug)]
pub enum SubmitAction {
    /// Build a session on the frame's device.
    Build,
    /// Wait shortly on the oldest frame in flight.
    Sync,
    /// Sleep a little, then wait on the oldest frame in flight.
    SleepAndSync,
    /// Copy the frame into a surface of the runtime.
    Copy,
    /// Encode the surface into this buffer.
    Encode(Vec<u8>),
    /// Wait shortly on the oldest frame in flight, keeping the buffer.
    SyncBusy(Vec<u8>),
    /// Sleep a little, then encode again.
    EncodeAgain,
    /// Nothing; the submit has ended.
    Nothing,
}

#[derive(Debug)]
pub struct SubmitStep {
    pub phase: SubmitPhase,
    pub action: SubmitAction,
}

/// What an action brought.
pub enum SubmitEvent {
    /// The session was built.
    Built(Initialised),
    /// The session could not be built, or the frame not be copied.
    Failed(QsvError),
    /// The outcome of a wait, and whether waiting has outlasted its budget.
    Synced { event: SyncEvent, budget_spent: bool },
    /// The frame was copied.
    Copied,
    /// The encoder's answer, the handle to the unit and the buffer it will be written to.
    Answer { sts: Status, syncp: Option<u64>, buf: Vec<u8> },
}

impl SubmitPhase {
    /// The events that can follow.
    pub open spec fn expects(self, event: SubmitEvent) -> bool {
        match self {
            SubmitPhase::Building => event is Built || event is Failed,
            SubmitPhase::Room(_) => event is Synced,
            SubmitPhase::Copying(_) => event is Copied || event is Failed,
            SubmitPhase::Encoding(_) => event is Answer,
            SubmitPhase::Busy(_) => event is Synced,
            SubmitPhase::Done => false,
        }
    }
}

impl QsvEncoder {
    /// The limits of the machine's words are not reached.
    pub open spec fn within_limits(self) -> bool {
        &&& self.flow.frame_idx < i64::MAX
        &&& self.ses.frames_submitted < u64::MAX
    }

    /// A frame was planned, and room asked for.
    pub open spec fn prepares(self, s: SubmitStep, after: Self) -> bool {
        exists|plan: FramePlan|
            {
                &&& #[trigger] self.plans_frame(plan, after)
                &&& if after.pending@.len() >= IN_FLIGHT_MAX {
                    s.phase == SubmitPhase::Room(plan) && s.action is Sync
                } else {
                    s.phase == SubmitPhase::Copying(plan) && s.action is Copy
                }
            }
    }

    fn prepare(&mut self) -> (s: SubmitStep)
        requires
            old(self).wf(),
            old(self).ses.live,
            old(self).within_limits(),
        ensures
            old(self).prepares(s, *final(self)),
            final(self).wf(),
            final(self).ses.live,
    {
        let plan = self.plan_frame();
        assert(old(self).plans_frame(plan, *self));
        if self.in_flight_full() {
            SubmitStep { phase: SubmitPhase::Room(plan), action: SubmitAction::Sync }
        } else {
            SubmitStep { phase: SubmitPhase::Copying(plan), action: SubmitAction::Copy }
        }
    }

    /// Whether a session runs on the device.
    pub fn is_bound_to(&self, device: u64) -> (r: bool)
        ensures
            r == (self.ses.live && self.ses.bound_device == device),
    {
        self.ses.live && self.ses.bound_device == device
    }

    /// Whether a submit of the frame will give the session up, and with it the buffers that the frames
    /// in flight are written to.
    pub fn gives_up_session(&self, f: &FrameIn) -> (r: bool)
        ensures
            r == (self.ses.live && (self.ses.bound_device != f.device || self.hdr_is_stale())
                && input_refusal(
                (self.cfg.width, self.cfg.height),
                self.cfg.ten_bit,
                (f.width, f.height),
                f.payload,
                f.format,
            ) is None),
    {
        self.ses.live && (self.ses.bound_device != f.device || self.has_stale_hdr())
            && self.check_frame(f.width, f.height, f.payload, f.format).is_ok()
    }

    /// The step that builds a session.
    pub open spec fn is_build(s: SubmitStep) -> bool {
        s.phase is Building && s.action is Build
    }

    /// Begins a submit. A frame that does not fit is refused; a session on another device, one built
    /// for another HDR grade, or none, has to be built first.
    pub fn submit(&mut self, f: &FrameIn) -> (r: Result<SubmitStep, QsvError>)
        requires
            old(self).wf(),
            old(self).within_limits(),
        ensures
            final(self).wf(),
            match input_refusal(
                (old(self).cfg.width, old(self).cfg.height),
                old(self).cfg.ten_bit,
                (f.width, f.height),
                f.payload,
                f.format,
            ) {
                Some(e) => {
                    &&& r is Err && r->Err_0 == QsvError::Input(e)
                    &&& final(self).same_state(*old(self))
                    &&& final(self).same_queues(*old(self))
                },
                None => r is Ok && if !(old(self).ses.live && old(self).ses.bound_device
                    == f.device) {
                    old(self).rebinds(f.device, true, *final(self)) && Self::is_build(r->Ok_0)
                } else if old(self).hdr_is_stale() {
                    &&& Self::is_build(r->Ok_0)
                    &&& exists|mid: QsvEncoder| #[trigger]
                        old(self).drops_stale(true, mid) && mid.rebinds(f.device, true, *final(self))
                } else {
                    exists|mid: QsvEncoder| #[trigger]
                        old(self).drops_stale(false, mid) && mid.prepares(r->Ok_0, *final(self))
                },
            },
    {
        if let Err(e) = self.check_frame(f.width, f.height, f.payload, f.format) {
            return Err(QsvError::Input(e));
        }
        if !self.is_bound_to(f.device) {
            let _build = self.ensure_inner(f.device);
            return Ok(SubmitStep { phase: SubmitPhase::Building, action: SubmitAction::Build });
        }
        let dropped = self.drop_stale_hdr();
        let ghost mid = *self;
        assert(old(self).drops_stale(dropped, mid));
        if dropped {
            let _build = self.ensure_inner(f.device);
            assert(mid.rebinds(f.device, true, *self));
            return Ok(SubmitStep { phase: SubmitPhase::Building, action: SubmitAction::Build });
        }
        Ok(self.prepare())
    }

    /// What a submit that waits for room does with the outcome of a wait.
    pub open spec fn waits_for_room(
        self,
        plan: FramePlan,
        event: SyncEvent,
        budget_spent: bool,
        r: Result<SubmitStep, QsvError>,
        after: Self,
    ) -> bool {
        match r {
            Err(e) => self.makes_room(event, budget_spent, Err(e), after),
            Ok(s) => exists|step: DrainStep|
                {
                    &&& #[trigger] self.makes_room(event, budget_spent, Ok(step), after)
                    &&& if after.pending@.len() < IN_FLIGHT_MAX {
                        s.phase == SubmitPhase::Copying(plan) && s.action is Copy
                    } else {
                        &&& s.phase == SubmitPhase::Room(plan)
                        &&& if step == DrainStep::Wait {
                            s.action is SleepAndSync
                        } else {
                            s.action is Sync
                        }
                    }
                },
        }
    }

    fn room_step(&mut self, plan: FramePlan, event: SyncEvent, budget_spent: bool) -> (r: Result<
        SubmitStep,
        QsvError,
    >)
        requires
            old(self).wf(),
            old(self).ses.live,
            old(self).pending@.len() > 0,
        ensures
            old(self).waits_for_room(plan, event, budget_spent, r, *final(self)),
            final(self).wf(),
            final(self).ses.live,
    {
        let made = self.make_room(event, budget_spent);
        assert(old(self).makes_room(event, budget_spent, made, *self));
        let step = match made {
            Err(e) => {
                return Err(e);
            },
            Ok(step) => step,
        };
        if !self.in_flight_full() {
            return Ok(SubmitStep { phase: SubmitPhase::Copying(plan), action: SubmitAction::Copy });
        }
        let action = if step == DrainStep::Wait {
            SubmitAction::SleepAndSync
        } else {
            SubmitAction::Sync
        };
        Ok(SubmitStep { phase: SubmitPhase::Room(plan), action })
    }

    /// What a submit does with the encoder's answer: a busy device is given a chance to hand out a
    /// unit, any other answer settles the frame.
    pub open spec fn takes_answer(
        self,
        plan: FramePlan,
        pts_ns: u64,
        sts: Status,
        syncp: Option<u64>,
        buf: Vec<u8>,
        r: Result<SubmitStep, QsvError>,
        after: Self,
    ) -> bool {
        if sts == Status::WarnDeviceBusy {
            &&& after.same_state(self)
            &&& after.same_queues(self)
            &&& r is Ok
            &&& r->Ok_0.phase == SubmitPhase::Busy(plan)
            &&& r->Ok_0.action == SubmitAction::SyncBusy(buf)
        } else {
            match r {
                Ok(s) => {
                    &&& self.settles(sts, syncp, buf, plan, pts_ns, Ok(()), after)
                    &&& s.phase is Done && s.action is Nothing
                },
                Err(e) => self.settles(sts, syncp, buf, plan, pts_ns, Err(e), after),
            }
        }
    }

    fn answer_step(
        &mut self,
        plan: FramePlan,
        pts_ns: u64,
        sts: Status,
        syncp: Option<u64>,
        buf: Vec<u8>,
    ) -> (r: Result<SubmitStep, QsvError>)
        requires
            old(self).wf(),
            old(self).ses.live,
            old(self).within_limits(),
        ensures
            old(self).takes_answer(plan, pts_ns, sts, syncp, buf, r, *final(self)),
            final(self).wf(),
    {
        if sts == Status::WarnDeviceBusy {
            return Ok(
                SubmitStep { phase: SubmitPhase::Busy(plan), action: SubmitAction::SyncBusy(buf) },
            );
        }
        match self.finish_submit(sts, syncp, buf, &plan, pts_ns) {
            Ok(()) => Ok(SubmitStep { phase: SubmitPhase::Done, action: SubmitAction::Nothing }),
            Err(e) => Err(e),
        }
    }

    /// What a submit on a busy device does with the outcome of a wait: it tries again, unless the
    /// wait failed or has outlasted its budget.
    pub open spec fn waits_for_device(
        self,
        plan: FramePlan,
        event: SyncEvent,
        budget_spent: bool,
        r: Result<SubmitStep, QsvError>,
        after: Self,
    ) -> bool {
        exists|turn: Result<(), QsvError>, mid: QsvEncoder|
            #[trigger] self.turns_busy(event, turn, mid) && match turn {
                Err(e) => {
                    &&& r is Err && r->Err_0 == e
                    &&& self.turns_busy(event, turn, after)
                },
                Ok(()) => if budget_spent {
                    &&& r is Err && r->Err_0 == QsvError::DeviceBusy
                    &&& after.wf()
                    &&& after.cfg == mid.cfg
                    &&& after.ses == mid.ses
                    &&& after.ltr == mid.ltr
                    &&& after.same_queues(mid)
                    &&& after.flow == (FlowState { force_kf: true, ..mid.flow })
                } else {
                    &&& self.turns_busy(event, turn, after)
                    &&& r is Ok
                    &&& r->Ok_0.phase == SubmitPhase::Encoding(plan)
                    &&& r->Ok_0.action is EncodeAgain
                },
            }
    }

    fn busy_step(&mut self, plan: FramePlan, event: SyncEvent, budget_spent: bool) -> (r: Result<
        SubmitStep,
        QsvError,
    >)
        requires
            old(self).wf(),
            old(self).ses.live,
        ensures
            old(self).waits_for_device(plan, event, budget_spent, r, *final(self)),
            final(self).wf(),
    {
        let turn = self.busy_turn(event);
        let ghost mid = *self;
        assert(old(self).turns_busy(event, turn, mid));
        match turn {
            Err(e) => Err(e),
            Ok(()) => {
                if budget_spent {
                    self.request_keyframe();
                    return Err(QsvError::DeviceBusy);
                }
                Ok(
                    SubmitStep {
                        phase: SubmitPhase::Encoding(plan),
                        action: SubmitAction::EncodeAgain,
                    },
                )
            },
        }
    }

    /// Takes what the last action brought and decides the next one.
    pub fn submit_step(&mut self, phase: SubmitPhase, pts_ns: u64, event: SubmitEvent) -> (r: Result<
        SubmitStep,
        QsvError,
    >)
        requires
            old(self).wf(),
            old(self).within_limits(),
            phase.expects(event),
            phase is Building ==> !old(self).ses.live,
            !(phase is Building) ==> old(self).ses.live,
            phase is Room ==> old(self).pending@.len() > 0,
        ensures
            final(self).wf(),
            match event {
                SubmitEvent::Failed(e) => {
                    &&& r is Err && r->Err_0 == e
                    &&& final(self).same_state(*old(self))
                    &&& final(self).same_queues(*old(self))
                },
                SubmitEvent::Built(init) => r is Ok && exists|mid: QsvEncoder| #[trigger]
                    old(self).adopts(init, mid) && mid.prepares(r->Ok_0, *final(self)),
                SubmitEvent::Synced { event: e, budget_spent } => match phase {
                    SubmitPhase::Room(plan) => old(self).waits_for_room(
                        plan,
                        e,
                        budget_spent,
                        r,
                        *final(self),
                    ),
                    SubmitPhase::Busy(plan) => old(self).waits_for_device(
                        plan,
                        e,
                        budget_spent,
                        r,
                        *final(self),
                    ),
                    _ => true,
                },
                SubmitEvent::Copied => match phase {
                    SubmitPhase::Copying(plan) => {
                        &&& r is Ok
                        &&& r->Ok_0.phase == SubmitPhase::Encoding(plan)
                        &&& r->Ok_0.action is Encode
                        &&& old(self).takes_bs(r->Ok_0.action->Encode_0, *final(self))
                    },
                    _ => true,
                },
                SubmitEvent::Answer { sts, syncp, buf } => match phase {
                    SubmitPhase::Encoding(plan) => old(self).takes_answer(
                        plan,
                        pts_ns,
                        sts,
                        syncp,
                        buf,
                        r,
                        *final(self),
                    ),
                    _ => true,
                },
            },
    {
        match event {
            SubmitEvent::Failed(e) => Err(e),
            SubmitEvent::Built(init) => {
                self.session_built(&init);
                let ghost mid = *self;
                assert(old(self).adopts(init, mid));
                Ok(self.prepare())
            },
            SubmitEvent::Synced { event: e, budget_spent } => match phase {
                SubmitPhase::Room(plan) => self.room_step(plan, e, budget_spent),
                SubmitPhase::Busy(plan) => self.busy_step(plan, e, budget_spent),
                _ => vstd::pervasive::unreached(),
            },
            SubmitEvent::Copied => match phase {
                SubmitPhase::Copying(plan) => {
                    let buf = self.take_bs();
                    Ok(
                        SubmitStep {
                            phase: SubmitPhase::Encoding(plan),
                            action: SubmitAction::Encode(buf),
                        },
                    )
                },
                _ => vstd::pervasive::unreached(),
            },
            SubmitEvent::Answer { sts, syncp, buf } => match phase {
                SubmitPhase::Encoding(plan) => self.answer_step(plan, pts_ns, sts, syncp, buf),
                _ => vstd::pervasive::unreached(),
            },
        }
    }

    /// The control, order and time a planned frame is encoded with. The long-term slots are those
    /// after planning.
    pub fn frame_params(&self, plan: &FramePlan, pts_ns: u64) -> (r: (Option<FrameCtrl>, u32, u64))
        requires
            plan.cur_idx >= 0,
            plan.ltr.mark matches Some(s) ==> s < 2,
            plan.ltr.force matches Some(f) ==> f.0 < 2,
        ensures
            r.0 is Some == (plan.forced || plan.ltr.mark is Some || plan.ltr.force is Some),
            r.0 is Some ==> (r.0->0).is_for(
                self.cfg.codec,
                plan.cur_idx,
                plan.forced,
                plan.ltr,
                self.ltr.slots@,
            ),
            r.1 == plan.cur_idx as u32,
            r.2 == ticks_90k(pts_ns),
    {
        let ctrl = frame_ctrl(
            self.cfg.codec,
            plan.cur_idx,
            plan.forced,
            &plan.ltr,
            &self.ltr.slots,
        );
        (ctrl, plan.cur_idx as u32, timestamp(pts_ns))
    }
}

/// A submit that ends without an error has put exactly one frame in flight, with the buffer its unit
/// goes to; any other answer puts none in flight, and the next frame is a keyframe.
pub proof fn law_submit_puts_one_frame_in_flight(
    before: QsvEncoder,
    plan: FramePlan,
    pts_ns: u64,
    sts: Status,
    syncp: Option<u64>,
    buf: Vec<u8>,
    r: Result<SubmitStep, QsvError>,
    after: QsvEncoder,
)
    requires
        before.takes_answer(plan, pts_ns, sts, syncp, buf, r, after),
        sts != Status::WarnDeviceBusy,
    ensures
        r is Ok ==> after.pending@.len() == before.pending@.len() + 1 && after.pending@.last().buf
            == buf && after.pending@.last().unit.pts_ns == pts_ns && after.pending@.drop_last()
            == before.pending@,
        r is Err ==> after.pending@ == before.pending@ && after.next_is_keyframe(),
{
    if r is Ok {
        assert(after.pending@.drop_last() =~= before.pending@);
    }
}

/// A frame is copied only once fewer frames are in flight than are allowed, so that a submit leaves
/// at most that many.
pub proof fn law_copies_wait_for_room(
    before: QsvEncoder,
    plan: FramePlan,
    event: SyncEvent,
    budget_spent: bool,
    s: SubmitStep,
    after: QsvEncoder,
)
    requires
        before.waits_for_room(plan, event, budget_spent, Ok(s), after),
        s.action is Copy,
    ensures
        after.pending@.len() < IN_FLIGHT_MAX,
{
}

} // verus!

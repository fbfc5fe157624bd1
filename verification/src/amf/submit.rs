//! Submitting a frame, from the captured frame to the frame in flight.
//!
//! The order of a submit is fixed here: [`AmfEncoder::submit`] begins it, [`AmfEncoder::submit_step`]
//! takes what the last action brought and names the next one.
use crate::amf::{AmfEncoder, AmfError, DrainOutcome, FramePlan, OutputEvent, RING};
use crate::amf_sys::{AMF_EOF, AMF_INPUT_FULL};
use crate::flow::{input_refusal, DrainStep};
use crate::types::{HdrMeta, PayloadKind, PixelFormat};
use vstd::prelude::*;

verus! {

/// A captured frame as the encoder sees it.
#[derive(Clone, Copy, Debug, PartialEq, Eq, Structural)]
pub struct FrameIn {
    pub width: u32,
    pub height: u32,
    pub payload: PayloadKind,
    pub format: PixelFormat,
    pub device: u64,
    pub pts_ns: u64,
}

/// Where a submit stands.
#[derive(Clone, Copy, Debug)]
pub enum SubmitPhase {
    /// A component is being created and initialised.
    Building,
    /// The textures of an initialised component are being made.
    Equipping,
    /// Waiting for a free texture.
    Room(FramePlan),
    /// The frame was offered to the component, `again` after its queue was full before, `ended` where
    /// the wait for a texture met the end of the stream.
    Offered { plan: FramePlan, again: bool, ended: bool },
    /// The component's queue is full.
    Full { plan: FramePlan, ended: bool },
    /// The frame is in flight.
    Done,
}

/// What the caller does next.
#[derive(Clone, Copy, Debug, PartialEq, Eq, Structural)]
pub enum SubmitAction {
    /// Create a component on the frame's device, configure and initialise it.
    Build,
    /// Make the ring of textures for the component.
    MakeRing,
    /// Query for output.
    Query,
    /// Sleep a little, then query for output.
    Wait,
    /// Copy the frame into this texture, wrap it, set its properties and offer it.
    Offer(usize),
    /// Offer the same surface again.
    OfferAgain,
    /// Sleep a little, then offer the same surface again.
    WaitAndOffer,
    /// Nothing; the submit has ended.
    Nothing,
}

#[derive(Clone, Copy, Debug)]
pub struct SubmitStep {
    pub phase: SubmitPhase,
    /// Metadata to attach before the action.
    pub hdr: Option<HdrMeta>,
    pub action: SubmitAction,
}

/// What an action brought.
pub enum SubmitEvent {
    /// The component was initialised, with these recovery features.
    Initialised { ir_active: bool, ltr_active: bool },
    /// The session has all it needs.
    Built,
    /// The session could not be built, or the frame not be wrapped.
    Failed(AmfError),
    /// What a query brought, and whether the wait has outlasted its budget.
    Output { event: OutputEvent, budget_spent: bool },
    /// The component's answer to an offer, and whether the wait has outlasted its budget.
    Answer { code: i32, budget_spent: bool },
}

impl SubmitPhase {
    /// The events that can follow.
    pub open spec fn expects(self, event: SubmitEvent) -> bool {
        match self {
            SubmitPhase::Building => event is Initialised || event is Failed,
            SubmitPhase::Equipping => event is Built || event is Failed,
            SubmitPhase::Room(_) => event is Output,
            SubmitPhase::Offered { .. } => event is Answer || event is Failed,
            SubmitPhase::Full { .. } => event is Output,
            SubmitPhase::Done => false,
        }
    }

    /// The submit has found room in the ring, and not by the end of the stream.
    pub open spec fn found_room(self) -> bool {
        match self {
            SubmitPhase::Offered { ended, .. } => !ended,
            SubmitPhase::Full { ended, .. } => !ended,
            _ => false,
        }
    }

    /// The encoder is as the phase left it: a session runs unless one is being built, and the ring has
    /// the room that the submit has found in it.
    pub open spec fn fits(self, enc: AmfEncoder) -> bool {
        &&& enc.ses.live == !(self is Building || self is Equipping)
        &&& self.found_room() ==> !enc.ring_is_full()
    }

    /// The plan it carries is one a frame can have.
    pub open spec fn wf(self) -> bool {
        match self {
            SubmitPhase::Room(plan) => plan.force matches Some(s) ==> s < 2,
            SubmitPhase::Offered { plan, .. } => plan.force matches Some(s) ==> s < 2,
            SubmitPhase::Full { plan, .. } => plan.force matches Some(s) ==> s < 2,
            _ => true,
        }
    }
}

impl AmfEncoder {
    /// A frame was planned, its metadata handed out, and the ring asked for a texture.
    pub open spec fn prepares(self, s: SubmitStep, after: Self) -> bool {
        exists|plan: FramePlan, planned: AmfEncoder, updated: AmfEncoder|
            {
                &&& #[trigger] self.plans_frame(plan, planned)
                &&& #[trigger] planned.updates_hdr(s.hdr, updated)
                &&& s.phase.wf()
                &&& if updated.ring_is_full() {
                    &&& s.phase == SubmitPhase::Room(plan)
                    &&& s.action == SubmitAction::Query
                    &&& planned.updates_hdr(s.hdr, after)
                } else {
                    &&& s.phase == (SubmitPhase::Offered { plan, again: false, ended: false })
                    &&& s.action is Offer
                    &&& updated.takes_slot(s.action->Offer_0, after)
                }
            }
    }

    /// The limits of the machine's words are not reached.
    pub open spec fn within_limits(self) -> bool {
        &&& self.flow.frame_idx * 10_000_000 <= i64::MAX
        &&& self.ses.next < usize::MAX
    }

    fn prepare(&mut self) -> (s: SubmitStep)
        requires
            old(self).wf(),
            old(self).ses.live,
            old(self).within_limits(),
        ensures
            old(self).prepares(s, *final(self)),
            final(self).wf(),
            s.phase.fits(*final(self)),
    {
        let plan = self.plan_frame();
        let ghost planned = *self;
        assert(old(self).plans_frame(plan, planned));
        let hdr = self.take_hdr_update();
        let ghost updated = *self;
        assert(planned.updates_hdr(hdr, updated));
        if self.ring_full() {
            return SubmitStep { phase: SubmitPhase::Room(plan), hdr, action: SubmitAction::Query };
        }
        let slot: usize = self.take_slot();
        assert(updated.takes_slot(slot, *self));
        SubmitStep {
            phase: SubmitPhase::Offered { plan, again: false, ended: false },
            hdr,
            action: SubmitAction::Offer(slot),
        }
    }

    /// Begins a submit. A frame that does not fit is refused; a session on another device, or none,
    /// has to be built first.
    pub fn submit(&mut self, f: &FrameIn) -> (r: Result<SubmitStep, AmfError>)
        requires
            old(self).wf(),
            old(self).within_limits(),
        ensures
            final(self).wf(),
            r is Ok ==> r->Ok_0.phase.fits(*final(self)),
            match input_refusal(
                (old(self).cfg.width, old(self).cfg.height),
                old(self).cfg.ten_bit,
                (f.width, f.height),
                f.payload,
                f.format,
            ) {
                Some(e) => {
                    &&& r is Err && r->Err_0 == AmfError::Input(e)
                    &&& final(self).same_state(*old(self))
                    &&& final(self).same_queues(*old(self))
                },
                None => r is Ok && if old(self).ses.live && old(self).ses.bound_device == f.device {
                    old(self).prepares(r->Ok_0, *final(self))
                } else {
                    &&& old(self).rebinds(f.device, true, *final(self))
                    &&& r->Ok_0 == (SubmitStep {
                        phase: SubmitPhase::Building,
                        hdr: None,
                        action: SubmitAction::Build,
                    })
                },
            },
    {
        if let Err(e) = self.check_frame(f.width, f.height, f.payload, f.format) {
            return Err(AmfError::Input(e));
        }
        if !self.is_bound_to(f.device) {
            let _build = self.ensure_inner(f.device);
            return Ok(
                SubmitStep {
                    phase: SubmitPhase::Building,
                    hdr: None,
                    action: SubmitAction::Build,
                },
            );
        }
        Ok(self.prepare())
    }

    /// Whether a session runs on the device.
    pub fn is_bound_to(&self, device: u64) -> (r: bool)
        ensures
            r == (self.ses.live && self.ses.bound_device == device),
    {
        self.ses.live && self.ses.bound_device == device
    }

    /// What a submit that waits for a free texture does with a query's outcome.
    pub open spec fn waits_for_room(
        self,
        plan: FramePlan,
        event: OutputEvent,
        budget_spent: bool,
        r: Result<SubmitStep, AmfError>,
        after: Self,
    ) -> bool {
        match r {
            Err(e) => self.makes_room(event, budget_spent, Err(e), after),
            Ok(s) => s.hdr is None && match s.phase {
                SubmitPhase::Room(p) => exists|step: DrainStep|
                    {
                        &&& #[trigger] self.makes_room(event, budget_spent, Ok(step), after)
                        &&& step != DrainStep::Ended
                        &&& after.ring_is_full()
                        &&& p == plan
                        &&& s.action == if step == DrainStep::Wait {
                            SubmitAction::Wait
                        } else {
                            SubmitAction::Query
                        }
                    },
                SubmitPhase::Offered { plan: p, again, ended } => exists|
                    step: DrainStep,
                    mid: AmfEncoder,
                |
                    {
                        &&& #[trigger] self.makes_room(event, budget_spent, Ok(step), mid)
                        &&& ended == (step == DrainStep::Ended)
                        &&& ended || !mid.ring_is_full()
                        &&& p == plan
                        &&& !again
                        &&& s.action is Offer
                        &&& mid.takes_slot(s.action->Offer_0, after)
                    },
                _ => false,
            },
        }
    }

    fn room_step(&mut self, plan: FramePlan, event: OutputEvent, budget_spent: bool) -> (r: Result<
        SubmitStep,
        AmfError,
    >)
        requires
            old(self).wf(),
            old(self).ses.live,
            old(self).ses.next < usize::MAX,
        ensures
            old(self).waits_for_room(plan, event, budget_spent, r, *final(self)),
            final(self).wf(),
            final(self).ses.live,
            r is Ok ==> r->Ok_0.phase.fits(*final(self)),
    {
        let ghost seen = event;
        let made = self.make_room(event, budget_spent);
        assert(old(self).makes_room(seen, budget_spent, made, *self));
        let step = match made {
            Err(e) => {
                return Err(e);
            },
            Ok(step) => step,
        };
        let ended = step == DrainStep::Ended;
        if !ended && self.ring_full() {
            let action = if step == DrainStep::Wait {
                SubmitAction::Wait
            } else {
                SubmitAction::Query
            };
            return Ok(SubmitStep { phase: SubmitPhase::Room(plan), hdr: None, action });
        }
        let ghost mid = *self;
        let slot: usize = self.take_slot();
        assert(mid.takes_slot(slot, *self));
        Ok(
            SubmitStep {
                phase: SubmitPhase::Offered { plan, again: false, ended },
                hdr: None,
                action: SubmitAction::Offer(slot),
            },
        )
    }

    /// What a submit does with the component's answer. A full queue is drained, for the first time
    /// without a look at the budget.
    pub open spec fn takes_answer(
        self,
        plan: FramePlan,
        again: bool,
        ended: bool,
        pts_ns: u64,
        code: i32,
        budget_spent: bool,
        r: Result<SubmitStep, AmfError>,
        after: Self,
    ) -> bool {
        if code == AMF_INPUT_FULL && !(again && budget_spent) {
            &&& after.same_state(self)
            &&& after.same_queues(self)
            &&& r is Ok && r->Ok_0 == (SubmitStep {
                phase: SubmitPhase::Full { plan, ended },
                hdr: None,
                action: SubmitAction::Query,
            })
        } else {
            self.ends(code, plan, pts_ns, r, after)
        }
    }

    /// The submit ends with the component's last answer.
    pub open spec fn ends(
        self,
        code: i32,
        plan: FramePlan,
        pts_ns: u64,
        r: Result<SubmitStep, AmfError>,
        after: Self,
    ) -> bool {
        match r {
            Ok(s) => {
                &&& self.settles(code, plan, pts_ns, Ok(()), after)
                &&& s == (SubmitStep {
                    phase: SubmitPhase::Done,
                    hdr: None,
                    action: SubmitAction::Nothing,
                })
            },
            Err(e) => self.settles(code, plan, pts_ns, Err(e), after),
        }
    }

    fn end(&mut self, code: i32, plan: FramePlan, pts_ns: u64) -> (r: Result<SubmitStep, AmfError>)
        requires
            old(self).wf(),
            old(self).ses.live,
        ensures
            old(self).ends(code, plan, pts_ns, r, *final(self)),
            final(self).wf(),
    {
        match self.finish_submit(code, &plan, pts_ns) {
            Ok(()) => Ok(
                SubmitStep { phase: SubmitPhase::Done, hdr: None, action: SubmitAction::Nothing },
            ),
            Err(e) => Err(e),
        }
    }

    /// What a submit does with a query's outcome while the component's queue is full: a unit makes
    /// room and is kept for the next poll; at the end of the stream the queue stays full.
    pub open spec fn waits_for_queue(
        self,
        plan: FramePlan,
        ended: bool,
        pts_ns: u64,
        event: OutputEvent,
        r: Result<SubmitStep, AmfError>,
        after: Self,
    ) -> bool {
        exists|out: Result<DrainOutcome, AmfError>, mid: AmfEncoder|
            #[trigger] self.drains(event, out, mid) && match out {
                Err(e) => {
                    &&& r is Err && r->Err_0 == e
                    &&& self.drains(event, out, after)
                },
                Ok(DrainOutcome::Eof) => mid.ends(AMF_INPUT_FULL, plan, pts_ns, r, after),
                Ok(DrainOutcome::NotReady) => {
                    &&& self.drains(event, out, after)
                    &&& r is Ok && r->Ok_0 == (SubmitStep {
                        phase: SubmitPhase::Offered { plan, again: true, ended },
                        hdr: None,
                        action: SubmitAction::WaitAndOffer,
                    })
                },
                Ok(DrainOutcome::Frame(au)) => {
                    &&& after.same_state(mid)
                    &&& after.pending@ == mid.pending@
                    &&& after.ready@ == mid.ready@.push(au)
                    &&& r is Ok && r->Ok_0 == (SubmitStep {
                        phase: SubmitPhase::Offered { plan, again: true, ended },
                        hdr: None,
                        action: SubmitAction::OfferAgain,
                    })
                },
            }
    }

    fn queue_step(
        &mut self,
        plan: FramePlan,
        ended: bool,
        pts_ns: u64,
        event: OutputEvent,
    ) -> (r: Result<SubmitStep, AmfError>)
        requires
            old(self).wf(),
            old(self).ses.live,
        ensures
            old(self).waits_for_queue(plan, ended, pts_ns, event, r, *final(self)),
            final(self).wf(),
            final(self).ses.live,
            final(self).pending@.len() <= old(self).pending@.len() || (r is Ok && r->Ok_0.phase is Done),
            r is Ok && !(r->Ok_0.phase is Done) ==> r->Ok_0.phase is Offered,
    {
        let ghost seen = event;
        let out = self.drain_one_output(event);
        let ghost mid = *self;
        assert(old(self).drains(seen, out, mid));
        match out {
            Err(e) => Err(e),
            Ok(DrainOutcome::Eof) => self.end(AMF_INPUT_FULL, plan, pts_ns),
            Ok(DrainOutcome::NotReady) => Ok(
                SubmitStep {
                    phase: SubmitPhase::Offered { plan, again: true, ended },
                    hdr: None,
                    action: SubmitAction::WaitAndOffer,
                },
            ),
            Ok(DrainOutcome::Frame(au)) => {
                self.ready.push_back(au);
                Ok(
                    SubmitStep {
                        phase: SubmitPhase::Offered { plan, again: true, ended },
                        hdr: None,
                        action: SubmitAction::OfferAgain,
                    },
                )
            },
        }
    }

    /// Takes what the last action brought and decides the next one.
    pub fn submit_step(&mut self, phase: SubmitPhase, pts_ns: u64, event: SubmitEvent) -> (r: Result<
        SubmitStep,
        AmfError,
    >)
        requires
            old(self).wf(),
            old(self).within_limits(),
            phase.expects(event),
            phase.fits(*old(self)),
        ensures
            final(self).wf(),
            r is Ok ==> r->Ok_0.phase.fits(*final(self)),
            r is Ok && r->Ok_0.phase is Done && phase.found_room() ==> final(self).pending@.len()
                < RING,
            match event {
                SubmitEvent::Failed(e) => {
                    &&& r is Err && r->Err_0 == e
                    &&& final(self).same_state(*old(self))
                    &&& final(self).same_queues(*old(self))
                },
                SubmitEvent::Initialised { ir_active, ltr_active } => {
                    &&& old(self).adopts(ir_active, ltr_active, *final(self))
                    &&& r is Ok && r->Ok_0 == (SubmitStep {
                        phase: SubmitPhase::Equipping,
                        hdr: None,
                        action: SubmitAction::MakeRing,
                    })
                },
                SubmitEvent::Built => r is Ok && exists|mid: AmfEncoder| #[trigger]
                    old(self).goes_live(mid) && mid.prepares(r->Ok_0, *final(self)),
                SubmitEvent::Output { event: e, budget_spent } => match phase {
                    SubmitPhase::Room(plan) => old(self).waits_for_room(
                        plan,
                        e,
                        budget_spent,
                        r,
                        *final(self),
                    ),
                    SubmitPhase::Full { plan, ended } => old(self).waits_for_queue(
                        plan,
                        ended,
                        pts_ns,
                        e,
                        r,
                        *final(self),
                    ),
                    _ => true,
                },
                SubmitEvent::Answer { code, budget_spent } => match phase {
                    SubmitPhase::Offered { plan, again, ended } => old(self).takes_answer(
                        plan,
                        again,
                        ended,
                        pts_ns,
                        code,
                        budget_spent,
                        r,
                        *final(self),
                    ),
                    _ => true,
                },
            },
    {
        match event {
            SubmitEvent::Failed(e) => Err(e),
            SubmitEvent::Initialised { ir_active, ltr_active } => {
                self.component_initialised(ir_active, ltr_active);
                Ok(
                    SubmitStep {
                        phase: SubmitPhase::Equipping,
                        hdr: None,
                        action: SubmitAction::MakeRing,
                    },
                )
            },
            SubmitEvent::Built => {
                self.session_built();
                let ghost mid = *self;
                assert(old(self).goes_live(mid));
                Ok(self.prepare())
            },
            SubmitEvent::Output { event: e, budget_spent } => match phase {
                SubmitPhase::Full { plan, ended } => self.queue_step(plan, ended, pts_ns, e),
                SubmitPhase::Room(plan) => self.room_step(plan, e, budget_spent),
                _ => vstd::pervasive::unreached(),
            },
            SubmitEvent::Answer { code, budget_spent } => match phase {
                SubmitPhase::Offered { plan, again, ended } => {
                    if code == AMF_INPUT_FULL && !(again && budget_spent) {
                        return Ok(
                            SubmitStep {
                                phase: SubmitPhase::Full { plan, ended },
                                hdr: None,
                                action: SubmitAction::Query,
                            },
                        );
                    }
                    self.end(code, plan, pts_ns)
                },
                _ => vstd::pervasive::unreached(),
            },
        }
    }
}

/// Every offer goes to the texture whose turn it is, and so, by
/// [`crate::amf::law_ring_texture_is_free`], to one that no frame in flight reads: a submit offers only
/// once another frame in flight leaves a texture free, or the stream has ended.
pub proof fn law_offers_wait_for_a_free_texture(
    before: AmfEncoder,
    plan: FramePlan,
    event: OutputEvent,
    budget_spent: bool,
    s: SubmitStep,
    after: AmfEncoder,
)
    requires
        before.waits_for_room(plan, event, budget_spent, Ok(s), after),
        s.action is Offer,
        before.ses.next < usize::MAX,
        event matches OutputEvent::Empty(code) ==> code != AMF_EOF,
    ensures
        !after.ring_is_full(),
        s.phase.found_room(),
        s.action->Offer_0 == before.ses.next % RING,
        after.ses.next == before.ses.next + 1,
{
}

/// A submit that found room in the ring leaves the frames in flight below its depth, so that the
/// texture whose turn is next is free.
pub proof fn law_flight_stays_below_the_ring(
    before: AmfEncoder,
    code: i32,
    plan: FramePlan,
    pts_ns: u64,
    r: Result<SubmitStep, AmfError>,
    after: AmfEncoder,
)
    requires
        !before.ring_is_full(),
        before.ends(code, plan, pts_ns, r, after),
    ensures
        after.pending@.len() < RING,
{
}

/// A submit that ends without an error has put exactly one frame in flight; one that ends with an
/// error after its frame was offered has put none, and the next frame is a keyframe.
pub proof fn law_submit_puts_one_frame_in_flight(
    before: AmfEncoder,
    code: i32,
    plan: FramePlan,
    pts_ns: u64,
    r: Result<SubmitStep, AmfError>,
    after: AmfEncoder,
)
    requires
        before.ends(code, plan, pts_ns, r, after),
    ensures
        r is Ok ==> after.pending@.len() == before.pending@.len() + 1 && after.pending@.last().pts_ns
            == pts_ns && after.pending@.drop_last() == before.pending@,
        r is Err ==> after.pending@ == before.pending@ && after.next_is_keyframe(),
{
    if r is Ok {
        assert(after.pending@.drop_last() =~= before.pending@);
    }
}

} // verus!

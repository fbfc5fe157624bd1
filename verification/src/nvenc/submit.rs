//! Submitting a frame: setting up a session where there is none, then the way of the frame to the
//! driver.
//!
//! The order of both is fixed here: [`NvencD3d11Encoder::submit`] begins a submit,
//! [`NvencD3d11Encoder::setup_step`] and [`NvencD3d11Encoder::frame_step`] take what the last action
//! brought and name the next one.
use crate::nvenc::budget::{engines, SessionBudget};
use crate::nvenc::open_search::{
    Attempt, OpenOutcome, OpenSearch, SearchNext,
};
use crate::nvenc::{
    inflight_setting, Absorbed, EncodeCapabilities, NvencD3d11Encoder, NvencError, PicturePlan,
    RetrieveDone, RetrieveJob, POOL,
};
use crate::types::{at_least_one, PayloadKind, PixelFormat};
use vstd::prelude::*;

verus! {

/// Longest wait for a completion, in seconds.
pub const RETRIEVE_STALL_S: u64 = 5;

/// A captured frame as the encoder sees it.
#[derive(Clone, Copy, Debug, PartialEq, Eq, Structural)]
pub struct FrameIn {
    pub width: u32,
    pub height: u32,
    pub payload: PayloadKind,
    pub format: PixelFormat,
    pub device: u64,
    pub texture: u64,
    pub pts_ns: u64,
}

/// Where a submit stands.
#[derive(Clone, Copy, Debug, PartialEq, Eq, Structural)]
pub enum SubmitPhase {
    /// A session that does not fit the frame is being torn down.
    TearingDown,
    /// The adapter is asked for its capabilities.
    Caps,
    /// The stream options are being resolved.
    Resolving,
    /// The driver is asked for a session.
    Opening { search: OpenSearch, subframe: bool, use_async: bool },
    /// Output buffers are being created.
    Buffers,
    /// Completion events are being created.
    Events,
    /// The latest completion event is being registered.
    Registering,
    /// The retrieve thread is being started.
    Starting,
    /// Setting up failed; what was set up is being torn down.
    Failing(NvencError),
    /// As many frames are in flight as may be.
    Room,
    /// The frame's texture is being registered.
    Texture { slot: usize, opening: bool },
    /// The frame's texture is being mapped.
    Mapping { slot: usize, opening: bool },
    /// The frame is being handed to the driver.
    Encoding { plan: PicturePlan, mapped: u64 },
    /// The frame is in flight; the retrieve thread is being told.
    Sending,
    Done,
    /// The submit has ended with an error.
    Refused(NvencError),
}

/// What the caller does next.
#[derive(Clone, Copy, Debug, PartialEq, Eq, Structural)]
pub enum SubmitAction {
    /// Tear the session down.
    TearDown,
    /// Try once more to destroy the parked sessions, then ask the adapter for its capabilities.
    QueryCaps,
    /// Resolve the stream options for this many samples per second and at most this many slices.
    Resolve { pixel_rate: u64, slices: u32 },
    /// Ask the driver for a session.
    Open(Attempt),
    CreateBuffer,
    CreateEvent,
    /// Register this event.
    RegisterEvent(u64),
    /// Start the retrieve thread.
    Start,
    /// Wait for a completion.
    Receive,
    /// Register the frame's texture.
    RegisterTexture,
    /// Map this registration.
    MapInput(u64),
    /// Encode the mapped input.
    Encode { plan: PicturePlan, mapped: u64 },
    /// Hand the job to the retrieve thread.
    Send(RetrieveJob),
    /// Nothing; the submit has ended.
    Nothing,
}

#[derive(Clone, Copy, Debug, PartialEq, Eq, Structural)]
pub struct SubmitStep {
    pub phase: SubmitPhase,
    /// A superseded session to destroy before the action.
    pub destroy: Option<u64>,
    /// An input to unmap before the action.
    pub unmap: Option<u64>,
    /// A found ceiling to remember: the rate, and the split mode it was found with.
    pub ceiling: Option<Attempt>,
    pub action: SubmitAction,
}

/// What an action of the set-up brought.
#[derive(Clone, Copy, Debug, PartialEq, Eq, Structural)]
pub enum SetupEvent {
    /// Nothing of a session is left.
    TornDown,
    Caps(EncodeCapabilities),
    /// The stream options: slices, split mode, sub-frame readback, whether two-thread retrieve is
    /// asked for, and the ceiling remembered for the configuration.
    Resolved {
        slices: u32,
        split_mode: u32,
        subframe: bool,
        async_requested: bool,
        ceiling: Option<u64>,
    },
    Open(OpenOutcome),
    /// The handle that was created.
    Handle(u64),
    Accepted,
    Failed(NvencError),
}

/// What an action on the frame brought.
pub enum FrameEvent {
    /// A completion.
    Done(RetrieveDone),
    /// The handle that was created.
    Handle(u64),
    Accepted,
    Failed(NvencError),
}

impl SubmitStep {
    /// A step with nothing to do besides its action.
    pub open spec fn plain(phase: SubmitPhase, action: SubmitAction) -> SubmitStep {
        SubmitStep { phase, destroy: None, unmap: None, ceiling: None, action }
    }

    fn of(phase: SubmitPhase, action: SubmitAction) -> (s: SubmitStep)
        ensures
            s == Self::plain(phase, action),
    {
        SubmitStep { phase, destroy: None, unmap: None, ceiling: None, action }
    }
}

impl SubmitPhase {
    /// The events of the set-up that can follow.
    pub open spec fn expects(self, event: SetupEvent) -> bool {
        match self {
            SubmitPhase::TearingDown => event is TornDown,
            SubmitPhase::Failing(_) => event is TornDown,
            SubmitPhase::Caps => event is Caps || event is Failed,
            SubmitPhase::Resolving => event is Resolved,
            SubmitPhase::Opening { .. } => event is Open,
            SubmitPhase::Buffers => event is Handle || event is Failed,
            SubmitPhase::Events => event is Handle || event is Failed,
            SubmitPhase::Registering => event is Accepted || event is Failed,
            SubmitPhase::Starting => event is Accepted || event is Failed,
            _ => false,
        }
    }

    /// The events on the frame that can follow.
    pub open spec fn awaits(self, event: FrameEvent) -> bool {
        match self {
            SubmitPhase::Room => event is Done || event is Failed,
            SubmitPhase::Texture { .. } => event is Handle || event is Failed,
            SubmitPhase::Mapping { .. } => event is Handle || event is Failed,
            SubmitPhase::Encoding { .. } => event is Accepted || event is Failed,
            SubmitPhase::Sending => event is Accepted || event is Failed,
            _ => false,
        }
    }
}

impl NvencD3d11Encoder {
    /// The encoder is in the state its phase stands for.
    pub open spec fn stands_at(self, phase: SubmitPhase) -> bool {
        &&& self.wf()
        &&& match phase {
            SubmitPhase::Caps | SubmitPhase::Resolving => self.ses.encoder == 0,
            SubmitPhase::Opening { search, .. } => self.ses.encoder == 0 && search.wf(),
            SubmitPhase::Buffers => self.ses.encoder != 0 && !self.ses.inited
                && self.bitstreams@.len() < POOL && self.events@.len() == 0,
            SubmitPhase::Events => self.ses.encoder != 0 && !self.ses.inited
                && self.bitstreams@.len() == POOL && self.events@.len() < POOL
                && self.ses.session_async,
            SubmitPhase::Registering => self.ses.encoder != 0 && !self.ses.inited
                && self.bitstreams@.len() == POOL && self.events@.len() <= POOL
                && self.ses.session_async,
            SubmitPhase::Starting => self.ses.encoder != 0 && !self.ses.inited
                && self.bitstreams@.len() == POOL && self.events@.len() == POOL
                && self.ses.session_async,
            SubmitPhase::Room => self.ses.inited,
            SubmitPhase::Texture { slot, .. } => self.ses.inited && slot < POOL,
            SubmitPhase::Mapping { slot, .. } => self.ses.inited && slot < POOL,
            SubmitPhase::Encoding { .. } | SubmitPhase::Sending | SubmitPhase::Done => self.ses.inited,
            _ => true,
        }
    }

    /// The limits of the machine's words are not reached.
    pub open spec fn within_limits(self, f: FrameIn) -> bool {
        &&& self.flow.frame_idx < i64::MAX
        &&& self.ses.next < usize::MAX
        &&& f.width * f.height * at_least_one(self.cfg.fps) <= u64::MAX
    }

    /// The frame goes on to the driver: it waits while too many frames are in flight, takes its turn,
    /// and needs a registration the first time its texture is seen.
    pub open spec fn goes_on(self, f: FrameIn, env_cap: usize, s: SubmitStep, after: Self) -> bool {
        if self.ses.async_on && self.pending@.len() >= self.flow.inflight_limit(env_cap) {
            &&& after.same_state(self)
            &&& after.same_queues(self)
            &&& s.phase == SubmitPhase::Room
            &&& s.action == SubmitAction::Receive
        } else {
            exists|turn: (usize, bool)|
                {
                    &&& #[trigger] self.takes_slot(turn, after)
                    &&& if self.regs@.contains_key(f.texture) {
                        &&& s.phase == (SubmitPhase::Mapping { slot: turn.0, opening: turn.1 })
                        &&& s.action == SubmitAction::MapInput(self.regs@[f.texture])
                    } else {
                        &&& s.phase == (SubmitPhase::Texture { slot: turn.0, opening: turn.1 })
                        &&& s.action == SubmitAction::RegisterTexture
                    }
                }
        }
    }

    fn go_on(&mut self, f: &FrameIn, env_cap: usize) -> (s: SubmitStep)
        requires
            old(self).wf(),
            old(self).ses.inited,
            old(self).ses.next < usize::MAX,
        ensures
            old(self).goes_on(*f, env_cap, s, *final(self)),
            s.destroy is None && s.unmap is None && s.ceiling is None,
            final(self).stands_at(s.phase),
    {
        if self.must_absorb(env_cap) {
            return SubmitStep::of(SubmitPhase::Room, SubmitAction::Receive);
        }
        let turn = self.take_slot();
        assert(old(self).takes_slot(turn, *self));
        let (slot, opening) = turn;
        match self.registration(f.texture) {
            Some(reg) => SubmitStep::of(
                SubmitPhase::Mapping { slot, opening },
                SubmitAction::MapInput(reg),
            ),
            None => SubmitStep::of(
                SubmitPhase::Texture { slot, opening },
                SubmitAction::RegisterTexture,
            ),
        }
    }

    /// Begins a submit. A session that does not fit the frame is torn down first; without one, the
    /// frame's size and format are taken for a new one.
    pub fn submit(&mut self, f: &FrameIn, env_cap: usize) -> (s: SubmitStep)
        requires
            old(self).wf(),
            old(self).within_limits(*f),
            !old(self).ses.inited ==> old(self).ses.encoder == 0,
        ensures
            final(self).stands_at(s.phase),
            s.destroy is None && s.unmap is None && s.ceiling is None,
            if f.payload != PayloadKind::D3d11 {
                &&& s.phase == SubmitPhase::Refused(NvencError::NeedsTexture)
                &&& s.action == SubmitAction::Nothing
                &&& final(self).same_state(*old(self))
                &&& final(self).same_queues(*old(self))
            } else if old(self).outgrown(f.device, f.width, f.height, f.format) {
                &&& s.phase == SubmitPhase::TearingDown
                &&& s.action == SubmitAction::TearDown
                &&& final(self).same_state(*old(self))
                &&& final(self).same_queues(*old(self))
            } else if !old(self).ses.inited {
                &&& s.phase == SubmitPhase::Caps
                &&& s.action == SubmitAction::QueryCaps
                &&& old(self).adopts_frame(f.width, f.height, f.format, *final(self))
            } else {
                old(self).goes_on(*f, env_cap, s, *final(self))
            },
    {
        if let Err(e) = Self::check_payload(f.payload) {
            return SubmitStep::of(SubmitPhase::Refused(e), SubmitAction::Nothing);
        }
        if self.needs_reinit(f.device, f.width, f.height, f.format) {
            return SubmitStep::of(SubmitPhase::TearingDown, SubmitAction::TearDown);
        }
        if !self.ses.inited {
            self.adopt_frame(f.width, f.height, f.format);
            return SubmitStep::of(SubmitPhase::Caps, SubmitAction::QueryCaps);
        }
        self.go_on(f, env_cap)
    }

    /// Setting up failed: what was set up is torn down.
    pub open spec fn fails(self, e: NvencError, s: SubmitStep, after: Self) -> bool {
        &&& s.phase == SubmitPhase::Failing(e)
        &&& s.action == SubmitAction::TearDown
        &&& after.same_state(self)
        &&& after.same_queues(self)
    }

    /// What the set-up does with the driver's answer to a session open.
    pub open spec fn takes_open(
        self,
        search: OpenSearch,
        subframe: bool,
        use_async: bool,
        outcome: OpenOutcome,
        s: SubmitStep,
        after: Self,
    ) -> bool {
        let found = search.after(outcome);
        &&& s.destroy == found.destroy
        &&& s.unmap is None
        &&& match found.next {
            SearchNext::Try(next) => {
                &&& s.phase == (SubmitPhase::Opening { search: next, subframe, use_async })
                &&& s.action == SubmitAction::Open(next.asks())
                &&& s.ceiling is None
                &&& after.same_state(self)
                &&& after.same_queues(self)
            },
            SearchNext::Opened { handle, bps, split_mode, clamped } => {
                &&& s.phase == SubmitPhase::Buffers
                &&& s.action == SubmitAction::CreateBuffer
                &&& s.ceiling == if clamped {
                    Some(Attempt { bps, split_mode })
                } else {
                    None
                }
                &&& self.adopts_session(handle, bps, split_mode, subframe, use_async, after)
            },
            SearchNext::Failed { failure, at_floor } => {
                &&& s.ceiling is None
                &&& self.fails(
                    NvencError::OpenFailed { status: failure.status, at_floor },
                    s,
                    after,
                )
            },
        }
    }

    /// Units the driver is charged after an answer to a session open.
    pub open spec fn charged(search: OpenSearch, outcome: OpenOutcome) -> int {
        match search.after(outcome).next {
            SearchNext::Opened { split_mode, .. } => engines(split_mode) as int,
            _ => 0,
        }
    }

    fn open_step(
        &mut self,
        search: OpenSearch,
        subframe: bool,
        use_async: bool,
        outcome: OpenOutcome,
        budget: &mut SessionBudget,
    ) -> (s: SubmitStep)
        requires
            old(self).stands_at(SubmitPhase::Opening { search, subframe, use_async }),
            outcome matches OpenOutcome::Opened(h) ==> h != 0,
            search.best matches Some(h) ==> h != 0,
            old(budget).wf(),
            old(budget).live_units + 3 <= u32::MAX,
        ensures
            old(self).takes_open(search, subframe, use_async, outcome, s, *final(self)),
            final(self).stands_at(s.phase),
            s.phase matches SubmitPhase::Opening { search: n, .. } ==> (n.best matches Some(h) ==> h
                != 0),
            final(budget).wf(),
            final(budget).parked@ == old(budget).parked@,
            final(budget).live_units == old(budget).live_units + Self::charged(search, outcome),
    {
        let found = search.step(outcome);
        match found.next {
            SearchNext::Try(next) => SubmitStep {
                phase: SubmitPhase::Opening { search: next, subframe, use_async },
                destroy: found.destroy,
                unmap: None,
                ceiling: None,
                action: SubmitAction::Open(next.attempt()),
            },
            SearchNext::Opened { handle, bps, split_mode, clamped } => {
                self.session_opened(handle, bps, split_mode, subframe, use_async, budget);
                SubmitStep {
                    phase: SubmitPhase::Buffers,
                    destroy: found.destroy,
                    unmap: None,
                    ceiling: if clamped {
                        Some(Attempt { bps, split_mode })
                    } else {
                        None
                    },
                    action: SubmitAction::CreateBuffer,
                }
            },
            SearchNext::Failed { failure, at_floor } => SubmitStep {
                phase: SubmitPhase::Failing(
                    NvencError::OpenFailed { status: failure.status, at_floor },
                ),
                destroy: found.destroy,
                unmap: None,
                ceiling: None,
                action: SubmitAction::TearDown,
            },
        }
    }

    /// The session is ready, and the frame goes on.
    pub open spec fn starts(self, f: FrameIn, env_cap: usize, s: SubmitStep, after: Self) -> bool {
        exists|mid: NvencD3d11Encoder| #[trigger]
            self.readies(f.device, mid) && mid.goes_on(f, env_cap, s, after)
    }

    fn start(&mut self, f: &FrameIn, env_cap: usize) -> (s: SubmitStep)
        requires
            old(self).wf(),
            old(self).ses.encoder != 0,
            old(self).bitstreams@.len() == POOL,
            old(self).ses.session_async ==> old(self).events@.len() == POOL,
            old(self).ses.next < usize::MAX,
        ensures
            old(self).starts(*f, env_cap, s, *final(self)),
            s.destroy is None && s.unmap is None && s.ceiling is None,
            final(self).stands_at(s.phase),
    {
        self.session_ready(f.device);
        let ghost mid = *self;
        assert(old(self).readies(f.device, mid));
        self.go_on(f, env_cap)
    }

    /// What the set-up does with a handle that was created: another output buffer, another event, or
    /// the session is ready.
    pub open spec fn takes_handle(
        self,
        phase: SubmitPhase,
        f: FrameIn,
        env_cap: usize,
        handle: u64,
        s: SubmitStep,
        after: Self,
    ) -> bool {
        if phase == SubmitPhase::Buffers {
            if self.bitstreams@.len() + 1 < POOL {
                &&& self.adds_bitstream(handle, after)
                &&& s.phase == SubmitPhase::Buffers
                &&& s.action == SubmitAction::CreateBuffer
            } else if self.ses.session_async {
                &&& self.adds_bitstream(handle, after)
                &&& s.phase == SubmitPhase::Events
                &&& s.action == SubmitAction::CreateEvent
            } else {
                exists|mid: NvencD3d11Encoder| #[trigger]
                    self.adds_bitstream(handle, mid) && mid.starts(f, env_cap, s, after)
            }
        } else {
            &&& self.adds_event(handle, after)
            &&& s.phase == SubmitPhase::Registering
            &&& s.action == SubmitAction::RegisterEvent(handle)
        }
    }

    fn handle_step(&mut self, phase: SubmitPhase, f: &FrameIn, env_cap: usize, handle: u64) -> (s:
        SubmitStep)
        requires
            phase == SubmitPhase::Buffers || phase == SubmitPhase::Events,
            old(self).stands_at(phase),
            old(self).ses.next < usize::MAX,
        ensures
            old(self).takes_handle(phase, *f, env_cap, handle, s, *final(self)),
            s.destroy is None && s.unmap is None && s.ceiling is None,
            final(self).stands_at(s.phase),
    {
        if phase != SubmitPhase::Buffers {
            self.add_event(handle);
            return SubmitStep::of(SubmitPhase::Registering, SubmitAction::RegisterEvent(handle));
        }
        self.add_bitstream(handle);
        let ghost mid = *self;
        assert(old(self).adds_bitstream(handle, mid));
        if self.bitstreams.len() < POOL {
            return SubmitStep::of(SubmitPhase::Buffers, SubmitAction::CreateBuffer);
        }
        if self.ses.session_async {
            return SubmitStep::of(SubmitPhase::Events, SubmitAction::CreateEvent);
        }
        self.start(f, env_cap)
    }

    /// What the set-up of a session does with an event.
    pub open spec fn sets_up(
        self,
        phase: SubmitPhase,
        f: FrameIn,
        env_cap: usize,
        event: SetupEvent,
        s: SubmitStep,
        after: Self,
    ) -> bool {
        match event {
            SetupEvent::TornDown => match phase {
                SubmitPhase::Failing(e) => {
                    &&& s == SubmitStep::plain(SubmitPhase::Refused(e), SubmitAction::Nothing)
                    &&& after.same_state(self)
                    &&& after.same_queues(self)
                },
                _ => {
                    &&& s == SubmitStep::plain(SubmitPhase::Caps, SubmitAction::QueryCaps)
                    &&& self.adopts_frame(f.width, f.height, f.format, after)
                },
            },
            SetupEvent::Failed(e) => self.fails(e, s, after),
            SetupEvent::Caps(caps) => exists|r: Result<(), NvencError>|
                {
                    &&& #[trigger] self.learns_caps(caps, r, after)
                    &&& match r {
                        Ok(()) => s == SubmitStep::plain(
                            SubmitPhase::Resolving,
                            SubmitAction::Resolve {
                                pixel_rate: (after.cfg.width * after.cfg.height * at_least_one(
                                    after.cfg.fps,
                                )) as u64,
                                slices: if after.cfg.max_slices < 4 {
                                    after.cfg.max_slices
                                } else {
                                    4
                                },
                            },
                        ),
                        Err(e) => s == SubmitStep::plain(
                            SubmitPhase::Failing(e),
                            SubmitAction::TearDown,
                        ),
                    }
                },
            SetupEvent::Resolved {
                slices,
                split_mode,
                subframe,
                async_requested,
                ceiling,
            } => exists|search: OpenSearch|
                {
                    &&& #[trigger] self.begins_open(slices, split_mode, ceiling, search, after)
                    &&& s == SubmitStep::plain(
                        SubmitPhase::Opening {
                            search,
                            subframe,
                            use_async: self.cfg.async_supported && async_requested,
                        },
                        SubmitAction::Open(search.asks()),
                    )
                },
            SetupEvent::Open(outcome) => match phase {
                SubmitPhase::Opening { search, subframe, use_async } => self.takes_open(
                    search,
                    subframe,
                    use_async,
                    outcome,
                    s,
                    after,
                ),
                _ => true,
            },
            SetupEvent::Handle(handle) => self.takes_handle(phase, f, env_cap, handle, s, after),
            SetupEvent::Accepted => if phase == SubmitPhase::Starting {
                self.starts(f, env_cap, s, after)
            } else {
                &&& after.same_state(self)
                &&& after.same_queues(self)
                &&& if self.events@.len() < POOL {
                    s == SubmitStep::plain(SubmitPhase::Events, SubmitAction::CreateEvent)
                } else {
                    s == SubmitStep::plain(SubmitPhase::Starting, SubmitAction::Start)
                }
            },
        }
    }

    /// Takes what the last action of the set-up brought and decides the next one.
    pub fn setup_step(
        &mut self,
        phase: SubmitPhase,
        f: &FrameIn,
        env_cap: usize,
        event: SetupEvent,
        budget: &mut SessionBudget,
    ) -> (s: SubmitStep)
        requires
            old(self).stands_at(phase),
            phase.expects(event),
            event is TornDown ==> old(self).ses.encoder == 0,
            old(self).within_limits(*f),
            event is Caps ==> old(self).cfg.width == f.width && old(self).cfg.height == f.height,
            event matches SetupEvent::Open(OpenOutcome::Opened(h)) ==> h != 0,
            phase matches SubmitPhase::Opening { search, .. } ==> (search.best matches Some(h) ==> h
                != 0),
            old(budget).wf(),
            old(budget).live_units + 3 <= u32::MAX,
        ensures
            old(self).sets_up(phase, *f, env_cap, event, s, *final(self)),
            final(self).stands_at(s.phase),
            s.phase matches SubmitPhase::Opening { search: n, .. } ==> (n.best matches Some(h) ==> h
                != 0),
            final(budget).wf(),
            final(budget).parked@ == old(budget).parked@,
            final(budget).live_units == old(budget).live_units + match (phase, event) {
                (SubmitPhase::Opening { search, .. }, SetupEvent::Open(outcome)) => Self::charged(
                    search,
                    outcome,
                ),
                _ => 0,
            },
    {
        match event {
            SetupEvent::TornDown => match phase {
                SubmitPhase::Failing(e) => SubmitStep::of(
                    SubmitPhase::Refused(e),
                    SubmitAction::Nothing,
                ),
                _ => {
                    self.adopt_frame(f.width, f.height, f.format);
                    SubmitStep::of(SubmitPhase::Caps, SubmitAction::QueryCaps)
                },
            },
            SetupEvent::Failed(e) => SubmitStep::of(
                SubmitPhase::Failing(e),
                SubmitAction::TearDown,
            ),
            SetupEvent::Caps(caps) => {
                let learned = self.query_caps(caps);
                assert(old(self).learns_caps(caps, learned, *self));
                match learned {
                    Ok(()) => {
                        let pixel_rate: u64 = self.pixel_rate();
                        let slices: u32 = self.slice_budget();
                        SubmitStep::of(
                            SubmitPhase::Resolving,
                            SubmitAction::Resolve { pixel_rate, slices },
                        )
                    },
                    Err(e) => SubmitStep::of(SubmitPhase::Failing(e), SubmitAction::TearDown),
                }
            },
            SetupEvent::Resolved { slices, split_mode, subframe, async_requested, ceiling } => {
                let use_async = self.use_async(async_requested);
                let search = self.begin_open(slices, split_mode, ceiling);
                assert(old(self).begins_open(slices, split_mode, ceiling, search, *self));
                SubmitStep::of(
                    SubmitPhase::Opening { search, subframe, use_async },
                    SubmitAction::Open(search.attempt()),
                )
            },
            SetupEvent::Open(outcome) => match phase {
                SubmitPhase::Opening { search, subframe, use_async } => self.open_step(
                    search,
                    subframe,
                    use_async,
                    outcome,
                    budget,
                ),
                _ => vstd::pervasive::unreached(),
            },
            SetupEvent::Handle(handle) => self.handle_step(phase, f, env_cap, handle),
            SetupEvent::Accepted => if phase == SubmitPhase::Starting {
                self.start(f, env_cap)
            } else if self.events.len() < POOL {
                SubmitStep::of(SubmitPhase::Events, SubmitAction::CreateEvent)
            } else {
                SubmitStep::of(SubmitPhase::Starting, SubmitAction::Start)
            },
        }
    }

    /// The submit has ended with an error, and nothing changed since the last step.
    pub open spec fn refuses(self, e: NvencError, s: SubmitStep, after: Self) -> bool {
        &&& s == SubmitStep::plain(SubmitPhase::Refused(e), SubmitAction::Nothing)
        &&& after.same_state(self)
        &&& after.same_queues(self)
    }

    /// What a submit does with an event on its frame.
    pub open spec fn moves_frame(
        self,
        phase: SubmitPhase,
        f: FrameIn,
        env_cap: usize,
        event: FrameEvent,
        s: SubmitStep,
        after: Self,
    ) -> bool {
        match event {
            FrameEvent::Failed(e) => self.refuses(
                match phase {
                    SubmitPhase::Room => NvencError::Stalled,
                    SubmitPhase::Sending => NvencError::RetrieveGone,
                    _ => e,
                },
                s,
                after,
            ),
            FrameEvent::Done(done) => exists|a: Absorbed, mid: NvencD3d11Encoder|
                {
                    &&& #[trigger] self.absorbs(done, a, mid)
                    &&& s.unmap == a.unmap
                    &&& s.destroy is None && s.ceiling is None
                    &&& match a.result {
                        Err(e) => {
                            &&& s.phase == SubmitPhase::Refused(e)
                            &&& s.action == SubmitAction::Nothing
                            &&& self.absorbs(done, a, after)
                        },
                        Ok(()) => mid.goes_on(f, env_cap, s, after),
                    }
                },
            FrameEvent::Handle(handle) => match phase {
                SubmitPhase::Texture { slot, opening } => {
                    &&& self.notes_registration(f.texture, handle, after)
                    &&& s == SubmitStep::plain(
                        SubmitPhase::Mapping { slot, opening },
                        SubmitAction::MapInput(handle),
                    )
                },
                SubmitPhase::Mapping { slot, opening } => exists|plan: PicturePlan|
                    {
                        &&& #[trigger] self.plans_picture(slot, opening, plan, after)
                        &&& s == SubmitStep::plain(
                            SubmitPhase::Encoding { plan, mapped: handle },
                            SubmitAction::Encode { plan, mapped: handle },
                        )
                    },
                _ => true,
            },
            FrameEvent::Accepted => match phase {
                SubmitPhase::Encoding { plan, mapped } => exists|job: Option<RetrieveJob>|
                    {
                        &&& #[trigger] self.notes_submitted(plan, mapped, f.pts_ns, job, after)
                        &&& s == match job {
                            Some(j) => SubmitStep::plain(
                                SubmitPhase::Sending,
                                SubmitAction::Send(j),
                            ),
                            None => SubmitStep::plain(SubmitPhase::Done, SubmitAction::Nothing),
                        }
                    },
                _ => {
                    &&& s == SubmitStep::plain(SubmitPhase::Done, SubmitAction::Nothing)
                    &&& after.same_state(self)
                    &&& after.same_queues(self)
                },
            },
        }
    }

    fn absorb_step(&mut self, f: &FrameIn, env_cap: usize, done: RetrieveDone) -> (s: SubmitStep)
        requires
            old(self).stands_at(SubmitPhase::Room),
            old(self).ses.next < usize::MAX,
        ensures
            old(self).moves_frame(
                SubmitPhase::Room,
                *f,
                env_cap,
                FrameEvent::Done(done),
                s,
                *final(self),
            ),
            final(self).stands_at(s.phase),
    {
        let ghost seen = done;
        let a = self.absorb_done(done);
        let ghost mid = *self;
        assert(old(self).absorbs(seen, a, mid));
        match a.result {
            Err(e) => SubmitStep {
                phase: SubmitPhase::Refused(e),
                destroy: None,
                unmap: a.unmap,
                ceiling: None,
                action: SubmitAction::Nothing,
            },
            Ok(()) => {
                let next = self.go_on(f, env_cap);
                SubmitStep { unmap: a.unmap, ..next }
            },
        }
    }

    /// Takes what the last action on the frame brought and decides the next one.
    pub fn frame_step(
        &mut self,
        phase: SubmitPhase,
        f: &FrameIn,
        env_cap: usize,
        event: FrameEvent,
    ) -> (s: SubmitStep)
        requires
            old(self).stands_at(phase),
            phase.awaits(event),
            old(self).within_limits(*f),
        ensures
            old(self).moves_frame(phase, *f, env_cap, event, s, *final(self)),
            final(self).stands_at(s.phase),
    {
        match event {
            FrameEvent::Failed(e) => {
                let error = match phase {
                    SubmitPhase::Room => NvencError::Stalled,
                    SubmitPhase::Sending => NvencError::RetrieveGone,
                    _ => e,
                };
                SubmitStep::of(SubmitPhase::Refused(error), SubmitAction::Nothing)
            },
            FrameEvent::Done(done) => self.absorb_step(f, env_cap, done),
            FrameEvent::Handle(handle) => match phase {
                SubmitPhase::Texture { slot, opening } => {
                    self.note_registration(f.texture, handle);
                    SubmitStep::of(
                        SubmitPhase::Mapping { slot, opening },
                        SubmitAction::MapInput(handle),
                    )
                },
                SubmitPhase::Mapping { slot, opening } => {
                    let plan = self.plan_picture(slot, opening);
                    assert(old(self).plans_picture(slot, opening, plan, *self));
                    SubmitStep::of(
                        SubmitPhase::Encoding { plan, mapped: handle },
                        SubmitAction::Encode { plan, mapped: handle },
                    )
                },
                _ => vstd::pervasive::unreached(),
            },
            FrameEvent::Accepted => match phase {
                SubmitPhase::Encoding { plan, mapped } => {
                    let job = self.note_submitted(plan, mapped, f.pts_ns);
                    assert(old(self).notes_submitted(plan, mapped, f.pts_ns, job, *self));
                    match job {
                        Some(j) => SubmitStep::of(SubmitPhase::Sending, SubmitAction::Send(j)),
                        None => SubmitStep::of(SubmitPhase::Done, SubmitAction::Nothing),
                    }
                },
                _ => SubmitStep::of(SubmitPhase::Done, SubmitAction::Nothing),
            },
        }
    }
}

/// A set-up that failed ends with its error once everything was torn down: no session is left behind.
pub proof fn law_failed_setup_leaves_no_session(
    before: NvencD3d11Encoder,
    e: NvencError,
    f: FrameIn,
    env_cap: usize,
    s: SubmitStep,
    after: NvencD3d11Encoder,
)
    requires
        before.sets_up(SubmitPhase::Failing(e), f, env_cap, SetupEvent::TornDown, s, after),
        before.ses.encoder == 0,
    ensures
        s.phase == SubmitPhase::Refused(e),
        after.ses.encoder == 0,
{
}

/// On the two-thread path a frame takes its turn only while fewer frames are in flight than the limit.
pub proof fn law_frames_wait_for_their_turn(
    before: NvencD3d11Encoder,
    f: FrameIn,
    env_cap: usize,
    s: SubmitStep,
    after: NvencD3d11Encoder,
)
    requires
        before.goes_on(f, env_cap, s, after),
        before.ses.async_on,
        s.phase is Mapping || s.phase is Texture,
    ensures
        after.pending@.len() < after.flow.inflight_limit(env_cap),
        after.pending@ == before.pending@,
{
}

impl NvencD3d11Encoder {
    /// On the two-thread path, the frames in flight leave room for the frame that has its turn, and
    /// stay within the limit with it.
    pub open spec fn flight_fits(self, phase: SubmitPhase, env_cap: usize) -> bool {
        let limit = self.flow.inflight_limit(env_cap);
        self.ses.async_on ==> match phase {
            SubmitPhase::Texture { .. } => self.pending@.len() < limit,
            SubmitPhase::Mapping { .. } => self.pending@.len() < limit,
            SubmitPhase::Encoding { .. } => self.pending@.len() < limit,
            SubmitPhase::Sending => self.pending@.len() <= limit,
            SubmitPhase::Done => self.pending@.len() <= limit,
            _ => true,
        }
    }
}

/// The way of one frame: the running session `before` takes it up with `steps[0]`, and each event
/// leads on to the next step.
pub open spec fn frame_run(
    before: NvencD3d11Encoder,
    f: FrameIn,
    env_cap: usize,
    states: Seq<NvencD3d11Encoder>,
    steps: Seq<SubmitStep>,
    events: Seq<FrameEvent>,
) -> bool {
    &&& states.len() == events.len() + 1
    &&& steps.len() == events.len() + 1
    &&& before.goes_on(f, env_cap, steps[0], states[0])
    &&& forall|i: int|
        0 <= i < events.len() ==> {
            &&& steps[i].phase.awaits(events[i])
            &&& (#[trigger] states[i]).moves_frame(
                steps[i].phase,
                f,
                env_cap,
                events[i],
                steps[i + 1],
                states[i + 1],
            )
        }
}

proof fn lemma_flight_fits(
    before: NvencD3d11Encoder,
    f: FrameIn,
    env_cap: usize,
    states: Seq<NvencD3d11Encoder>,
    steps: Seq<SubmitStep>,
    events: Seq<FrameEvent>,
    n: int,
)
    requires
        frame_run(before, f, env_cap, states, steps, events),
        0 <= n <= events.len(),
    ensures
        states[n].flight_fits(steps[n].phase, env_cap),
    decreases n,
{
    if n > 0 {
        lemma_flight_fits(before, f, env_cap, states, steps, events, n - 1);
        let i = n - 1;
        assert(states[i].moves_frame(
            steps[i].phase,
            f,
            env_cap,
            events[i],
            steps[i + 1],
            states[i + 1],
        ));
    }
}

/// A two-thread submit that succeeds leaves no more frames in flight than the setting and the
/// capturer's ring allow, and fewer than there are output buffers.
pub proof fn law_flight_stays_within_the_limit(
    before: NvencD3d11Encoder,
    f: FrameIn,
    setting: Option<Seq<char>>,
    env_cap: usize,
    states: Seq<NvencD3d11Encoder>,
    steps: Seq<SubmitStep>,
    events: Seq<FrameEvent>,
)
    requires
        env_cap == inflight_setting(setting),
        frame_run(before, f, env_cap, states, steps, events),
        steps.last().phase is Done,
        states.last().ses.async_on,
    ensures
        states.last().pending@.len() <= states.last().flow.inflight_limit(env_cap),
        states.last().pending@.len() <= POOL - 1,
{
    lemma_flight_fits(before, f, env_cap, states, steps, events, events.len() as int);
}

} // verus!

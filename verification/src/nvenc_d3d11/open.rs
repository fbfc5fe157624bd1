//! Opening a session: walking the attempts, and releasing what a failed one created.
use crate::nvenc_d3d11::SessionAttempt;
use vstd::prelude::*;

verus! {

/// Handles of a session as far as it was opened.
#[derive(Clone, Copy, Debug, PartialEq, Eq, Structural)]
pub struct Handles {
    pub encoder: Option<u64>,
    pub registered: Option<u64>,
}

/// Where the walk stands. Every phase but the last two is at the attempt `at`.
#[derive(Clone, Copy, Debug, PartialEq, Eq, Structural)]
pub enum OpenPhase {
    /// The driver is asked for a session.
    Opening { at: usize },
    /// The session is configured as the attempt says.
    Initializing { at: usize, encoder: u64 },
    /// The input texture is being registered.
    Registering { at: usize, encoder: u64 },
    /// The output buffer is being created.
    Buffer { at: usize, encoder: u64, registered: u64 },
    /// The session runs as the attempt says.
    Opened { attempt: SessionAttempt, encoder: u64, registered: u64, bitstream: u64 },
    /// No session, by the driver's last status.
    Failed(i32),
}

/// What the caller does next.
#[derive(Clone, Copy, Debug, PartialEq, Eq, Structural)]
pub enum OpenAction {
    Open,
    Initialize(SessionAttempt),
    Register,
    CreateBuffer,
    Nothing,
}

/// The driver's answer.
#[derive(Clone, Copy, Debug, PartialEq, Eq, Structural)]
pub enum OpenAnswer {
    Handle(u64),
    Accepted,
    Refused(i32),
}

#[derive(Clone, Copy, Debug, PartialEq, Eq, Structural)]
pub struct OpenStep {
    pub phase: OpenPhase,
    /// Handles to release before the action: the registration first, then the session.
    pub release: Handles,
    pub action: OpenAction,
}

impl Handles {
    pub open spec fn none() -> Handles {
        Handles { encoder: None, registered: None }
    }
}

impl OpenPhase {
    /// The handles that are open.
    pub open spec fn holds(self) -> Handles {
        match self {
            OpenPhase::Opening { .. } => Handles::none(),
            OpenPhase::Initializing { encoder, .. } => Handles {
                encoder: Some(encoder),
                registered: None,
            },
            OpenPhase::Registering { encoder, .. } => Handles {
                encoder: Some(encoder),
                registered: None,
            },
            OpenPhase::Buffer { encoder, registered, .. } => Handles {
                encoder: Some(encoder),
                registered: Some(registered),
            },
            OpenPhase::Opened { encoder, registered, .. } => Handles {
                encoder: Some(encoder),
                registered: Some(registered),
            },
            OpenPhase::Failed(_) => Handles::none(),
        }
    }

    /// The attempt it is at is one of `count`.
    pub open spec fn within(self, count: nat) -> bool {
        match self {
            OpenPhase::Opening { at } => at < count,
            OpenPhase::Initializing { at, .. } => at < count,
            OpenPhase::Registering { at, .. } => at < count,
            OpenPhase::Buffer { at, .. } => at < count,
            _ => true,
        }
    }

    /// The answers that can follow.
    pub open spec fn expects(self, answer: OpenAnswer) -> bool {
        match self {
            OpenPhase::Opening { .. } => !(answer is Accepted),
            OpenPhase::Initializing { .. } => !(answer is Handle),
            OpenPhase::Registering { .. } => !(answer is Accepted),
            OpenPhase::Buffer { .. } => !(answer is Accepted),
            _ => false,
        }
    }

    /// The walk after the driver's answer. A refused configuration moves on to the next attempt; any
    /// other refusal ends the walk.
    pub open spec fn after(self, attempts: Seq<SessionAttempt>, answer: OpenAnswer) -> OpenStep {
        match (self, answer) {
            (OpenPhase::Opening { at }, OpenAnswer::Handle(encoder)) => OpenStep {
                phase: OpenPhase::Initializing { at, encoder },
                release: Handles::none(),
                action: OpenAction::Initialize(attempts[at as int]),
            },
            (OpenPhase::Initializing { at, encoder }, OpenAnswer::Accepted) => OpenStep {
                phase: OpenPhase::Registering { at, encoder },
                release: Handles::none(),
                action: OpenAction::Register,
            },
            (OpenPhase::Initializing { at, encoder }, OpenAnswer::Refused(status)) => {
                let release = Handles { encoder: Some(encoder), registered: None };
                if at + 1 < attempts.len() {
                    OpenStep {
                        phase: OpenPhase::Opening { at: (at + 1) as usize },
                        release,
                        action: OpenAction::Open,
                    }
                } else {
                    OpenStep { phase: OpenPhase::Failed(status), release, action: OpenAction::Nothing }
                }
            },
            (OpenPhase::Registering { at, encoder }, OpenAnswer::Handle(registered)) => OpenStep {
                phase: OpenPhase::Buffer { at, encoder, registered },
                release: Handles::none(),
                action: OpenAction::CreateBuffer,
            },
            (
                OpenPhase::Buffer { at, encoder, registered },
                OpenAnswer::Handle(bitstream),
            ) => OpenStep {
                phase: OpenPhase::Opened {
                    attempt: attempts[at as int],
                    encoder,
                    registered,
                    bitstream,
                },
                release: Handles::none(),
                action: OpenAction::Nothing,
            },
            (phase, OpenAnswer::Refused(status)) => OpenStep {
                phase: OpenPhase::Failed(status),
                release: phase.holds(),
                action: OpenAction::Nothing,
            },
            (phase, _) => OpenStep {
                phase,
                release: Handles::none(),
                action: OpenAction::Nothing,
            },
        }
    }
}

/// Begins the walk over the attempts.
pub fn begin_open() -> (s: OpenStep)
    ensures
        s == (OpenStep {
            phase: OpenPhase::Opening { at: 0 },
            release: Handles::none(),
            action: OpenAction::Open,
        }),
{
    OpenStep {
        phase: OpenPhase::Opening { at: 0 },
        release: Handles { encoder: None, registered: None },
        action: OpenAction::Open,
    }
}

fn go(phase: OpenPhase, action: OpenAction) -> (s: OpenStep)
    ensures
        s == (OpenStep { phase, release: Handles::none(), action }),
{
    OpenStep { phase, release: Handles { encoder: None, registered: None }, action }
}

fn give_up(status: i32, encoder: Option<u64>, registered: Option<u64>) -> (s: OpenStep)
    ensures
        s == (OpenStep {
            phase: OpenPhase::Failed(status),
            release: Handles { encoder, registered },
            action: OpenAction::Nothing,
        }),
{
    OpenStep {
        phase: OpenPhase::Failed(status),
        release: Handles { encoder, registered },
        action: OpenAction::Nothing,
    }
}

/// Takes the driver's answer and decides the next action.
pub fn open_session(phase: OpenPhase, attempts: &Vec<SessionAttempt>, answer: OpenAnswer) -> (s:
    OpenStep)
    requires
        phase.within(attempts@.len()),
        phase.expects(answer),
    ensures
        s == phase.after(attempts@, answer),
        s.phase.within(attempts@.len()),
{
    match phase {
        OpenPhase::Opening { at } => match answer {
            OpenAnswer::Handle(encoder) => go(
                OpenPhase::Initializing { at, encoder },
                OpenAction::Initialize(attempts[at]),
            ),
            OpenAnswer::Refused(status) => give_up(status, None, None),
            OpenAnswer::Accepted => vstd::pervasive::unreached(),
        },
        OpenPhase::Initializing { at, encoder } => match answer {
            OpenAnswer::Accepted => go(OpenPhase::Registering { at, encoder }, OpenAction::Register),
            OpenAnswer::Refused(status) => if at < attempts.len() - 1 {
                OpenStep {
                    phase: OpenPhase::Opening { at: at + 1 },
                    release: Handles { encoder: Some(encoder), registered: None },
                    action: OpenAction::Open,
                }
            } else {
                give_up(status, Some(encoder), None)
            },
            OpenAnswer::Handle(_) => vstd::pervasive::unreached(),
        },
        OpenPhase::Registering { at, encoder } => match answer {
            OpenAnswer::Handle(registered) => go(
                OpenPhase::Buffer { at, encoder, registered },
                OpenAction::CreateBuffer,
            ),
            OpenAnswer::Refused(status) => give_up(status, Some(encoder), None),
            OpenAnswer::Accepted => vstd::pervasive::unreached(),
        },
        OpenPhase::Buffer { at, encoder, registered } => match answer {
            OpenAnswer::Handle(bitstream) => go(
                OpenPhase::Opened { attempt: attempts[at], encoder, registered, bitstream },
                OpenAction::Nothing,
            ),
            OpenAnswer::Refused(status) => give_up(status, Some(encoder), Some(registered)),
            OpenAnswer::Accepted => vstd::pervasive::unreached(),
        },
        _ => vstd::pervasive::unreached(),
    }
}

/// No handle leaks and none is released twice: what is open or newly created before a step is open or
/// released after it.
pub proof fn law_open_releases_every_handle(
    phase: OpenPhase,
    attempts: Seq<SessionAttempt>,
    answer: OpenAnswer,
)
    requires
        phase.within(attempts.len()),
        phase.expects(answer),
    ensures
        ({
            let s = phase.after(attempts, answer);
            let before = phase.holds();
            let after = s.phase.holds();
            &&& before.encoder is Some ==> (after.encoder == before.encoder) != (s.release.encoder
                == before.encoder)
            &&& before.registered is Some ==> (after.registered == before.registered) != (
            s.release.registered == before.registered)
            &&& before.encoder is None ==> s.release.encoder is None && (answer matches
                OpenAnswer::Handle(h) ==> after.encoder == Some(h))
            &&& before.encoder is Some && before.registered is None ==> s.release.registered is None
            &&& s.phase is Failed ==> after == Handles::none()
        }),
{
}

/// Steps that remain at most.
pub open spec fn walk_measure(phase: OpenPhase, count: nat) -> int {
    match phase {
        OpenPhase::Opening { at } => 4 * (count - at),
        OpenPhase::Initializing { at, .. } => 4 * (count - at) - 1,
        OpenPhase::Registering { at, .. } => 4 * (count - at) - 2,
        OpenPhase::Buffer { at, .. } => 4 * (count - at) - 3,
        _ => 0,
    }
}

/// The walk ends: every answer brings it closer to its end.
pub proof fn law_open_terminates(phase: OpenPhase, attempts: Seq<SessionAttempt>, answer: OpenAnswer)
    requires
        phase.within(attempts.len()),
        phase.expects(answer),
        attempts.len() <= usize::MAX,
    ensures
        0 <= walk_measure(phase.after(attempts, answer).phase, attempts.len()) < walk_measure(
            phase,
            attempts.len(),
        ),
{
}

} // verus!

//! The search for a session the driver accepts.
//!
//! A driver refuses bitrates above the level ceiling of the codec, and some refuse split encoding.
//! The search asks for the wanted rate first, gives up split encoding next, and only then bisects for
//! the highest accepted rate. A refusal that is not about parameters ends it at once, since no lower
//! rate would cure it.
use vstd::prelude::*;

verus! {

/// The lowest rate the search settles for.
pub const FLOOR_BPS: u64 = 10_000_000;

/// Bisection stops within this distance of the ceiling.
pub const CLAMP_TOL_BPS: u64 = 20_000_000;

/// Split encoding off.
pub const SPLIT_DISABLE_MODE: u32 = 15;

/// One session open to ask the driver for.
#[derive(Clone, Copy, Debug, PartialEq, Eq, Structural)]
pub struct Attempt {
    pub bps: u64,
    pub split_mode: u32,
}

/// Why the driver refused.
#[derive(Clone, Copy, Debug, PartialEq, Eq, Structural)]
pub struct OpenFailure {
    /// The driver's status code.
    pub status: i32,
    /// The refusal is about the requested parameters, not about the environment.
    pub param_rejection: bool,
}

/// The driver's answer to an [`Attempt`].
#[derive(Clone, Copy, Debug, PartialEq, Eq, Structural)]
pub enum OpenOutcome {
    /// The handle of the opened session.
    Opened(u64),
    Failed(OpenFailure),
}

#[derive(Clone, Copy, Debug, PartialEq, Eq, Structural)]
pub enum Phase {
    /// At the cached ceiling or the requested rate, whichever is lower.
    First,
    /// The cached ceiling was refused: at the requested rate.
    Requested,
    /// The configuration was refused: at the same rate without split encoding. Holds that refusal.
    WithoutSplit(OpenFailure),
    /// Halving the range between an accepted (or floor) and a refused rate.
    Bisect,
    /// No rate of the bisection was accepted: at the floor.
    Floor,
    /// At the floor without split encoding.
    FloorWithoutSplit,
}

/// State of the search. [`OpenSearch::attempt`] is what to ask for next.
#[derive(Clone, Copy, Debug, PartialEq, Eq, Structural)]
pub struct OpenSearch {
    pub requested_bps: u64,
    pub target_bps: u64,
    pub split_mode: u32,
    pub phase: Phase,
    pub lo: u64,
    pub hi: u64,
    /// The session opened at `lo`, once the bisection has accepted a rate.
    pub best: Option<u64>,
}

/// How the search goes on.
#[derive(Clone, Copy, Debug, PartialEq, Eq, Structural)]
pub enum SearchNext {
    /// Ask for the attempt of the new state.
    Try(OpenSearch),
    /// The session to run.
    Opened {
        handle: u64,
        bps: u64,
        split_mode: u32,
        /// The rate is the found ceiling, worth remembering for this configuration.
        clamped: bool,
    },
    /// No session. `at_floor` tells that even the floor rate was refused.
    Failed { failure: OpenFailure, at_floor: bool },
}

/// Outcome of one step.
#[derive(Clone, Copy, Debug, PartialEq, Eq, Structural)]
pub struct SearchStep {
    /// A session that has been superseded and must be destroyed.
    pub destroy: Option<u64>,
    pub next: SearchNext,
}

impl OpenSearch {
    /// The search for `requested_bps`, given the ceiling remembered for this configuration.
    pub open spec fn begin(
        requested_bps: u64,
        cached_ceiling: Option<u64>,
        split_mode: u32,
    ) -> OpenSearch {
        OpenSearch {
            requested_bps,
            target_bps: match cached_ceiling {
                Some(c) => if requested_bps > c {
                    c
                } else {
                    requested_bps
                },
                None => requested_bps,
            },
            split_mode,
            phase: Phase::First,
            lo: FLOOR_BPS,
            hi: requested_bps,
            best: None,
        }
    }

    /// A state the search can be in.
    pub open spec fn wf(self) -> bool {
        &&& self.target_bps <= self.requested_bps
        &&& !(self.phase is First) ==> self.target_bps == self.requested_bps
        &&& self.phase is WithoutSplit ==> self.split_mode != SPLIT_DISABLE_MODE
        &&& self.phase is Bisect ==> self.lo < self.hi && self.hi - self.lo > CLAMP_TOL_BPS
            && FLOOR_BPS <= self.lo && self.hi <= self.requested_bps
        &&& self.best is Some ==> self.phase is Bisect
        &&& self.best is None && self.phase is Bisect ==> self.lo == FLOOR_BPS
    }

    /// What the current state asks the driver for.
    pub open spec fn asks(self) -> Attempt {
        match self.phase {
            Phase::First | Phase::Requested => Attempt {
                bps: self.target_bps,
                split_mode: self.split_mode,
            },
            Phase::WithoutSplit(_) => Attempt {
                bps: self.target_bps,
                split_mode: SPLIT_DISABLE_MODE,
            },
            Phase::Bisect => Attempt {
                bps: (self.lo + (self.hi - self.lo) / 2) as u64,
                split_mode: self.split_mode,
            },
            Phase::Floor => Attempt { bps: FLOOR_BPS, split_mode: self.split_mode },
            Phase::FloorWithoutSplit => Attempt { bps: FLOOR_BPS, split_mode: SPLIT_DISABLE_MODE },
        }
    }

    /// The range `[lo, hi]` with the session at `lo`: bisect on while it is wide, then settle for
    /// `lo`, or for the floor where nothing was accepted.
    pub open spec fn narrowed(self, lo: u64, hi: u64, best: Option<u64>) -> SearchNext {
        if hi > lo && hi - lo > CLAMP_TOL_BPS {
            SearchNext::Try(OpenSearch { phase: Phase::Bisect, lo, hi, best, ..self })
        } else {
            match best {
                Some(handle) => SearchNext::Opened {
                    handle,
                    bps: lo,
                    split_mode: self.split_mode,
                    clamped: true,
                },
                None => SearchNext::Try(
                    OpenSearch { phase: Phase::Floor, lo, hi, best, ..self },
                ),
            }
        }
    }

    /// The wanted rate is refused for good: bisect where lower rates may help.
    pub open spec fn refused(self, failure: OpenFailure) -> SearchNext {
        if failure.param_rejection {
            self.narrowed(FLOOR_BPS, self.target_bps, None)
        } else {
            SearchNext::Failed { failure, at_floor: false }
        }
    }

    /// The wanted configuration is refused: give up split encoding first.
    pub open spec fn refused_with_split(self, failure: OpenFailure) -> SearchNext {
        if self.split_mode != SPLIT_DISABLE_MODE {
            SearchNext::Try(OpenSearch { phase: Phase::WithoutSplit(failure), ..self })
        } else {
            self.refused(failure)
        }
    }

    /// The search after the driver answered the current attempt.
    pub open spec fn after(self, outcome: OpenOutcome) -> SearchStep {
        let asked = self.asks();
        match outcome {
            OpenOutcome::Opened(handle) => match self.phase {
                Phase::Bisect => SearchStep {
                    destroy: self.best,
                    next: self.narrowed(asked.bps, self.hi, Some(handle)),
                },
                _ => SearchStep {
                    destroy: None,
                    next: SearchNext::Opened {
                        handle,
                        bps: asked.bps,
                        split_mode: asked.split_mode,
                        clamped: self.phase is Floor || self.phase is FloorWithoutSplit,
                    },
                },
            },
            OpenOutcome::Failed(failure) => match self.phase {
                Phase::First => SearchStep {
                    destroy: None,
                    next: if self.target_bps < self.requested_bps {
                        SearchNext::Try(
                            OpenSearch {
                                phase: Phase::Requested,
                                target_bps: self.requested_bps,
                                ..self
                            },
                        )
                    } else {
                        self.refused_with_split(failure)
                    },
                },
                Phase::Requested => SearchStep {
                    destroy: None,
                    next: self.refused_with_split(failure),
                },
                Phase::WithoutSplit(first_failure) => SearchStep {
                    destroy: None,
                    next: self.refused(first_failure),
                },
                Phase::Bisect => if failure.param_rejection {
                    SearchStep { destroy: None, next: self.narrowed(self.lo, asked.bps, self.best) }
                } else {
                    SearchStep {
                        destroy: self.best,
                        next: SearchNext::Failed { failure, at_floor: false },
                    }
                },
                Phase::Floor => SearchStep {
                    destroy: None,
                    next: SearchNext::Try(OpenSearch { phase: Phase::FloorWithoutSplit, ..self }),
                },
                Phase::FloorWithoutSplit => SearchStep {
                    destroy: None,
                    next: SearchNext::Failed { failure, at_floor: true },
                },
            },
        }
    }

    /// Starts the search.
    pub fn start(requested_bps: u64, cached_ceiling: Option<u64>, split_mode: u32) -> (s: OpenSearch)
        ensures
            s == Self::begin(requested_bps, cached_ceiling, split_mode),
            s.wf(),
    {
        let target_bps: u64 = match cached_ceiling {
            Some(c) => if requested_bps > c {
                c
            } else {
                requested_bps
            },
            None => requested_bps,
        };
        OpenSearch {
            requested_bps,
            target_bps,
            split_mode,
            phase: Phase::First,
            lo: FLOOR_BPS,
            hi: requested_bps,
            best: None,
        }
    }

    /// The session open to ask the driver for.
    pub fn attempt(&self) -> (a: Attempt)
        requires
            self.wf(),
        ensures
            a == self.asks(),
    {
        match self.phase {
            Phase::First | Phase::Requested => Attempt {
                bps: self.target_bps,
                split_mode: self.split_mode,
            },
            Phase::WithoutSplit(_) => Attempt {
                bps: self.target_bps,
                split_mode: SPLIT_DISABLE_MODE,
            },
            Phase::Bisect => Attempt {
                bps: self.lo + (self.hi - self.lo) / 2,
                split_mode: self.split_mode,
            },
            Phase::Floor => Attempt { bps: FLOOR_BPS, split_mode: self.split_mode },
            Phase::FloorWithoutSplit => Attempt { bps: FLOOR_BPS, split_mode: SPLIT_DISABLE_MODE },
        }
    }

    fn narrow(self, lo: u64, hi: u64, best: Option<u64>) -> (next: SearchNext)
        ensures
            next == self.narrowed(lo, hi, best),
    {
        if hi > lo && hi - lo > CLAMP_TOL_BPS {
            SearchNext::Try(OpenSearch { phase: Phase::Bisect, lo, hi, best, ..self })
        } else {
            match best {
                Some(handle) => SearchNext::Opened {
                    handle,
                    bps: lo,
                    split_mode: self.split_mode,
                    clamped: true,
                },
                None => SearchNext::Try(
                    OpenSearch { phase: Phase::Floor, lo, hi, best, ..self },
                ),
            }
        }
    }

    fn refuse(self, failure: OpenFailure) -> (next: SearchNext)
        ensures
            next == self.refused(failure),
    {
        if failure.param_rejection {
            self.narrow(FLOOR_BPS, self.target_bps, None)
        } else {
            SearchNext::Failed { failure, at_floor: false }
        }
    }

    fn refuse_with_split(self, failure: OpenFailure) -> (next: SearchNext)
        ensures
            next == self.refused_with_split(failure),
    {
        if self.split_mode != SPLIT_DISABLE_MODE {
            SearchNext::Try(OpenSearch { phase: Phase::WithoutSplit(failure), ..self })
        } else {
            self.refuse(failure)
        }
    }

    /// Takes the driver's answer to the current attempt and says how to go on. Every state it moves
    /// on to is well-formed.
    pub fn step(self, outcome: OpenOutcome) -> (r: SearchStep)
        requires
            self.wf(),
        ensures
            r == self.after(outcome),
            match r.next {
                SearchNext::Try(s) => s.wf() && s.requested_bps == self.requested_bps && s.split_mode
                    == self.split_mode,
                _ => true,
            },
    {
        let asked = self.attempt();
        match outcome {
            OpenOutcome::Opened(handle) => match self.phase {
                Phase::Bisect => SearchStep {
                    destroy: self.best,
                    next: self.narrow(asked.bps, self.hi, Some(handle)),
                },
                Phase::Floor | Phase::FloorWithoutSplit => SearchStep {
                    destroy: None,
                    next: SearchNext::Opened {
                        handle,
                        bps: asked.bps,
                        split_mode: asked.split_mode,
                        clamped: true,
                    },
                },
                _ => SearchStep {
                    destroy: None,
                    next: SearchNext::Opened {
                        handle,
                        bps: asked.bps,
                        split_mode: asked.split_mode,
                        clamped: false,
                    },
                },
            },
            OpenOutcome::Failed(failure) => match self.phase {
                Phase::First => {
                    let next = if self.target_bps < self.requested_bps {
                        SearchNext::Try(
                            OpenSearch {
                                phase: Phase::Requested,
                                target_bps: self.requested_bps,
                                ..self
                            },
                        )
                    } else {
                        self.refuse_with_split(failure)
                    };
                    SearchStep { destroy: None, next }
                },
                Phase::Requested => SearchStep {
                    destroy: None,
                    next: self.refuse_with_split(failure),
                },
                Phase::WithoutSplit(first_failure) => SearchStep {
                    destroy: None,
                    next: self.refuse(first_failure),
                },
                Phase::Bisect => if failure.param_rejection {
                    SearchStep { destroy: None, next: self.narrow(self.lo, asked.bps, self.best) }
                } else {
                    SearchStep {
                        destroy: self.best,
                        next: SearchNext::Failed { failure, at_floor: false },
                    }
                },
                Phase::Floor => SearchStep {
                    destroy: None,
                    next: SearchNext::Try(OpenSearch { phase: Phase::FloorWithoutSplit, ..self }),
                },
                Phase::FloorWithoutSplit => SearchStep {
                    destroy: None,
                    next: SearchNext::Failed { failure, at_floor: true },
                },
            },
        }
    }

    /// Rank of the phases in the order the search goes through them.
    pub open spec fn phases_left(self) -> nat {
        match self.phase {
            Phase::First => 5,
            Phase::Requested => 4,
            Phase::WithoutSplit(_) => 3,
            Phase::Bisect => 2,
            Phase::Floor => 1,
            Phase::FloorWithoutSplit => 0,
        }
    }

    /// Width of the range that is left to bisect.
    pub open spec fn width(self) -> nat {
        if self.phase is Bisect && self.hi >= self.lo {
            (self.hi - self.lo) as nat
        } else {
            0
        }
    }
}

/// Where the search ends against a driver that answers each attempt in its own fixed way.
pub open spec fn settles(s: OpenSearch, driver: spec_fn(Attempt) -> OpenOutcome) -> SearchNext
    decreases s.phases_left(), s.width(),
    when s.wf()
{
    match s.after(driver(s.asks())).next {
        SearchNext::Try(next) => settles(next, driver),
        end => end,
    }
}

/// Each step brings the search closer to its end: a later phase, or a narrower range.
pub proof fn law_search_terminates(s: OpenSearch, outcome: OpenOutcome)
    requires
        s.wf(),
    ensures
        match s.after(outcome).next {
            SearchNext::Try(next) => next.wf() && (next.phases_left() < s.phases_left() || (
            next.phases_left() == s.phases_left() && next.width() < s.width())),
            _ => true,
        },
{
}

/// The sessions that are open between two steps.
pub open spec fn sessions_held(next: SearchNext) -> Option<u64> {
    match next {
        SearchNext::Try(s) => s.best,
        SearchNext::Opened { handle, .. } => Some(handle),
        SearchNext::Failed { .. } => None,
    }
}

/// No session is lost and none is destroyed twice: of the session held before a step and the one the
/// step opened, one is kept or returned and the other is handed out for destruction.
pub proof fn law_no_session_leaks(s: OpenSearch, outcome: OpenOutcome)
    requires
        s.wf(),
    ensures
        ({
            let kept = sessions_held(s.after(outcome).next);
            let destroyed = s.after(outcome).destroy;
            match outcome {
                OpenOutcome::Opened(handle) => kept == Some(handle) && destroyed == s.best,
                OpenOutcome::Failed(_) => (kept == s.best && destroyed is None) || (kept is None
                    && destroyed == s.best),
            }
        }),
{
}

/// The driver accepted `a` with the session `handle`.
pub open spec fn accepted(
    driver: spec_fn(Attempt) -> OpenOutcome, a: Attempt, handle: u64,
) -> bool {
    driver(a) == OpenOutcome::Opened(handle)
}

/// The session held by a state in the middle of the search is the one accepted at `lo`.
pub open spec fn holds_what_was_accepted(
    s: OpenSearch,
    driver: spec_fn(Attempt) -> OpenOutcome,
) -> bool {
    s.best is Some ==> accepted(driver, Attempt { bps: s.lo, split_mode: s.split_mode }, s.best->0)
}

/// The search ends with a session the driver accepted at exactly the reported rate and split mode,
/// never above the requested rate unless that lies below the floor.
pub proof fn law_search_result_was_accepted(
    s: OpenSearch,
    driver: spec_fn(Attempt) -> OpenOutcome,
)
    requires
        s.wf(),
        holds_what_was_accepted(s, driver),
    ensures
        settles(s, driver) !is Try,
        settles(s, driver) matches SearchNext::Opened { handle, bps, split_mode, .. } ==> accepted(
            driver,
            Attempt { bps, split_mode },
            handle,
        ) && (bps <= s.requested_bps || bps == FLOOR_BPS),
    decreases s.phases_left(), s.width(),
{
    let outcome = driver(s.asks());
    law_search_terminates(s, outcome);
    match s.after(outcome).next {
        SearchNext::Try(next) => {
            law_search_result_was_accepted(next, driver);
        },
        _ => {},
    }
}

/// Within the split mode, a driver that accepts a rate accepts every lower one down to the floor, and
/// refuses only for its parameters.
pub open spec fn has_rate_ceiling(
    driver: spec_fn(Attempt) -> OpenOutcome,
    split_mode: u32,
) -> bool {
    &&& forall|low: u64, high: u64|
        #![trigger driver(Attempt { bps: low, split_mode }), driver(Attempt { bps: high, split_mode })]
        FLOOR_BPS <= low <= high && driver(Attempt { bps: high, split_mode }) is Opened ==> driver(
            Attempt { bps: low, split_mode },
        ) is Opened
    &&& forall|a: Attempt| (#[trigger] driver(a)) matches OpenOutcome::Failed(f) ==> f.param_rejection
}

/// The upper end of a running bisection was refused, and so was the wanted rate in the phases that
/// come after it.
pub open spec fn upper_end_was_refused(
    s: OpenSearch,
    driver: spec_fn(Attempt) -> OpenOutcome,
) -> bool {
    &&& s.phase is WithoutSplit ==> driver(
        Attempt { bps: s.requested_bps, split_mode: s.split_mode },
    ) is Failed
    &&& s.phase matches Phase::WithoutSplit(f) ==> f.param_rejection
    &&& (s.phase is Bisect || s.phase is Floor || s.phase is FloorWithoutSplit) ==> driver(
        Attempt { bps: s.hi, split_mode: s.split_mode },
    ) is Failed
    &&& (s.phase is Floor || s.phase is FloorWithoutSplit) ==> s.lo == FLOOR_BPS && (s.hi <= s.lo
        || s.hi - s.lo <= CLAMP_TOL_BPS) && (s.hi >= FLOOR_BPS || s.hi == s.requested_bps)
    &&& s.phase is FloorWithoutSplit ==> driver(
        Attempt { bps: FLOOR_BPS, split_mode: s.split_mode },
    ) is Failed
}

/// Against a driver with a rate ceiling the search finds it: no rate that the driver would have
/// accepted with the wanted split mode lies the tolerance or more above the rate it settles for. A
/// search that opens right away at a remembered ceiling does not look further, so the first attempt
/// here is at the requested rate.
pub proof fn law_search_finds_the_ceiling(
    s: OpenSearch,
    driver: spec_fn(Attempt) -> OpenOutcome,
    rate: u64,
)
    requires
        s.wf(),
        has_rate_ceiling(driver, s.split_mode),
        upper_end_was_refused(s, driver),
        FLOOR_BPS <= rate <= s.requested_bps,
        driver(Attempt { bps: rate, split_mode: s.split_mode }) is Opened,
        s.phase is First ==> s.target_bps == s.requested_bps,
    ensures
        settles(s, driver) is Opened,
        settles(s, driver) matches SearchNext::Opened { bps, .. } ==> rate < bps + CLAMP_TOL_BPS,
    decreases s.phases_left(), s.width(),
{
    let asked = s.asks();
    let outcome = driver(asked);
    law_search_terminates(s, outcome);
    if s.phase is Bisect || s.phase is Floor || s.phase is FloorWithoutSplit {
        assert(rate < s.hi) by {
            if rate >= s.hi && s.hi >= FLOOR_BPS {
                assert(driver(Attempt { bps: s.hi, split_mode: s.split_mode }) is Opened);
            }
        }
    }
    if s.phase is FloorWithoutSplit {
        assert(driver(Attempt { bps: FLOOR_BPS, split_mode: s.split_mode }) is Opened);
    }
    match s.after(outcome).next {
        SearchNext::Try(next) => {
            assert(upper_end_was_refused(next, driver));
            law_search_finds_the_ceiling(next, driver, rate);
        },
        SearchNext::Opened { .. } => {},
        SearchNext::Failed { .. } => {},
    }
}

/// A whole search: the states it goes through, what each of them asks the driver for, and what each
/// answer leads to. The driver answers each attempt in its own fixed way.
pub struct SearchRun {
    pub states: Seq<OpenSearch>,
    pub asked: Seq<Attempt>,
    pub steps: Seq<SearchStep>,
}

impl SearchRun {
    /// The run is one of the executable search: begun with [`OpenSearch::start`], asked for by
    /// [`OpenSearch::attempt`] and moved on by [`OpenSearch::step`] until there is nothing left to
    /// try.
    pub open spec fn searches(
        self,
        requested_bps: u64,
        cached_ceiling: Option<u64>,
        split_mode: u32,
        driver: spec_fn(Attempt) -> OpenOutcome,
    ) -> bool {
        &&& self.states.len() > 0
        &&& self.asked.len() == self.states.len()
        &&& self.steps.len() == self.states.len()
        &&& call_ensures(
            OpenSearch::start,
            (requested_bps, cached_ceiling, split_mode),
            self.states[0],
        )
        &&& forall|i: int|
            0 <= i < self.states.len() ==> call_ensures(
                OpenSearch::attempt,
                (&#[trigger] self.states[i],),
                self.asked[i],
            )
        &&& forall|i: int|
            0 <= i < self.states.len() ==> call_ensures(
                OpenSearch::step,
                (#[trigger] self.states[i], driver(self.asked[i])),
                self.steps[i],
            )
        &&& forall|i: int, j: int|
            #![trigger self.steps[i], self.states[j]]
            0 <= i < self.states.len() - 1 && j == i + 1 ==> self.steps[i].next == SearchNext::Try(
                self.states[j],
            )
        &&& self.steps.last().next !is Try
    }

    pub open spec fn end(self) -> SearchNext {
        self.steps.last().next
    }
}

/// What the driver has refused by the time a search is in the state `s`.
pub open spec fn refused_so_far(s: OpenSearch, driver: spec_fn(Attempt) -> OpenOutcome) -> bool {
    let wanted = driver(Attempt { bps: s.requested_bps, split_mode: s.split_mode });
    &&& s.wf()
    &&& holds_what_was_accepted(s, driver)
    &&& s.phase matches Phase::WithoutSplit(f) ==> wanted == OpenOutcome::Failed(f)
    &&& s.phase is Bisect || s.phase is Floor || s.phase is FloorWithoutSplit ==> {
        &&& wanted matches OpenOutcome::Failed(f) && f.param_rejection
        &&& driver(
            Attempt { bps: s.requested_bps, split_mode: SPLIT_DISABLE_MODE },
        ) is Failed
    }
    &&& s.phase is FloorWithoutSplit ==> driver(
        Attempt { bps: FLOOR_BPS, split_mode: s.split_mode },
    ) is Failed
}

proof fn lemma_run_up_to(
    run: SearchRun,
    requested_bps: u64,
    cached_ceiling: Option<u64>,
    split_mode: u32,
    driver: spec_fn(Attempt) -> OpenOutcome,
    i: int,
)
    requires
        run.searches(requested_bps, cached_ceiling, split_mode, driver),
        0 <= i < run.states.len(),
    ensures
        run.states[i].requested_bps == requested_bps,
        run.states[i].split_mode == split_mode,
        refused_so_far(run.states[i], driver),
        run.asked[i] == run.states[i].asks(),
        run.steps[i] == run.states[i].after(driver(run.asked[i])),
        run.states[i].phase is First <==> i == 0,
        run.states[i].phase is First ==> run.states[i].target_bps == (match cached_ceiling {
            Some(c) => if c < requested_bps {
                c
            } else {
                requested_bps
            },
            None => requested_bps,
        }),
        i > 0 && cached_ceiling is None ==> !(run.states[i].phase is Requested),
    decreases i,
{
    let s = run.states[i];
    if i > 0 {
        lemma_run_up_to(run, requested_bps, cached_ceiling, split_mode, driver, i - 1);
        let before = run.states[i - 1];
        assert(run.steps[i - 1].next == SearchNext::Try(run.states[i]));
    }
}

/// Every attempt of a search is at the wanted split mode or without split encoding, and at no rate
/// above the requested one, unless that lies below the floor of 10 Mbit/s, which is then the only
/// other rate asked for. The first attempt is at the lower of the requested rate and the remembered
/// ceiling, with the wanted split mode.
pub proof fn law_attempts_stay_within_the_request(
    run: SearchRun,
    requested_bps: u64,
    cached_ceiling: Option<u64>,
    split_mode: u32,
    driver: spec_fn(Attempt) -> OpenOutcome,
    i: int,
)
    requires
        run.searches(requested_bps, cached_ceiling, split_mode, driver),
        0 <= i < run.states.len(),
    ensures
        run.asked[i].bps <= requested_bps || run.asked[i].bps == 10_000_000,
        run.asked[i].split_mode == split_mode || run.asked[i].split_mode == 15,
        run.asked[0].split_mode == split_mode,
        run.asked[0].bps <= requested_bps,
        cached_ceiling is Some ==> run.asked[0].bps <= cached_ceiling->0,
        run.asked[0].bps == requested_bps || cached_ceiling == Some(run.asked[0].bps),
{
    lemma_run_up_to(run, requested_bps, cached_ceiling, split_mode, driver, i);
    lemma_run_up_to(run, requested_bps, cached_ceiling, split_mode, driver, 0);
}

/// A search ends with a session that the driver opened at exactly the reported rate and split mode.
pub proof fn law_the_opened_session_is_the_reported_one(
    run: SearchRun,
    requested_bps: u64,
    cached_ceiling: Option<u64>,
    split_mode: u32,
    driver: spec_fn(Attempt) -> OpenOutcome,
)
    requires
        run.searches(requested_bps, cached_ceiling, split_mode, driver),
    ensures
        run.end() matches SearchNext::Opened { handle, bps, split_mode: mode, .. } ==> driver(
            Attempt { bps, split_mode: mode },
        ) == OpenOutcome::Opened(handle),
{
    let last = run.states.len() - 1;
    lemma_run_up_to(run, requested_bps, cached_ceiling, split_mode, driver, last);
}

/// A session is reported as clamped only where the driver refused the requested rate in this very
/// search, with the wanted split mode and without split encoding, and refused it for its parameters.
/// A session that is not reported as clamped runs at the requested rate or at the remembered ceiling
/// below it.
pub proof fn law_a_clamp_follows_a_refusal(
    run: SearchRun,
    requested_bps: u64,
    cached_ceiling: Option<u64>,
    split_mode: u32,
    driver: spec_fn(Attempt) -> OpenOutcome,
)
    requires
        run.searches(requested_bps, cached_ceiling, split_mode, driver),
    ensures
        run.end() matches SearchNext::Opened { bps, clamped, .. } ==> {
            &&& clamped ==> {
                &&& driver(Attempt { bps: requested_bps, split_mode }) matches OpenOutcome::Failed(f)
                    && f.param_rejection
                &&& driver(Attempt { bps: requested_bps, split_mode: 15 }) is Failed
                &&& exists|i: int|
                    0 <= i < run.asked.len() && #[trigger] run.asked[i] == (Attempt {
                        bps: requested_bps,
                        split_mode,
                    })
            }
            &&& !clamped ==> bps == requested_bps || (cached_ceiling == Some(bps) && bps
                < requested_bps)
        },
{
    let last = run.states.len() - 1;
    lemma_run_up_to(run, requested_bps, cached_ceiling, split_mode, driver, last);
    lemma_run_up_to(run, requested_bps, cached_ceiling, split_mode, driver, 0);
    if run.states[last].phase is Bisect || run.states[last].phase is Floor
        || run.states[last].phase is FloorWithoutSplit {
        lemma_run_up_to(run, requested_bps, cached_ceiling, split_mode, driver, 1);
        assert(run.steps[0].next == SearchNext::Try(run.states[1]));
        assert(run.asked[0].bps == requested_bps || run.asked[1].bps == requested_bps);
    }
}

/// A search whose remembered-ceiling attempt the driver accepts ends there, unclamped. So does one
/// whose requested rate the driver accepts, with the wanted split mode or without split encoding: it
/// ends with an unclamped session.
pub proof fn law_an_accepted_rate_is_no_clamp(
    run: SearchRun,
    requested_bps: u64,
    cached_ceiling: Option<u64>,
    split_mode: u32,
    driver: spec_fn(Attempt) -> OpenOutcome,
)
    requires
        run.searches(requested_bps, cached_ceiling, split_mode, driver),
    ensures
        driver(Attempt { bps: requested_bps, split_mode }) is Opened
            ==> (run.end() matches SearchNext::Opened {
            clamped,
            split_mode: mode,
            ..
        } && !clamped && mode == split_mode),
        driver(Attempt { bps: requested_bps, split_mode: 15 }) is Opened
            ==> (run.end() matches SearchNext::Opened {
            clamped,
            ..
        } && !clamped),
        cached_ceiling matches Some(c) && c < requested_bps && (driver(
            Attempt { bps: c, split_mode },
        ) is Opened) ==> (run.end() matches SearchNext::Opened { bps, split_mode: mode, clamped, .. }
            && bps == cached_ceiling->0 && mode == split_mode && !clamped),
        driver(Attempt { bps: requested_bps, split_mode }) is Opened && (cached_ceiling is None
            || cached_ceiling->0 >= requested_bps || driver(
            Attempt { bps: cached_ceiling->0, split_mode },
        ) is Failed) ==> (run.end() matches SearchNext::Opened { bps, .. } && bps == requested_bps),
{
    let last = run.states.len() - 1;
    lemma_run_up_to(run, requested_bps, cached_ceiling, split_mode, driver, last);
    lemma_run_up_to(run, requested_bps, cached_ceiling, split_mode, driver, 0);
    if last > 0 {
        lemma_run_up_to(run, requested_bps, cached_ceiling, split_mode, driver, 1);
        assert(run.steps[0].next == SearchNext::Try(run.states[1]));
    }
}

/// A search fails with an answer the driver gave in it. It reports the floor as refused only where
/// the driver refused the floor with the wanted split mode and without, and otherwise gives up only
/// on a refusal that no lower rate would cure.
pub proof fn law_a_failed_search_names_its_refusal(
    run: SearchRun,
    requested_bps: u64,
    cached_ceiling: Option<u64>,
    split_mode: u32,
    driver: spec_fn(Attempt) -> OpenOutcome,
)
    requires
        run.searches(requested_bps, cached_ceiling, split_mode, driver),
    ensures
        run.end() matches SearchNext::Failed { failure, at_floor } ==> {
            &&& driver(Attempt { bps: requested_bps, split_mode }) is Failed
            &&& driver(Attempt { bps: requested_bps, split_mode: 15 }) is Failed
            &&& at_floor ==> {
                &&& driver(Attempt { bps: 10_000_000, split_mode }) is Failed
                &&& driver(Attempt { bps: 10_000_000, split_mode: 15 }) == OpenOutcome::Failed(
                    failure,
                )
            }
            &&& !at_floor ==> !failure.param_rejection && exists|a: Attempt|
                #[trigger] driver(a) == OpenOutcome::Failed(failure)
        },
{
    let last = run.states.len() - 1;
    lemma_run_up_to(run, requested_bps, cached_ceiling, split_mode, driver, last);
}

/// Sessions that a search opens are each kept, returned or handed out for destruction: after a step
/// that opened one, the one held before it is destroyed, and a search that fails holds none.
pub proof fn law_superseded_sessions_are_destroyed(s: OpenSearch, outcome: OpenOutcome, r: SearchStep)
    requires
        s.wf(),
        call_ensures(OpenSearch::step, (s, outcome), r),
    ensures
        outcome is Opened ==> r.destroy == s.best && r.next !is Failed,
        r.next is Failed ==> r.destroy == s.best,
        outcome is Failed && r.next !is Failed ==> r.destroy is None,
        r.next matches SearchNext::Opened { handle, .. } ==> (outcome == OpenOutcome::Opened(handle)
            || s.best == Some(handle)),
        r.next matches SearchNext::Try(t) && t.best is Some ==> (outcome == OpenOutcome::Opened(
            r.next->Try_0.best->0,
        ) || s.best == r.next->Try_0.best),
{
}

/// Against a driver with a rate ceiling, a search that has none remembered settles within 20 Mbit/s of
/// it: no rate from 10 Mbit/s up to the requested one that the driver would have accepted lies further
/// above the rate of the session.
pub proof fn law_the_search_settles_close_to_the_ceiling(
    run: SearchRun,
    requested_bps: u64,
    split_mode: u32,
    driver: spec_fn(Attempt) -> OpenOutcome,
    rate: u64,
)
    requires
        run.searches(requested_bps, None, split_mode, driver),
        has_rate_ceiling(driver, split_mode),
        10_000_000 <= rate <= requested_bps,
        driver(Attempt { bps: rate, split_mode }) is Opened,
    ensures
        run.end() matches SearchNext::Opened { bps, .. } && rate < bps + 20_000_000,
{
    lemma_run_up_to(run, requested_bps, None, split_mode, driver, 0);
    law_search_finds_the_ceiling(run.states[0], driver, rate);
    lemma_run_settles(run, requested_bps, None, split_mode, driver, 0);
}

proof fn lemma_run_settles(
    run: SearchRun,
    requested_bps: u64,
    cached_ceiling: Option<u64>,
    split_mode: u32,
    driver: spec_fn(Attempt) -> OpenOutcome,
    i: int,
)
    requires
        run.searches(requested_bps, cached_ceiling, split_mode, driver),
        0 <= i < run.states.len(),
    ensures
        settles(run.states[i], driver) == run.end(),
    decreases run.states.len() - i,
{
    lemma_run_up_to(run, requested_bps, cached_ceiling, split_mode, driver, i);
    if i < run.states.len() - 1 {
        lemma_run_settles(run, requested_bps, cached_ceiling, split_mode, driver, i + 1);
        assert(run.steps[i].next == SearchNext::Try(run.states[i + 1]));
    }
}

} // verus!

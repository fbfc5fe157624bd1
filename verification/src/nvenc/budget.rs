//! The process-wide budget of hardware encode sessions.
//!
//! A driver allows a limited number of concurrent sessions. Each open session is charged for the
//! encode engines it occupies. A session whose destruction failed ambiguously is parked: it may still
//! hold its slot, so its units stay charged until a later attempt proves the slot free, or until it
//! is aged out to bound the parking lot.
use crate::text::{opt_view, parse_u32, unsigned_up_to};
use vstd::prelude::*;

verus! {

pub const SPLIT_AUTO_FORCED_MODE: u32 = 1;

pub const SPLIT_TWO_FORCED_MODE: u32 = 2;

pub const SPLIT_THREE_FORCED_MODE: u32 = 3;

/// Sessions the driver is taken to allow where nothing else is configured.
pub const DEFAULT_SESSION_CAP: u32 = 8;

/// Engines a session occupies in a split mode.
pub open spec fn engines(split_mode: u32) -> u32 {
    if split_mode == SPLIT_THREE_FORCED_MODE {
        3
    } else if split_mode == SPLIT_TWO_FORCED_MODE || split_mode == SPLIT_AUTO_FORCED_MODE {
        2
    } else {
        1
    }
}

/// Units a session with this split mode is charged.
pub fn split_mode_units(split_mode: u32) -> (units: u32)
    ensures
        units == engines(split_mode),
        1 <= units <= 3,
{
    if split_mode == SPLIT_THREE_FORCED_MODE {
        3
    } else if split_mode == SPLIT_TWO_FORCED_MODE || split_mode == SPLIT_AUTO_FORCED_MODE {
        2
    } else {
        1
    }
}

/// The configured session limit: a plain number, or the default.
pub open spec fn cap_setting(raw: Option<Seq<char>>) -> int {
    match raw {
        Some(s) => match unsigned_up_to(s, u32::MAX as int) {
            Some(n) => n,
            None => DEFAULT_SESSION_CAP as int,
        },
        None => DEFAULT_SESSION_CAP as int,
    }
}

/// Reads the session limit out of the configuration.
pub fn session_cap(raw: Option<&str>) -> (cap: u32)
    ensures
        cap == cap_setting(opt_view(raw)),
{
    match raw {
        Some(s) => match parse_u32(s) {
            Some(n) => n,
            None => DEFAULT_SESSION_CAP,
        },
        None => DEFAULT_SESSION_CAP,
    }
}

/// Whether the charged units leave room for another session. While nothing is charged there always is:
/// the limit is none of an adapter that no session was ever opened on.
pub fn can_open_another_session(live_units: u32, cap: u32) -> (r: bool)
    ensures
        r == (live_units == 0 || live_units < cap),
{
    live_units == 0 || live_units < cap
}

/// A session whose destruction failed without proving that the driver let go of it.
#[derive(Clone, Copy, Debug, PartialEq, Eq, Structural)]
pub struct ParkedSession {
    pub enc: u64,
    pub units: u32,
}

/// Units of a list of parked sessions.
pub open spec fn units_of(parked: Seq<ParkedSession>) -> nat
    decreases parked.len(),
{
    if parked.len() == 0 {
        0
    } else {
        units_of(parked.drop_last()) + parked.last().units as nat
    }
}

proof fn lemma_units_push(parked: Seq<ParkedSession>, z: ParkedSession)
    ensures
        units_of(parked.push(z)) == units_of(parked) + z.units,
{
    assert(parked.push(z).drop_last() =~= parked);
}

proof fn lemma_units_prepend(z: ParkedSession, rest: Seq<ParkedSession>)
    ensures
        units_of(seq![z] + rest) == z.units + units_of(rest),
    decreases rest.len(),
{
    if rest.len() == 0 {
        assert((seq![z] + rest).drop_last() =~= Seq::<ParkedSession>::empty());
        assert((seq![z] + rest).last() == z);
        assert(units_of(Seq::<ParkedSession>::empty()) == 0);
        assert(units_of(rest) == 0);
    } else {
        lemma_units_prepend(z, rest.drop_last());
        assert((seq![z] + rest).drop_last() =~= seq![z] + rest.drop_last());
        assert((seq![z] + rest).last() == rest.last());
    }
}

proof fn lemma_units_take(parked: Seq<ParkedSession>, n: int)
    requires
        0 <= n <= parked.len(),
    ensures
        units_of(parked.take(n)) <= units_of(parked),
    decreases parked.len() - n,
{
    if n < parked.len() {
        lemma_units_take(parked, n + 1);
        lemma_units_push(parked.take(n), parked[n]);
        assert(parked.take(n + 1) =~= parked.take(n).push(parked[n]));
    } else {
        assert(parked.take(n) =~= parked);
    }
}

/// What destroying a session proved.
#[derive(Clone, Copy, Debug, PartialEq, Eq, Structural)]
pub enum DestroyOutcome {
    Destroyed,
    /// Failed, but with a status that proves the driver holds no such session.
    ProvesNoSession,
    /// Failed, and the driver may still hold the slot.
    Ambiguous,
}

impl DestroyOutcome {
    /// The slot is known to be free.
    pub open spec fn frees_the_slot(self) -> bool {
        !(self is Ambiguous)
    }
}

/// The parked sessions whose destruction still fails, in their order.
pub open spec fn still_parked(
    parked: Seq<ParkedSession>,
    outcomes: Seq<DestroyOutcome>,
) -> Seq<ParkedSession>
    decreases parked.len(),
{
    if parked.len() == 0 {
        Seq::empty()
    } else {
        let rest = still_parked(parked.drop_last(), outcomes.drop_last());
        if outcomes.last().frees_the_slot() {
            rest
        } else {
            rest.push(parked.last())
        }
    }
}

/// Units charged for open and parked sessions.
pub struct SessionBudget {
    pub live_units: u32,
    pub parked: Vec<ParkedSession>,
}

impl SessionBudget {
    /// The parked sessions are among those charged for.
    pub open spec fn wf(self) -> bool {
        units_of(self.parked@) <= self.live_units
    }

    /// Units of the sessions that are open and not parked.
    pub open spec fn open_units(self) -> int {
        self.live_units - units_of(self.parked@)
    }

    pub fn new() -> (b: SessionBudget)
        ensures
            b.wf(),
            b.live_units == 0,
            b.parked@ == Seq::<ParkedSession>::empty(),
    {
        SessionBudget { live_units: 0, parked: Vec::new() }
    }

    /// Charges a session that has just been opened.
    pub fn charge(&mut self, units: u32)
        requires
            old(self).wf(),
            old(self).live_units + units <= u32::MAX,
        ensures
            final(self).wf(),
            final(self).live_units == old(self).live_units + units,
            final(self).parked@ == old(self).parked@,
    {
        self.live_units = self.live_units + units;
    }

    /// Returns the units of an open session whose slot is free again.
    pub fn refund(&mut self, units: u32)
        requires
            old(self).wf(),
            units <= old(self).open_units(),
        ensures
            final(self).wf(),
            final(self).live_units == old(self).live_units - units,
            final(self).parked@ == old(self).parked@,
    {
        self.live_units = self.live_units - units;
    }

    /// Units of all parked sessions.
    pub fn parked_units(&self) -> (sum: u32)
        requires
            self.wf(),
        ensures
            sum == units_of(self.parked@),
    {
        let mut sum: u32 = 0;
        let mut i: usize = 0;
        while i < self.parked.len()
            invariant
                i <= self.parked@.len(),
                sum == units_of(self.parked@.take(i as int)),
                units_of(self.parked@) <= u32::MAX,
            decreases self.parked@.len() - i,
        {
            proof {
                lemma_units_push(self.parked@.take(i as int), self.parked@[i as int]);
                assert(self.parked@.take(i + 1) =~= self.parked@.take(i as int).push(
                    self.parked@[i as int],
                ));
                lemma_units_take(self.parked@, i + 1);
            }
            sum = sum + self.parked[i].units;
            i = i + 1;
        }
        assert(self.parked@.take(self.parked@.len() as int) =~= self.parked@);
        sum
    }

    /// Parks an open session. The oldest parked sessions are aged out and refunded until the parking
    /// lot with the new one fits `cap`, or only the new one is left. Returns those aged out, oldest
    /// first.
    pub fn park_session(&mut self, enc: u64, units: u32, cap: u32) -> (aged: Vec<ParkedSession>)
        requires
            old(self).wf(),
            units <= old(self).open_units(),
        ensures
            final(self).wf(),
            final(self).parked@.len() > 0,
            final(self).parked@.last() == (ParkedSession { enc, units }),
            aged@ + final(self).parked@.drop_last() == old(self).parked@,
            final(self).live_units == old(self).live_units - units_of(aged@),
            final(self).open_units() == old(self).open_units() - units,
            aged@.len() == old(self).parked@.len() || units_of(final(self).parked@) <= cap,
            forall|k: int|
                0 <= k < aged@.len() ==> units_of(#[trigger] old(self).parked@.skip(k)) + units > cap,
    {
        let ghost before = self.parked@;
        let ghost live_before = self.live_units;
        let mut aged: Vec<ParkedSession> = Vec::new();
        let mut sum: u32 = self.parked_units();
        while self.parked.len() > 0 && sum + units > cap
            invariant
                before == aged@ + self.parked@,
                sum == units_of(self.parked@),
                sum + units <= self.live_units,
                self.live_units + units_of(aged@) == live_before,
                self.live_units - sum == live_before - units_of(before),
                forall|k: int|
                    0 <= k < aged@.len() ==> units_of(#[trigger] before.skip(k)) + units > cap,
            decreases self.parked@.len(),
        {
            let ghost lot = self.parked@;
            let ghost aged_before = aged@;
            let z = self.parked.remove(0);
            proof {
                assert(lot =~= seq![z] + self.parked@);
                lemma_units_prepend(z, self.parked@);
                lemma_units_push(aged_before, z);
                assert(before.skip(aged_before.len() as int) =~= lot);
            }
            self.live_units = self.live_units - z.units;
            sum = sum - z.units;
            aged.push(z);
            assert(before =~= aged@ + self.parked@);
        }
        proof {
            lemma_units_push(self.parked@, ParkedSession { enc, units });
            if self.parked@.len() == 0 {
                assert(aged@ =~= before);
            }
        }
        let ghost lot = self.parked@;
        self.parked.push(ParkedSession { enc, units });
        assert(self.parked@.drop_last() =~= lot);
        aged
    }

    /// Whether the parked sessions may be destroyed again: only while nothing but them is charged, so
    /// that no handle of theirs can have been reused by a session that is open.
    pub fn may_reap(&self) -> (r: bool)
        requires
            self.wf(),
        ensures
            r == (self.parked@.len() > 0 && self.open_units() == 0),
    {
        self.parked.len() > 0 && self.live_units == self.parked_units()
    }

    /// Records the outcome of another attempt at destroying each parked session, in their order:
    /// those whose slot is proven free leave the parking lot and are refunded.
    pub fn reap_parked_sessions(&mut self, outcomes: &Vec<DestroyOutcome>)
        requires
            old(self).wf(),
            outcomes@.len() == old(self).parked@.len(),
        ensures
            final(self).wf(),
            final(self).parked@ == still_parked(old(self).parked@, outcomes@),
            final(self).open_units() == old(self).open_units(),
    {
        let ghost before = self.parked@;
        let ghost open_before = self.open_units();
        let mut kept: Vec<ParkedSession> = Vec::new();
        let mut i: usize = 0;
        while i < self.parked.len()
            invariant
                self.parked@ == before,
                outcomes@.len() == before.len(),
                i <= before.len(),
                kept@ == still_parked(before.take(i as int), outcomes@.take(i as int)),
                self.live_units == open_before + units_of(kept@) + (units_of(before) - units_of(
                    before.take(i as int),
                )),
                open_before >= 0,
            decreases before.len() - i,
        {
            let z = self.parked[i];
            proof {
                assert(before.take(i + 1).drop_last() =~= before.take(i as int));
                assert(outcomes@.take(i + 1).drop_last() =~= outcomes@.take(i as int));
                assert(before.take(i + 1) =~= before.take(i as int).push(z));
                lemma_units_push(before.take(i as int), z);
                lemma_units_take(before, i + 1);
                lemma_units_push(kept@, z);
            }
            match outcomes[i] {
                DestroyOutcome::Destroyed | DestroyOutcome::ProvesNoSession => {
                    self.live_units = self.live_units - z.units;
                },
                DestroyOutcome::Ambiguous => {
                    kept.push(z);
                },
            }
            i = i + 1;
        }
        proof {
            assert(before.take(before.len() as int) =~= before);
            assert(outcomes@.take(outcomes@.len() as int) =~= outcomes@);
        }
        self.parked = kept;
    }

    /// What [`Self::session_closed`] does to the books, with the parked sessions that it ages out: no
    /// more of the oldest than it takes for the parked units to fit the cap.
    pub open spec fn settles(
        self,
        enc: u64,
        units: u32,
        outcome: DestroyOutcome,
        cap: u32,
        aged: Seq<ParkedSession>,
        after: Self,
    ) -> bool {
        &&& after.wf()
        &&& after.open_units() == self.open_units() - units
        &&& outcome.frees_the_slot() ==> {
            &&& after.live_units == self.live_units - units
            &&& after.parked@ == self.parked@
            &&& aged.len() == 0
        }
        &&& !outcome.frees_the_slot() ==> {
            &&& after.live_units == self.live_units - units_of(aged)
            &&& aged + after.parked@ == self.parked@.push(ParkedSession { enc, units })
            &&& aged.len() <= self.parked@.len()
            &&& aged.len() == self.parked@.len() || units_of(after.parked@) <= cap
            &&& forall|k: int|
                0 <= k < aged.len() ==> units_of(#[trigger] self.parked@.skip(k)) + units > cap
        }
    }

    /// Settles the books for a session that the encoder has let go of: its units come back where the
    /// slot is proven free, and the handle is parked where it is not. Returns the parked sessions
    /// that were aged out for it.
    pub fn session_closed(&mut self, enc: u64, units: u32, outcome: DestroyOutcome, cap: u32) -> (aged:
        Vec<ParkedSession>)
        requires
            old(self).wf(),
            units <= old(self).open_units(),
        ensures
            old(self).settles(enc, units, outcome, cap, aged@, *final(self)),
    {
        match outcome {
            DestroyOutcome::Destroyed | DestroyOutcome::ProvesNoSession => {
                self.refund(units);
                Vec::new()
            },
            DestroyOutcome::Ambiguous => {
                let aged = self.park_session(enc, units, cap);
                proof {
                    let rest = self.parked@.drop_last();
                    assert(self.parked@ =~= rest.push(ParkedSession { enc, units }));
                    assert(aged@ + self.parked@ =~= (aged@ + rest).push(
                        ParkedSession { enc, units },
                    ));
                }
                aged
            },
        }
    }
}

/// The parking lot stays bounded: after a park its units fit the cap, or the newest session is all
/// that is left in it.
pub proof fn law_parking_lot_is_bounded(
    aged: Seq<ParkedSession>,
    before: Seq<ParkedSession>,
    after: Seq<ParkedSession>,
    newest: ParkedSession,
    cap: u32,
)
    requires
        aged + after == before.push(newest),
        aged.len() == before.len() || units_of(after) <= cap,
    ensures
        units_of(after) <= cap || after == seq![newest],
{
    if aged.len() == before.len() {
        assert((aged + after).len() == aged.len() + after.len());
        assert(before.push(newest).len() == before.len() + 1);
        assert(after.len() == 1);
        assert((aged + after)[before.len() as int] == newest);
        assert(after =~= seq![newest]);
    }
}

/// Reaping refunds exactly the units of the sessions it drops and touches no other: what stays parked
/// never grows.
pub proof fn law_reaping_never_charges(parked: Seq<ParkedSession>, outcomes: Seq<DestroyOutcome>)
    requires
        outcomes.len() == parked.len(),
    ensures
        units_of(still_parked(parked, outcomes)) <= units_of(parked),
        (forall|i: int| 0 <= i < outcomes.len() ==> (#[trigger] outcomes[i]).frees_the_slot())
            ==> still_parked(parked, outcomes).len() == 0,
        (forall|i: int| 0 <= i < outcomes.len() ==> !(#[trigger] outcomes[i]).frees_the_slot())
            ==> still_parked(parked, outcomes) == parked,
    decreases parked.len(),
{
    if parked.len() > 0 {
        let p = parked.drop_last();
        let o = outcomes.drop_last();
        law_reaping_never_charges(p, o);
        lemma_units_push(still_parked(p, o), parked.last());
        assert(forall|i: int| 0 <= i < o.len() ==> #[trigger] o[i] == outcomes[i]);
        assert(outcomes.last() == outcomes[outcomes.len() - 1]);
        assert(p.push(parked.last()) =~= parked);
    } else {
        assert(still_parked(parked, outcomes) =~= parked);
    }
}

} // verus!

//! Long-term-reference recovery with two user-controlled slots.
//!
//! Frames are marked into the slots in turn. When the client reports a loss, the next frame is forced
//! to reference the newest frame marked before the loss, which the client still holds. A slot marked
//! inside the corrupt window is distrusted until it is marked again.
use crate::rfi::{
    is_anchor, is_anchor_at, law_anchor_is_unique, plan_slot_recovery, slot_in_mask, slot_is_swept,
    SlotPlan,
};
use crate::text::parse_i64;
use vstd::prelude::*;

verus! {

/// Long-term reference slots of a session.
pub const NUM_LTR_SLOTS: usize = 2;

/// How a backend remembers that a slot is no longer trusted.
#[derive(Clone, Copy, Debug, PartialEq, Eq, Structural)]
pub enum Distrust {
    /// The slot is taken to be empty.
    Forget,
    /// The slot keeps naming the frame the hardware holds, so that it can be rejected by name.
    Flag,
}

#[derive(Clone, Copy, Debug)]
pub struct LtrSlots {
    /// Wire index of the frame marked into each slot.
    pub slots: [Option<i64>; 2],
    /// Slots whose frame lies in a corrupt window.
    pub tainted: [bool; 2],
    /// The slot the next mark goes to.
    pub next: usize,
    /// The slot the next frame is to reference.
    pub pending_force: Option<usize>,
    /// Frames between marks.
    pub mark_interval: i64,
    pub distrust: Distrust,
}

/// What a frame is submitted with.
#[derive(Clone, Copy, Debug)]
pub struct LtrPlan {
    /// Mark the frame into this slot.
    pub mark: Option<usize>,
    /// Reference only this slot, which holds this frame.
    pub force: Option<(usize, i64)>,
}

/// The frame `w` lies before the loss.
pub open spec fn before_loss(w: Option<i64>, first: i64) -> bool {
    w is Some && w->0 < first
}

impl LtrSlots {
    pub open spec fn wf(self) -> bool {
        &&& self.next < 2
        &&& self.mark_interval >= 1
        &&& self.pending_force matches Some(s) ==> s < 2
    }

    /// The frame in a slot, unless it is distrusted.
    pub open spec fn trusted(self, slot: int) -> Option<i64> {
        if self.tainted@[slot] {
            None
        } else {
            self.slots@[slot]
        }
    }

    /// No slot holds a frame.
    pub open spec fn is_cleared(self) -> bool {
        &&& self.slots@ == seq![None::<i64>, None::<i64>]
        &&& self.tainted@ == seq![false, false]
        &&& self.next == 0
        &&& self.pending_force is None
    }

    /// The policy is the same as in `other`.
    pub open spec fn same_policy(self, other: LtrSlots) -> bool {
        self.mark_interval == other.mark_interval && self.distrust == other.distrust
    }

    /// The slot a loss starting at `first` recovers from: the newest trusted frame before it, the
    /// lower slot on a tie.
    pub open spec fn anchor_slot(self, first: i64) -> Option<usize> {
        let a = self.trusted(0);
        let b = self.trusted(1);
        if before_loss(a, first) && before_loss(b, first) {
            if b->0 > a->0 {
                Some(1)
            } else {
                Some(0)
            }
        } else if before_loss(a, first) {
            Some(0)
        } else if before_loss(b, first) {
            Some(1)
        } else {
            None
        }
    }

    /// The slot's frame was encoded at or after the loss.
    pub open spec fn swept(self, slot: int, first: i64) -> bool {
        self.trusted(slot) is Some && self.trusted(slot)->0 >= first
    }

    /// `after` is the table once a loss starting at `first` was taken in.
    pub open spec fn is_invalidated(self, first: i64, after: LtrSlots) -> bool {
        &&& after.same_policy(self)
        &&& after.next == self.next
        &&& after.pending_force == self.anchor_slot(first)
        &&& after.slots@.len() == 2 && after.tainted@.len() == 2
        &&& forall|s: int|
            0 <= s < 2 ==> {
                let swept = self.swept(s, first);
                &&& #[trigger] after.slots@[s] == if swept && self.distrust == Distrust::Forget {
                    None
                } else {
                    self.slots@[s]
                }
                &&& after.tainted@[s] == (self.tainted@[s] || (swept && self.distrust
                    == Distrust::Flag))
            }
    }

    /// What a frame does with a table that already took in its keyframe or loss: the pending force is
    /// used up, and the frame is marked on its turn unless it is the recovery frame.
    pub open spec fn is_planned(
        self,
        cur_idx: i64,
        forced: bool,
        plan: LtrPlan,
        after: LtrSlots,
    ) -> bool {
        let due = plan.force is None && (forced || cur_idx % self.mark_interval == 0);
        &&& plan.force == match self.pending_force {
            Some(s) => match self.trusted(s as int) {
                Some(w) => Some((s, w)),
                None => None,
            },
            None => None,
        }
        &&& plan.mark == if due {
            Some(self.next)
        } else {
            None
        }
        &&& after.same_policy(self)
        &&& after.pending_force is None
        &&& after.slots@ == if due {
            self.slots@.update(self.next as int, Some(cur_idx))
        } else {
            self.slots@
        }
        &&& after.tainted@ == if due {
            self.tainted@.update(self.next as int, false)
        } else {
            self.tainted@
        }
        &&& after.next == if due {
            ((self.next + 1) % 2) as usize
        } else {
            self.next
        }
    }

    /// What a frame does with the table: a keyframe empties it first, and the frame named by `hook`
    /// reports its own loss first.
    pub open spec fn plans(
        self,
        cur_idx: i64,
        forced: bool,
        hook: Option<i64>,
        plan: LtrPlan,
        after: LtrSlots,
    ) -> bool {
        &&& forced ==> exists|mid: LtrSlots| #[trigger]
            mid.is_planned(cur_idx, true, plan, after) && mid.is_cleared() && mid.same_policy(self)
        &&& !forced && hook == Some(cur_idx) ==> exists|mid: LtrSlots| #[trigger]
            mid.is_planned(cur_idx, false, plan, after) && self.is_invalidated(cur_idx, mid)
        &&& !forced && hook != Some(cur_idx) ==> self.is_planned(cur_idx, false, plan, after)
    }

    pub fn new(mark_interval: i64, distrust: Distrust) -> (t: LtrSlots)
        requires
            mark_interval >= 1,
        ensures
            t.wf(),
            t.is_cleared(),
            t.mark_interval == mark_interval,
            t.distrust == distrust,
    {
        let t = LtrSlots {
            slots: [None, None],
            tainted: [false, false],
            next: 0,
            pending_force: None,
            mark_interval,
            distrust,
        };
        assert(t.slots@ =~= seq![None::<i64>, None::<i64>]);
        assert(t.tainted@ =~= seq![false, false]);
        t
    }

    /// Empties the table: the decoder's references are gone.
    pub fn clear(&mut self)
        requires
            old(self).wf(),
        ensures
            final(self).wf(),
            final(self).is_cleared(),
            final(self).same_policy(*old(self)),
    {
        let interval: i64 = self.mark_interval;
        let distrust = self.distrust;
        *self = LtrSlots::new(interval, distrust);
    }

    fn trusted_slot(&self, slot: usize) -> (r: Option<i64>)
        requires
            slot < 2,
        ensures
            r == self.trusted(slot as int),
    {
        if self.tainted[slot] {
            None
        } else {
            self.slots[slot]
        }
    }

    /// The trusted references, in slot order.
    fn view_refs(&self) -> (refs: Vec<(usize, i64)>)
        ensures
            refs@ == self.trusted_refs(),
    {
        let mut refs: Vec<(usize, i64)> = Vec::new();
        if let Some(w) = self.trusted_slot(0) {
            refs.push((0, w));
        }
        if let Some(w) = self.trusted_slot(1) {
            refs.push((1, w));
        }
        assert(refs@ =~= self.trusted_refs());
        refs
    }

    /// The trusted references, in slot order.
    pub open spec fn trusted_refs(self) -> Seq<(usize, i64)> {
        let low = match self.trusted(0) {
            Some(w) => seq![(0usize, w)],
            None => Seq::empty(),
        };
        match self.trusted(1) {
            Some(w) => low.push((1usize, w)),
            None => low,
        }
    }

    /// The shared recovery policy says of this table what the table says of itself.
    proof fn lemma_plan_matches(self, first: i64, plan: SlotPlan)
        requires
            plan.answers(self.trusted_refs(), first),
        ensures
            slot_in_mask(plan.tainted, 0) == self.swept(0, first),
            slot_in_mask(plan.tainted, 1) == self.swept(1, first),
            plan.anchor is Some == self.anchor_slot(first) is Some,
            plan.anchor is Some ==> (plan.anchor->0).0 == self.anchor_slot(first)->0,
    {
        let refs = self.trusted_refs();
        let a = self.trusted(0);
        let b = self.trusted(1);
        assert(slot_is_swept(refs, first, 0) == self.swept(0, first)) by {
            if self.swept(0, first) {
                assert(refs[0].0 == 0);
            }
        }
        assert(slot_is_swept(refs, first, 1) == self.swept(1, first)) by {
            if self.swept(1, first) {
                assert(refs.last().0 == 1);
            }
        }
        assert(slot_in_mask(plan.tainted, 0) <==> slot_is_swept(refs, first, 0));
        assert(slot_in_mask(plan.tainted, 1) <==> slot_is_swept(refs, first, 1));
        if self.anchor_slot(first) == Some(0usize) {
            assert(refs[0] == (0usize, a->0));
            assert(is_anchor_at(refs, first, 0));
            law_anchor_is_unique(refs, first, plan.anchor, Some(refs[0]));
        } else if self.anchor_slot(first) == Some(1usize) {
            let k = refs.len() - 1;
            assert(refs[k] == (1usize, b->0));
            assert(is_anchor_at(refs, first, k));
            law_anchor_is_unique(refs, first, plan.anchor, Some(refs[k]));
        } else {
            assert(is_anchor(refs, first, None));
            law_anchor_is_unique(refs, first, plan.anchor, None);
        }
    }

    /// Takes in the loss of the frames from `first` on. Returns whether a clean anchor is left, to
    /// which the next frame is then forced.
    pub fn invalidate(&mut self, first: i64) -> (answered: bool)
        requires
            old(self).wf(),
            first >= 0,
        ensures
            final(self).wf(),
            old(self).is_invalidated(first, *final(self)),
            answered == old(self).anchor_slot(first) is Some,
    {
        let before = *self;
        let refs = before.view_refs();
        let plan = plan_slot_recovery(refs.as_slice(), first);
        proof {
            before.lemma_plan_matches(first, plan);
        }
        let sweep0 = plan.tainted & (1u32 << 0u32) != 0;
        let sweep1 = plan.tainted & (1u32 << 1u32) != 0;
        assert(sweep0 == before.swept(0, first));
        assert(sweep1 == before.swept(1, first));
        let forget = match before.distrust {
            Distrust::Forget => true,
            Distrust::Flag => false,
        };
        let slot0: Option<i64> = if sweep0 && forget {
            None
        } else {
            before.slots[0]
        };
        let slot1: Option<i64> = if sweep1 && forget {
            None
        } else {
            before.slots[1]
        };
        let pending_force: Option<usize> = match plan.anchor {
            Some((slot, _)) => Some(slot),
            None => None,
        };
        *self = LtrSlots {
            slots: [slot0, slot1],
            tainted: [
                before.tainted[0] || (sweep0 && !forget),
                before.tainted[1] || (sweep1 && !forget),
            ],
            next: before.next,
            pending_force,
            mark_interval: before.mark_interval,
            distrust: before.distrust,
        };
        assert(self.slots@[0] == slot0 && self.slots@[1] == slot1);
        pending_force.is_some()
    }

    /// Decides marking and forcing of the frame `cur_idx`. A keyframe empties the table first, since
    /// it voids the decoder's references; `hook` names a frame that reports itself as lost.
    pub fn plan_frame(&mut self, cur_idx: i64, forced: bool, hook: Option<i64>) -> (plan: LtrPlan)
        requires
            old(self).wf(),
            cur_idx >= 0,
        ensures
            final(self).wf(),
            old(self).plans(cur_idx, forced, hook, plan, *final(self)),
            plan.mark is Some ==> plan.mark->0 < 2 && plan.force is None,
            plan.force is Some ==> (plan.force->0).0 < 2,
    {
        if forced {
            self.clear();
        } else {
            let fires = match hook {
                Some(at) => at == cur_idx,
                None => false,
            };
            if fires {
                let _answered = self.invalidate(cur_idx);
            }
        }
        let mid = *self;
        let force: Option<(usize, i64)> = match mid.pending_force {
            Some(slot) => match mid.trusted_slot(slot) {
                Some(w) => Some((slot, w)),
                None => None,
            },
            None => None,
        };
        let due = force.is_none() && (forced || cur_idx % mid.mark_interval == 0);
        let mut slots: [Option<i64>; 2] = mid.slots;
        let mut tainted: [bool; 2] = mid.tainted;
        let mut next: usize = mid.next;
        let mark: Option<usize> = if due {
            slots[next] = Some(cur_idx);
            tainted[next] = false;
            next = (next + 1) % 2;
            Some(mid.next)
        } else {
            None
        };
        *self = LtrSlots {
            slots,
            tainted,
            next,
            pending_force: None,
            mark_interval: mid.mark_interval,
            distrust: mid.distrust,
        };
        let plan = LtrPlan { mark, force };
        assert(mid.is_planned(cur_idx, forced, plan, *self));
        plan
    }
}

/// The number a setting writes out, without white space around it.
pub open spec fn plain_i64(raw: Option<Seq<char>>) -> Option<int> {
    match raw {
        Some(s) => match crate::text::signed_value(s) {
            Some(v) => if i64::MIN <= v <= i64::MAX {
                Some(v)
            } else {
                None
            },
            None => None,
        },
        None => None,
    }
}

/// Reads a signed setting.
pub(crate) fn read_i64(raw: Option<&str>) -> (r: Option<i64>)
    ensures
        match r {
            Some(v) => plain_i64(crate::text::opt_view(raw)) == Some(v as int),
            None => plain_i64(crate::text::opt_view(raw)) is None,
        },
{
    match raw {
        Some(s) => parse_i64(s),
        None => None,
    }
}

/// After a loss was taken in, every frame still trusted was encoded before it.
pub proof fn law_only_older_frames_stay_trusted(before: LtrSlots, first: i64, after: LtrSlots, slot: int)
    requires
        before.is_invalidated(first, after),
        0 <= slot < 2,
    ensures
        after.trusted(slot) matches Some(w) ==> w < first && before.trusted(slot) == Some(w),
{
    assert(after.slots@[slot] == after.slots@[slot]);
}

/// The frame that follows an answered loss references a frame from before the loss, is not marked
/// itself, and so leaves the slots as they are.
pub proof fn law_recovery_references_before_the_loss(
    before: LtrSlots,
    first: i64,
    mid: LtrSlots,
    cur_idx: i64,
    plan: LtrPlan,
    after: LtrSlots,
)
    requires
        before.wf(),
        before.is_invalidated(first, mid),
        before.anchor_slot(first) is Some,
        mid.is_planned(cur_idx, false, plan, after),
    ensures
        plan.force is Some,
        (plan.force->0).1 < first,
        before.trusted((plan.force->0).0 as int) == Some((plan.force->0).1),
        plan.mark is None,
        after.slots@ == mid.slots@,
{
    let s = before.anchor_slot(first)->0;
    assert(mid.slots@[s as int] == mid.slots@[s as int]);
    law_only_older_frames_stay_trusted(before, first, mid, s as int);
}

/// A loss that predates every trusted frame is not answered, and nothing is forced until another loss
/// is.
pub proof fn law_no_older_frame_no_force(
    before: LtrSlots,
    first: i64,
    mid: LtrSlots,
    cur_idx: i64,
    plan: LtrPlan,
    after: LtrSlots,
)
    requires
        before.is_invalidated(first, mid),
        forall|s: int| 0 <= s < 2 ==> !before_loss(#[trigger] before.trusted(s), first),
        mid.is_planned(cur_idx, false, plan, after),
    ensures
        before.anchor_slot(first) is None,
        plan.force is None,
{
    assert(!before_loss(before.trusted(0), first));
    assert(!before_loss(before.trusted(1), first));
}

/// A keyframe starts the table over: it is the only frame in it.
pub proof fn law_keyframe_restarts_the_slots(
    mid: LtrSlots,
    cur_idx: i64,
    plan: LtrPlan,
    after: LtrSlots,
)
    requires
        mid.is_cleared(),
        mid.is_planned(cur_idx, true, plan, after),
    ensures
        plan.mark == Some(0usize),
        plan.force is None,
        after.slots@ == seq![Some(cur_idx), None],
        after.next == 1,
{
    assert(after.slots@ =~= seq![Some(cur_idx), None]);
}

/// A mark never takes the slot of the frame being referenced: a frame is marked or recovers, not both.
pub proof fn law_mark_and_force_exclude_each_other(
    mid: LtrSlots,
    cur_idx: i64,
    forced: bool,
    plan: LtrPlan,
    after: LtrSlots,
)
    requires
        mid.is_planned(cur_idx, forced, plan, after),
    ensures
        plan.mark is None || plan.force is None,
{
}

/// A keyframe empties the table and is marked into the first slot, as its only frame. Any other frame
/// is marked exactly on the turns of the interval, unless it recovers, and marks take the slots in
/// turn; a marked slot then holds that frame, trusted, and the other slot is left alone.
pub proof fn law_marks_alternate_on_their_turns(
    table: &mut LtrSlots,
    cur_idx: i64,
    forced: bool,
    plan: LtrPlan,
)
    requires
        old(table).wf(),
        cur_idx >= 0,
        call_ensures(LtrSlots::plan_frame, (table, cur_idx, forced, None), plan),
    ensures
        forced ==> plan.mark == Some(0usize) && plan.force is None && final(table).slots@[0] == Some(
            cur_idx,
        ) && final(table).slots@[1] is None && final(table).next == 1,
        !forced && old(table).pending_force is None ==> {
            &&& plan.force is None
            &&& plan.mark is Some <==> cur_idx % old(table).mark_interval == 0
        },
        plan.mark matches Some(s) ==> {
            &&& s < 2
            &&& !forced ==> s == old(table).next
            &&& final(table).slots@[s as int] == Some(cur_idx)
            &&& !final(table).tainted@[s as int]
            &&& final(table).next + s == 1
            &&& !forced ==> final(table).slots@[1 - s] == old(table).slots@[1 - s]
                && final(table).tainted@[1 - s] == old(table).tainted@[1 - s]
        },
        plan.mark is None ==> final(table).slots@ == old(table).slots@ && final(table).next == old(table).next,
        plan.mark is None || plan.force is None,
        final(table).pending_force is None,
        final(table).mark_interval == old(table).mark_interval && final(table).distrust == old(table).distrust,
{
}

/// The frame after an answered loss references the newest trusted frame from before it, and only that
/// frame does: the next one is forced onto nothing. Where no trusted frame is older the loss is not
/// answered, and nothing is forced.
pub proof fn law_one_frame_recovers_from_the_newest_clean_one(
    lost: &mut LtrSlots,
    next: &mut LtrSlots,
    after: &mut LtrSlots,
    first: i64,
    answered: bool,
    cur_idx: i64,
    plan: LtrPlan,
    later: LtrPlan,
)
    requires
        old(lost).wf(),
        first >= 0,
        cur_idx >= 0,
        call_ensures(LtrSlots::invalidate, (lost, first), answered),
        call_ensures(LtrSlots::plan_frame, (next, cur_idx, false, None), plan),
        call_ensures(LtrSlots::plan_frame, (after, cur_idx, false, None), later),
    ensures
        answered <==> exists|s: int|
            0 <= s < 2 && !old(lost).tainted@[s] && (#[trigger] old(lost).slots@[s]) is Some
                && old(lost).slots@[s]->0 < first,
        *old(next) == *final(lost) ==> {
            &&& plan.force is Some <==> answered
            &&& plan.force is Some ==> {
                let slot = (plan.force->0).0;
                let w = (plan.force->0).1;
                &&& slot < 2 && !old(lost).tainted@[slot as int] && old(lost).slots@[slot as int]
                    == Some(w)
                &&& w < first
                &&& forall|s: int|
                    0 <= s < 2 && !old(lost).tainted@[s] && (#[trigger] old(lost).slots@[s]) is Some
                        && old(lost).slots@[s]->0 < first ==> old(lost).slots@[s]->0 <= w
                &&& plan.mark is None
            }
        },
        *old(next) == *final(lost) && *old(after) == *final(next) ==> later.force is None,
        forall|s: int|
            0 <= s < 2 && !final(lost).tainted@[s] && (#[trigger] final(lost).slots@[s]) is Some
                ==> final(lost).slots@[s]->0 < first,
        final(lost).next == old(lost).next && final(lost).mark_interval == old(lost).mark_interval,
{
    let t = *old(lost);
    let m = *final(lost);
    assert(m.slots@[0] == m.slots@[0] && m.slots@[1] == m.slots@[1]);
    assert(t.trusted(0) is Some ==> t.slots@[0] is Some && !t.tainted@[0]);
    assert(t.trusted(1) is Some ==> t.slots@[1] is Some && !t.tainted@[1]);
    if answered {
        let s = t.anchor_slot(first)->0;
        assert(t.slots@[s as int] is Some && !t.tainted@[s as int]);
        assert(m.slots@[s as int] == t.slots@[s as int]);
    }
    if *old(next) == *final(lost) && *old(after) == *final(next) {
        assert(m.is_planned(cur_idx, false, plan, *final(next)));
    }
}

/// A new table, and one that is cleared, holds nothing and marks into the first slot next.
pub proof fn law_a_cleared_table_is_a_new_one(
    interval: i64,
    distrust: Distrust,
    fresh: LtrSlots,
    table: &mut LtrSlots,
)
    requires
        interval >= 1,
        call_ensures(LtrSlots::new, (interval, distrust), fresh),
        call_ensures(LtrSlots::clear, (table,), ()),
    ensures
        fresh.slots@[0] is None && fresh.slots@[1] is None && fresh.next == 0,
        !fresh.tainted@[0] && !fresh.tainted@[1] && fresh.pending_force is None,
        fresh.mark_interval == interval && fresh.distrust == distrust,
        final(table).slots@ == fresh.slots@ && final(table).tainted@ == fresh.tainted@,
        final(table).next == fresh.next && final(table).pending_force is None,
        final(table).mark_interval == old(table).mark_interval && final(table).distrust
            == old(table).distrust,
{
}

} // verus!

//! Reference-frame-invalidation policy of the slot-based backends.
//!
//! A backend keeps a small table of reference slots, each holding one frame named by its wire index.
//! When the client reports a loss, the frames encoded at or after the loss are no longer trustworthy
//! and the newest older one anchors the recovery. How the distrust is remembered and how the anchor
//! is forced on the encoder is each backend's own business: callers hand in the references they
//! currently trust and record the returned taints themselves.
use vstd::prelude::*;

verus! {

/// Bit `slot` of a slot mask.
pub open spec fn slot_in_mask(mask: u32, slot: int) -> bool {
    0 <= slot < 32 && (mask & (1u32 << (slot as u32))) != 0
}

/// A reference in `refs` held by `slot` was encoded at or after the loss.
pub open spec fn slot_is_swept(refs: Seq<(usize, i64)>, loss_first: i64, slot: int) -> bool {
    exists|i: int| 0 <= i < refs.len() && (#[trigger] refs[i]).0 == slot && refs[i].1 >= loss_first
}

/// Entry `i` is the newest reference strictly older than the loss, and the first of those that share
/// its wire index.
pub open spec fn is_anchor_at(refs: Seq<(usize, i64)>, loss_first: i64, i: int) -> bool {
    &&& 0 <= i < refs.len()
    &&& refs[i].1 < loss_first
    &&& forall|j: int|
        0 <= j < refs.len() && (#[trigger] refs[j]).1 < loss_first ==> refs[j].1 <= refs[i].1 && (j < i
            ==> refs[j].1 < refs[i].1)
}

/// `anchor` is what a loss starting at `loss_first` recovers from: the entry singled out by
/// [`is_anchor_at`], or `None` where no reference is older than the loss.
pub open spec fn is_anchor(
    refs: Seq<(usize, i64)>,
    loss_first: i64,
    anchor: Option<(usize, i64)>,
) -> bool {
    match anchor {
        Some(entry) => exists|i: int| #[trigger]
            is_anchor_at(refs, loss_first, i) && refs[i] == entry,
        None => forall|i: int| 0 <= i < refs.len() ==> (#[trigger] refs[i]).1 >= loss_first,
    }
}

/// Each slot occurs at most once: the view of a slot table.
pub open spec fn slots_distinct(refs: Seq<(usize, i64)>) -> bool {
    forall|i: int, j: int|
        0 <= i < refs.len() && 0 <= j < refs.len() && i != j ==> (#[trigger] refs[i]).0
            != (#[trigger] refs[j]).0
}

/// One loss event's recovery decision over a slot table.
#[derive(Clone, Copy, Debug)]
pub struct SlotPlan {
    /// Slots whose reference was encoded at or after the loss start, one bit per slot. The backend
    /// records the distrust in its own marker, since these wires would look like valid anchors to a
    /// later loss.
    pub tainted: u32,
    /// The newest trusted reference strictly older than the loss, as `(slot, wire)`. `None` means the
    /// caller declines and recovers with a keyframe.
    pub anchor: Option<(usize, i64)>,
}

impl SlotPlan {
    /// The plan that `refs` and `loss_first` call for.
    pub open spec fn answers(self, refs: Seq<(usize, i64)>, loss_first: i64) -> bool {
        &&& forall|slot: int| #[trigger]
            slot_in_mask(self.tainted, slot) <==> slot_is_swept(refs, loss_first, slot)
        &&& is_anchor(refs, loss_first, self.anchor)
    }
}

proof fn lemma_mask_zero()
    ensures
        forall|slot: int| !#[trigger] slot_in_mask(0, slot),
{
    assert forall|slot: int| !#[trigger] slot_in_mask(0, slot) by {
        let s = slot as u32;
        assert(0u32 & (1u32 << s) == 0) by (bit_vector);
    }
}

proof fn lemma_mask_insert(mask: u32, bit: u32)
    requires
        bit < 32,
    ensures
        forall|slot: int| #[trigger]
            slot_in_mask(mask | (1u32 << bit), slot) <==> slot_in_mask(mask, slot) || slot == bit,
{
    assert forall|slot: int| #[trigger]
        slot_in_mask(mask | (1u32 << bit), slot) <==> slot_in_mask(mask, slot) || slot == bit by {
        if 0 <= slot < 32 {
            let s = slot as u32;
            assert(((mask | (1u32 << bit)) & (1u32 << s)) != 0 <==> (mask & (1u32 << s)) != 0 || s
                == bit) by (bit_vector)
                requires
                    bit < 32,
                    s < 32,
            ;
        }
    }
}

/// Plans the recovery for a loss starting at wire frame `loss_first` over the references the backend
/// currently trusts. The sweep and the pick read the same table, so they agree by construction.
pub fn plan_slot_recovery(refs: &[(usize, i64)], loss_first: i64) -> (plan: SlotPlan)
    requires
        loss_first >= 0,
        forall|i: int|
            0 <= i < refs@.len() && (#[trigger] refs@[i]).1 >= loss_first ==> refs@[i].0 < 32,
    ensures
        plan.answers(refs@, loss_first),
{
    let mut tainted: u32 = 0;
    let mut i: usize = 0;
    proof {
        lemma_mask_zero();
    }
    while i < refs.len()
        invariant
            i <= refs@.len(),
            forall|j: int|
                0 <= j < refs@.len() && (#[trigger] refs@[j]).1 >= loss_first ==> refs@[j].0 < 32,
            forall|slot: int| #[trigger]
                slot_in_mask(tainted, slot) <==> slot_is_swept(
                    refs@.take(i as int),
                    loss_first,
                    slot,
                ),
        decreases refs@.len() - i,
    {
        let (slot, wire) = refs[i];
        let ghost before = tainted;
        let ghost seen = refs@.take(i as int);
        let ghost now = refs@.take(i + 1);
        if wire >= loss_first {
            let bit: u32 = slot as u32;
            proof {
                lemma_mask_insert(tainted, bit);
            }
            tainted = tainted | (1u32 << bit);
        }
        assert forall|s: int| #[trigger] slot_in_mask(tainted, s) <==> slot_is_swept(now, loss_first, s) by {
            assert(now[i as int] == refs@[i as int]);
            if slot_is_swept(seen, loss_first, s) {
                let j = choose|j: int|
                    0 <= j < seen.len() && (#[trigger] seen[j]).0 == s && seen[j].1 >= loss_first;
                assert(now[j] == seen[j]);
            }
            if slot_is_swept(now, loss_first, s) {
                let j = choose|j: int|
                    0 <= j < now.len() && (#[trigger] now[j]).0 == s && now[j].1 >= loss_first;
                if j < i {
                    assert(now[j] == seen[j]);
                }
            }
            assert(slot_in_mask(before, s) <==> slot_is_swept(seen, loss_first, s));
        }
        i = i + 1;
    }
    assert(refs@.take(refs@.len() as int) =~= refs@);
    SlotPlan { tainted, anchor: pick_anchor(refs, loss_first) }
}

/// The newest trusted reference strictly older than the loss. Of entries that share the wire index
/// the first wins.
pub fn pick_anchor(refs: &[(usize, i64)], loss_first: i64) -> (anchor: Option<(usize, i64)>)
    ensures
        is_anchor(refs@, loss_first, anchor),
{
    let mut best: Option<usize> = None;
    let mut i: usize = 0;
    while i < refs.len()
        invariant
            i <= refs@.len(),
            match best {
                Some(b) => b < i && is_anchor_at(refs@.take(i as int), loss_first, b as int),
                None => forall|j: int| 0 <= j < i ==> (#[trigger] refs@[j]).1 >= loss_first,
            },
        decreases refs@.len() - i,
    {
        let (_, wire) = refs[i];
        let ghost seen = refs@.take(i as int);
        let ghost now = refs@.take(i + 1);
        assert(forall|j: int| 0 <= j < i ==> (#[trigger] now[j]) == seen[j]);
        assert(now[i as int] == refs@[i as int]);
        let newer = match best {
            Some(b) => wire > refs[b].1,
            None => true,
        };
        if wire < loss_first && newer {
            best = Some(i);
        }
        proof {
            if let Some(b) = best {
                assert forall|j: int| 0 <= j < now.len() && (#[trigger] now[j]).1 < loss_first implies now[j].1
                    <= now[b as int].1 && (j < b ==> now[j].1 < now[b as int].1) by {
                    if j < i {
                        assert(now[j] == seen[j]);
                        assert(now[j] == refs@[j]);
                    }
                }
                assert(is_anchor_at(now, loss_first, b as int));
            }
        }
        i = i + 1;
    }
    assert(refs@.take(refs@.len() as int) =~= refs@);
    match best {
        Some(b) => {
            assert(is_anchor_at(refs@, loss_first, b as int));
            Some(refs[b])
        },
        None => None,
    }
}

/// The anchor is a function of the table and the loss: no two answers both satisfy [`is_anchor`].
pub proof fn law_anchor_is_unique(
    refs: Seq<(usize, i64)>,
    loss_first: i64,
    a: Option<(usize, i64)>,
    b: Option<(usize, i64)>,
)
    requires
        is_anchor(refs, loss_first, a),
        is_anchor(refs, loss_first, b),
    ensures
        a == b,
{
    if a is Some {
        let i = choose|i: int| #[trigger] is_anchor_at(refs, loss_first, i) && refs[i] == a->0;
        assert(refs[i].1 < loss_first);
        assert(b is Some);
        let j = choose|j: int| #[trigger] is_anchor_at(refs, loss_first, j) && refs[j] == b->0;
        assert(refs[j].1 < loss_first);
        assert(i == j);
    } else if b is Some {
        let j = choose|j: int| #[trigger] is_anchor_at(refs, loss_first, j) && refs[j] == b->0;
        assert(refs[j].1 < loss_first);
    }
}

/// Masks with the same slots below `n` agree in their low `n` bits.
proof fn lemma_low_bits_agree(x: u32, y: u32, n: u32)
    requires
        n <= 32,
        forall|s: int| 0 <= s < 32 ==> #[trigger] slot_in_mask(x, s) == slot_in_mask(y, s),
    ensures
        (x as u64) & !(0xffff_ffff_ffff_ffffu64 << n) == (y as u64) & !(0xffff_ffff_ffff_ffffu64
            << n),
    decreases n,
{
    if n == 0 {
        assert((x as u64) & !(0xffff_ffff_ffff_ffffu64 << 0u32) == (y as u64) & !(
        0xffff_ffff_ffff_ffffu64 << 0u32)) by (bit_vector);
    } else {
        let m: u32 = (n - 1) as u32;
        lemma_low_bits_agree(x, y, m);
        assert(slot_in_mask(x, m as int) == slot_in_mask(y, m as int));
        assert((x as u64) & !(0xffff_ffff_ffff_ffffu64 << n) == (y as u64) & !(
        0xffff_ffff_ffff_ffffu64 << n)) by (bit_vector)
            requires
                m < 32,
                n == m + 1,
                (x as u64) & !(0xffff_ffff_ffff_ffffu64 << m) == (y as u64) & !(
                0xffff_ffff_ffff_ffffu64 << m),
                ((x & (1u32 << m)) != 0) == ((y & (1u32 << m)) != 0),
        ;
    }
}

proof fn lemma_equal_masks(x: u32, y: u32)
    requires
        forall|s: int| 0 <= s < 32 ==> #[trigger] slot_in_mask(x, s) == slot_in_mask(y, s),
    ensures
        x == y,
{
    lemma_low_bits_agree(x, y, 32);
    assert(x == y) by (bit_vector)
        requires
            (x as u64) & !(0xffff_ffff_ffff_ffffu64 << 32u32) == (y as u64) & !(
            0xffff_ffff_ffff_ffffu64 << 32u32),
    ;
}

/// The taint mask is a function of the table and the loss: masks with the same slots are equal.
pub proof fn law_plan_is_unique(
    refs: Seq<(usize, i64)>,
    loss_first: i64,
    a: SlotPlan,
    b: SlotPlan,
)
    requires
        a.answers(refs, loss_first),
        b.answers(refs, loss_first),
    ensures
        a == b,
{
    law_anchor_is_unique(refs, loss_first, a.anchor, b.anchor);
    let x = a.tainted;
    let y = b.tainted;
    assert forall|s: int| 0 <= s < 32 implies #[trigger] slot_in_mask(x, s) == slot_in_mask(y, s) by {
        assert(slot_in_mask(a.tainted, s) <==> slot_is_swept(refs, loss_first, s));
        assert(slot_in_mask(b.tainted, s) <==> slot_is_swept(refs, loss_first, s));
    }
    lemma_equal_masks(x, y);
}

/// A slot tainted by a loss is never the anchor of that same loss: what taints is encoded at or after
/// the loss, what anchors is strictly older.
pub proof fn law_tainted_slot_is_not_the_anchor(
    refs: Seq<(usize, i64)>,
    loss_first: i64,
    plan: SlotPlan,
)
    requires
        slots_distinct(refs),
        plan.answers(refs, loss_first),
        plan.anchor is Some,
    ensures
        (plan.anchor->0).1 < loss_first,
        !slot_in_mask(plan.tainted, (plan.anchor->0).0 as int),
{
    let i = choose|i: int|
        #[trigger] is_anchor_at(refs, loss_first, i) && refs[i] == plan.anchor->0;
    let slot = (plan.anchor->0).0 as int;
    if slot_in_mask(plan.tainted, slot) {
        assert(slot_is_swept(refs, loss_first, slot));
        let j = choose|j: int|
            0 <= j < refs.len() && (#[trigger] refs[j]).0 == slot && refs[j].1 >= loss_first;
        assert(refs[i].0 == refs[j].0);
    }
}

/// Once the taints of one loss are persisted, no later loss anchors on a frame of the earlier corrupt
/// window: `kept` holds only entries of the earlier table whose slot was not tainted.
pub proof fn law_taints_outlive_the_loss(
    refs: Seq<(usize, i64)>,
    loss_first: i64,
    plan: SlotPlan,
    kept: Seq<(usize, i64)>,
    later_loss: i64,
    anchor: Option<(usize, i64)>,
)
    requires
        plan.answers(refs, loss_first),
        forall|k: int|
            0 <= k < kept.len() ==> refs.contains(#[trigger] kept[k]) && !slot_in_mask(
                plan.tainted,
                kept[k].0 as int,
            ),
        is_anchor(kept, later_loss, anchor),
    ensures
        anchor is Some ==> (anchor->0).1 < loss_first,
{
    if anchor is Some {
        let k = choose|k: int| #[trigger] is_anchor_at(kept, later_loss, k) && kept[k] == anchor->0;
        let entry = kept[k];
        assert(refs.contains(entry));
        let i = choose|i: int| 0 <= i < refs.len() && refs[i] == entry;
        if entry.1 >= loss_first {
            assert(refs[i].0 == entry.0);
            assert(slot_is_swept(refs, loss_first, entry.0 as int));
            assert(slot_in_mask(plan.tainted, entry.0 as int));
        }
    }
}

/// The references of slots that the plan does not taint, in their order.
pub open spec fn untainted(refs: Seq<(usize, i64)>, plan: SlotPlan) -> Seq<(usize, i64)> {
    refs.filter(|entry: (usize, i64)| !slot_in_mask(plan.tainted, entry.0 as int))
}

/// The anchor of a loss, entry by entry: a later entry replaces an earlier one only if it is newer.
spec fn pick(refs: Seq<(usize, i64)>, loss_first: i64) -> Option<(usize, i64)>
    decreases refs.len(),
{
    if refs.len() == 0 {
        None
    } else {
        let best = pick(refs.drop_last(), loss_first);
        let last = refs.last();
        if last.1 < loss_first && (best is None || (best->0).1 < last.1) {
            Some(last)
        } else {
            best
        }
    }
}

proof fn lemma_pick_is_the_anchor(refs: Seq<(usize, i64)>, loss_first: i64)
    ensures
        is_anchor(refs, loss_first, pick(refs, loss_first)),
    decreases refs.len(),
{
    if refs.len() > 0 {
        let rest = refs.drop_last();
        let n = refs.len() - 1;
        lemma_pick_is_the_anchor(rest, loss_first);
        assert(forall|j: int| 0 <= j < n ==> #[trigger] refs[j] == rest[j]);
        match pick(rest, loss_first) {
            Some(best) => {
                let i = choose|i: int| #[trigger]
                    is_anchor_at(rest, loss_first, i) && rest[i] == best;
                assert forall|j: int| 0 <= j < n && (#[trigger] refs[j]).1 < loss_first implies refs[j].1
                    <= best.1 && (j < i ==> refs[j].1 < best.1) by {
                    assert(rest[j].1 < loss_first);
                }
                if pick(refs, loss_first) == Some(refs[n]) && best.1 < refs[n].1 {
                    assert(is_anchor_at(refs, loss_first, n));
                } else {
                    assert(is_anchor_at(refs, loss_first, i));
                }
            },
            None => {
                assert forall|j: int| 0 <= j < n implies (#[trigger] refs[j]).1 >= loss_first by {
                    assert(rest[j].1 >= loss_first);
                }
                if refs[n].1 < loss_first {
                    assert(is_anchor_at(refs, loss_first, n));
                }
            },
        }
    }
}

/// Dropping what is not older than the loss changes the anchor neither of that loss nor of a later
/// one, and leaves nothing that a later one would taint.
proof fn lemma_older_entries_decide(
    refs: Seq<(usize, i64)>,
    keep: spec_fn((usize, i64)) -> bool,
    loss_first: i64,
    later_loss: i64,
)
    requires
        loss_first <= later_loss,
        forall|i: int|
            0 <= i < refs.len() ==> (keep(#[trigger] refs[i]) <==> refs[i].1 < loss_first),
    ensures
        pick(refs.filter(keep), later_loss) == pick(refs, loss_first),
        forall|k: int|
            0 <= k < refs.filter(keep).len() ==> (#[trigger] refs.filter(keep)[k]).1 < loss_first,
    decreases refs.len(),
{
    reveal(Seq::filter);
    if refs.len() > 0 {
        let rest = refs.drop_last();
        let n = refs.len() - 1;
        assert forall|i: int| 0 <= i < rest.len() implies (keep(#[trigger] rest[i]) <==> rest[i].1
            < loss_first) by {
            assert(rest[i] == refs[i]);
        }
        lemma_older_entries_decide(rest, keep, loss_first, later_loss);
        assert(keep(refs[n]) <==> refs[n].1 < loss_first);
        let kept = rest.filter(keep);
        if keep(refs[n]) {
            assert(kept.push(refs[n]).drop_last() =~= kept);
        }
    }
}

/// A loss that follows another one, whose taints were persisted, keeps the anchor of the first and
/// taints nothing new.
pub proof fn law_later_loss_keeps_the_anchor(
    refs: Seq<(usize, i64)>,
    loss_first: i64,
    plan: SlotPlan,
    later_loss: i64,
    later: SlotPlan,
)
    requires
        slots_distinct(refs),
        plan.answers(refs, loss_first),
        loss_first <= later_loss,
        later.answers(untainted(refs, plan), later_loss),
    ensures
        later.anchor == plan.anchor,
        forall|slot: int| !#[trigger] slot_in_mask(later.tainted, slot),
{
    let keep = |entry: (usize, i64)| !slot_in_mask(plan.tainted, entry.0 as int);
    let kept = untainted(refs, plan);
    assert forall|i: int| 0 <= i < refs.len() implies (keep(#[trigger] refs[i]) <==> refs[i].1
        < loss_first) by {
        let slot = refs[i].0 as int;
        assert(slot_in_mask(plan.tainted, slot) <==> slot_is_swept(refs, loss_first, slot));
        if slot_is_swept(refs, loss_first, slot) {
            let j = choose|j: int|
                0 <= j < refs.len() && (#[trigger] refs[j]).0 == slot && refs[j].1 >= loss_first;
            assert(refs[i].0 == refs[j].0);
        }
    }
    lemma_older_entries_decide(refs, keep, loss_first, later_loss);
    lemma_pick_is_the_anchor(refs, loss_first);
    lemma_pick_is_the_anchor(kept, later_loss);
    law_anchor_is_unique(refs, loss_first, plan.anchor, pick(refs, loss_first));
    law_anchor_is_unique(kept, later_loss, later.anchor, pick(kept, later_loss));
    assert forall|slot: int| !#[trigger] slot_in_mask(later.tainted, slot) by {
        assert(slot_in_mask(later.tainted, slot) <==> slot_is_swept(kept, later_loss, slot));
    }
}

/// A loss that starts at or before every reference leaves nothing clean: no anchor is offered.
pub proof fn law_no_older_reference_no_anchor(
    refs: Seq<(usize, i64)>,
    loss_first: i64,
    plan: SlotPlan,
)
    requires
        plan.answers(refs, loss_first),
    ensures
        plan.anchor is None <==> forall|i: int|
            0 <= i < refs.len() ==> (#[trigger] refs[i]).1 >= loss_first,
{
    if plan.anchor is Some {
        let i = choose|i: int|
            #[trigger] is_anchor_at(refs, loss_first, i) && refs[i] == plan.anchor->0;
        assert(refs[i].1 < loss_first);
    }
}

/// The picked anchor is one of the references, older than the loss and the newest such; none is picked
/// only where none is older. A plan picks the same anchor and taints exactly the slots whose reference
/// is not older than the loss.
pub proof fn law_the_anchor_is_the_newest_before_the_loss(
    refs: &[(usize, i64)],
    loss_first: i64,
    anchor: Option<(usize, i64)>,
    plan: SlotPlan,
    slot: u32,
)
    requires
        loss_first >= 0,
        call_ensures(pick_anchor, (refs, loss_first), anchor),
        call_ensures(plan_slot_recovery, (refs, loss_first), plan),
        slot < 32,
    ensures
        anchor matches Some(a) ==> {
            &&& refs@.contains(a)
            &&& a.1 < loss_first
            &&& forall|j: int|
                0 <= j < refs@.len() && (#[trigger] refs@[j]).1 < loss_first ==> refs@[j].1 <= a.1
        },
        anchor is None ==> forall|j: int| 0 <= j < refs@.len() ==> (#[trigger] refs@[j]).1 >= loss_first,
        plan.anchor == anchor,
        plan.tainted & (1u32 << slot) != 0 <==> exists|j: int|
            0 <= j < refs@.len() && (#[trigger] refs@[j]).0 == slot && refs@[j].1 >= loss_first,
{
    law_anchor_is_unique(refs@, loss_first, plan.anchor, anchor);
    assert(slot_in_mask(plan.tainted, slot as int) <==> slot_is_swept(
        refs@,
        loss_first,
        slot as int,
    ));
}

} // verus!

//! Loss recovery: which reference anchors it, and which are distrusted.
use ss_encode::ltr::{Distrust, LtrSlots};
use ss_encode::rfi::{pick_anchor, plan_slot_recovery};

/// The live references of a slot table; -1 is an empty slot.
fn view(wires: &[i64]) -> Vec<(usize, i64)> {
    wires
        .iter()
        .enumerate()
        .filter(|(_, &w)| w >= 0)
        .map(|(s, &w)| (s, w))
        .collect()
}

/// Empties the slots of a mask.
fn apply(wires: &mut [i64], tainted: u32) {
    for (s, w) in wires.iter_mut().enumerate() {
        if tainted & (1 << s) != 0 {
            *w = -1;
        }
    }
}

#[test]
fn picks_newest_pre_loss() {
    let wires = [8i64, 9, 10, 11, 12, 5, 6, 7];
    assert_eq!(pick_anchor(&view(&wires), 9), Some((0, 8)));
    assert_eq!(pick_anchor(&view(&wires), 5), None);
    assert_eq!(pick_anchor(&view(&[-1, 3, -1, 4]), 5), Some((3, 4)));
    assert_eq!(pick_anchor(&view(&[-1; 8]), 5), None);
    // The first lost frame is itself not decodable.
    assert_eq!(pick_anchor(&view(&[9, 8]), 9), Some((1, 8)));
    // On a tie the lower slot wins.
    assert_eq!(pick_anchor(&[(2, 7), (5, 7)], 9), Some((2, 7)));
    assert_eq!(pick_anchor(&[], 9), None);
}

#[test]
fn taint_sweep_excludes_slots_from_an_earlier_loss() {
    let tainted_wires = [4i64, 5, 6, 7];

    let unswept = [0i64, 1, 2, 3, 4, 5, 6, 7];
    let (_, picked_wire) = pick_anchor(&view(&unswept), 6).expect("unswept picks something");
    assert!(
        tainted_wires.contains(&picked_wire),
        "precondition: without the sweep the anchor comes from the earlier loss window"
    );

    let mut wires = unswept;
    let plan = plan_slot_recovery(&view(&wires), 4);
    assert_eq!(plan.tainted, 0b1111_0000);
    assert_eq!(plan.anchor, Some((3, 3)));
    apply(&mut wires, plan.tainted);
    assert_eq!(wires, [0, 1, 2, 3, -1, -1, -1, -1]);
    let (slot, wire) = pick_anchor(&view(&wires), 6).expect("clean wires remain");
    assert_eq!((slot, wire), (3, 3), "newest clean survivor is wire 3");

    wires[4] = 8;
    wires[5] = 9;
    wires[6] = 10;
    wires[7] = 11;
    let plan = plan_slot_recovery(&view(&wires), 10);
    assert_eq!(plan.anchor, Some((5, 9)), "wire 9 is post-recovery, clean");
    apply(&mut wires, plan.tainted);

    let mut all = [5i64, 6, 7, 8, 9, 10, 11, 12];
    let plan = plan_slot_recovery(&view(&all), 5);
    assert_eq!(plan.tainted, 0b1111_1111);
    assert_eq!(plan.anchor, None);
    apply(&mut all, plan.tainted);
    assert_eq!(pick_anchor(&view(&all), 5), None);
}

#[test]
fn a_plan_never_anchors_on_what_it_taints() {
    for first in 0..12i64 {
        let wires = [3i64, 7, 1, 9, 5, 11, 2, 8];
        let plan = plan_slot_recovery(&view(&wires), first);
        for (s, &w) in wires.iter().enumerate() {
            assert_eq!(plan.tainted & (1 << s) != 0, w >= first);
        }
        if let Some((slot, wire)) = plan.anchor {
            assert_eq!(plan.tainted & (1 << slot), 0);
            assert!(wire < first);
            assert!(wires.iter().all(|&w| w >= first || w <= wire));
        } else {
            assert!(wires.iter().all(|&w| w >= first));
        }
    }
}

#[test]
fn a_keyframe_restarts_the_long_term_slots() {
    let mut t = LtrSlots::new(4, Distrust::Flag);
    for i in 0..9i64 {
        t.plan_frame(i, i == 0, None);
    }
    assert_eq!(t.slots, [Some(8), Some(4)]);
    let plan = t.plan_frame(9, true, None);
    assert_eq!(plan.mark, Some(0));
    assert!(plan.force.is_none());
    assert_eq!(t.slots, [Some(9), None]);
    assert_eq!(t.next, 1);
}

#[test]
fn recovery_references_before_the_loss_and_marks_nothing() {
    for distrust in [Distrust::Forget, Distrust::Flag] {
        let mut t = LtrSlots::new(4, distrust);
        for i in 0..9i64 {
            t.plan_frame(i, i == 0, None);
        }
        assert!(t.invalidate(6));
        let plan = t.plan_frame(12, false, None);
        assert_eq!(plan.force, Some((1, 4)));
        assert_eq!(plan.mark, None, "a recovery frame is not marked, though 12 is its turn");
        let plan = t.plan_frame(13, false, None);
        assert_eq!(plan.force, None, "a force is used up by one frame");
    }
}

#[test]
fn distrust_is_forgotten_or_flagged() {
    let mut forget = LtrSlots::new(4, Distrust::Forget);
    let mut flag = LtrSlots::new(4, Distrust::Flag);
    for i in 0..9i64 {
        forget.plan_frame(i, i == 0, None);
        flag.plan_frame(i, i == 0, None);
    }
    assert!(!forget.invalidate(0));
    assert!(!flag.invalidate(0));
    assert_eq!(forget.slots, [None, None]);
    assert_eq!(forget.tainted, [false, false]);
    assert_eq!(flag.slots, [Some(8), Some(4)]);
    assert_eq!(flag.tainted, [true, true]);
    // A later loss finds nothing to trust, until a slot is marked again.
    assert!(!flag.invalidate(9));
    let plan = flag.plan_frame(12, false, None);
    assert_eq!(plan.mark, Some(1));
    assert_eq!(flag.tainted, [true, false]);
    assert!(flag.invalidate(13));
}

#[test]
fn the_hook_reports_its_own_frame_as_lost() {
    let mut t = LtrSlots::new(4, Distrust::Flag);
    for i in 0..6i64 {
        t.plan_frame(i, i == 0, Some(6));
    }
    let plan = t.plan_frame(6, false, Some(6));
    assert_eq!(plan.force, Some((1, 4)));
    assert_eq!(plan.mark, None);
}

#[test]
fn a_later_loss_keeps_the_anchor() {
    let mut wires = [4i64, 5, 6, 7, 0, 1, 2, 3];
    let plan = plan_slot_recovery(&view(&wires), 5);
    assert_eq!(plan.anchor, Some((0, 4)));
    apply(&mut wires, plan.tainted);
    for later in [5i64, 6, 100] {
        let again = plan_slot_recovery(&view(&wires), later);
        assert_eq!(again.anchor, Some((0, 4)));
        assert_eq!(again.tainted, 0);
    }
    // An earlier loss distrusts more.
    assert_eq!(plan_slot_recovery(&view(&wires), 4).tainted, 1);
}

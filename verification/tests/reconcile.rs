use gallery_grid::slots::{apply_load_result, claim_slot, collect_load_requests, make_slots};
use gallery_grid::slots::{AssetSlot, LoadError};
use gallery_grid::viewport::VisibleRange;

type Asset = u32;

fn five_slots() -> Vec<AssetSlot<Asset>> {
    let sources = vec![
        String::from("a.jpg"),
        String::from("b.jpg"),
        String::from("c.jpg"),
        String::from("d.jpg"),
        String::from("e.jpg"),
    ];
    make_slots(&sources)
}

#[test]
fn make_slots_is_order_stable_and_empty() {
    let slots = five_slots();
    assert_eq!(slots.len(), 5);
    assert_eq!(slots[0].source, "a.jpg");
    assert_eq!(slots[4].source, "e.jpg");
    for slot in &slots {
        assert_eq!(slot.asset, None);
        assert!(!slot.pending);
    }
}

/// One reconcile pass over a range loads every empty slot once; a second
/// pass over the same range with no new items makes zero load requests.
#[test]
fn reconcile_twice_requests_nothing_new() {
    let mut slots = five_slots();
    let range = VisibleRange { first: 0, last: 4 };

    let requests = collect_load_requests(&range, &slots);
    assert_eq!(requests, vec![0, 1, 2, 3, 4]);
    let mut loader_calls: u32 = 0;
    for &i in &requests {
        if claim_slot(&mut slots, i) {
            loader_calls += 1;
            let newly_loaded = apply_load_result(&mut slots, i, Ok(i as Asset * 10));
            assert!(newly_loaded);
        }
    }
    assert_eq!(loader_calls, 5);

    // Same visible range, no new items: no second load request.
    let again = collect_load_requests(&range, &slots);
    assert_eq!(again, Vec::<usize>::new());
    for (i, slot) in slots.iter().enumerate() {
        assert_eq!(slot.asset, Some(i as Asset * 10));
        assert!(!slot.pending);
    }
}

/// A failing load for one slot of five leaves the four sibling slots to
/// populate in the same pass; the failed slot stays empty and is requested
/// again by the next pass.
#[test]
fn failure_is_isolated_to_its_slot() {
    let mut slots = five_slots();
    let range = VisibleRange { first: 0, last: 4 };

    for i in collect_load_requests(&range, &slots) {
        if claim_slot(&mut slots, i) {
            let outcome = if i == 2 {
                Err(LoadError::DecodeFailed)
            } else {
                Ok(7)
            };
            apply_load_result(&mut slots, i, outcome);
        }
    }
    for (i, slot) in slots.iter().enumerate() {
        if i == 2 {
            assert_eq!(slot.asset, None);
            assert!(!slot.pending);
        } else {
            assert_eq!(slot.asset, Some(7));
        }
    }

    // Only the failed slot is retried.
    assert_eq!(collect_load_requests(&range, &slots), vec![2]);
}

/// A slot whose load is in flight is skipped both by the planner and by a
/// second claim: at most one load per slot is ever issued.
#[test]
fn in_flight_slot_is_not_claimed_twice() {
    let mut slots = five_slots();
    let range = VisibleRange { first: 0, last: 4 };

    assert!(claim_slot(&mut slots, 1));
    // An overlapping pass sees the claim and skips slot 1.
    assert_eq!(collect_load_requests(&range, &slots), vec![0, 2, 3, 4]);
    assert!(!claim_slot(&mut slots, 1));

    // The claimed load resolves; the slot is loaded and never re-requested.
    assert!(apply_load_result(&mut slots, 1, Ok(42)));
    assert_eq!(slots[1].asset, Some(42));
    assert_eq!(collect_load_requests(&range, &slots), vec![0, 2, 3, 4]);
    // A claim on a loaded slot is also a silent skip.
    assert!(!claim_slot(&mut slots, 1));
}

/// An unreadable source also leaves the slot empty, exactly as it was.
#[test]
fn unreadable_source_leaves_slot_empty() {
    let mut slots = five_slots();
    assert!(claim_slot(&mut slots, 0));
    let newly_loaded = apply_load_result(&mut slots, 0, Err(LoadError::SourceUnreadable));
    assert!(!newly_loaded);
    assert_eq!(slots[0].asset, None);
    assert!(!slots[0].pending);
    assert_eq!(slots[0].source, "a.jpg");
}

/// The visible range is clamped to the slots that exist; a range reaching
/// past the end requests only real indices, in ascending order.
#[test]
fn range_past_end_requests_only_real_slots() {
    let slots = five_slots();
    let range = VisibleRange { first: 3, last: 10 };
    assert_eq!(collect_load_requests(&range, &slots), vec![3, 4]);
}

/// With no items there are no slots and a reconcile pass makes zero load
/// requests, whatever range the resolver reported.
#[test]
fn zero_items_make_zero_requests() {
    let slots: Vec<AssetSlot<Asset>> = make_slots(&Vec::new());
    let range = VisibleRange { first: 0, last: 0 };
    assert_eq!(collect_load_requests(&range, &slots), Vec::<usize>::new());
}

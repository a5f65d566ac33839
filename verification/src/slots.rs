//! Per-item asset slots and the reconcile bookkeeping of the lazy-load
//! coordinator. Each grid item owns one slot: its source identifier and an
//! optional materialized asset. A reconcile pass walks the visible range in
//! ascending index order, requests a load for every slot that is empty and
//! not already in flight, and stores each outcome back into its own slot
//! only. The loader itself (file reading, decoding) is an external
//! collaborator: a driver claims a slot, performs the load, and hands the
//! outcome back, so a slot sees at most one in-flight load at a time and a
//! failure touches no sibling slot.

use vstd::prelude::*;
use crate::viewport::VisibleRange;

verus! {

/// Why one slot's materialization failed. The slot stays empty, so a later
/// reconcile pass that covers it retries.
#[derive(Clone, Copy, PartialEq, Eq, Structural, Debug)]
pub enum LoadError {
    /// The source could not be read.
    SourceUnreadable,
    /// The source was read but could not be decoded.
    DecodeFailed,
}

/// One grid item's load state: the item's source identifier, the optional
/// materialized asset, and whether a load is currently in flight.
#[derive(Debug)]
pub struct AssetSlot<A> {
    /// Identifier the loader materializes from, e.g. a file path.
    pub source: String,
    /// The materialized asset; empty until a load for this slot succeeds.
    pub asset: Option<A>,
    /// Whether a load for this slot has been claimed and not yet resolved.
    pub pending: bool,
}

impl<A> AssetSlot<A> {
    /// A slot that a reconcile pass must request a load for: empty, with no
    /// load in flight.
    pub open spec fn wants_load(self) -> bool {
        self.asset is None && !self.pending
    }

    /// A slot whose asset has been materialized.
    pub open spec fn loaded(self) -> bool {
        self.asset is Some
    }
}

/// Creates one empty slot per source identifier, in the same order.
pub fn make_slots<A>(sources: &Vec<String>) -> (slots: Vec<AssetSlot<A>>)
    ensures
        slots@.len() == sources@.len(),
        forall|i: int| 0 <= i < slots@.len() ==> {
            &&& (#[trigger] slots@[i]).source == sources@[i]
            &&& slots@[i].asset is None
            &&& !slots@[i].pending
        },
{
    let mut slots: Vec<AssetSlot<A>> = Vec::new();
    let mut i: usize = 0;
    while i < sources.len()
        invariant
            i <= sources@.len(),
            slots@.len() == i,
            forall|j: int| 0 <= j < i ==> {
                &&& (#[trigger] slots@[j]).source == sources@[j]
                &&& slots@[j].asset is None
                &&& !slots@[j].pending
            },
        decreases sources@.len() - i,
    {
        let source: String = sources[i].clone();
        slots.push(AssetSlot { source, asset: None, pending: false });
        i = i + 1;
    }
    slots
}

/// The decision half of a reconcile pass: the indices inside the visible
/// range whose slot still wants a load, in ascending order, each exactly
/// once. Slots that are already loaded, or whose load is in flight, are
/// skipped, so reconciling a range a second time requests nothing new.
pub fn collect_load_requests<A>(range: &VisibleRange, slots: &Vec<AssetSlot<A>>) -> (requests: Vec<
    usize,
>)
    ensures
        forall|k: int| 0 <= k < requests@.len() ==> {
            let i = #[trigger] requests@[k] as int;
            &&& range.first <= i <= range.last
            &&& i < slots@.len()
            &&& slots@[i].wants_load()
        },
        forall|k1: int, k2: int| 0 <= k1 < k2 < requests@.len()
            ==> requests@[k1] < requests@[k2],
        forall|i: int|
            range.first <= i <= range.last && i < slots@.len() && (#[trigger] slots@[i]).wants_load()
                ==> exists|k: int| 0 <= k < requests@.len() && requests@[k] == i,
        slots@.len() == 0 ==> requests@.len() == 0,
{
    let first: usize = range.first as usize;
    let end: usize = range.last as usize;
    let mut requests: Vec<usize> = Vec::new();
    let mut i: usize = first;
    while i <= end && i < slots.len()
        invariant
            first == range.first as usize,
            end == range.last as usize,
            first <= i,
            forall|k: int| 0 <= k < requests@.len() ==> {
                let r = #[trigger] requests@[k] as int;
                &&& first <= r < i
                &&& r <= end
                &&& r < slots@.len()
                &&& slots@[r].wants_load()
            },
            forall|k1: int, k2: int| 0 <= k1 < k2 < requests@.len()
                ==> requests@[k1] < requests@[k2],
            forall|j: int|
                first <= j < i && j <= end && j < slots@.len() && (
                #[trigger] slots@[j]).wants_load()
                    ==> exists|k: int| 0 <= k < requests@.len() && requests@[k] == j,
        decreases end + 1 - i,
    {
        let ghost pre = requests@;
        if slots[i].asset.is_none() && !slots[i].pending {
            requests.push(i);
        }
        proof {
            assert forall|j: int|
                first <= j < i + 1 && j <= end && j < slots@.len() && (
                #[trigger] slots@[j]).wants_load() implies exists|k: int|
                0 <= k < requests@.len() && requests@[k] == j by {
                if j == i {
                    assert(requests@[requests@.len() - 1] == i);
                } else {
                    let k0 = choose|k: int| 0 <= k < pre.len() && pre[k] == j;
                    assert(requests@[k0] == j);
                }
            }
        }
        i = i + 1;
    }
    proof {
        if requests@.len() > 0 {
            assert((requests@[0] as int) < slots@.len());
        }
    }
    requests
}

/// Claims the slot at `index` for loading: marks it in flight if it is empty
/// and unclaimed, and otherwise — already loaded, or a load already in
/// flight — changes nothing and reports the silent skip. No other slot is
/// touched.
pub fn claim_slot<A>(slots: &mut Vec<AssetSlot<A>>, index: usize) -> (claimed: bool)
    requires
        index < old(slots)@.len(),
    ensures
        claimed == old(slots)@[index as int].wants_load(),
        final(slots)@.len() == old(slots)@.len(),
        forall|j: int| 0 <= j < old(slots)@.len() && j != index
            ==> final(slots)@[j] == old(slots)@[j],
        claimed ==> {
            &&& final(slots)@[index as int].source == old(slots)@[index as int].source
            &&& final(slots)@[index as int].asset is None
            &&& final(slots)@[index as int].pending
        },
        !claimed ==> final(slots)@[index as int] == old(slots)@[index as int],
{
    let slot = &mut slots[index];
    if slot.asset.is_none() && !slot.pending {
        slot.pending = true;
        true
    } else {
        false
    }
}

/// Resolves the claimed load at `index` with the loader's outcome. On
/// success the asset is stored and the slot is no longer in flight; on
/// failure the asset cell is left exactly as it was (empty), so a later pass
/// retries. Either way no sibling slot is touched: one slot's failure cannot
/// disturb the rest of the pass. Returns whether the slot is now newly
/// loaded, so a driver can signal its redraw collaborator.
pub fn apply_load_result<A>(
    slots: &mut Vec<AssetSlot<A>>,
    index: usize,
    outcome: Result<A, LoadError>,
) -> (loaded: bool)
    requires
        index < old(slots)@.len(),
        old(slots)@[index as int].pending,
    ensures
        loaded == (outcome is Ok),
        final(slots)@.len() == old(slots)@.len(),
        forall|j: int| 0 <= j < old(slots)@.len() && j != index
            ==> final(slots)@[j] == old(slots)@[j],
        final(slots)@[index as int].source == old(slots)@[index as int].source,
        !final(slots)@[index as int].pending,
        outcome matches Ok(a) ==> final(slots)@[index as int].asset == Some(a),
        outcome is Err ==> final(slots)@[index as int].asset == old(slots)@[
            index as int
        ].asset,
{
    let slot = &mut slots[index];
    slot.pending = false;
    match outcome {
        Ok(a) => {
            slot.asset = Some(a);
            true
        },
        Err(_) => false,
    }
}

/// Reconciling is idempotent: after a pass over a range materializes every
/// slot that wanted a load there — and leaves every other slot alone — no
/// slot in that range wants a load any more, so a second pass over the same
/// range with no new items requests nothing.
pub proof fn lemma_reconcile_idempotent<A>(
    range: VisibleRange,
    before: Seq<AssetSlot<A>>,
    after: Seq<AssetSlot<A>>,
)
    requires
        after.len() == before.len(),
        forall|i: int|
            0 <= i < before.len() && range.first <= i <= range.last && (
            #[trigger] before[i]).wants_load() ==> after[i].loaded(),
        forall|i: int|
            0 <= i < before.len() && !(range.first <= i <= range.last && (
            #[trigger] before[i]).wants_load()) ==> after[i] == before[i],
    ensures
        forall|i: int|
            range.first <= i <= range.last && 0 <= i < after.len()
                ==> !(#[trigger] after[i]).wants_load(),
{
    assert forall|i: int|
        range.first <= i <= range.last && 0 <= i < after.len() implies !(
    #[trigger] after[i]).wants_load() by {
        if before[i].wants_load() {
            assert(after[i].loaded());
        } else {
            assert(after[i] == before[i]);
        }
    }
}

} // verus!

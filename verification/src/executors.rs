use vstd::prelude::*;

use crate::model::{BuildInfo, BuildingOn};
use crate::search::lemma_filter_push;

verus! {

/// One executor slot scanned from a node: the node's name, the slot's
/// progress when a build is actually running on it (`None` for an idle
/// or one-off slot), and the build occupying it, when known.
#[derive(Clone, Debug, PartialEq, Eq)]
pub struct ExecutorSlot {
    pub node: String,
    pub progress: Option<u32>,
    pub build: Option<BuildInfo>,
}

/// A slot carries a running build exactly when it reports progress.
pub open spec fn occupied_pred() -> spec_fn(ExecutorSlot) -> bool {
    |slot: ExecutorSlot| slot.progress is Some
}

pub open spec fn slot_building(slot: ExecutorSlot) -> BuildingOn {
    BuildingOn { node: slot.node, progress: slot.progress->Some_0, build: slot.build }
}

pub open spec fn building_fn() -> spec_fn(ExecutorSlot) -> BuildingOn {
    |slot: ExecutorSlot| slot_building(slot)
}

/// The running builds among the scanned slots, in scan order.
pub open spec fn building_model(slots: Seq<ExecutorSlot>) -> Seq<BuildingOn> {
    slots.filter(occupied_pred()).map_values(building_fn())
}

/// Keep the slots that report progress — those are the ones with a build
/// actually running — and carry node, progress and build over.
pub fn running_builds(slots: Vec<ExecutorSlot>) -> (r: Vec<BuildingOn>)
    ensures
        r@ == building_model(slots@),
{
    let ghost all = slots@;
    let ghost occ = occupied_pred();
    let ghost f = building_fn();
    let mut slots = slots;
    let mut out: Vec<BuildingOn> = Vec::new();
    proof {
        assert(all.take(0) =~= Seq::<ExecutorSlot>::empty());
        assert(Seq::<ExecutorSlot>::empty().filter(occ) =~= Seq::<ExecutorSlot>::empty()) by {
            reveal(Seq::filter);
        }
        assert(building_model(all.take(0)) =~= Seq::<BuildingOn>::empty());
    }
    while slots.len() > 0
        invariant
            occ == occupied_pred(),
            f == building_fn(),
            slots@.len() <= all.len(),
            slots@ == all.skip(all.len() - slots@.len()),
            out@ == building_model(all.take(all.len() - slots@.len())),
        decreases slots.len(),
    {
        let ghost k: int = all.len() - slots@.len();
        let slot = slots.remove(0);
        proof {
            assert(slots@ =~= all.skip(k + 1));
            assert(slot == all[k]);
        }
        match slot.progress {
            Some(progress) => {
                out.push(BuildingOn { node: slot.node, progress, build: slot.build });
            },
            None => {},
        }
        proof {
            assert(all.take(k + 1) =~= all.take(k).push(all[k]));
            lemma_filter_push(all.take(k), all[k], occ);
            if occ(all[k]) {
                assert(all.take(k).filter(occ).push(all[k]).map_values(f) =~= all.take(k).filter(
                    occ,
                ).map_values(f).push(f(all[k])));
                assert(f(all[k]) == slot_building(all[k]));
            }
            assert(out@ == building_model(all.take(k + 1)));
        }
    }
    proof {
        assert(all.take(all.len() as int) =~= all);
    }
    out
}

} // verus!

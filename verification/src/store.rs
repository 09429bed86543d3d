use vstd::prelude::*;
use std::collections::HashMap;
use crate::records::{sentinel_view, ToolRental, ToolRentalView};

verus! {

broadcast use vstd::std_specs::hash::group_hash_axioms;

/// What a read of a record map yields: the stored record when `id` is
/// present, the absence sentinel otherwise.
pub open spec fn spec_get(m: Map<u64, ToolRentalView>, id: u64) -> ToolRentalView {
    if m.contains_key(id) {
        m[id]
    } else {
        sentinel_view()
    }
}

/// Durable keyed persistence for rental records, scoped to one deployed
/// instance of the service. Its mathematical value is the map from rental
/// identifier to the stored record's view.
pub struct RentalStore {
    pub map: HashMap<u64, ToolRental>,
}

impl View for RentalStore {
    type V = Map<u64, ToolRentalView>;

    open spec fn view(&self) -> Map<u64, ToolRentalView> {
        self.map@.map_values(|r: ToolRental| r@)
    }
}

impl RentalStore {
    /// An empty store: no identifier has a record.
    pub fn new() -> (s: RentalStore)
        ensures
            s@ == Map::<u64, ToolRentalView>::empty(),
    {
        let s = RentalStore { map: HashMap::new() };
        proof {
            assert(s@ =~= Map::<u64, ToolRentalView>::empty());
        }
        s
    }

    /// Upsert: unconditionally overwrite whatever is stored under `id`.
    pub fn put(&mut self, id: u64, rec: ToolRental)
        ensures
            final(self)@ == old(self)@.insert(id, rec@),
    {
        self.map.insert(id, rec);
        proof {
            assert(self@ =~= old(self)@.insert(id, rec@));
        }
    }

    /// Read-through: the stored record for `id`, or the sentinel default
    /// when no record exists. Absence is a sentinel, never an error.
    pub fn get(&self, id: u64) -> (r: ToolRental)
        ensures
            r@ == spec_get(self@, id),
    {
        match self.map.get(&id) {
            Some(rec) => {
                proof {
                    assert(self@.contains_key(id));
                    assert(self@[id] == rec@);
                }
                rec.clone()
            },
            None => {
                proof {
                    assert(!self@.contains_key(id));
                }
                ToolRental::sentinel()
            },
        }
    }
}

} // verus!

use vstd::prelude::*;
use crate::records::{Identity, RentalStatus, ToolRental, ToolRentalView};
use crate::store::{spec_get, RentalStore};

verus! {

/// The fatal errors of the service. `InvalidParameters` aborts a request
/// whose price or duration is zero; `Unauthorized` is the identity
/// authority's failure, raised at the host boundary before any operation
/// here runs.
#[derive(Clone, Copy, PartialEq, Eq, Structural, Debug)]
pub enum RentalError {
    Unauthorized,
    InvalidParameters,
}

/// Every record the service ever stores satisfies this: it is keyed by its
/// own nonzero identifier, its price and duration are positive, and its
/// status is one the lifecycle can reach (never `Cancelled`).
pub open spec fn valid_record(r: ToolRentalView, id: u64) -> bool {
    &&& r.rental_id == id
    &&& id != 0
    &&& r.price_per_day > 0
    &&& r.rental_duration > 0
    &&& r.rental_status != RentalStatus::Cancelled
}

/// The record a fresh request stores: the given parties and terms, with
/// status `Requested`.
pub open spec fn requested_record(
    id: u64,
    tool_name: Seq<char>,
    renter: Seq<char>,
    owner: Seq<char>,
    price_per_day: u64,
    rental_duration: u64,
) -> ToolRentalView {
    ToolRentalView {
        rental_id: id,
        tool_name: tool_name,
        renter: renter,
        owner: owner,
        price_per_day: price_per_day,
        rental_duration: rental_duration,
        rental_status: RentalStatus::Requested,
    }
}

/// When an accept succeeds: the record read for `id` (the sentinel when
/// absent) stands at `Requested`, and the caller is that record's owner.
/// On an absent id the sentinel's `Cancelled` status makes this false for
/// every caller.
pub open spec fn accept_allowed(m: Map<u64, ToolRentalView>, id: u64, owner: Seq<char>) -> bool {
    &&& spec_get(m, id).rental_status == RentalStatus::Requested
    &&& spec_get(m, id).owner == owner
}

/// What a successful accept does to the store: the record under `id` moves
/// to `Accepted`; every other field and every other record is unchanged.
pub open spec fn accept_step(m: Map<u64, ToolRentalView>, id: u64) -> Map<u64, ToolRentalView> {
    m.insert(id, ToolRentalView { rental_status: RentalStatus::Accepted, ..spec_get(m, id) })
}

/// When a completion succeeds: the record read for `id` stands at
/// `Accepted`, and the caller is that record's renter.
pub open spec fn complete_allowed(m: Map<u64, ToolRentalView>, id: u64, renter: Seq<char>) -> bool {
    &&& spec_get(m, id).rental_status == RentalStatus::Accepted
    &&& spec_get(m, id).renter == renter
}

/// What a successful completion does to the store: the record under `id`
/// moves to `Completed`; everything else is unchanged.
pub open spec fn complete_step(m: Map<u64, ToolRentalView>, id: u64) -> Map<u64, ToolRentalView> {
    m.insert(id, ToolRentalView { rental_status: RentalStatus::Completed, ..spec_get(m, id) })
}

/// The rental lifecycle service: the only writer of its record store. It
/// assigns identifiers from a dedicated monotonic counter, so every id is
/// unique and nonzero. Callers reach it only after the host's identity
/// authority has authenticated them as the party they claim.
pub struct SharedEconomyToolRental {
    pub store: RentalStore,
    pub next_id: u64,
}

impl SharedEconomyToolRental {
    /// Well-formedness: the counter starts past zero and stays ahead of
    /// every identifier in the store, and every stored record is valid.
    pub open spec fn wf(self) -> bool {
        &&& 1 <= self.next_id
        &&& forall|id: u64| #[trigger]
            self.store@.contains_key(id) ==> valid_record(self.store@[id], id) && id
                < self.next_id
    }

    /// A fresh service: empty store, counter at one.
    pub fn new() -> (s: SharedEconomyToolRental)
        ensures
            s.wf(),
            s.store@ == Map::<u64, ToolRentalView>::empty(),
            s.next_id == 1,
    {
        SharedEconomyToolRental { store: RentalStore::new(), next_id: 1 }
    }

    /// Create a new rental request. With a positive price and duration the
    /// call returns the fresh, nonzero identifier and stores the record at
    /// `Requested`; with a zero price or duration it aborts with
    /// `InvalidParameters` and the store is untouched.
    pub fn request_rental(
        &mut self,
        renter: Identity,
        owner: Identity,
        tool_name: String,
        price_per_day: u64,
        rental_duration: u64,
    ) -> (r: Result<u64, RentalError>)
        requires
            old(self).wf(),
            old(self).next_id < u64::MAX,
        ensures
            final(self).wf(),
            (price_per_day == 0 || rental_duration == 0) ==> {
                &&& r == Err::<u64, RentalError>(RentalError::InvalidParameters)
                &&& *final(self) == *old(self)
            },
            (price_per_day != 0 && rental_duration != 0) ==> {
                &&& r == Ok::<u64, RentalError>(old(self).next_id)
                &&& old(self).next_id != 0
                &&& !old(self).store@.contains_key(old(self).next_id)
                &&& final(self).store@ == old(self).store@.insert(
                    old(self).next_id,
                    requested_record(
                        old(self).next_id,
                        tool_name@,
                        renter@,
                        owner@,
                        price_per_day,
                        rental_duration,
                    ),
                )
                &&& final(self).next_id == old(self).next_id + 1
            },
    {
        if price_per_day == 0 || rental_duration == 0 {
            return Err(RentalError::InvalidParameters);
        }
        let rental_id = self.next_id;
        let rental = ToolRental {
            rental_id,
            tool_name,
            renter,
            owner,
            price_per_day,
            rental_duration,
            rental_status: RentalStatus::Requested,
        };
        proof {
            assert(!self.store@.contains_key(rental_id));
        }
        self.store.put(rental_id, rental);
        self.next_id = rental_id + 1;
        proof {
            assert forall|id: u64| #[trigger] self.store@.contains_key(id) implies valid_record(
                self.store@[id],
                id,
            ) && id < self.next_id by {
                if id != rental_id {
                    assert(old(self).store@.contains_key(id));
                }
            }
        }
        Ok(rental_id)
    }

    /// Accept a rental request as its owner. Returns `true` and moves the
    /// record to `Accepted` exactly when the record stands at `Requested`
    /// and the caller matches its stored owner; otherwise returns `false`
    /// and changes nothing. On an unknown id the read yields the sentinel,
    /// whose `Cancelled` status refuses every caller.
    pub fn accept_rental(&mut self, owner: Identity, rental_id: u64) -> (r: bool)
        requires
            old(self).wf(),
        ensures
            final(self).wf(),
            r == accept_allowed(old(self).store@, rental_id, owner@),
            r ==> final(self).store@ == accept_step(old(self).store@, rental_id),
            !r ==> *final(self) == *old(self),
            final(self).next_id == old(self).next_id,
    {
        let rental = self.store.get(rental_id);
        match rental.rental_status {
            RentalStatus::Requested => {},
            _ => {
                return false;
            },
        }
        if !(rental.owner == owner) {
            return false;
        }
        let updated = ToolRental { rental_status: RentalStatus::Accepted, ..rental };
        proof {
            assert(self.store@.contains_key(rental_id));
            assert(updated@ =~= ToolRentalView {
                rental_status: RentalStatus::Accepted,
                ..spec_get(self.store@, rental_id)
            });
        }
        self.store.put(rental_id, updated);
        proof {
            assert forall|id: u64| #[trigger] self.store@.contains_key(id) implies valid_record(
                self.store@[id],
                id,
            ) && id < self.next_id by {
                if id != rental_id {
                    assert(old(self).store@.contains_key(id));
                }
            }
        }
        true
    }

    /// Complete a rental as its renter, marking the tool returned. Returns
    /// `true` and moves the record to `Completed` exactly when the record
    /// stands at `Accepted` and the caller matches its stored renter;
    /// otherwise returns `false` and changes nothing.
    pub fn complete_rental(&mut self, renter: Identity, rental_id: u64) -> (r: bool)
        requires
            old(self).wf(),
        ensures
            final(self).wf(),
            r == complete_allowed(old(self).store@, rental_id, renter@),
            r ==> final(self).store@ == complete_step(old(self).store@, rental_id),
            !r ==> *final(self) == *old(self),
            final(self).next_id == old(self).next_id,
    {
        let rental = self.store.get(rental_id);
        match rental.rental_status {
            RentalStatus::Accepted => {},
            _ => {
                return false;
            },
        }
        if !(rental.renter == renter) {
            return false;
        }
        let updated = ToolRental { rental_status: RentalStatus::Completed, ..rental };
        proof {
            assert(self.store@.contains_key(rental_id));
            assert(updated@ =~= ToolRentalView {
                rental_status: RentalStatus::Completed,
                ..spec_get(self.store@, rental_id)
            });
        }
        self.store.put(rental_id, updated);
        proof {
            assert forall|id: u64| #[trigger] self.store@.contains_key(id) implies valid_record(
                self.store@[id],
                id,
            ) && id < self.next_id by {
                if id != rental_id {
                    assert(old(self).store@.contains_key(id));
                }
            }
        }
        true
    }

    /// Pure read-through: the stored record for `rental_id`, or the absence
    /// sentinel. Needs no authentication and never fails; the result is a
    /// function of the store alone.
    pub fn get_rental(&self, rental_id: u64) -> (r: ToolRental)
        ensures
            r@ == spec_get(self.store@, rental_id),
    {
        self.store.get(rental_id)
    }
}

} // verus!

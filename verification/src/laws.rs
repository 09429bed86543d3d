use vstd::prelude::*;
use crate::records::{placeholder_view, sentinel_view, RentalStatus, ToolRentalView};
use crate::service::{
    accept_allowed, accept_step, complete_allowed, complete_step, requested_record,
};
use crate::store::spec_get;

verus! {

/// A fresh request is immediately visible: once the requested record is
/// stored under a nonzero id, a read of that id yields exactly that record,
/// standing at `Requested` and carrying the given terms.
pub proof fn lemma_request_makes_record_visible(
    m: Map<u64, ToolRentalView>,
    id: u64,
    tool_name: Seq<char>,
    renter: Seq<char>,
    owner: Seq<char>,
    price_per_day: u64,
    rental_duration: u64,
)
    requires
        id != 0,
    ensures
        spec_get(
            m.insert(id, requested_record(id, tool_name, renter, owner, price_per_day, rental_duration)),
            id,
        ) == requested_record(id, tool_name, renter, owner, price_per_day, rental_duration),
        spec_get(
            m.insert(id, requested_record(id, tool_name, renter, owner, price_per_day, rental_duration)),
            id,
        ).rental_status == RentalStatus::Requested,
        spec_get(
            m.insert(id, requested_record(id, tool_name, renter, owner, price_per_day, rental_duration)),
            id,
        ).rental_id == id,
{
}

/// An unknown id reads as the sentinel, whose owner is the placeholder
/// identity and whose status is `Cancelled`; so no caller whatsoever can
/// accept it.
pub proof fn lemma_absent_id_refuses_accept(m: Map<u64, ToolRentalView>, id: u64, caller: Seq<char>)
    requires
        !m.contains_key(id),
    ensures
        spec_get(m, id) == sentinel_view(),
        spec_get(m, id).owner == placeholder_view(),
        !accept_allowed(m, id, caller),
{
}

/// A caller who is not the record's stored owner can never accept it, even
/// when the record does stand at `Requested`.
pub proof fn lemma_accept_needs_owner(m: Map<u64, ToolRentalView>, id: u64, caller: Seq<char>)
    requires
        caller != spec_get(m, id).owner,
    ensures
        !accept_allowed(m, id, caller),
{
}

/// Accepting is single-shot: after one successful accept of an id, no
/// further accept of that id can succeed, whoever calls.
pub proof fn lemma_accept_is_single_shot(
    m: Map<u64, ToolRentalView>,
    id: u64,
    owner: Seq<char>,
    later_caller: Seq<char>,
)
    requires
        accept_allowed(m, id, owner),
    ensures
        !accept_allowed(accept_step(m, id), id, later_caller),
{
}

/// A rental still standing at `Requested` cannot be completed: acceptance
/// must come first.
pub proof fn lemma_complete_needs_acceptance(m: Map<u64, ToolRentalView>, id: u64, caller: Seq<char>)
    requires
        spec_get(m, id).rental_status == RentalStatus::Requested,
    ensures
        !complete_allowed(m, id, caller),
{
}

/// The full happy path goes through for every choice of parties and terms:
/// from any store, a fresh request can be accepted by its owner, then
/// completed by its renter, and the record then reads back as `Completed`
/// with its parties and terms intact.
pub proof fn lemma_happy_path(
    m: Map<u64, ToolRentalView>,
    id: u64,
    tool_name: Seq<char>,
    renter: Seq<char>,
    owner: Seq<char>,
    price_per_day: u64,
    rental_duration: u64,
)
    requires
        id != 0,
        price_per_day > 0,
        rental_duration > 0,
    ensures
        ({
            let m1 = m.insert(
                id,
                requested_record(id, tool_name, renter, owner, price_per_day, rental_duration),
            );
            let m2 = accept_step(m1, id);
            let m3 = complete_step(m2, id);
            &&& accept_allowed(m1, id, owner)
            &&& complete_allowed(m2, id, renter)
            &&& spec_get(m3, id).rental_status == RentalStatus::Completed
            &&& spec_get(m3, id).rental_id == id
            &&& spec_get(m3, id).renter == renter
            &&& spec_get(m3, id).owner == owner
            &&& spec_get(m3, id).tool_name == tool_name
            &&& spec_get(m3, id).price_per_day == price_per_day
            &&& spec_get(m3, id).rental_duration == rental_duration
        }),
{
}

/// Reads are idempotent: any two reads of the same id against the same
/// store state agree, record for record.
pub proof fn lemma_get_is_idempotent(
    m: Map<u64, ToolRentalView>,
    id: u64,
    first: ToolRentalView,
    second: ToolRentalView,
)
    requires
        first == spec_get(m, id),
        second == spec_get(m, id),
    ensures
        first == second,
{
}

} // verus!

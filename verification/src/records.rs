use vstd::prelude::*;

verus! {

/// The text of the well-known placeholder identity that stands for "no
/// party" in the absence sentinel.
pub open spec fn placeholder_view() -> Seq<char> {
    "GXXXXXXXXXXXXXXXXXXXXXXXXXXXXXXXXXXXXXXXXXXX"@
}

/// A party to a rental (renter or owner): an opaque, uniquely verifiable
/// reference, carried as its textual form. Two identities are the same
/// party exactly when their texts are equal.
#[derive(Debug)]
pub struct Identity {
    pub name: String,
}

impl View for Identity {
    type V = Seq<char>;

    open spec fn view(&self) -> Seq<char> {
        self.name@
    }
}

impl Identity {
    pub fn new(name: String) -> (r: Identity)
        ensures
            r@ == name@,
    {
        Identity { name }
    }

    /// The placeholder identity that the absence sentinel carries as both
    /// renter and owner.
    pub fn placeholder() -> (r: Identity)
        ensures
            r@ == placeholder_view(),
    {
        Identity { name: "GXXXXXXXXXXXXXXXXXXXXXXXXXXXXXXXXXXXXXXXXXXX".to_owned() }
    }
}

impl Clone for Identity {
    fn clone(&self) -> (r: Identity)
        ensures
            r@ == self@,
    {
        Identity { name: self.name.clone() }
    }
}

impl PartialEq for Identity {
    fn eq(&self, other: &Identity) -> (r: bool) {
        self.name == other.name
    }
}

impl vstd::std_specs::cmp::PartialEqSpecImpl for Identity {
    open spec fn obeys_eq_spec() -> bool {
        true
    }

    open spec fn eq_spec(&self, other: &Identity) -> bool {
        self@ == other@
    }
}

/// The lifecycle state of a rental. `Cancelled` is never produced by any
/// operation: it is reachable only as the absence sentinel's status.
#[derive(Clone, Copy, PartialEq, Eq, Structural, Debug)]
pub enum RentalStatus {
    Requested,
    Accepted,
    Completed,
    Cancelled,
}

/// The mathematical value of a rental record: every field as a plain value.
#[verifier::ext_equal]
pub ghost struct ToolRentalView {
    pub rental_id: u64,
    pub tool_name: Seq<char>,
    pub renter: Seq<char>,
    pub owner: Seq<char>,
    pub price_per_day: u64,
    pub rental_duration: u64,
    pub rental_status: RentalStatus,
}

/// One rental agreement: who rents which tool from whom, at what price
/// (smallest currency unit per day), for how many days, and where in the
/// lifecycle it stands.
pub struct ToolRental {
    pub rental_id: u64,
    pub tool_name: String,
    pub renter: Identity,
    pub owner: Identity,
    pub price_per_day: u64,
    pub rental_duration: u64,
    pub rental_status: RentalStatus,
}

impl View for ToolRental {
    type V = ToolRentalView;

    open spec fn view(&self) -> ToolRentalView {
        ToolRentalView {
            rental_id: self.rental_id,
            tool_name: self.tool_name@,
            renter: self.renter@,
            owner: self.owner@,
            price_per_day: self.price_per_day,
            rental_duration: self.rental_duration,
            rental_status: self.rental_status,
        }
    }
}

/// The fixed record that a read of an unknown identifier yields: id zero,
/// empty tool name, placeholder parties, zero price and duration, and the
/// otherwise unreachable `Cancelled` status.
pub open spec fn sentinel_view() -> ToolRentalView {
    ToolRentalView {
        rental_id: 0,
        tool_name: Seq::<char>::empty(),
        renter: placeholder_view(),
        owner: placeholder_view(),
        price_per_day: 0,
        rental_duration: 0,
        rental_status: RentalStatus::Cancelled,
    }
}

impl ToolRental {
    /// The sentinel record that signals absence; callers recognise it by
    /// `rental_id == 0` or by its `Cancelled` status.
    pub fn sentinel() -> (r: ToolRental)
        ensures
            r@ == sentinel_view(),
    {
        ToolRental {
            rental_id: 0,
            tool_name: String::new(),
            renter: Identity::placeholder(),
            owner: Identity::placeholder(),
            price_per_day: 0,
            rental_duration: 0,
            rental_status: RentalStatus::Cancelled,
        }
    }
}

impl Clone for ToolRental {
    fn clone(&self) -> (r: ToolRental)
        ensures
            r@ == self@,
    {
        ToolRental {
            rental_id: self.rental_id,
            tool_name: self.tool_name.clone(),
            renter: self.renter.clone(),
            owner: self.owner.clone(),
            price_per_day: self.price_per_day,
            rental_duration: self.rental_duration,
            rental_status: self.rental_status,
        }
    }
}

impl PartialEq for ToolRental {
    fn eq(&self, other: &ToolRental) -> (r: bool) {
        let same = self.rental_id == other.rental_id && self.tool_name == other.tool_name
            && self.renter == other.renter && self.owner == other.owner && self.price_per_day
            == other.price_per_day && self.rental_duration == other.rental_duration
            && self.rental_status == other.rental_status;
        proof {
            if same {
                assert(self@ =~= other@);
            }
        }
        same
    }
}

impl vstd::std_specs::cmp::PartialEqSpecImpl for ToolRental {
    open spec fn obeys_eq_spec() -> bool {
        true
    }

    open spec fn eq_spec(&self, other: &ToolRental) -> bool {
        self@ == other@
    }
}

} // verus!

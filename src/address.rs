//! Content identifiers of records and log headers.

use vstd::prelude::*;

verus! {

/// A content identifier, as the host's content-addressed store hands it out.
#[derive(Debug, Clone)]
pub struct Address {
    pub hash: String,
}

impl Address {
    pub open spec fn view(&self) -> Seq<char> {
        self.hash@
    }

    pub fn new(hash: String) -> (r: Address)
        ensures
            r@ == hash@,
    {
        Address { hash }
    }

    /// A copy of this identifier.
    pub fn duplicate(&self) -> (r: Address)
        ensures
            r == *self,
    {
        Address { hash: self.hash.clone() }
    }

    /// Whether the two identifiers name the same content.
    pub fn same_as(&self, other: &Address) -> (r: bool)
        ensures
            r == (self@ == other@),
    {
        self.hash == other.hash
    }
}

impl PartialEq for Address {
    fn eq(&self, other: &Address) -> (r: bool) {
        self.hash == other.hash
    }
}

impl vstd::std_specs::cmp::PartialEqSpecImpl for Address {
    open spec fn obeys_eq_spec() -> bool {
        true
    }

    open spec fn eq_spec(&self, other: &Address) -> bool {
        self.hash@ == other.hash@
    }
}

impl Eq for Address {
}

} // verus!

use vstd::prelude::*;

verus! {

/// An opaque principal: the caller of an operation and the subject of
/// authorization. Two identities are the same when their textual forms are.
#[derive(Clone, Debug)]
pub struct Address {
    pub id: String,
}

impl View for Address {
    type V = Seq<char>;

    open spec fn view(&self) -> Seq<char> {
        self.id@
    }
}

impl Address {
    pub fn new(id: String) -> (r: Address)
        ensures
            r@ == id@,
    {
        Address { id }
    }

    /// Whether `self` and `other` denote the same principal.
    pub fn same(&self, other: &Address) -> (r: bool)
        ensures
            r == (self@ == other@),
    {
        self.id == other.id
    }

    /// A copy of this identity.
    pub fn duplicate(&self) -> (r: Address)
        ensures
            r@ == self@,
    {
        Address { id: self.id.clone() }
    }
}

} // verus!

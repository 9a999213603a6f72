use vstd::prelude::*;

verus! {

/// A party to an invoice or a token contract, identified by its account key
/// in text form (for instance a Stellar strkey).
#[derive(Debug)]
pub struct Address {
    key: String,
}

impl View for Address {
    type V = Seq<char>;

    closed spec fn view(&self) -> Seq<char> {
        self.key@
    }
}

impl Address {
    /// An address with the given key.
    pub fn new(key: &str) -> (a: Address)
        ensures
            a@ == key@,
    {
        Address { key: key.to_owned() }
    }

    /// The key that names this address.
    pub fn key(&self) -> (k: &str)
        ensures
            k@ == self@,
    {
        self.key.as_str()
    }
}

impl Clone for Address {
    fn clone(&self) -> (c: Self)
        ensures
            c == *self,
    {
        Address { key: self.key.clone() }
    }
}

impl PartialEq for Address {
    fn eq(&self, other: &Self) -> (same: bool) {
        self.key == other.key
    }
}

impl Eq for Address {
}

impl vstd::std_specs::cmp::PartialEqSpecImpl for Address {
    open spec fn obeys_eq_spec() -> bool {
        true
    }

    open spec fn eq_spec(&self, other: &Self) -> bool {
        self@ == other@
    }
}

} // verus!

//! Holder identities.

use vstd::prelude::*;

verus! {

/// The identity of a holder: an account or a contract, named by its textual
/// key. Two addresses are the same holder exactly when their keys are the
/// same text, so the model of an address is that text.
#[derive(Debug, PartialEq, Eq)]
pub struct Address {
    key: String,
}

impl View for Address {
    type V = Seq<char>;

    closed spec fn view(&self) -> Seq<char> {
        self.key@
    }
}

impl Address {
    /// The address named by `key`.
    pub fn new(key: String) -> (r: Address)
        ensures
            r@ == key@,
    {
        Address { key }
    }

    /// The address named by the text `key`.
    pub fn from_str(key: &str) -> (r: Address)
        ensures
            r@ == key@,
    {
        Address { key: key.to_owned() }
    }

    /// The text that names this address.
    pub fn as_str(&self) -> (r: &str)
        ensures
            r@ == self@,
    {
        self.key.as_str()
    }

    /// Whether `self` and `other` name the same holder.
    pub fn same(&self, other: &Address) -> (r: bool)
        ensures
            r == (self@ == other@),
    {
        self.key == other.key
    }

}

impl Clone for Address {
    /// A second handle on the same holder.
    fn clone(&self) -> (r: Address)
        ensures
            r == *self,
    {
        Address { key: self.key.clone() }
    }
}

} // verus!

//! The two forms of an address.
//!
//! The ledger keeps addresses in the chain's canonical form; people and
//! outbound commands use the displayed form. Only the host can turn one into
//! the other, and it can fail, so the two are different types here and no
//! function of this crate converts between them.

use vstd::prelude::*;

verus! {

/// An address as it is displayed and sent.
#[derive(Clone, Debug, PartialEq, Eq)]
pub struct HumanAddr {
    pub text: String,
}

/// An address in the chain's canonical form.
#[derive(Clone, Debug, PartialEq, Eq)]
pub struct CanonicalAddr {
    pub bytes: Vec<u8>,
}

impl View for HumanAddr {
    type V = Seq<char>;

    open spec fn view(&self) -> Seq<char> {
        self.text@
    }
}

impl View for CanonicalAddr {
    type V = Seq<u8>;

    open spec fn view(&self) -> Seq<u8> {
        self.bytes@
    }
}

impl HumanAddr {
    /// A second copy of the address.
    pub fn duplicate(&self) -> (r: HumanAddr)
        ensures
            r@ == self@,
    {
        HumanAddr { text: self.text.clone() }
    }
}

impl CanonicalAddr {
    /// A second copy of the address.
    pub fn duplicate(&self) -> (r: CanonicalAddr)
        ensures
            r@ == self@,
    {
        let bytes = self.bytes.clone();
        assert(bytes@ =~= self.bytes@);
        CanonicalAddr { bytes }
    }
}

} // verus!

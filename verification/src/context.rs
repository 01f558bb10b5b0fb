//! The execution context handed to an authorization check: the caller-facing
//! address type and the environment describing the executing contract.
//!
//! The host execution environment supplies these values; this library only
//! reads them. An address is an opaque identity compared by exact equality
//! of its textual form — no validation or normalization happens here.

use vstd::prelude::*;

verus! {

/// An address: the identity attempting to perform a gated action, or the
/// identity of the executing contract itself. A thin wrapper around its
/// textual form, compared by exact equality.
#[derive(Debug)]
pub struct Addr {
    pub text: String,
}

impl View for Addr {
    type V = Seq<char>;

    open spec fn view(&self) -> Seq<char> {
        self.text@
    }
}

impl Addr {
    /// Wraps a textual address without validating it.
    pub fn new(text: String) -> (r: Addr)
        ensures
            r@ == text@,
    {
        Addr { text }
    }

    /// The textual form of the address.
    pub fn as_str(&self) -> (r: &str)
        ensures
            r@ == self@,
    {
        self.text.as_str()
    }
}

impl Clone for Addr {
    fn clone(&self) -> (r: Addr)
        ensures
            r@ == self@,
    {
        Addr { text: self.text.clone() }
    }
}

impl PartialEq for Addr {
    fn eq(&self, other: &Addr) -> (r: bool) {
        self.text == other.text
    }
}

impl vstd::std_specs::cmp::PartialEqSpecImpl for Addr {
    open spec fn obeys_eq_spec() -> bool {
        true
    }

    open spec fn eq_spec(&self, other: &Addr) -> bool {
        self.text@ == other.text@
    }
}

/// The identity of the contract whose execution handler runs the check.
#[derive(Debug)]
pub struct ContractInfo {
    pub address: Addr,
}

/// The acting environment, as supplied by the host execution environment.
#[derive(Debug)]
pub struct Env {
    pub contract: ContractInfo,
}

} // verus!

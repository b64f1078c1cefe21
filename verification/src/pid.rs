//! Process identifiers.
//!
//! A `Pid` names a process by `(address, id)`. Processes of the local actor
//! system carry the address `"nonhost"`; remote addresses are opaque strings.
//! Within one address, ids are unique: the registry assigns them from a
//! monotone counter.

use vstd::prelude::*;

verus! {

/// The address of processes that live in the local actor system.
pub open spec fn spec_local_address() -> Seq<char> {
    "nonhost"@
}

/// Returns the address of the local actor system.
pub fn local_address() -> (r: String)
    ensures
        r@ == spec_local_address(),
{
    proof {
        reveal_strlit("nonhost");
    }
    "nonhost".to_owned()
}

/// A location-transparent process identifier: an address plus an id that is
/// unique within that address.
#[derive(Debug)]
pub struct Pid {
    pub address: String,
    pub id: u64,
}

impl Pid {
    /// Builds the identifier of a local process from its registry id.
    pub fn local(id: u64) -> (r: Pid)
        ensures
            r.id == id,
            r.address@ == spec_local_address(),
    {
        Pid { address: local_address(), id }
    }

    /// True when the identifier points into the local actor system.
    pub fn is_local(&self) -> (r: bool)
        ensures
            r == (self.address@ == spec_local_address()),
    {
        let local = local_address();
        self.address == local
    }
}

impl Clone for Pid {
    fn clone(&self) -> (r: Self)
        ensures
            r == *self,
    {
        Pid { address: self.address.clone(), id: self.id }
    }
}

impl PartialEq for Pid {
    fn eq(&self, other: &Self) -> (r: bool) {
        self.id == other.id && self.address == other.address
    }
}

impl vstd::std_specs::cmp::PartialEqSpecImpl for Pid {
    open spec fn obeys_eq_spec() -> bool {
        true
    }

    open spec fn eq_spec(&self, other: &Self) -> bool {
        self.id == other.id && self.address@ == other.address@
    }
}

impl Eq for Pid {}

} // verus!


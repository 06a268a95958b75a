use vstd::prelude::*;

verus! {

/// A network address as `ipnetwork` holds it. The library carries such a value
/// along without looking into it.
#[verifier::external_type_specification]
#[verifier::external_body]
pub struct ExIpNetwork(ipnetwork::IpNetwork);

/// Whoever hands in records, known by the address that the request came from.
#[derive(Debug, PartialEq, Eq)]
pub struct Submitter {
    pub id: i32,
    pub ip: ipnetwork::IpNetwork,
    pub banned: bool,
}

impl Clone for Submitter {
    fn clone(&self) -> (copy: Self)
        ensures
            copy == *self,
    {
        Submitter { id: self.id, ip: self.ip, banned: self.banned }
    }
}

} // verus!

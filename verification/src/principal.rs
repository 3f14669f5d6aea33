use vstd::prelude::*;

verus! {

/// A principal identity: a party able to prove, through the host's
/// authorization layer, that it approved a call. The library only ever
/// compares principals for equality, so an identity is carried as a plain
/// number; the adapter around the library maps the host's address type to
/// and from these numbers.
#[derive(Clone, Copy, Debug, Hash, PartialEq, Eq, Structural)]
pub struct Principal {
    pub id: u64,
}

impl Principal {
    pub fn new(id: u64) -> (p: Principal)
        ensures
            p.id == id,
    {
        Principal { id }
    }
}

} // verus!

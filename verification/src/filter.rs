//! The caller's discovery criteria.

use vstd::prelude::*;

verus! {

/// Which peripherals a scan is for: those that advertise the listed services. An empty
/// list asks for every advertisement.
#[derive(Clone, Debug, Default, PartialEq, Eq)]
pub struct ScanFilter {
    /// The 128-bit identifiers of the services; their order carries no meaning.
    pub services: Vec<u128>,
}

impl ScanFilter {
    /// The set of service identifiers that the filter names.
    pub open spec fn ids(&self) -> Set<u128> {
        self.services@.to_set()
    }
}

} // verus!

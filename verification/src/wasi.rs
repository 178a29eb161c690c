//! The sandbox flavor with a capability-scoped filesystem, used by byte
//! sources that read input files. Its transport is the same as the pure
//! flavor's; what differs is the capability surface the embedding wires up
//! when it instantiates the module: a filesystem preopen rooted at a host
//! directory, visible to the guest as its root.

use vstd::prelude::*;

verus! {

/// Mints sandboxes of the filesystem-capable flavor from one guest module
/// binary. The embedding instantiates the module with its filesystem
/// preopens and runs the guest's conventional initialization entry point
/// before the first round trip.
pub struct WasiPluginFactory {
    binary: Vec<u8>,
}

impl WasiPluginFactory {
    /// The guest module binary the factory instantiates.
    pub closed spec fn binary_spec(&self) -> Seq<u8> {
        self.binary@
    }

    /// A factory over the given guest module binary.
    pub fn new(binary: Vec<u8>) -> (r: Self)
        ensures
            r.binary_spec() == binary@,
    {
        WasiPluginFactory { binary }
    }

    /// The guest module binary.
    pub fn binary(&self) -> (r: &Vec<u8>)
        ensures
            r@ == self.binary_spec(),
    {
        &self.binary
    }
}

} // verus!

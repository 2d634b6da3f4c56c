use vstd::prelude::*;
use crate::version::Version;

verus! {

/// The versions detected on the host: the kernel and the nftables tool.
#[derive(Debug, Clone, Copy)]
pub struct NullnetSystem {
    lver: Version,
    nver: Version,
}

impl NullnetSystem {
    /// The kernel version of this snapshot.
    pub closed spec fn linux(&self) -> Version {
        self.lver
    }

    /// The nftables version of this snapshot.
    pub closed spec fn nftables(&self) -> Version {
        self.nver
    }

    /// Builds a snapshot from the two detected versions.
    pub fn new(linux: Version, nftables: Version) -> (r: NullnetSystem)
        ensures
            r.linux() == linux,
            r.nftables() == nftables,
    {
        NullnetSystem { lver: linux, nver: nftables }
    }

    pub fn get_linux_version(&self) -> (r: Version)
        ensures
            r == self.linux(),
    {
        self.lver
    }

    pub fn get_nftables_version(&self) -> (r: Version)
        ensures
            r == self.nftables(),
    {
        self.nver
    }
}

} // verus!

use vstd::prelude::*;

verus! {

/// The protocol domain that a table and its chains operate over.
#[derive(Debug, Clone, Copy, PartialEq, Eq, Structural)]
pub enum Family {
    Ip,
    Ip6,
    Inet,
    Arp,
    Bridge,
    Netdev,
}

/// A named table of one family.
#[derive(Debug, Clone)]
pub struct Table {
    pub name: String,
    pub family: Family,
}

} // verus!

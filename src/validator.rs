use vstd::prelude::*;
use crate::chain::{ChainType, Hook};
use crate::system::NullnetSystem;
use crate::table::Family;
use crate::version::{Version, version_lt};

verus! {

/// Whether `v` is `(major, minor, patch)` or a later release.
pub open spec fn reaches(v: Version, major: u32, minor: u32, patch: u32) -> bool {
    !version_lt(v, Version { major, minor, patch })
}

/// Both the tool and the kernel are recent enough for an inet ingress chain.
pub open spec fn inet_ingress_supported(sys: NullnetSystem) -> bool {
    reaches(sys.nftables(), 0, 9, 7) && reaches(sys.linux(), 5, 10, 0)
}

/// Both the tool and the kernel are recent enough for a netdev ingress chain.
pub open spec fn netdev_ingress_supported(sys: NullnetSystem) -> bool {
    reaches(sys.nftables(), 0, 6, 0) && reaches(sys.linux(), 4, 2, 0)
}

/// Both the tool and the kernel are recent enough for a netdev egress chain.
pub open spec fn netdev_egress_supported(sys: NullnetSystem) -> bool {
    reaches(sys.nftables(), 1, 0, 1) && reaches(sys.linux(), 5, 16, 0)
}

/// The families in which a chain of the given type may be declared.
pub open spec fn chain_type_allowed(chain_type: ChainType, family: Family) -> bool {
    match chain_type {
        ChainType::Filter => family != Family::Netdev,
        ChainType::Nat | ChainType::Route => family == Family::Ip || family == Family::Ip6,
    }
}

/// The five hooks of the routed path.
pub open spec fn routing_hook(hook: Hook) -> bool {
    hook != Hook::Ingress && hook != Hook::Egress
}

/// The hooks at which a NAT chain can attach in a routed family.
pub open spec fn nat_hook(hook: Hook) -> bool {
    routing_hook(hook) && hook != Hook::Forward
}

/// The admissibility of a hook for a chain type in a family, given the detected versions.
pub open spec fn hook_allowed(sys: NullnetSystem, hook: Hook, chain_type: ChainType, family: Family) -> bool {
    match (family, chain_type) {
        (Family::Ip, ChainType::Filter) | (Family::Ip6, ChainType::Filter)
            | (Family::Bridge, ChainType::Filter) => routing_hook(hook),
        (Family::Inet, ChainType::Filter) => routing_hook(hook) || (hook == Hook::Ingress
            && inet_ingress_supported(sys)),
        (Family::Ip, ChainType::Nat) | (Family::Ip6, ChainType::Nat)
            | (Family::Inet, ChainType::Nat) => nat_hook(hook),
        (Family::Ip, ChainType::Route) | (Family::Ip6, ChainType::Route)
            | (Family::Inet, ChainType::Route) => hook == Hook::Output,
        (Family::Arp, ChainType::Filter) => hook == Hook::Input || hook == Hook::Output,
        (Family::Netdev, ChainType::Filter) => (hook == Hook::Ingress && netdev_ingress_supported(sys))
            || (hook == Hook::Egress && netdev_egress_supported(sys)),
        _ => false,
    }
}

/// Decides which chain types and hooks are legal on the host described by a snapshot.
#[derive(Debug, Clone, Copy)]
pub struct Validator {
    system: NullnetSystem,
}

impl Validator {
    /// The snapshot that the decisions are made against.
    pub closed spec fn system(&self) -> NullnetSystem {
        self.system
    }

    pub fn new(system: NullnetSystem) -> (r: Validator)
        ensures
            r.system() == system,
    {
        Validator { system }
    }

    /// Whether a chain of type `chain_type` may be declared in a table of `family`.
    pub fn is_chain_type_allowed(&self, chain_type: ChainType, family: Family) -> (r: bool)
        ensures
            r == chain_type_allowed(chain_type, family),
    {
        match chain_type {
            ChainType::Filter => matches!(family, Family::Ip | Family::Ip6 | Family::Inet | Family::Arp | Family::Bridge),
            ChainType::Route => matches!(family, Family::Ip | Family::Ip6),
            ChainType::Nat => matches!(family, Family::Ip | Family::Ip6),
        }
    }

    /// Whether a chain of type `chain_type` in `family` may attach at `hook`, given
    /// the kernel and nftables versions of the snapshot.
    pub fn is_hook_allowed(&self, hook: Hook, chain_type: ChainType, family: Family) -> (r: bool)
        ensures
            r == hook_allowed(self.system(), hook, chain_type, family),
    {
        let linux = self.system.get_linux_version();
        let nftables = self.system.get_nftables_version();
        match family {
            Family::Inet => match chain_type {
                ChainType::Filter => match hook {
                    Hook::Ingress => nftables.at_least(&Version::new(0, 9, 7))
                        && linux.at_least(&Version::new(5, 10, 0)),
                    Hook::Egress => false,
                    _ => true,
                },
                ChainType::Nat => matches!(hook, Hook::Prerouting | Hook::Input | Hook::Output | Hook::Postrouting),
                ChainType::Route => matches!(hook, Hook::Output),
            },
            Family::Ip6 | Family::Ip => match chain_type {
                ChainType::Filter => matches!(hook, Hook::Prerouting | Hook::Forward | Hook::Input | Hook::Output | Hook::Postrouting),
                ChainType::Nat => matches!(hook, Hook::Prerouting | Hook::Input | Hook::Output | Hook::Postrouting),
                ChainType::Route => matches!(hook, Hook::Output),
            },
            Family::Arp => match chain_type {
                ChainType::Filter => matches!(hook, Hook::Input | Hook::Output),
                _ => false,
            },
            Family::Bridge => match chain_type {
                ChainType::Filter => matches!(hook, Hook::Input | Hook::Output | Hook::Prerouting | Hook::Postrouting | Hook::Forward),
                _ => false,
            },
            Family::Netdev => match chain_type {
                ChainType::Filter => match hook {
                    Hook::Ingress => nftables.at_least(&Version::new(0, 6, 0))
                        && linux.at_least(&Version::new(4, 2, 0)),
                    Hook::Egress => nftables.at_least(&Version::new(1, 0, 1))
                        && linux.at_least(&Version::new(5, 16, 0)),
                    _ => false,
                },
                _ => false,
            },
        }
    }
}

/// An inet filter chain may attach at ingress exactly when the tool is at least 0.9.7
/// and the kernel at least 5.10.0, both bounds included; egress is never allowed there.
pub proof fn lemma_inet_ingress_threshold(sys: NullnetSystem)
    ensures
        hook_allowed(sys, Hook::Ingress, ChainType::Filter, Family::Inet) <==> (
            !version_lt(sys.nftables(), Version { major: 0, minor: 9, patch: 7 })
            && !version_lt(sys.linux(), Version { major: 5, minor: 10, patch: 0 })),
        !hook_allowed(sys, Hook::Egress, ChainType::Filter, Family::Inet),
{
}

/// Netdev egress is gated on its own bounds: whatever the ingress gate says, egress
/// needs a tool of at least 1.0.1 and a kernel of at least 5.16.0.
pub proof fn lemma_netdev_egress_gate(sys: NullnetSystem)
    ensures
        hook_allowed(sys, Hook::Egress, ChainType::Filter, Family::Netdev) <==> (
            !version_lt(sys.nftables(), Version { major: 1, minor: 0, patch: 1 })
            && !version_lt(sys.linux(), Version { major: 5, minor: 16, patch: 0 })),
        version_lt(sys.linux(), Version { major: 5, minor: 16, patch: 0 })
            ==> !hook_allowed(sys, Hook::Egress, ChainType::Filter, Family::Netdev),
{
}

/// Chain types outside their families are refused: the netdev family hosts no chain
/// through the chain-type check, NAT and route chains live only in ip and ip6; and
/// a NAT or route chain in the arp, bridge or netdev family is refused at every hook,
/// whatever the detected versions.
pub proof fn lemma_exclusions(sys: NullnetSystem, chain_type: ChainType, family: Family, hook: Hook)
    ensures
        family == Family::Netdev ==> !chain_type_allowed(chain_type, family),
        chain_type != ChainType::Filter && family != Family::Ip && family != Family::Ip6
            ==> !chain_type_allowed(chain_type, family),
        chain_type != ChainType::Filter && (family == Family::Arp || family == Family::Bridge
            || family == Family::Netdev) ==> !hook_allowed(sys, hook, chain_type, family),
{
}

} // verus!

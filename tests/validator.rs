use nullnet::chain::{ChainType, Hook};
use nullnet::system::NullnetSystem;
use nullnet::table::Family;
use nullnet::validator::Validator;
use nullnet::version::Version;

fn create_validator(linux: (u32, u32, u32), nftables: (u32, u32, u32)) -> Validator {
    let system = NullnetSystem::new(
        Version::new(linux.0, linux.1, linux.2),
        Version::new(nftables.0, nftables.1, nftables.2),
    );
    Validator::new(system)
}

#[test]
fn test_chain_type_allowed() {
    let validator = create_validator((0, 0, 0), (0, 0, 0));

    assert!(validator.is_chain_type_allowed(ChainType::Filter, Family::Ip));
    assert!(validator.is_chain_type_allowed(ChainType::Filter, Family::Ip6));
    assert!(validator.is_chain_type_allowed(ChainType::Filter, Family::Inet));
    assert!(validator.is_chain_type_allowed(ChainType::Filter, Family::Arp));
    assert!(validator.is_chain_type_allowed(ChainType::Filter, Family::Bridge));
    assert!(!validator.is_chain_type_allowed(ChainType::Filter, Family::Netdev));

    assert!(validator.is_chain_type_allowed(ChainType::Nat, Family::Ip));
    assert!(validator.is_chain_type_allowed(ChainType::Nat, Family::Ip6));
    assert!(!validator.is_chain_type_allowed(ChainType::Nat, Family::Inet));
    assert!(!validator.is_chain_type_allowed(ChainType::Nat, Family::Arp));
    assert!(!validator.is_chain_type_allowed(ChainType::Nat, Family::Bridge));
    assert!(!validator.is_chain_type_allowed(ChainType::Nat, Family::Netdev));

    assert!(validator.is_chain_type_allowed(ChainType::Route, Family::Ip));
    assert!(validator.is_chain_type_allowed(ChainType::Route, Family::Ip6));
    assert!(!validator.is_chain_type_allowed(ChainType::Route, Family::Inet));
    assert!(!validator.is_chain_type_allowed(ChainType::Route, Family::Arp));
    assert!(!validator.is_chain_type_allowed(ChainType::Route, Family::Bridge));
    assert!(!validator.is_chain_type_allowed(ChainType::Route, Family::Netdev));
}

#[test]
fn test_ip_hooks() {
    let validator = create_validator((0, 0, 0), (0, 0, 0));

    assert!(validator.is_hook_allowed(Hook::Prerouting, ChainType::Filter, Family::Ip));
    assert!(validator.is_hook_allowed(Hook::Input, ChainType::Filter, Family::Ip));
    assert!(validator.is_hook_allowed(Hook::Forward, ChainType::Filter, Family::Ip));
    assert!(validator.is_hook_allowed(Hook::Output, ChainType::Filter, Family::Ip));
    assert!(validator.is_hook_allowed(Hook::Postrouting, ChainType::Filter, Family::Ip));
    assert!(!validator.is_hook_allowed(Hook::Ingress, ChainType::Filter, Family::Ip));
    assert!(!validator.is_hook_allowed(Hook::Egress, ChainType::Filter, Family::Ip));

    assert!(validator.is_hook_allowed(Hook::Prerouting, ChainType::Filter, Family::Ip6));

    assert!(validator.is_hook_allowed(Hook::Prerouting, ChainType::Nat, Family::Ip));
    assert!(validator.is_hook_allowed(Hook::Input, ChainType::Nat, Family::Ip));
    assert!(!validator.is_hook_allowed(Hook::Forward, ChainType::Nat, Family::Ip));
    assert!(validator.is_hook_allowed(Hook::Output, ChainType::Nat, Family::Ip));
    assert!(validator.is_hook_allowed(Hook::Postrouting, ChainType::Nat, Family::Ip));

    assert!(!validator.is_hook_allowed(Hook::Prerouting, ChainType::Route, Family::Ip));
    assert!(!validator.is_hook_allowed(Hook::Input, ChainType::Route, Family::Ip));
    assert!(!validator.is_hook_allowed(Hook::Forward, ChainType::Route, Family::Ip));
    assert!(validator.is_hook_allowed(Hook::Output, ChainType::Route, Family::Ip));
    assert!(!validator.is_hook_allowed(Hook::Postrouting, ChainType::Route, Family::Ip));
}

#[test]
fn test_inet_hooks() {
    let validator_old = create_validator((1, 9, 99), (0, 1, 6));
    assert!(!validator_old.is_hook_allowed(Hook::Ingress, ChainType::Filter, Family::Inet));

    let validator_min = create_validator((5, 10, 0), (0, 9, 7));
    assert!(validator_min.is_hook_allowed(Hook::Ingress, ChainType::Filter, Family::Inet));

    let validator_new = create_validator((6, 0, 0), (1, 0, 0));
    assert!(validator_new.is_hook_allowed(Hook::Ingress, ChainType::Filter, Family::Inet));

    assert!(!validator_new.is_hook_allowed(Hook::Egress, ChainType::Filter, Family::Inet));

    assert!(validator_old.is_hook_allowed(Hook::Prerouting, ChainType::Filter, Family::Inet));
    assert!(validator_old.is_hook_allowed(Hook::Input, ChainType::Filter, Family::Inet));

    assert!(validator_old.is_hook_allowed(Hook::Prerouting, ChainType::Nat, Family::Inet));
    assert!(!validator_old.is_hook_allowed(Hook::Forward, ChainType::Nat, Family::Inet));
}

#[test]
fn test_arp_hooks() {
    let validator = create_validator((0, 0, 0), (0, 0, 0));

    assert!(validator.is_hook_allowed(Hook::Input, ChainType::Filter, Family::Arp));
    assert!(validator.is_hook_allowed(Hook::Output, ChainType::Filter, Family::Arp));

    assert!(!validator.is_hook_allowed(Hook::Prerouting, ChainType::Filter, Family::Arp));
    assert!(!validator.is_hook_allowed(Hook::Input, ChainType::Nat, Family::Arp));
    assert!(!validator.is_hook_allowed(Hook::Output, ChainType::Route, Family::Arp));
}

#[test]
fn test_bridge_hooks() {
    let validator = create_validator((0, 0, 0), (0, 0, 0));

    assert!(validator.is_hook_allowed(Hook::Prerouting, ChainType::Filter, Family::Bridge));
    assert!(validator.is_hook_allowed(Hook::Input, ChainType::Filter, Family::Bridge));
    assert!(validator.is_hook_allowed(Hook::Forward, ChainType::Filter, Family::Bridge));
    assert!(validator.is_hook_allowed(Hook::Output, ChainType::Filter, Family::Bridge));
    assert!(validator.is_hook_allowed(Hook::Postrouting, ChainType::Filter, Family::Bridge));

    assert!(!validator.is_hook_allowed(Hook::Prerouting, ChainType::Nat, Family::Bridge));
    assert!(!validator.is_hook_allowed(Hook::Input, ChainType::Route, Family::Bridge));
}

#[test]
fn test_netdev_hooks() {
    let validator_old = create_validator((4, 1, 0), (0, 5, 0));
    assert!(!validator_old.is_hook_allowed(Hook::Ingress, ChainType::Filter, Family::Netdev));
    assert!(!validator_old.is_hook_allowed(Hook::Egress, ChainType::Filter, Family::Netdev));

    let validator_ingress = create_validator((4, 2, 0), (0, 6, 0));
    assert!(validator_ingress.is_hook_allowed(
        Hook::Ingress,
        ChainType::Filter,
        Family::Netdev
    ));
    assert!(!validator_ingress.is_hook_allowed(
        Hook::Egress,
        ChainType::Filter,
        Family::Netdev
    ));

    let validator_full = create_validator((5, 16, 0), (1, 0, 1));
    assert!(validator_full.is_hook_allowed(Hook::Ingress, ChainType::Filter, Family::Netdev));
    assert!(validator_full.is_hook_allowed(Hook::Egress, ChainType::Filter, Family::Netdev));

    assert!(!validator_full.is_hook_allowed(Hook::Ingress, ChainType::Nat, Family::Netdev));
    assert!(!validator_full.is_hook_allowed(Hook::Egress, ChainType::Route, Family::Netdev));
}

#[test]
fn test_edge_cases() {
    let validator = create_validator((0, 0, 0), (0, 0, 0));

    assert!(!validator.is_hook_allowed(Hook::Input, ChainType::Route, Family::Bridge));
    assert!(!validator.is_hook_allowed(Hook::Forward, ChainType::Nat, Family::Ip));

    let validator_exact = create_validator((5, 10, 0), (0, 9, 7));
    assert!(validator_exact.is_hook_allowed(Hook::Ingress, ChainType::Filter, Family::Inet));
}

#[test]
fn inet_ingress_boundaries() {
    let below_engine = create_validator((5, 10, 0), (0, 9, 6));
    assert!(!below_engine.is_hook_allowed(Hook::Ingress, ChainType::Filter, Family::Inet));
    let below_kernel = create_validator((5, 9, 9), (0, 9, 7));
    assert!(!below_kernel.is_hook_allowed(Hook::Ingress, ChainType::Filter, Family::Inet));
    let exact = create_validator((5, 10, 0), (0, 9, 7));
    assert!(exact.is_hook_allowed(Hook::Ingress, ChainType::Filter, Family::Inet));
    let above = create_validator((6, 1, 0), (1, 1, 0));
    assert!(above.is_hook_allowed(Hook::Ingress, ChainType::Filter, Family::Inet));
    assert!(!above.is_hook_allowed(Hook::Egress, ChainType::Filter, Family::Inet));
}

#[test]
fn netdev_egress_needs_its_own_kernel() {
    let validator = create_validator((4, 2, 0), (1, 0, 1));
    assert!(validator.is_hook_allowed(Hook::Ingress, ChainType::Filter, Family::Netdev));
    assert!(!validator.is_hook_allowed(Hook::Egress, ChainType::Filter, Family::Netdev));
    let old_engine = create_validator((5, 16, 0), (1, 0, 0));
    assert!(!old_engine.is_hook_allowed(Hook::Egress, ChainType::Filter, Family::Netdev));
}

#[test]
fn old_snapshot_scenario() {
    let validator = create_validator((1, 9, 99), (0, 1, 6));
    assert!(!validator.is_hook_allowed(Hook::Ingress, ChainType::Filter, Family::Inet));
    assert!(validator.is_hook_allowed(Hook::Prerouting, ChainType::Nat, Family::Inet));
    assert!(!validator.is_hook_allowed(Hook::Forward, ChainType::Nat, Family::Inet));
}

#[test]
fn excluded_pairs_refuse_every_hook() {
    let validator = create_validator((9, 0, 0), (9, 0, 0));
    let hooks = [
        Hook::Prerouting,
        Hook::Input,
        Hook::Forward,
        Hook::Output,
        Hook::Postrouting,
        Hook::Ingress,
        Hook::Egress,
    ];
    for family in [Family::Arp, Family::Bridge, Family::Netdev] {
        for chain_type in [ChainType::Nat, ChainType::Route] {
            assert!(!validator.is_chain_type_allowed(chain_type, family));
            for hook in hooks {
                assert!(!validator.is_hook_allowed(hook, chain_type, family));
            }
        }
    }
}

#[test]
fn snapshot_keeps_versions() {
    let system = NullnetSystem::new(Version::new(6, 1, 0), Version::new(1, 0, 6));
    assert_eq!(system.get_linux_version(), Version::new(6, 1, 0));
    assert_eq!(system.get_nftables_version(), Version::new(1, 0, 6));
}

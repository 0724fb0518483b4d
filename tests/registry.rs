use vpn_registry::{
    reward_for, DecentralizedVPNContract, NetworkStats, NodeBook, Operator, RegistryError, VPNNode, ZERO_ACCOUNT,
};

const ALICE: &str = "GBZXN7PIRZGNMHGA7MUUUF4GWPY5AYPV6LY4UV2GL6VJGIQRXFDNMADI";
const BOB: &str = "GCEZWKCA5VLDNRLN3RPRJMRZOX3Z6G5CHCGSNFHEYVXM3XOJMDS674JZ";

fn op(s: &str) -> Operator {
    Operator::new(s.to_string())
}

fn stats(total: u64, active: u64, bw: u64, tokens: u64) -> NetworkStats {
    NetworkStats {
        total_nodes: total,
        active_nodes: active,
        total_bandwidth: bw,
        total_tokens_distributed: tokens,
    }
}

#[test]
fn end_to_end_scenario() {
    let mut r = DecentralizedVPNContract::new();
    assert_eq!(r.register_node(op(ALICE), 1000), Ok(1));
    assert_eq!(r.get_network_stats(), stats(1, 1, 0, 0));

    assert_eq!(r.report_bandwidth(1, 5), Ok(()));
    let n = r.get_node_info(1);
    assert_eq!(n.bandwidth_provided, 5);
    assert_eq!(n.tokens_earned, 50);
    assert_eq!(r.get_network_stats(), stats(1, 1, 5, 50));

    assert_eq!(r.report_bandwidth(1, 3), Ok(()));
    let n = r.get_node_info(1);
    assert_eq!(n.bandwidth_provided, 8);
    assert_eq!(n.tokens_earned, 80);
    assert_eq!(r.get_network_stats(), stats(1, 1, 8, 80));

    assert_eq!(r.deactivate_node(1, &op(ALICE)), Ok(()));
    assert!(!r.get_node_info(1).is_active);
    assert_eq!(r.get_network_stats(), stats(1, 0, 8, 80));

    assert_eq!(r.report_bandwidth(1, 1), Err(RegistryError::NodeUnavailable));
    assert_eq!(r.get_network_stats(), stats(1, 0, 8, 80));
    assert_eq!(r.get_node_info(1).bandwidth_provided, 8);
}

#[test]
fn registration_ids_are_sequential() {
    let mut r = DecentralizedVPNContract::new();
    assert_eq!(r.register_node(op(ALICE), 1), Ok(1));
    assert_eq!(r.register_node(op(BOB), 2), Ok(2));
    assert_eq!(r.deactivate_node(1, &op(ALICE)), Ok(()));
    assert_eq!(r.deactivate_node(2, &op(BOB)), Ok(()));
    assert_eq!(r.register_node(op(ALICE), 3), Ok(3));
    assert_eq!(r.get_network_stats(), stats(3, 1, 0, 0));
    let n = r.get_node_info(3);
    assert_eq!(n.node_id, 3);
    assert_eq!(n.operator, op(ALICE));
    assert_eq!(n.registration_time, 3);
    assert!(n.is_active);
}

#[test]
fn tokens_stay_ten_times_bandwidth() {
    let mut r = DecentralizedVPNContract::new();
    r.register_node(op(ALICE), 7).unwrap();
    r.register_node(op(BOB), 8).unwrap();
    r.report_bandwidth(1, 12).unwrap();
    r.report_bandwidth(2, 30).unwrap();
    r.report_bandwidth(1, 0).unwrap();
    let s = r.get_network_stats();
    assert_eq!(s.total_bandwidth, 42);
    assert_eq!(s.total_tokens_distributed, 420);
    assert!(s.active_nodes <= s.total_nodes);
}

#[test]
fn deactivating_twice_is_refused() {
    let mut r = DecentralizedVPNContract::new();
    r.register_node(op(ALICE), 1).unwrap();
    r.register_node(op(BOB), 1).unwrap();
    assert_eq!(r.deactivate_node(1, &op(ALICE)), Ok(()));
    assert_eq!(r.get_network_stats().active_nodes, 1);
    assert_eq!(r.deactivate_node(1, &op(ALICE)), Err(RegistryError::AlreadyInactive));
    assert_eq!(r.get_network_stats(), stats(2, 1, 0, 0));
}

#[test]
fn report_for_unregistered_id_is_refused() {
    let mut r = DecentralizedVPNContract::new();
    for t in 0..3u64 {
        r.register_node(op(ALICE), t).unwrap();
    }
    let before = r.get_network_stats();
    assert_eq!(r.report_bandwidth(999, 5), Err(RegistryError::NodeUnavailable));
    assert_eq!(r.report_bandwidth(0, 5), Err(RegistryError::NodeUnavailable));
    assert_eq!(r.get_network_stats(), before);
}

#[test]
fn unknown_node_gives_not_found_record() {
    let mut r = DecentralizedVPNContract::new();
    let n = r.get_node_info(5);
    assert_eq!(n.node_id, 0);
    assert!(!n.is_active);
    assert_eq!(n.operator.strkey, ZERO_ACCOUNT);
    assert_eq!(n.bandwidth_provided, 0);
    assert_eq!(n.tokens_earned, 0);
    assert_eq!(n.registration_time, 0);
    assert_eq!(r.find_node(5), None);
    r.register_node(op(BOB), 4).unwrap();
    assert_eq!(r.get_node_info(1).node_id, 1);
    assert_eq!(r.get_node_info(2).node_id, 0);
}

#[test]
fn stats_start_at_zero() {
    let r = DecentralizedVPNContract::new();
    assert_eq!(r.get_network_stats(), stats(0, 0, 0, 0));
    assert_eq!(NetworkStats::zero(), stats(0, 0, 0, 0));
}

#[test]
fn deactivate_errors_in_order() {
    let mut r = DecentralizedVPNContract::new();
    assert_eq!(r.deactivate_node(1, &op(ALICE)), Err(RegistryError::NotFound));
    r.register_node(op(ALICE), 1).unwrap();
    assert_eq!(r.deactivate_node(1, &op(BOB)), Err(RegistryError::Unauthorized));
    assert_eq!(r.deactivate_node(1, &op(ALICE)), Ok(()));
    assert_eq!(r.deactivate_node(1, &op(BOB)), Err(RegistryError::Unauthorized));
    assert_eq!(r.deactivate_node(1, &op(ALICE)), Err(RegistryError::AlreadyInactive));
}

#[test]
fn report_overflow_is_refused() {
    let mut r = DecentralizedVPNContract::new();
    r.register_node(op(ALICE), 1).unwrap();
    let big = u64::MAX / 10 + 1;
    assert_eq!(r.report_bandwidth(1, big), Err(RegistryError::Overflow));
    assert_eq!(r.report_bandwidth(1, u64::MAX / 10), Ok(()));
    assert_eq!(r.report_bandwidth(1, 1), Err(RegistryError::Overflow));
    let s = r.get_network_stats();
    assert_eq!(s.total_bandwidth, u64::MAX / 10);
    assert_eq!(s.total_tokens_distributed, (u64::MAX / 10) * 10);
}

#[test]
fn record_level_transitions() {
    let mut s = NetworkStats::zero();
    assert_eq!(s.record_registration(), Ok(()));
    assert_eq!(s.record_bandwidth(4), Ok(()));
    assert_eq!(s, stats(1, 1, 4, 40));
    assert_eq!(s.record_deactivation(), Ok(()));
    assert_eq!(s.record_deactivation(), Err(RegistryError::Overflow));
    assert_eq!(s, stats(1, 0, 4, 40));

    let mut full = stats(u64::MAX, 0, 0, 0);
    assert_eq!(full.record_registration(), Err(RegistryError::Overflow));

    let mut n = VPNNode::registered(6, op(BOB), 99).unwrap();
    assert_eq!(n.node_id, 7);
    assert_eq!(n.credit(2), Ok(()));
    assert_eq!((n.bandwidth_provided, n.tokens_earned), (2, 20));
    assert_eq!(n.deactivate_by(&op(ALICE)), Err(RegistryError::Unauthorized));
    assert_eq!(n.deactivate_by(&op(BOB)), Ok(()));
    assert_eq!(n.credit(2), Err(RegistryError::NodeUnavailable));
    assert_eq!(VPNNode::registered(u64::MAX, op(BOB), 0), Err(RegistryError::Overflow));

    let mut missing = VPNNode::not_found();
    assert_eq!(missing.credit(1), Err(RegistryError::NodeUnavailable));
    assert_eq!(missing.deactivate_by(&Operator::zero_account()), Err(RegistryError::NotFound));
    assert_eq!(NodeBook::for_node(3), NodeBook::Node(3));
}

#[test]
fn reward_is_ten_tokens_per_gb() {
    assert_eq!(reward_for(0), Some(0));
    assert_eq!(reward_for(7), Some(70));
    assert_eq!(reward_for(u64::MAX / 10), Some(u64::MAX / 10 * 10));
    assert_eq!(reward_for(u64::MAX / 10 + 1), None);
}

#[test]
fn operators_compare_by_strkey() {
    assert!(op(ALICE).same_as(&op(ALICE)));
    assert!(!op(ALICE).same_as(&op(BOB)));
    assert!(Operator::zero_account().same_as(&op(ZERO_ACCOUNT)));
    assert_eq!(op(BOB).copy(), op(BOB));
}

use chain_forks::scenarios::ChainFork1;
use chain_forks::scenarios::ChainFork2;
use chain_forks::scenarios::ChainFork3;
use chain_forks::scenarios::ChainFork4;
use chain_forks::scenarios::ChainFork5;
use chain_forks::scenarios::ChainFork6;
use chain_forks::scenarios::ChainFork7;
use chain_forks::scenarios::ForkedTransaction;
use chain_forks::scenarios::ForksContainSameTransactions;
use chain_forks::scenarios::ForksContainSameUncle;
use chain_forks::scenarios::LongForks;
use chain_forks::scenarios::NetworkConfig;
use chain_forks::scenarios::Protocols;
use chain_forks::scenarios::Spec;
use chain_forks::scenarios::PER_FETCH_BLOCK_LIMIT;
use chain_forks::scenarios::PROPOSAL_WINDOW_FARTHEST;
use chain_forks::block::Tamper;
use chain_forks::script::Action;
use chain_forks::script::Step;

#[test]
fn names() {
    assert_eq!(ChainFork1.name(), "chain_fork1");
    assert_eq!(ChainFork2.name(), "chain_fork2");
    assert_eq!(ChainFork3.name(), "chain_fork3");
    assert_eq!(ChainFork4.name(), "chain_fork4");
    assert_eq!(ChainFork5.name(), "chain_fork5");
    assert_eq!(ChainFork6.name(), "chain_fork6");
    assert_eq!(ChainFork7.name(), "chain_fork7");
    assert_eq!(LongForks.name(), "long_forks");
    assert_eq!(ForksContainSameTransactions.name(), "forks_contain_same_transactions");
    assert_eq!(ForksContainSameUncle.name(), "forks_contain_same_uncle");
    assert_eq!(ForkedTransaction.name(), "forked_transaction");
}

#[test]
fn setups() {
    assert_eq!(ChainFork1.setup().num_nodes, 2);
    assert_eq!(ChainFork2.setup().num_nodes, 3);
    assert_eq!(ChainFork7.setup().num_nodes, 3);
    assert_eq!(LongForks.setup().num_nodes, 3);
    assert_eq!(ForksContainSameTransactions.setup().num_nodes, 4);
    assert_eq!(ForksContainSameUncle.setup().num_nodes, 2);
    assert_eq!(ForksContainSameUncle.setup().protocols, Protocols::SyncOnly);
    assert_eq!(ForkedTransaction.setup().protocols, Protocols::Default);
    assert!(!ChainFork3.setup().connect_all);
}

#[test]
fn only_chain_fork1_changes_the_outbound_interval() {
    let mut config = NetworkConfig { connect_outbound_interval_secs: 15 };
    ChainFork1.modify_ckb_config(&mut config);
    assert_eq!(config.connect_outbound_interval_secs, 100_000);
    let mut config = NetworkConfig { connect_outbound_interval_secs: 15 };
    ChainFork2.modify_ckb_config(&mut config);
    assert_eq!(config.connect_outbound_interval_secs, 15);
}

#[test]
fn chain_fork1_script() {
    assert_eq!(
        ChainFork1.script(),
        vec![
            Step::Do(Action::GenerateBlocks { node: 0, count: 2 }),
            Step::Do(Action::Connect { node: 1, peer: 0 }),
            Step::Do(Action::WaitForSync { node: 0, peer: 1, number: 2 }),
            Step::Do(Action::Disconnect { node: 0, peer: 1 }),
            Step::Do(Action::GenerateBlocks { node: 0, count: 1 }),
            Step::Do(Action::GenerateBlocks { node: 1, count: 2 }),
            Step::Do(Action::Connect { node: 0, peer: 1 }),
            Step::Do(Action::WaitForSyncAll { number: 4 }),
        ]
    );
}

#[test]
fn invalid_fork_scenarios_expect_the_tampered_tip() {
    let s3 = ChainFork3.script();
    assert!(s3.contains(&Step::Do(Action::SubmitBlock { node: 1, tamper: Tamper::InflateCellbaseReward, verify: false })));
    assert!(s3.contains(&Step::ExpectTipNumber { node: 1, number: 15 }));
    assert_eq!(*s3.last().unwrap(), Step::Do(Action::WaitForSync { node: 0, peer: 2, number: 14 }));
    let s5 = ChainFork5.script();
    assert!(s5.contains(&Step::ExpectTipNumber { node: 1, number: 16 }));
    let s6 = ChainFork6.script();
    assert!(s6.contains(&Step::Do(Action::NewTransactionSpending { node: 1, tx_hash: chain_forks::block::Digest(0, 0, 0, 1) })));
    let s7 = ChainFork7.script();
    assert!(s7.contains(&Step::Do(Action::SubmitBlock {
        node: 1,
        tamper: Tamper::AppendTransactionWithInputIndex { index: 999 },
        verify: false
    })));
    assert!(ChainFork4.script().contains(&Step::Do(Action::SubmitBlock { node: 1, tamper: Tamper::CellbaseOfOneCkbyte, verify: false })));
}

#[test]
fn long_forks_heights() {
    assert_eq!(PER_FETCH_BLOCK_LIMIT, 128);
    let s = LongForks.script();
    assert_eq!(s[3], Step::Do(Action::WaitForSync { node: 0, peer: 1, number: 139 }));
    assert_eq!(s[7], Step::Do(Action::WaitForSync { node: 0, peer: 2, number: 149 }));
    assert_eq!(s[11], Step::Do(Action::WaitForSync { node: 0, peer: 1, number: 169 }));
}

#[test]
fn forks_contain_same_transactions_heights() {
    assert_eq!(PROPOSAL_WINDOW_FARTHEST, 10);
    let s = ForksContainSameTransactions.script();
    assert!(s.contains(&Step::Do(Action::WaitForSync { node: 3, peer: 0, number: 53 })));
    assert!(s.contains(&Step::Do(Action::WaitForSync { node: 3, peer: 2, number: 61 })));
    assert!(s.contains(&Step::Do(Action::WaitForSync { node: 3, peer: 1, number: 71 })));
    assert!(s.contains(&Step::ExpectDistinctHeaders { number: 2 }));
    let checks: Vec<&Step> = s.iter().filter(|step| matches!(step, Step::ExpectTransaction { .. })).collect();
    assert_eq!(checks.len(), 3);
    for check in checks {
        assert_eq!(*check, Step::ExpectTransaction { node: 3, expected: chain_forks::script::Expectation::Present });
    }
}

#[test]
fn uncle_and_forked_transaction_scripts() {
    let u = ForksContainSameUncle.script();
    assert_eq!(*u.last().unwrap(), Step::WaitForSyncAllAtTipOf { node: 1 });
    assert!(u.contains(&Step::Do(Action::NewBlockWithUncle { node: 1, after: Some(0) })));
    let f = ForkedTransaction.script();
    assert_eq!(f.len(), 13);
    assert_eq!(f[4], Step::GenerateFinalizationBlocks { node: 0, times: 2, extra: 1 });
}

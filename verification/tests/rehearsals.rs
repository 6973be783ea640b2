//! Each scenario, run against the network model: the heights it waits for and the tips it
//! expects are those the model reaches.
use std::collections::HashSet;

use chain_forks::block::Digest;
use chain_forks::fork::Network;
use chain_forks::scenarios::ChainFork1;
use chain_forks::scenarios::ChainFork2;
use chain_forks::scenarios::ChainFork3;
use chain_forks::scenarios::ChainFork4;
use chain_forks::scenarios::ChainFork5;
use chain_forks::scenarios::ChainFork6;
use chain_forks::scenarios::ChainFork7;
use chain_forks::scenarios::ForkedTransaction;
use chain_forks::scenarios::ForksContainSameTransactions;
use chain_forks::scenarios::ForksContainSameUncle;
use chain_forks::scenarios::LongForks;
use chain_forks::scenarios::Spec;
use chain_forks::script::Action;
use chain_forks::script::Answer;
use chain_forks::script::Run;
use chain_forks::status::TxState;

/// Whether the nodes that `links` connects form one network.
fn connected(links: &HashSet<(usize, usize)>, nodes: usize) -> bool {
    let mut reached = vec![false; nodes];
    reached[0] = true;
    let mut changed = true;
    while changed {
        changed = false;
        for &(a, b) in links {
            if reached[a] != reached[b] {
                reached[a] = true;
                reached[b] = true;
                changed = true;
            }
        }
    }
    reached.iter().all(|r| *r)
}

fn link(a: usize, b: usize) -> (usize, usize) {
    (a.min(b), a.max(b))
}

/// Runs `spec` against the model; transaction statuses, which the model does not track,
/// come from `statuses` in order. Waiting for nodes to sync is only allowed between
/// connected nodes. Returns the last action and the network.
fn rehearse<S: Spec>(spec: &S, finalization: u64, statuses: &[Option<TxState>]) -> (Action, Network) {
    let script = spec.script();
    let mut net = Network::new(spec.setup().num_nodes);
    let mut run = Run::new();
    let mut answer = Answer::Ack;
    let mut statuses = statuses.iter();
    let mut links: HashSet<(usize, usize)> = HashSet::new();
    for _ in 0..10_000 {
        let action = run.step(&script, answer);
        answer = Answer::Ack;
        match action {
            Action::Finish | Action::Fail(_) => return (action, net),
            Action::GenerateBlocks { node, count } => net.generate_blocks(node, count),
            Action::Connect { node, peer } => {
                links.insert(link(node, peer));
            }
            Action::Disconnect { node, peer } => {
                links.remove(&link(node, peer));
            }
            Action::DisconnectAll => links.clear(),
            Action::WaitForSync { node, peer, number } => {
                assert!(links.contains(&link(node, peer)), "{:?} between unconnected nodes", action);
                net.sync_pair(node, peer);
                assert_eq!((net.tip_number(node), net.tip_number(peer)), (number, number), "{:?}", action);
            }
            Action::WaitForSyncAll { number } => {
                assert!(connected(&links, net.chains.len()), "{:?} on a split network", action);
                net.sync_all();
                for node in 0..net.chains.len() {
                    assert_eq!(net.tip_number(node), number, "{:?}", action);
                }
            }
            Action::ConnectAndWaitBan { node, peer } => {
                assert!(net.sync_pair(node, peer), "{:?}", action);
            }
            Action::ExitIbdMode => net.exit_ibd_mode(),
            Action::Sleep { .. }
            | Action::NewSpendingTransaction { .. }
            | Action::NewTransactionSpending { .. }
            | Action::SubmitTransaction { .. }
            | Action::NewBlock { .. }
            | Action::ConstructUncle { .. }
            | Action::SubmitUncle { .. }
            | Action::NewBlockWithUncle { .. } => {}
            Action::SubmitBlock { node, verify, .. } => {
                if verify {
                    net.generate_blocks(node, 1)
                } else {
                    net.process_invalid_block(node)
                }
            }
            Action::QueryTipNumber { node } => answer = Answer::Number(net.tip_number(node)),
            Action::QueryFinalizationDelayLength { .. } => answer = Answer::Number(finalization),
            Action::QueryHeaderHash { node, number } => {
                let chain = &net.chains[node];
                answer = Answer::Header(if number >= 1 && number as usize <= chain.len() {
                    Some(Digest(0, 0, 0, chain[number as usize - 1].id))
                } else {
                    None
                });
            }
            Action::QueryTransactionStatus { .. } => answer = Answer::Status(*statuses.next().unwrap()),
            Action::CopyBlock { from, to, number } => net.receive_blocks(to, from, number),
        }
    }
    panic!("the run did not end");
}

#[test]
fn chain_fork1_rehearsal() {
    let (last, net) = rehearse(&ChainFork1, 0, &[]);
    assert_eq!(last, Action::Finish);
    assert_eq!(net.tip_number(0), 4);
}

#[test]
fn chain_fork2_rehearsal() {
    let (last, net) = rehearse(&ChainFork2, 0, &[]);
    assert_eq!(last, Action::Finish);
    assert_eq!(net.tip_number(1), 5);
}

#[test]
fn invalid_fork_rehearsals() {
    for (last, net) in [
        rehearse(&ChainFork3, 0, &[]),
        rehearse(&ChainFork4, 0, &[]),
        rehearse(&ChainFork6, 0, &[]),
        rehearse(&ChainFork7, 0, &[]),
    ] {
        assert_eq!(last, Action::Finish);
        assert!(net.chains[0].iter().all(|b| b.valid));
        assert!(net.chains[2].iter().all(|b| b.valid));
    }
    let (last, _) = rehearse(&ChainFork5, 0, &[]);
    assert_eq!(last, Action::Finish);
}

#[test]
fn long_forks_rehearsal() {
    let (last, net) = rehearse(&LongForks, 0, &[]);
    assert_eq!(last, Action::Finish);
    assert_eq!(net.tip_number(0), 169);
}

#[test]
fn forks_contain_same_transactions_rehearsal() {
    // After the switch to the fork that lacks it, the node keeps the transaction as pending.
    let statuses = [Some(TxState::Committed), Some(TxState::Pending), Some(TxState::Committed)];
    let (last, net) = rehearse(&ForksContainSameTransactions, 0, &statuses);
    assert_eq!(last, Action::Finish);
    assert_eq!(net.tip_number(3), 71);
    let forgotten = [Some(TxState::Committed), None, Some(TxState::Committed)];
    let (last, _) = rehearse(&ForksContainSameTransactions, 0, &forgotten);
    assert_eq!(last, Action::Fail(chain_forks::failure::Failure::TransactionMissing { node: 3 }));
}

#[test]
fn forks_contain_same_uncle_rehearsal() {
    let (last, net) = rehearse(&ForksContainSameUncle, 0, &[]);
    assert_eq!(last, Action::Finish);
    assert_eq!(net.tip_number(0), 4);
}

#[test]
fn forked_transaction_rehearsal() {
    let statuses = [None, Some(TxState::Committed), None, Some(TxState::Pending)];
    let (last, net) = rehearse(&ForkedTransaction, 5, &statuses);
    assert_eq!(last, Action::Finish);
    assert_eq!(net.tip_number(1), 12);
    let wrong = [None, Some(TxState::Committed), None, Some(TxState::Committed)];
    let (last, _) = rehearse(&ForkedTransaction, 5, &wrong);
    assert!(matches!(last, Action::Fail(_)));
}

#[test]
fn a_wrong_tip_fails_the_rehearsal() {
    // ChainFork3 expects node 1 at height 15 after the tampered block; with a longer
    // proposal window the model reaches another height and the run reports it.
    let script = ChainFork3.script();
    let mut run = Run::new();
    let mut answer = Answer::Ack;
    let mut seen = Vec::new();
    loop {
        let action = run.step(&script, answer);
        answer = match action {
            Action::QueryTipNumber { .. } => Answer::Number(16),
            _ => Answer::Ack,
        };
        seen.push(action);
        if matches!(action, Action::Finish | Action::Fail(_)) {
            break;
        }
    }
    assert_eq!(
        *seen.last().unwrap(),
        Action::Fail(chain_forks::failure::Failure::TipNumberMismatch { node: 1, expected: 15, actual: 16 })
    );
}

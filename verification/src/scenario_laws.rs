//! What the scenarios' scripts are built to do: which nodes are cut off from which while
//! forks grow, where the scenario's transaction goes, and which blocks carry it.
use vstd::prelude::*;
use crate::block::Tamper;
use crate::scenarios::chain_fork2_script;
use crate::scenarios::chain_fork5_script;
use crate::scenarios::forked_transaction_script;
use crate::script::Action;
use crate::script::Expectation;
use crate::script::Step;

verus! {

/// How an action changes the link between nodes `a` and `b`: `Some(true)` where it connects
/// them, `Some(false)` where it disconnects them (a ban drops the banned peer), `None` where
/// it leaves the link alone.
pub open spec fn link_change(action: Action, a: usize, b: usize) -> Option<bool> {
    match action {
        Action::Connect { node, peer } => if (node == a && peer == b) || (node == b && peer == a) {
            Some(true)
        } else {
            None
        },
        Action::Disconnect { node, peer } => if (node == a && peer == b) || (node == b && peer
            == a) {
            Some(false)
        } else {
            None
        },
        Action::ConnectAndWaitBan { node, peer } => if (node == a && peer == b) || (node == b
            && peer == a) {
            Some(false)
        } else {
            None
        },
        Action::DisconnectAll => Some(false),
        _ => None,
    }
}

/// Whether nodes `a` and `b` are connected when step `k` of a script begins, by the script's
/// own connects and disconnects; the nodes start unconnected.
pub open spec fn linked_before(script: Seq<Step>, k: int, a: usize, b: usize) -> bool
    decreases k,
{
    if k <= 0 {
        false
    } else {
        match script[k - 1] {
            Step::Do(action) => match link_change(action, a, b) {
                Some(linked) => linked,
                None => linked_before(script, k - 1, a, b),
            },
            _ => linked_before(script, k - 1, a, b),
        }
    }
}

spec fn holds_from(len: int, i: int, p: spec_fn(int) -> bool) -> bool
    decreases len - i,
{
    if i >= len {
        true
    } else {
        p(i) && holds_from(len, i + 1, p)
    }
}

proof fn lemma_holds_from(len: int, i: int, p: spec_fn(int) -> bool)
    requires
        holds_from(len, i, p),
    ensures
        forall|j: int| i <= j < len ==> #[trigger] p(j),
    decreases len - i,
{
    if i < len {
        lemma_holds_from(len, i + 1, p);
    }
}

/// In `ChainFork2`, node 2 keeps the fork it synced with node 0 at height 3 apart: while node
/// 1 mines its fork, while node 0 syncs to it at height 4, and while node 2 mines its own
/// two blocks, node 2 is connected neither to node 0 nor to node 1. Node 2 mines those two
/// blocks, and node 0 syncs with node 1 at height 4, in the script.
pub proof fn chain_fork2_keeps_node2_apart_while_forks_grow()
    ensures
        forall|k: int|
            0 <= k < chain_fork2_script().len() && (chain_fork2_script()[k] == Step::Do(
                Action::GenerateBlocks { node: 1, count: 2 },
            ) || chain_fork2_script()[k] == Step::Do(
                Action::WaitForSync { node: 0, peer: 1, number: 4 },
            ) || chain_fork2_script()[k] == Step::Do(Action::GenerateBlocks { node: 2, count: 2 }))
                ==> !linked_before(chain_fork2_script(), k, 0, 2) && !linked_before(
                chain_fork2_script(),
                k,
                1,
                2,
            ),
        exists|k: int|
            0 <= k < chain_fork2_script().len() && #[trigger] chain_fork2_script()[k] == Step::Do(
                Action::GenerateBlocks { node: 2, count: 2 },
            ),
        exists|k: int|
            0 <= k < chain_fork2_script().len() && #[trigger] chain_fork2_script()[k] == Step::Do(
                Action::WaitForSync { node: 0, peer: 1, number: 4 },
            ),
{
    let s = chain_fork2_script();
    let p = |k: int|
        (s[k] == Step::Do(Action::GenerateBlocks { node: 1, count: 2 }) || s[k] == Step::Do(
            Action::WaitForSync { node: 0, peer: 1, number: 4 },
        ) || s[k] == Step::Do(Action::GenerateBlocks { node: 2, count: 2 })) ==> !linked_before(
            s,
            k,
            0,
            2,
        ) && !linked_before(s, k, 1, 2);
    reveal_with_fuel(holds_from, 20);
    reveal_with_fuel(linked_before, 20);
    assert(holds_from(s.len() as int, 0, p));
    lemma_holds_from(s.len() as int, 0, p);
    assert forall|k: int|
        0 <= k < s.len() && (s[k] == Step::Do(Action::GenerateBlocks { node: 1, count: 2 })
            || s[k] == Step::Do(Action::WaitForSync { node: 0, peer: 1, number: 4 }) || s[k]
            == Step::Do(Action::GenerateBlocks { node: 2, count: 2 })) implies !linked_before(
        s,
        k,
        0,
        2,
    ) && !linked_before(s, k, 1, 2) by {
        assert(p(k));
    }
    assert(s[12] == Step::Do(Action::GenerateBlocks { node: 2, count: 2 }));
    assert(s[11] == Step::Do(Action::WaitForSync { node: 0, peer: 1, number: 4 }));
}

/// In `ForkedTransaction`, the scenario's transaction goes only to node 1, the node that
/// built it: every submission of it names node 1, and one comes before node 1 is expected to
/// report it committed.
pub proof fn forked_transaction_goes_only_to_its_builder()
    ensures
        forall|k: int|
            0 <= k < forked_transaction_script().len() ==> match #[trigger] forked_transaction_script()[k] {
                Step::Do(Action::SubmitTransaction { node }) => node == 1,
                Step::Do(Action::NewSpendingTransaction { node }) => node == 1,
                _ => true,
            },
        forall|j: int|
            0 <= j < forked_transaction_script().len() && #[trigger] forked_transaction_script()[j]
                == (Step::ExpectTransaction { node: 1, expected: Expectation::Committed })
                ==> exists|k: int|
                0 <= k < j && #[trigger] forked_transaction_script()[k] == Step::Do(
                    Action::SubmitTransaction { node: 1 },
                ),
{
    let s = forked_transaction_script();
    let p = |k: int|
        match s[k] {
            Step::Do(Action::SubmitTransaction { node }) => node == 1,
            Step::Do(Action::NewSpendingTransaction { node }) => node == 1,
            _ => true,
        };
    let q = |j: int|
        s[j] == (Step::ExpectTransaction { node: 1, expected: Expectation::Committed }) ==> (6
            < j && s[6] == Step::Do(Action::SubmitTransaction { node: 1 }));
    reveal_with_fuel(holds_from, 20);
    assert(holds_from(s.len() as int, 0, p));
    assert(holds_from(s.len() as int, 0, q));
    lemma_holds_from(s.len() as int, 0, p);
    lemma_holds_from(s.len() as int, 0, q);
    assert forall|k: int| 0 <= k < s.len() implies match #[trigger] s[k] {
        Step::Do(Action::SubmitTransaction { node }) => node == 1,
        Step::Do(Action::NewSpendingTransaction { node }) => node == 1,
        _ => true,
    } by {
        assert(p(k));
    }
    assert forall|j: int|
        0 <= j < s.len() && #[trigger] s[j] == (Step::ExpectTransaction {
            node: 1,
            expected: Expectation::Committed,
        }) implies exists|k: int|
        0 <= k < j && #[trigger] s[k] == Step::Do(Action::SubmitTransaction { node: 1 }) by {
        assert(q(j));
    }
}

/// Whether a tamper puts the scenario's transaction into the block.
pub open spec fn carries_transaction(tamper: Tamper) -> bool {
    tamper == Tamper::IncludeTransaction || tamper == Tamper::AppendTransaction
}

/// In `ChainFork5`, node 1's fork spends the scenario's transaction twice: every verified
/// block handed to node 1 carries the transaction, and after one of them (before node 1's
/// tip is checked at height 15) an unverified block appends the transaction again.
pub proof fn chain_fork5_spends_the_transaction_twice()
    ensures
        forall|k: int|
            0 <= k < chain_fork5_script().len() ==> match #[trigger] chain_fork5_script()[k] {
                Step::Do(Action::SubmitBlock { node, tamper, verify }) => (node == 1 && verify)
                    ==> carries_transaction(tamper),
                _ => true,
            },
        exists|i: int, t: int, j: int|
            0 <= i < t < j < chain_fork5_script().len() && (#[trigger] chain_fork5_script()[i] matches Step::Do(
                Action::SubmitBlock { node: 1, tamper, verify: true },
            ) && carries_transaction(tamper)) && #[trigger] chain_fork5_script()[t]
                == (Step::ExpectTipNumber { node: 1, number: 15 }) && #[trigger] chain_fork5_script()[j]
                == Step::Do(
                Action::SubmitBlock { node: 1, tamper: Tamper::AppendTransaction, verify: false },
            ),
{
    let s = chain_fork5_script();
    let p = |k: int|
        match s[k] {
            Step::Do(Action::SubmitBlock { node, tamper, verify }) => (node == 1 && verify)
                ==> carries_transaction(tamper),
            _ => true,
        };
    reveal_with_fuel(holds_from, 30);
    assert(holds_from(s.len() as int, 0, p));
    lemma_holds_from(s.len() as int, 0, p);
    assert forall|k: int| 0 <= k < s.len() implies match #[trigger] s[k] {
        Step::Do(Action::SubmitBlock { node, tamper, verify }) => (node == 1 && verify)
            ==> carries_transaction(tamper),
        _ => true,
    } by {
        assert(p(k));
    }
    assert(s[14] == Step::Do(
        Action::SubmitBlock { node: 1, tamper: Tamper::IncludeTransaction, verify: true },
    ));
    assert(s[15] == (Step::ExpectTipNumber { node: 1, number: 15 }));
    assert(s[17] == Step::Do(
        Action::SubmitBlock { node: 1, tamper: Tamper::AppendTransaction, verify: false },
    ));
}

} // verus!

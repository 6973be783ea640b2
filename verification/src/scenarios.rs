//! The chain-fork scenarios: how many nodes each sets up and the script it runs.
use vstd::prelude::*;
use crate::block::Digest;
use crate::block::Tamper;
use crate::script::Action;
use crate::script::Expectation;
use crate::script::Step;
use crate::script::script_within;
use crate::script::step_within;

verus! {

/// The farthest distance, in blocks, between a transaction's proposal and its commitment.
pub const PROPOSAL_WINDOW_FARTHEST: u64 = 10;

/// The most blocks a node fetches from a peer at once.
pub const PER_FETCH_BLOCK_LIMIT: u64 = 128;

/// The protocols the nodes of a scenario speak.
#[derive(Clone, Copy, PartialEq, Eq, Structural, Debug)]
pub enum Protocols {
    /// The protocols a node speaks by default.
    Default,
    /// The sync protocol alone.
    SyncOnly,
}

/// The network a scenario starts from: its number of nodes, whether they start connected to
/// each other, and the protocols they speak.
#[derive(Clone, Copy, PartialEq, Eq, Structural, Debug)]
pub struct Setup {
    pub num_nodes: usize,
    pub connect_all: bool,
    pub protocols: Protocols,
}

/// The part of a node's configuration that a scenario may change: the interval, in seconds,
/// at which the node tries new outbound connections.
#[derive(Clone, Copy, PartialEq, Eq, Structural, Debug)]
pub struct NetworkConfig {
    pub connect_outbound_interval_secs: u64,
}

/// A scenario: its name, the network it starts from, how it changes the nodes'
/// configuration, and the script it runs.
pub trait Spec {
    /// The number of nodes the scenario sets up.
    spec fn node_count(&self) -> nat;

    /// The scenario's name.
    fn name(&self) -> &'static str;

    /// The network the scenario starts from.
    fn setup(&self) -> (r: Setup)
        ensures
            r.num_nodes == self.node_count(),
    ;

    /// Changes the nodes' configuration before they start; by default, none.
    fn modify_ckb_config(&self, config: &mut NetworkConfig)
        default_ensures
            *final(config) == *old(config),
    {
    }

    /// The script the scenario runs; it names only the nodes the scenario sets up.
    fn script(&self) -> (r: Vec<Step>)
        ensures
            script_within(r@, self.node_count()),
    ;
}

spec fn within_from(script: Seq<Step>, i: nat, n: nat) -> bool
    decreases script.len() - i,
{
    if i >= script.len() {
        true
    } else {
        step_within(script[i as int], n) && within_from(script, i + 1, n)
    }
}

proof fn lemma_within_from(script: Seq<Step>, i: nat, n: nat)
    requires
        within_from(script, i, n),
    ensures
        forall|j: int| i <= j < script.len() ==> #[trigger] step_within(script[j], n),
    decreases script.len() - i,
{
    if i < script.len() {
        lemma_within_from(script, i + 1, n);
    }
}

/// Two nodes fork after the second block; the longer fork (the second node's, height 4)
/// is where both end.
pub struct ChainFork1;

/// The script of `ChainFork1`.
pub open spec fn chain_fork1_script() -> Seq<Step> {
    seq![
        Step::Do(Action::GenerateBlocks { node: 0, count: 2 }),
        Step::Do(Action::Connect { node: 1, peer: 0 }),
        Step::Do(Action::WaitForSync { node: 0, peer: 1, number: 2 }),
        Step::Do(Action::Disconnect { node: 0, peer: 1 }),
        Step::Do(Action::GenerateBlocks { node: 0, count: 1 }),
        Step::Do(Action::GenerateBlocks { node: 1, count: 2 }),
        Step::Do(Action::Connect { node: 0, peer: 1 }),
        Step::Do(Action::WaitForSyncAll { number: 4 }),
    ]
}

impl Spec for ChainFork1 {
    open spec fn node_count(&self) -> nat {
        2
    }

    fn name(&self) -> (r: &'static str)
        ensures
            r@ == "chain_fork1"@,
    {
        "chain_fork1"
    }

    fn setup(&self) -> (r: Setup)
        ensures
            r == (Setup { num_nodes: 2, connect_all: false, protocols: Protocols::Default }),
    {
        Setup { num_nodes: 2, connect_all: false, protocols: Protocols::Default }
    }

    fn modify_ckb_config(&self, config: &mut NetworkConfig)
        ensures
            final(config).connect_outbound_interval_secs == 100_000,
    {
        config.connect_outbound_interval_secs = 100_000;
    }

    fn script(&self) -> (r: Vec<Step>)
        ensures
            r@ == chain_fork1_script(),
    {
        proof {
            reveal_with_fuel(within_from, 30);
            lemma_within_from(chain_fork1_script(), 0, 2);
        }
        vec![
            Step::Do(Action::GenerateBlocks { node: 0, count: 2 }),
            Step::Do(Action::Connect { node: 1, peer: 0 }),
            Step::Do(Action::WaitForSync { node: 0, peer: 1, number: 2 }),
            Step::Do(Action::Disconnect { node: 0, peer: 1 }),
            Step::Do(Action::GenerateBlocks { node: 0, count: 1 }),
            Step::Do(Action::GenerateBlocks { node: 1, count: 2 }),
            Step::Do(Action::Connect { node: 0, peer: 1 }),
            Step::Do(Action::WaitForSyncAll { number: 4 }),
        ]
    }
}

/// The first node switches to a longer fork and back to the fork it first held, once that
/// fork grows longest.
pub struct ChainFork2;

/// The script of `ChainFork2`.
pub open spec fn chain_fork2_script() -> Seq<Step> {
    seq![
        Step::Do(Action::GenerateBlocks { node: 0, count: 2 }),
        Step::Do(Action::Connect { node: 1, peer: 0 }),
        Step::Do(Action::Connect { node: 2, peer: 0 }),
        Step::Do(Action::WaitForSyncAll { number: 2 }),
        Step::Do(Action::DisconnectAll),
        Step::Do(Action::GenerateBlocks { node: 0, count: 1 }),
        Step::Do(Action::Connect { node: 0, peer: 2 }),
        Step::Do(Action::WaitForSync { node: 0, peer: 2, number: 3 }),
        Step::Do(Action::Disconnect { node: 0, peer: 2 }),
        Step::Do(Action::GenerateBlocks { node: 1, count: 2 }),
        Step::Do(Action::Connect { node: 0, peer: 1 }),
        Step::Do(Action::WaitForSync { node: 0, peer: 1, number: 4 }),
        Step::Do(Action::GenerateBlocks { node: 2, count: 2 }),
        Step::Do(Action::Connect { node: 0, peer: 2 }),
        Step::Do(Action::Connect { node: 1, peer: 2 }),
        Step::Do(Action::WaitForSyncAll { number: 5 }),
    ]
}

impl Spec for ChainFork2 {
    open spec fn node_count(&self) -> nat {
        3
    }

    fn name(&self) -> (r: &'static str)
        ensures
            r@ == "chain_fork2"@,
    {
        "chain_fork2"
    }

    fn setup(&self) -> (r: Setup)
        ensures
            r == (Setup { num_nodes: 3, connect_all: false, protocols: Protocols::Default }),
    {
        Setup { num_nodes: 3, connect_all: false, protocols: Protocols::Default }
    }

    fn script(&self) -> (r: Vec<Step>)
        ensures
            r@ == chain_fork2_script(),
    {
        proof {
            reveal_with_fuel(within_from, 30);
            lemma_within_from(chain_fork2_script(), 0, 3);
        }
        vec![
            Step::Do(Action::GenerateBlocks { node: 0, count: 2 }),
            Step::Do(Action::Connect { node: 1, peer: 0 }),
            Step::Do(Action::Connect { node: 2, peer: 0 }),
            Step::Do(Action::WaitForSyncAll { number: 2 }),
            Step::Do(Action::DisconnectAll),
            Step::Do(Action::GenerateBlocks { node: 0, count: 1 }),
            Step::Do(Action::Connect { node: 0, peer: 2 }),
            Step::Do(Action::WaitForSync { node: 0, peer: 2, number: 3 }),
            Step::Do(Action::Disconnect { node: 0, peer: 2 }),
            Step::Do(Action::GenerateBlocks { node: 1, count: 2 }),
            Step::Do(Action::Connect { node: 0, peer: 1 }),
            Step::Do(Action::WaitForSync { node: 0, peer: 1, number: 4 }),
            Step::Do(Action::GenerateBlocks { node: 2, count: 2 }),
            Step::Do(Action::Connect { node: 0, peer: 2 }),
            Step::Do(Action::Connect { node: 1, peer: 2 }),
            Step::Do(Action::WaitForSyncAll { number: 5 }),
        ]
    }
}

/// A fork whose last block pays its miner one CKByte more than the reward gets its node
/// banned by the others.
pub struct ChainFork3;

/// The script of `ChainFork3`.
pub open spec fn chain_fork3_script() -> Seq<Step> {
    seq![
        Step::Do(Action::GenerateBlocks { node: 0, count: (PROPOSAL_WINDOW_FARTHEST + 2) as u64 }),
        Step::Do(Action::Connect { node: 1, peer: 0 }),
        Step::Do(Action::Connect { node: 2, peer: 0 }),
        Step::Do(Action::WaitForSyncAll { number: (PROPOSAL_WINDOW_FARTHEST + 2) as u64 }),
        Step::Do(Action::DisconnectAll),
        Step::Do(Action::GenerateBlocks { node: 0, count: 1 }),
        Step::Do(Action::Connect { node: 0, peer: 2 }),
        Step::Do(Action::WaitForSync { node: 0, peer: 2, number: (PROPOSAL_WINDOW_FARTHEST + 3) as u64 }),
        Step::Do(Action::Disconnect { node: 0, peer: 2 }),
        Step::Do(Action::GenerateBlocks { node: 1, count: 2 }),
        Step::Do(Action::NewBlock { node: 1 }),
        Step::Do(Action::SubmitBlock { node: 1, tamper: Tamper::InflateCellbaseReward, verify: false }),
        Step::ExpectTipNumber { node: 1, number: 15 },
        Step::Do(Action::ConnectAndWaitBan { node: 0, peer: 1 }),
        Step::Do(Action::GenerateBlocks { node: 2, count: 1 }),
        Step::Do(Action::Connect { node: 2, peer: 0 }),
        Step::Do(Action::ConnectAndWaitBan { node: 2, peer: 1 }),
        Step::Do(Action::WaitForSync { node: 0, peer: 2, number: (PROPOSAL_WINDOW_FARTHEST + 4) as u64 }),
    ]
}

impl Spec for ChainFork3 {
    open spec fn node_count(&self) -> nat {
        3
    }

    fn name(&self) -> (r: &'static str)
        ensures
            r@ == "chain_fork3"@,
    {
        "chain_fork3"
    }

    fn setup(&self) -> (r: Setup)
        ensures
            r == (Setup { num_nodes: 3, connect_all: false, protocols: Protocols::Default }),
    {
        Setup { num_nodes: 3, connect_all: false, protocols: Protocols::Default }
    }

    fn script(&self) -> (r: Vec<Step>)
        ensures
            r@ == chain_fork3_script(),
    {
        proof {
            reveal_with_fuel(within_from, 30);
            lemma_within_from(chain_fork3_script(), 0, 3);
        }
        vec![
            Step::Do(Action::GenerateBlocks { node: 0, count: PROPOSAL_WINDOW_FARTHEST + 2 }),
            Step::Do(Action::Connect { node: 1, peer: 0 }),
            Step::Do(Action::Connect { node: 2, peer: 0 }),
            Step::Do(Action::WaitForSyncAll { number: PROPOSAL_WINDOW_FARTHEST + 2 }),
            Step::Do(Action::DisconnectAll),
            Step::Do(Action::GenerateBlocks { node: 0, count: 1 }),
            Step::Do(Action::Connect { node: 0, peer: 2 }),
            Step::Do(Action::WaitForSync { node: 0, peer: 2, number: PROPOSAL_WINDOW_FARTHEST + 3 }),
            Step::Do(Action::Disconnect { node: 0, peer: 2 }),
            Step::Do(Action::GenerateBlocks { node: 1, count: 2 }),
            Step::Do(Action::NewBlock { node: 1 }),
            Step::Do(Action::SubmitBlock { node: 1, tamper: Tamper::InflateCellbaseReward, verify: false }),
            Step::ExpectTipNumber { node: 1, number: 15 },
            Step::Do(Action::ConnectAndWaitBan { node: 0, peer: 1 }),
            Step::Do(Action::GenerateBlocks { node: 2, count: 1 }),
            Step::Do(Action::Connect { node: 2, peer: 0 }),
            Step::Do(Action::ConnectAndWaitBan { node: 2, peer: 1 }),
            Step::Do(Action::WaitForSync { node: 0, peer: 2, number: PROPOSAL_WINDOW_FARTHEST + 4 }),
        ]
    }
}

/// A fork whose last block's cellbase holds one CKByte gets its node banned by the others.
pub struct ChainFork4;

/// The script of `ChainFork4`.
pub open spec fn chain_fork4_script() -> Seq<Step> {
    seq![
        Step::Do(Action::GenerateBlocks { node: 0, count: (PROPOSAL_WINDOW_FARTHEST + 2) as u64 }),
        Step::Do(Action::Connect { node: 1, peer: 0 }),
        Step::Do(Action::Connect { node: 2, peer: 0 }),
        Step::Do(Action::WaitForSyncAll { number: (PROPOSAL_WINDOW_FARTHEST + 2) as u64 }),
        Step::Do(Action::DisconnectAll),
        Step::Do(Action::GenerateBlocks { node: 0, count: 1 }),
        Step::Do(Action::Connect { node: 0, peer: 2 }),
        Step::Do(Action::WaitForSync { node: 0, peer: 2, number: (PROPOSAL_WINDOW_FARTHEST + 3) as u64 }),
        Step::Do(Action::Disconnect { node: 0, peer: 2 }),
        Step::Do(Action::GenerateBlocks { node: 1, count: 2 }),
        Step::Do(Action::NewBlock { node: 1 }),
        Step::Do(Action::SubmitBlock { node: 1, tamper: Tamper::CellbaseOfOneCkbyte, verify: false }),
        Step::ExpectTipNumber { node: 1, number: 15 },
        Step::Do(Action::ConnectAndWaitBan { node: 0, peer: 1 }),
        Step::Do(Action::GenerateBlocks { node: 2, count: 1 }),
        Step::Do(Action::Connect { node: 2, peer: 0 }),
        Step::Do(Action::ConnectAndWaitBan { node: 2, peer: 1 }),
        Step::Do(Action::WaitForSync { node: 0, peer: 2, number: (PROPOSAL_WINDOW_FARTHEST + 4) as u64 }),
    ]
}

impl Spec for ChainFork4 {
    open spec fn node_count(&self) -> nat {
        3
    }

    fn name(&self) -> (r: &'static str)
        ensures
            r@ == "chain_fork4"@,
    {
        "chain_fork4"
    }

    fn setup(&self) -> (r: Setup)
        ensures
            r == (Setup { num_nodes: 3, connect_all: false, protocols: Protocols::Default }),
    {
        Setup { num_nodes: 3, connect_all: false, protocols: Protocols::Default }
    }

    fn script(&self) -> (r: Vec<Step>)
        ensures
            r@ == chain_fork4_script(),
    {
        proof {
            reveal_with_fuel(within_from, 30);
            lemma_within_from(chain_fork4_script(), 0, 3);
        }
        vec![
            Step::Do(Action::GenerateBlocks { node: 0, count: PROPOSAL_WINDOW_FARTHEST + 2 }),
            Step::Do(Action::Connect { node: 1, peer: 0 }),
            Step::Do(Action::Connect { node: 2, peer: 0 }),
            Step::Do(Action::WaitForSyncAll { number: PROPOSAL_WINDOW_FARTHEST + 2 }),
            Step::Do(Action::DisconnectAll),
            Step::Do(Action::GenerateBlocks { node: 0, count: 1 }),
            Step::Do(Action::Connect { node: 0, peer: 2 }),
            Step::Do(Action::WaitForSync { node: 0, peer: 2, number: PROPOSAL_WINDOW_FARTHEST + 3 }),
            Step::Do(Action::Disconnect { node: 0, peer: 2 }),
            Step::Do(Action::GenerateBlocks { node: 1, count: 2 }),
            Step::Do(Action::NewBlock { node: 1 }),
            Step::Do(Action::SubmitBlock { node: 1, tamper: Tamper::CellbaseOfOneCkbyte, verify: false }),
            Step::ExpectTipNumber { node: 1, number: 15 },
            Step::Do(Action::ConnectAndWaitBan { node: 0, peer: 1 }),
            Step::Do(Action::GenerateBlocks { node: 2, count: 1 }),
            Step::Do(Action::Connect { node: 2, peer: 0 }),
            Step::Do(Action::ConnectAndWaitBan { node: 2, peer: 1 }),
            Step::Do(Action::WaitForSync { node: 0, peer: 2, number: PROPOSAL_WINDOW_FARTHEST + 4 }),
        ]
    }
}

/// A fork that spends the same cell twice gets its node banned by the others.
pub struct ChainFork5;

/// The script of `ChainFork5`.
pub open spec fn chain_fork5_script() -> Seq<Step> {
    seq![
        Step::Do(Action::GenerateBlocks { node: 0, count: (PROPOSAL_WINDOW_FARTHEST + 2) as u64 }),
        Step::Do(Action::NewSpendingTransaction { node: 0 }),
        Step::Do(Action::SubmitTransaction { node: 0 }),
        Step::Do(Action::GenerateBlocks { node: 0, count: 1 }),
        Step::Do(Action::Connect { node: 1, peer: 0 }),
        Step::Do(Action::Connect { node: 2, peer: 0 }),
        Step::Do(Action::WaitForSyncAll { number: (PROPOSAL_WINDOW_FARTHEST + 3) as u64 }),
        Step::Do(Action::DisconnectAll),
        Step::Do(Action::GenerateBlocks { node: 0, count: 1 }),
        Step::Do(Action::Connect { node: 0, peer: 2 }),
        Step::Do(Action::WaitForSync { node: 0, peer: 2, number: (PROPOSAL_WINDOW_FARTHEST + 4) as u64 }),
        Step::Do(Action::Disconnect { node: 0, peer: 2 }),
        Step::Do(Action::GenerateBlocks { node: 1, count: 1 }),
        Step::Do(Action::NewBlock { node: 1 }),
        Step::Do(Action::SubmitBlock { node: 1, tamper: Tamper::IncludeTransaction, verify: true }),
        Step::ExpectTipNumber { node: 1, number: 15 },
        Step::Do(Action::NewBlock { node: 1 }),
        Step::Do(Action::SubmitBlock { node: 1, tamper: Tamper::AppendTransaction, verify: false }),
        Step::ExpectTipNumber { node: 1, number: 16 },
        Step::Do(Action::ConnectAndWaitBan { node: 0, peer: 1 }),
        Step::Do(Action::GenerateBlocks { node: 2, count: 1 }),
        Step::Do(Action::Connect { node: 2, peer: 0 }),
        Step::Do(Action::ConnectAndWaitBan { node: 2, peer: 1 }),
        Step::Do(Action::WaitForSync { node: 0, peer: 2, number: (PROPOSAL_WINDOW_FARTHEST + 5) as u64 }),
    ]
}

impl Spec for ChainFork5 {
    open spec fn node_count(&self) -> nat {
        3
    }

    fn name(&self) -> (r: &'static str)
        ensures
            r@ == "chain_fork5"@,
    {
        "chain_fork5"
    }

    fn setup(&self) -> (r: Setup)
        ensures
            r == (Setup { num_nodes: 3, connect_all: false, protocols: Protocols::Default }),
    {
        Setup { num_nodes: 3, connect_all: false, protocols: Protocols::Default }
    }

    fn script(&self) -> (r: Vec<Step>)
        ensures
            r@ == chain_fork5_script(),
    {
        proof {
            reveal_with_fuel(within_from, 30);
            lemma_within_from(chain_fork5_script(), 0, 3);
        }
        vec![
            Step::Do(Action::GenerateBlocks { node: 0, count: PROPOSAL_WINDOW_FARTHEST + 2 }),
            Step::Do(Action::NewSpendingTransaction { node: 0 }),
            Step::Do(Action::SubmitTransaction { node: 0 }),
            Step::Do(Action::GenerateBlocks { node: 0, count: 1 }),
            Step::Do(Action::Connect { node: 1, peer: 0 }),
            Step::Do(Action::Connect { node: 2, peer: 0 }),
            Step::Do(Action::WaitForSyncAll { number: PROPOSAL_WINDOW_FARTHEST + 3 }),
            Step::Do(Action::DisconnectAll),
            Step::Do(Action::GenerateBlocks { node: 0, count: 1 }),
            Step::Do(Action::Connect { node: 0, peer: 2 }),
            Step::Do(Action::WaitForSync { node: 0, peer: 2, number: PROPOSAL_WINDOW_FARTHEST + 4 }),
            Step::Do(Action::Disconnect { node: 0, peer: 2 }),
            Step::Do(Action::GenerateBlocks { node: 1, count: 1 }),
            Step::Do(Action::NewBlock { node: 1 }),
            Step::Do(Action::SubmitBlock { node: 1, tamper: Tamper::IncludeTransaction, verify: true }),
            Step::ExpectTipNumber { node: 1, number: 15 },
            Step::Do(Action::NewBlock { node: 1 }),
            Step::Do(Action::SubmitBlock { node: 1, tamper: Tamper::AppendTransaction, verify: false }),
            Step::ExpectTipNumber { node: 1, number: 16 },
            Step::Do(Action::ConnectAndWaitBan { node: 0, peer: 1 }),
            Step::Do(Action::GenerateBlocks { node: 2, count: 1 }),
            Step::Do(Action::Connect { node: 2, peer: 0 }),
            Step::Do(Action::ConnectAndWaitBan { node: 2, peer: 1 }),
            Step::Do(Action::WaitForSync { node: 0, peer: 2, number: PROPOSAL_WINDOW_FARTHEST + 5 }),
        ]
    }
}

/// A fork that spends an output of a transaction nobody has gets its node banned by the
/// others.
pub struct ChainFork6;

/// The script of `ChainFork6`.
pub open spec fn chain_fork6_script() -> Seq<Step> {
    seq![
        Step::Do(Action::GenerateBlocks { node: 0, count: 2 }),
        Step::Do(Action::Connect { node: 1, peer: 0 }),
        Step::Do(Action::Connect { node: 2, peer: 0 }),
        Step::Do(Action::WaitForSyncAll { number: 2 }),
        Step::Do(Action::DisconnectAll),
        Step::Do(Action::GenerateBlocks { node: 0, count: 1 }),
        Step::Do(Action::Connect { node: 0, peer: 2 }),
        Step::Do(Action::WaitForSync { node: 0, peer: 2, number: 3 }),
        Step::Do(Action::Disconnect { node: 0, peer: 2 }),
        Step::Do(Action::GenerateBlocks { node: 1, count: 2 }),
        Step::Do(Action::NewBlock { node: 1 }),
        Step::Do(Action::NewTransactionSpending { node: 1, tx_hash: Digest(0, 0, 0, 1) }),
        Step::Do(Action::SubmitBlock { node: 1, tamper: Tamper::AppendTransaction, verify: false }),
        Step::ExpectTipNumber { node: 1, number: 5 },
        Step::Do(Action::ConnectAndWaitBan { node: 0, peer: 1 }),
        Step::Do(Action::GenerateBlocks { node: 2, count: 1 }),
        Step::Do(Action::Connect { node: 2, peer: 0 }),
        Step::Do(Action::ConnectAndWaitBan { node: 2, peer: 1 }),
        Step::Do(Action::WaitForSync { node: 0, peer: 2, number: 4 }),
    ]
}

impl Spec for ChainFork6 {
    open spec fn node_count(&self) -> nat {
        3
    }

    fn name(&self) -> (r: &'static str)
        ensures
            r@ == "chain_fork6"@,
    {
        "chain_fork6"
    }

    fn setup(&self) -> (r: Setup)
        ensures
            r == (Setup { num_nodes: 3, connect_all: false, protocols: Protocols::Default }),
    {
        Setup { num_nodes: 3, connect_all: false, protocols: Protocols::Default }
    }

    fn script(&self) -> (r: Vec<Step>)
        ensures
            r@ == chain_fork6_script(),
    {
        proof {
            reveal_with_fuel(within_from, 30);
            lemma_within_from(chain_fork6_script(), 0, 3);
        }
        vec![
            Step::Do(Action::GenerateBlocks { node: 0, count: 2 }),
            Step::Do(Action::Connect { node: 1, peer: 0 }),
            Step::Do(Action::Connect { node: 2, peer: 0 }),
            Step::Do(Action::WaitForSyncAll { number: 2 }),
            Step::Do(Action::DisconnectAll),
            Step::Do(Action::GenerateBlocks { node: 0, count: 1 }),
            Step::Do(Action::Connect { node: 0, peer: 2 }),
            Step::Do(Action::WaitForSync { node: 0, peer: 2, number: 3 }),
            Step::Do(Action::Disconnect { node: 0, peer: 2 }),
            Step::Do(Action::GenerateBlocks { node: 1, count: 2 }),
            Step::Do(Action::NewBlock { node: 1 }),
            Step::Do(Action::NewTransactionSpending { node: 1, tx_hash: Digest(0, 0, 0, 1) }),
            Step::Do(Action::SubmitBlock { node: 1, tamper: Tamper::AppendTransaction, verify: false }),
            Step::ExpectTipNumber { node: 1, number: 5 },
            Step::Do(Action::ConnectAndWaitBan { node: 0, peer: 1 }),
            Step::Do(Action::GenerateBlocks { node: 2, count: 1 }),
            Step::Do(Action::Connect { node: 2, peer: 0 }),
            Step::Do(Action::ConnectAndWaitBan { node: 2, peer: 1 }),
            Step::Do(Action::WaitForSync { node: 0, peer: 2, number: 4 }),
        ]
    }
}

/// A fork that spends an output index its transaction does not have gets its node banned
/// by the others.
pub struct ChainFork7;

/// The script of `ChainFork7`.
pub open spec fn chain_fork7_script() -> Seq<Step> {
    seq![
        Step::Do(Action::GenerateBlocks { node: 0, count: (PROPOSAL_WINDOW_FARTHEST + 2) as u64 }),
        Step::Do(Action::Connect { node: 1, peer: 0 }),
        Step::Do(Action::Connect { node: 2, peer: 0 }),
        Step::Do(Action::WaitForSyncAll { number: (PROPOSAL_WINDOW_FARTHEST + 2) as u64 }),
        Step::Do(Action::DisconnectAll),
        Step::Do(Action::GenerateBlocks { node: 0, count: 1 }),
        Step::Do(Action::Connect { node: 0, peer: 2 }),
        Step::Do(Action::WaitForSync { node: 0, peer: 2, number: (PROPOSAL_WINDOW_FARTHEST + 3) as u64 }),
        Step::Do(Action::Disconnect { node: 0, peer: 2 }),
        Step::Do(Action::GenerateBlocks { node: 1, count: 2 }),
        Step::Do(Action::NewBlock { node: 1 }),
        Step::Do(Action::NewSpendingTransaction { node: 1 }),
        Step::Do(Action::SubmitBlock { node: 1, tamper: Tamper::AppendTransactionWithInputIndex { index: 999 }, verify: false }),
        Step::ExpectTipNumber { node: 1, number: 15 },
        Step::Do(Action::ConnectAndWaitBan { node: 0, peer: 1 }),
        Step::Do(Action::GenerateBlocks { node: 2, count: 1 }),
        Step::Do(Action::Connect { node: 2, peer: 0 }),
        Step::Do(Action::ConnectAndWaitBan { node: 2, peer: 1 }),
        Step::Do(Action::WaitForSync { node: 0, peer: 2, number: (PROPOSAL_WINDOW_FARTHEST + 4) as u64 }),
    ]
}

impl Spec for ChainFork7 {
    open spec fn node_count(&self) -> nat {
        3
    }

    fn name(&self) -> (r: &'static str)
        ensures
            r@ == "chain_fork7"@,
    {
        "chain_fork7"
    }

    fn setup(&self) -> (r: Setup)
        ensures
            r == (Setup { num_nodes: 3, connect_all: false, protocols: Protocols::Default }),
    {
        Setup { num_nodes: 3, connect_all: false, protocols: Protocols::Default }
    }

    fn script(&self) -> (r: Vec<Step>)
        ensures
            r@ == chain_fork7_script(),
    {
        proof {
            reveal_with_fuel(within_from, 30);
            lemma_within_from(chain_fork7_script(), 0, 3);
        }
        vec![
            Step::Do(Action::GenerateBlocks { node: 0, count: PROPOSAL_WINDOW_FARTHEST + 2 }),
            Step::Do(Action::Connect { node: 1, peer: 0 }),
            Step::Do(Action::Connect { node: 2, peer: 0 }),
            Step::Do(Action::WaitForSyncAll { number: PROPOSAL_WINDOW_FARTHEST + 2 }),
            Step::Do(Action::DisconnectAll),
            Step::Do(Action::GenerateBlocks { node: 0, count: 1 }),
            Step::Do(Action::Connect { node: 0, peer: 2 }),
            Step::Do(Action::WaitForSync { node: 0, peer: 2, number: PROPOSAL_WINDOW_FARTHEST + 3 }),
            Step::Do(Action::Disconnect { node: 0, peer: 2 }),
            Step::Do(Action::GenerateBlocks { node: 1, count: 2 }),
            Step::Do(Action::NewBlock { node: 1 }),
            Step::Do(Action::NewSpendingTransaction { node: 1 }),
            Step::Do(Action::SubmitBlock { node: 1, tamper: Tamper::AppendTransactionWithInputIndex { index: 999 }, verify: false }),
            Step::ExpectTipNumber { node: 1, number: 15 },
            Step::Do(Action::ConnectAndWaitBan { node: 0, peer: 1 }),
            Step::Do(Action::GenerateBlocks { node: 2, count: 1 }),
            Step::Do(Action::Connect { node: 2, peer: 0 }),
            Step::Do(Action::ConnectAndWaitBan { node: 2, peer: 1 }),
            Step::Do(Action::WaitForSync { node: 0, peer: 2, number: PROPOSAL_WINDOW_FARTHEST + 4 }),
        ]
    }
}

/// Two nodes with long forks, longer than one fetch of blocks, converge by syncing.
pub struct LongForks;

/// The script of `LongForks`.
pub open spec fn long_forks_script() -> Seq<Step> {
    seq![
        Step::Do(Action::ExitIbdMode),
        Step::Do(Action::GenerateBlocks { node: 1, count: (PER_FETCH_BLOCK_LIMIT + 10) as u64 }),
        Step::Do(Action::Connect { node: 0, peer: 1 }),
        Step::Do(Action::WaitForSync { node: 0, peer: 1, number: (PER_FETCH_BLOCK_LIMIT + 10 + 1) as u64 }),
        Step::Do(Action::Disconnect { node: 0, peer: 1 }),
        Step::Do(Action::GenerateBlocks { node: 2, count: (PER_FETCH_BLOCK_LIMIT + 20) as u64 }),
        Step::Do(Action::Connect { node: 0, peer: 2 }),
        Step::Do(Action::WaitForSync { node: 0, peer: 2, number: (PER_FETCH_BLOCK_LIMIT + 20 + 1) as u64 }),
        Step::Do(Action::Disconnect { node: 0, peer: 2 }),
        Step::Do(Action::GenerateBlocks { node: 1, count: 30 }),
        Step::Do(Action::Connect { node: 0, peer: 1 }),
        Step::Do(Action::WaitForSync { node: 0, peer: 1, number: (PER_FETCH_BLOCK_LIMIT + 10 + 30 + 1) as u64 }),
    ]
}

impl Spec for LongForks {
    open spec fn node_count(&self) -> nat {
        3
    }

    fn name(&self) -> (r: &'static str)
        ensures
            r@ == "long_forks"@,
    {
        "long_forks"
    }

    fn setup(&self) -> (r: Setup)
        ensures
            r == (Setup { num_nodes: 3, connect_all: false, protocols: Protocols::Default }),
    {
        Setup { num_nodes: 3, connect_all: false, protocols: Protocols::Default }
    }

    fn script(&self) -> (r: Vec<Step>)
        ensures
            r@ == long_forks_script(),
    {
        proof {
            reveal_with_fuel(within_from, 30);
            lemma_within_from(long_forks_script(), 0, 3);
        }
        vec![
            Step::Do(Action::ExitIbdMode),
            Step::Do(Action::GenerateBlocks { node: 1, count: PER_FETCH_BLOCK_LIMIT + 10 }),
            Step::Do(Action::Connect { node: 0, peer: 1 }),
            Step::Do(Action::WaitForSync { node: 0, peer: 1, number: PER_FETCH_BLOCK_LIMIT + 10 + 1 }),
            Step::Do(Action::Disconnect { node: 0, peer: 1 }),
            Step::Do(Action::GenerateBlocks { node: 2, count: PER_FETCH_BLOCK_LIMIT + 20 }),
            Step::Do(Action::Connect { node: 0, peer: 2 }),
            Step::Do(Action::WaitForSync { node: 0, peer: 2, number: PER_FETCH_BLOCK_LIMIT + 20 + 1 }),
            Step::Do(Action::Disconnect { node: 0, peer: 2 }),
            Step::Do(Action::GenerateBlocks { node: 1, count: 30 }),
            Step::Do(Action::Connect { node: 0, peer: 1 }),
            Step::Do(Action::WaitForSync { node: 0, peer: 1, number: PER_FETCH_BLOCK_LIMIT + 10 + 30 + 1 }),
        ]
    }
}

/// Three forks, two of which hold the same transaction; the node that switches from the
/// first to the third (which lacks it) and then to the second still knows the transaction
/// after each switch.
pub struct ForksContainSameTransactions;

/// The script of `ForksContainSameTransactions`.
pub open spec fn forks_contain_same_transactions_script() -> Seq<Step> {
    seq![
        Step::Do(Action::ExitIbdMode),
        Step::Do(Action::GenerateBlocks { node: 0, count: (PROPOSAL_WINDOW_FARTHEST + 2) as u64 }),
        Step::Do(Action::NewSpendingTransaction { node: 0 }),
        Step::Do(Action::GenerateBlocks { node: 0, count: 20 }),
        Step::Do(Action::SubmitTransaction { node: 0 }),
        Step::Do(Action::GenerateBlocks { node: 0, count: 20 }),
        Step::Do(Action::Sleep { millis: 1 }),
        Step::Do(Action::GenerateBlocks { node: 1, count: 30 }),
        Step::Do(Action::SubmitTransaction { node: 1 }),
        Step::Do(Action::GenerateBlocks { node: 1, count: 40 }),
        Step::Do(Action::Sleep { millis: 1 }),
        Step::Do(Action::GenerateBlocks { node: 2, count: 60 }),
        Step::ExpectDistinctHeaders { number: 2 },
        Step::Do(Action::Connect { node: 3, peer: 0 }),
        Step::Do(Action::WaitForSync { node: 3, peer: 0, number: (PROPOSAL_WINDOW_FARTHEST + 43) as u64 }),
        Step::Do(Action::Disconnect { node: 3, peer: 0 }),
        Step::ExpectTransaction { node: 3, expected: Expectation::Present },
        Step::Do(Action::Connect { node: 3, peer: 2 }),
        Step::Do(Action::WaitForSync { node: 3, peer: 2, number: 61 }),
        Step::Do(Action::Disconnect { node: 3, peer: 2 }),
        Step::ExpectTransaction { node: 3, expected: Expectation::Present },
        Step::Do(Action::Connect { node: 3, peer: 1 }),
        Step::Do(Action::WaitForSync { node: 3, peer: 1, number: 71 }),
        Step::Do(Action::Disconnect { node: 3, peer: 1 }),
        Step::ExpectTransaction { node: 3, expected: Expectation::Present },
    ]
}

impl Spec for ForksContainSameTransactions {
    open spec fn node_count(&self) -> nat {
        4
    }

    fn name(&self) -> (r: &'static str)
        ensures
            r@ == "forks_contain_same_transactions"@,
    {
        "forks_contain_same_transactions"
    }

    fn setup(&self) -> (r: Setup)
        ensures
            r == (Setup { num_nodes: 4, connect_all: false, protocols: Protocols::Default }),
    {
        Setup { num_nodes: 4, connect_all: false, protocols: Protocols::Default }
    }

    fn script(&self) -> (r: Vec<Step>)
        ensures
            r@ == forks_contain_same_transactions_script(),
    {
        proof {
            reveal_with_fuel(within_from, 30);
            lemma_within_from(forks_contain_same_transactions_script(), 0, 4);
        }
        vec![
            Step::Do(Action::ExitIbdMode),
            Step::Do(Action::GenerateBlocks { node: 0, count: PROPOSAL_WINDOW_FARTHEST + 2 }),
            Step::Do(Action::NewSpendingTransaction { node: 0 }),
            Step::Do(Action::GenerateBlocks { node: 0, count: 20 }),
            Step::Do(Action::SubmitTransaction { node: 0 }),
            Step::Do(Action::GenerateBlocks { node: 0, count: 20 }),
            Step::Do(Action::Sleep { millis: 1 }),
            Step::Do(Action::GenerateBlocks { node: 1, count: 30 }),
            Step::Do(Action::SubmitTransaction { node: 1 }),
            Step::Do(Action::GenerateBlocks { node: 1, count: 40 }),
            Step::Do(Action::Sleep { millis: 1 }),
            Step::Do(Action::GenerateBlocks { node: 2, count: 60 }),
            Step::ExpectDistinctHeaders { number: 2 },
            Step::Do(Action::Connect { node: 3, peer: 0 }),
            Step::Do(Action::WaitForSync { node: 3, peer: 0, number: PROPOSAL_WINDOW_FARTHEST + 43 }),
            Step::Do(Action::Disconnect { node: 3, peer: 0 }),
            Step::ExpectTransaction { node: 3, expected: Expectation::Present },
            Step::Do(Action::Connect { node: 3, peer: 2 }),
            Step::Do(Action::WaitForSync { node: 3, peer: 2, number: 61 }),
            Step::Do(Action::Disconnect { node: 3, peer: 2 }),
            Step::ExpectTransaction { node: 3, expected: Expectation::Present },
            Step::Do(Action::Connect { node: 3, peer: 1 }),
            Step::Do(Action::WaitForSync { node: 3, peer: 1, number: 71 }),
            Step::Do(Action::Disconnect { node: 3, peer: 1 }),
            Step::ExpectTransaction { node: 3, expected: Expectation::Present },
        ]
    }
}

/// Two forks that name the same uncle sync with each other.
pub struct ForksContainSameUncle;

/// The script of `ForksContainSameUncle`.
pub open spec fn forks_contain_same_uncle_script() -> Seq<Step> {
    seq![
        Step::Do(Action::ExitIbdMode),
        Step::Do(Action::ConstructUncle { node: 0 }),
        Step::Do(Action::GenerateBlocks { node: 0, count: 1 }),
        Step::Do(Action::GenerateBlocks { node: 1, count: 1 }),
        Step::Do(Action::SubmitUncle { node: 0 }),
        Step::Do(Action::SubmitUncle { node: 1 }),
        Step::Do(Action::NewBlockWithUncle { node: 0, after: None }),
        Step::Do(Action::NewBlockWithUncle { node: 1, after: Some(0) }),
        Step::Do(Action::SubmitBlock { node: 0, tamper: Tamper::Keep, verify: true }),
        Step::Do(Action::SubmitBlock { node: 1, tamper: Tamper::Keep, verify: true }),
        Step::Do(Action::GenerateBlocks { node: 1, count: 1 }),
        Step::Do(Action::Connect { node: 0, peer: 1 }),
        Step::WaitForSyncAllAtTipOf { node: 1 },
    ]
}

impl Spec for ForksContainSameUncle {
    open spec fn node_count(&self) -> nat {
        2
    }

    fn name(&self) -> (r: &'static str)
        ensures
            r@ == "forks_contain_same_uncle"@,
    {
        "forks_contain_same_uncle"
    }

    fn setup(&self) -> (r: Setup)
        ensures
            r == (Setup { num_nodes: 2, connect_all: false, protocols: Protocols::SyncOnly }),
    {
        Setup { num_nodes: 2, connect_all: false, protocols: Protocols::SyncOnly }
    }

    fn script(&self) -> (r: Vec<Step>)
        ensures
            r@ == forks_contain_same_uncle_script(),
    {
        proof {
            reveal_with_fuel(within_from, 30);
            lemma_within_from(forks_contain_same_uncle_script(), 0, 2);
        }
        vec![
            Step::Do(Action::ExitIbdMode),
            Step::Do(Action::ConstructUncle { node: 0 }),
            Step::Do(Action::GenerateBlocks { node: 0, count: 1 }),
            Step::Do(Action::GenerateBlocks { node: 1, count: 1 }),
            Step::Do(Action::SubmitUncle { node: 0 }),
            Step::Do(Action::SubmitUncle { node: 1 }),
            Step::Do(Action::NewBlockWithUncle { node: 0, after: None }),
            Step::Do(Action::NewBlockWithUncle { node: 1, after: Some(0) }),
            Step::Do(Action::SubmitBlock { node: 0, tamper: Tamper::Keep, verify: true }),
            Step::Do(Action::SubmitBlock { node: 1, tamper: Tamper::Keep, verify: true }),
            Step::Do(Action::GenerateBlocks { node: 1, count: 1 }),
            Step::Do(Action::Connect { node: 0, peer: 1 }),
            Step::WaitForSyncAllAtTipOf { node: 1 },
        ]
    }
}

/// The status of a transaction on the main fork (committed), on a fork the node has not
/// verified (unknown to it), and on a verified side fork (pending again).
pub struct ForkedTransaction;

/// The script of `ForkedTransaction`.
pub open spec fn forked_transaction_script() -> Seq<Step> {
    seq![
        Step::LoadFinalizationDelayLength { node: 0 },
        Step::Do(Action::ExitIbdMode),
        Step::LoadFixedPoint { node: 0 },
        Step::Do(Action::NewSpendingTransaction { node: 1 }),
        Step::GenerateFinalizationBlocks { node: 0, times: 2, extra: 1 },
        Step::ExpectTransaction { node: 0, expected: Expectation::Absent },
        Step::Do(Action::SubmitTransaction { node: 1 }),
        Step::GenerateFinalizationBlocks { node: 1, times: 2, extra: 0 },
        Step::ExpectTransaction { node: 1, expected: Expectation::Committed },
        Step::CopyChain { from: 1, to: 0 },
        Step::ExpectTransaction { node: 0, expected: Expectation::Absent },
        Step::CopyChain { from: 0, to: 1 },
        Step::ExpectTransaction { node: 1, expected: Expectation::Pending },
    ]
}

impl Spec for ForkedTransaction {
    open spec fn node_count(&self) -> nat {
        2
    }

    fn name(&self) -> (r: &'static str)
        ensures
            r@ == "forked_transaction"@,
    {
        "forked_transaction"
    }

    fn setup(&self) -> (r: Setup)
        ensures
            r == (Setup { num_nodes: 2, connect_all: false, protocols: Protocols::Default }),
    {
        Setup { num_nodes: 2, connect_all: false, protocols: Protocols::Default }
    }

    fn script(&self) -> (r: Vec<Step>)
        ensures
            r@ == forked_transaction_script(),
    {
        proof {
            reveal_with_fuel(within_from, 30);
            lemma_within_from(forked_transaction_script(), 0, 2);
        }
        vec![
            Step::LoadFinalizationDelayLength { node: 0 },
            Step::Do(Action::ExitIbdMode),
            Step::LoadFixedPoint { node: 0 },
            Step::Do(Action::NewSpendingTransaction { node: 1 }),
            Step::GenerateFinalizationBlocks { node: 0, times: 2, extra: 1 },
            Step::ExpectTransaction { node: 0, expected: Expectation::Absent },
            Step::Do(Action::SubmitTransaction { node: 1 }),
            Step::GenerateFinalizationBlocks { node: 1, times: 2, extra: 0 },
            Step::ExpectTransaction { node: 1, expected: Expectation::Committed },
            Step::CopyChain { from: 1, to: 0 },
            Step::ExpectTransaction { node: 0, expected: Expectation::Absent },
            Step::CopyChain { from: 0, to: 1 },
            Step::ExpectTransaction { node: 1, expected: Expectation::Pending },
        ]
    }
}

} // verus!

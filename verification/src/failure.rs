//! Why a scenario run fails.
use vstd::prelude::*;
use crate::status::TxState;

verus! {

/// What made a scenario fail: an answer of a node that contradicts the scenario, or a
/// block or transaction that cannot be altered as the scenario asks.
#[derive(Clone, Copy, PartialEq, Eq, Structural, Debug)]
pub enum Failure {
    /// A node's tip is not at the height the scenario expects.
    TipNumberMismatch { node: usize, expected: u64, actual: u64 },
    /// A node does not know the scenario's transaction, though the scenario expects it to.
    TransactionMissing { node: usize },
    /// A node knows the scenario's transaction, though the scenario expects it not to.
    TransactionPresent { node: usize },
    /// A node reports the transaction in another state than the scenario expects.
    UnexpectedStatus { node: usize, wanted: TxState, reported: TxState },
    /// A node has no header at the height the scenario asks for.
    HeaderMissing { node: usize, number: u64 },
    /// Two of the chains that should differ share the header at this height.
    SameHeaderHashes { number: u64 },
    /// An answer of another kind than the last action asks for.
    UnexpectedAnswer,
    /// A block count or a height leaves `u64`.
    ArithmeticOverflow,
    /// The block to alter has no transaction at the index to alter.
    MissingTransactionInBlock,
    /// The transaction to alter has no output.
    MissingOutput,
    /// The transaction to alter has no input.
    MissingInput,
    /// A capacity leaves `u64` shannons.
    CapacityOverflow,
    /// The scenario uses its transaction before it made one.
    NoTransaction,
}

} // verus!

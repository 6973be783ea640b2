//! The status a node reports for a transaction.
use vstd::prelude::*;

verus! {

/// The states of a transaction that a node reports (`ckb_jsonrpc_types::Status`).
#[derive(Clone, Copy, PartialEq, Eq, Structural, Debug)]
pub enum TxState {
    Pending,
    Proposed,
    Committed,
    Unknown,
    Rejected,
}

/// Compares `state` with the status of `ckb_jsonrpc_types::TxStatus::pending()`, whose
/// `status` field is `Status::Pending` (the source builds it so); `Status` compares by
/// variant (derived `PartialEq`), so the result is whether `state` is `Pending`.
#[verifier::external_body]
fn equals_pending_status(state: TxState) -> (r: bool)
    ensures
        r == (state == TxState::Pending),
{
    let status = match state {
        TxState::Pending => ckb_jsonrpc_types::Status::Pending,
        TxState::Proposed => ckb_jsonrpc_types::Status::Proposed,
        TxState::Committed => ckb_jsonrpc_types::Status::Committed,
        TxState::Unknown => ckb_jsonrpc_types::Status::Unknown,
        TxState::Rejected => ckb_jsonrpc_types::Status::Rejected,
    };
    status == ckb_jsonrpc_types::TxStatus::pending().status
}

/// Whether a reported status is the pending one.
pub fn is_pending(state: TxState) -> (r: bool)
    ensures
        r == (state == TxState::Pending),
{
    equals_pending_status(state)
}

/// Whether a reported status says the transaction is committed to the canonical chain.
pub fn is_committed(state: TxState) -> (r: bool)
    ensures
        r == (state == TxState::Committed),
{
    match state {
        TxState::Committed => true,
        _ => false,
    }
}

} // verus!

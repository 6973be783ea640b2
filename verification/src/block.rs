//! Blocks and transactions, as far as the scenarios read and alter them.
use vstd::prelude::*;
use crate::capacity::BYTE_SHANNONS;
use crate::capacity::capacity_bytes;
use crate::capacity::safe_add;
use crate::failure::Failure;

verus! {

/// A 32-byte hash, as four big-endian 64-bit words.
#[derive(Clone, Copy, PartialEq, Eq, Structural, Debug, Hash)]
pub struct Digest(pub u64, pub u64, pub u64, pub u64);

/// A reference to an output of a transaction: the transaction's hash and the output's index.
#[derive(Clone, Copy, PartialEq, Eq, Structural, Debug)]
pub struct OutPoint {
    pub tx_hash: Digest,
    pub index: u32,
}

/// A transaction: its witness hash, which identifies it (two transaction views are equal
/// when their witness hashes are), the outputs that its inputs spend, and the capacity of
/// each of its outputs in shannons. A transaction made from another by the functions below
/// keeps the witness hash of the one it was made from: there the field is a handle by which
/// the view it came from is found again, not the hash of the altered transaction, which the
/// view built from it gets anew.
#[derive(Debug)]
pub struct Transaction {
    pub witness_hash: Digest,
    pub inputs: Vec<OutPoint>,
    pub outputs: Vec<u64>,
}

/// The header of a block that another block names as its uncle: the handle of the block
/// template it was made from, and its timestamp.
#[derive(Clone, Copy, PartialEq, Eq, Structural, Debug)]
pub struct Header {
    pub origin: u64,
    pub timestamp: u64,
}

/// A block: the handle of the block template it was made from, its timestamp in
/// milliseconds, its transactions (the cellbase first) and its uncles.
#[derive(Debug)]
pub struct Block {
    pub origin: u64,
    pub timestamp: u64,
    pub transactions: Vec<Transaction>,
    pub uncles: Vec<Header>,
}

/// What a scenario does to a block template before it hands it to a node.
#[derive(Clone, Copy, PartialEq, Eq, Structural, Debug)]
pub enum Tamper {
    /// The block as the node built it.
    Keep,
    /// The cellbase's first output gets one CKByte more than the reward; the cellbase keeps
    /// only that output.
    InflateCellbaseReward,
    /// The cellbase's first output gets a capacity of one CKByte; the cellbase keeps only
    /// that output.
    CellbaseOfOneCkbyte,
    /// The scenario's transaction is appended.
    AppendTransaction,
    /// The scenario's transaction is appended unless the block holds it already.
    IncludeTransaction,
    /// The scenario's transaction is appended, its inputs replaced by its first input
    /// pointing at output `index` of the same transaction.
    AppendTransactionWithInputIndex { index: u32 },
}

/// The transaction hash that the scenarios spend from although no chain has it (`0x1`).
pub open spec fn spec_unknown_transaction_hash() -> Digest {
    Digest(0, 0, 0, 1)
}

/// The transaction hash that the scenarios spend from although no chain has it (`0x1`).
pub fn unknown_transaction_hash() -> (r: Digest)
    ensures
        r == spec_unknown_transaction_hash(),
{
    Digest(0, 0, 0, 1)
}

/// Whether two transactions have the same parts.
pub open spec fn same_transaction(a: Transaction, b: Transaction) -> bool {
    &&& a.witness_hash == b.witness_hash
    &&& a.inputs@ == b.inputs@
    &&& a.outputs@ == b.outputs@
}

/// Whether `after` has the template, timestamp and uncles of `before`.
pub open spec fn same_header(after: Block, before: Block) -> bool {
    &&& after.origin == before.origin
    &&& after.timestamp == before.timestamp
    &&& after.uncles@ == before.uncles@
}

/// Whether a sequence of transactions holds one with the witness hash of `transaction`.
pub open spec fn holds_transaction(transactions: Seq<Transaction>, transaction: Transaction) -> bool {
    exists|i: int| 0 <= i < transactions.len() && #[trigger] transactions[i].witness_hash
        == transaction.witness_hash
}

impl Transaction {
    /// A copy of the transaction.
    pub fn duplicate(&self) -> (r: Transaction)
        ensures
            same_transaction(r, *self),
    {
        Transaction {
            witness_hash: self.witness_hash,
            inputs: self.inputs.clone(),
            outputs: self.outputs.clone(),
        }
    }
}

/// The block with the transaction at `transaction_index` replaced by what
/// `modify_transaction` makes of it.
pub fn modify_block_transaction<F: FnOnce(Transaction) -> Transaction>(
    block: Block,
    transaction_index: usize,
    modify_transaction: F,
) -> (r: Block)
    requires
        transaction_index < block.transactions.len(),
        call_requires(modify_transaction, (block.transactions@[transaction_index as int],)),
    ensures
        same_header(r, block),
        exists|t: Transaction|
            #[trigger] call_ensures(
                modify_transaction,
                (block.transactions@[transaction_index as int],),
                t,
            ) && r.transactions@ == block.transactions@.update(transaction_index as int, t),
{
    let Block { origin, timestamp, transactions, uncles } = block;
    let mut transactions = transactions;
    let old_transaction = transactions.remove(transaction_index);
    let new_transaction = modify_transaction(old_transaction);
    transactions.insert(transaction_index, new_transaction);
    assert(transactions@ =~= block.transactions@.update(
        transaction_index as int,
        new_transaction,
    ));
    Block { origin, timestamp, transactions, uncles }
}

/// The transaction with its outputs replaced by its first output raised by one CKByte.
pub fn inflate_first_output(transaction: Transaction) -> (r: Transaction)
    requires
        transaction.outputs.len() > 0,
        transaction.outputs@[0] + BYTE_SHANNONS <= u64::MAX,
    ensures
        r.witness_hash == transaction.witness_hash,
        r.inputs@ == transaction.inputs@,
        r.outputs@ == seq![(transaction.outputs@[0] + BYTE_SHANNONS) as u64],
{
    let old_capacity = transaction.outputs[0];
    let one_ckbyte = match capacity_bytes(1) {
        Ok(shannons) => shannons,
        Err(_) => {
            assert(false);
            0
        },
    };
    let new_capacity = match safe_add(old_capacity, one_ckbyte) {
        Ok(sum) => sum,
        Err(_) => {
            assert(false);
            0
        },
    };
    Transaction {
        witness_hash: transaction.witness_hash,
        inputs: transaction.inputs,
        outputs: vec![new_capacity],
    }
}

/// The transaction with its outputs replaced by its first output holding one CKByte.
pub fn shrink_first_output(transaction: Transaction) -> (r: Transaction)
    requires
        transaction.outputs.len() > 0,
    ensures
        r.witness_hash == transaction.witness_hash,
        r.inputs@ == transaction.inputs@,
        r.outputs@ == seq![BYTE_SHANNONS],
{
    let one_ckbyte = match capacity_bytes(1) {
        Ok(shannons) => shannons,
        Err(_) => {
            assert(false);
            0
        },
    };
    Transaction {
        witness_hash: transaction.witness_hash,
        inputs: transaction.inputs,
        outputs: vec![one_ckbyte],
    }
}

/// The transaction with its inputs replaced by its first input, pointed at output `index`
/// of the transaction that input spends from.
pub fn redirect_first_input(transaction: Transaction, index: u32) -> (r: Transaction)
    requires
        transaction.inputs.len() > 0,
    ensures
        r.witness_hash == transaction.witness_hash,
        r.inputs@ == seq![OutPoint { tx_hash: transaction.inputs@[0].tx_hash, index }],
        r.outputs@ == transaction.outputs@,
{
    let first = transaction.inputs[0];
    Transaction {
        witness_hash: transaction.witness_hash,
        inputs: vec![OutPoint { tx_hash: first.tx_hash, index }],
        outputs: transaction.outputs,
    }
}

/// Whether `transactions` holds a transaction equal to `transaction` (same witness hash).
pub fn contains_transaction(transactions: &Vec<Transaction>, transaction: &Transaction) -> (r:
    bool)
    ensures
        r == holds_transaction(transactions@, *transaction),
{
    let mut i: usize = 0;
    while i < transactions.len()
        invariant
            i <= transactions.len(),
            forall|j: int|
                0 <= j < i ==> #[trigger] transactions@[j].witness_hash
                    != transaction.witness_hash,
        decreases transactions.len() - i,
    {
        if transactions[i].witness_hash == transaction.witness_hash {
            return true;
        }
        i = i + 1;
    }
    false
}

/// The block with `transaction` appended.
pub fn append_transaction(block: Block, transaction: Transaction) -> (r: Block)
    ensures
        same_header(r, block),
        r.transactions@ == block.transactions@.push(transaction),
{
    let Block { origin, timestamp, transactions, uncles } = block;
    let mut transactions = transactions;
    transactions.push(transaction);
    Block { origin, timestamp, transactions, uncles }
}

/// The block with `transaction` appended, unless it holds it already.
pub fn include_transaction(block: Block, transaction: Transaction) -> (r: Block)
    ensures
        same_header(r, block),
        holds_transaction(block.transactions@, transaction) ==> r.transactions@
            == block.transactions@,
        !holds_transaction(block.transactions@, transaction) ==> r.transactions@
            == block.transactions@.push(transaction),
{
    if contains_transaction(&block.transactions, &transaction) {
        block
    } else {
        append_transaction(block, transaction)
    }
}

/// An uncle made from a block template: the block ten milliseconds later; the failure
/// where that time leaves `u64`.
pub fn construct_uncle(block: Block) -> (r: Result<Block, Failure>)
    ensures
        block.timestamp + 10 > u64::MAX ==> r == Err::<Block, Failure>(
            Failure::ArithmeticOverflow,
        ),
        block.timestamp + 10 <= u64::MAX ==> (r matches Ok(uncle) && uncle.origin
            == block.origin && uncle.timestamp == block.timestamp + 10 && uncle.transactions@
            == block.transactions@ && uncle.uncles@ == block.uncles@),
{
    if block.timestamp > u64::MAX - 10 {
        return Err(Failure::ArithmeticOverflow);
    }
    let Block { origin, timestamp, transactions, uncles } = block;
    Ok(Block { origin, timestamp: timestamp + 10, transactions, uncles })
}

/// The header by which another block names `block` as its uncle.
pub fn as_uncle(block: &Block) -> (r: Header)
    ensures
        r == (Header { origin: block.origin, timestamp: block.timestamp }),
{
    Header { origin: block.origin, timestamp: block.timestamp }
}

/// The block with `uncle` as its only uncle.
pub fn set_uncle(block: Block, uncle: Header) -> (r: Block)
    ensures
        r.origin == block.origin,
        r.timestamp == block.timestamp,
        r.transactions@ == block.transactions@,
        r.uncles@ == seq![uncle],
{
    let Block { origin, timestamp, transactions, uncles: _ } = block;
    Block { origin, timestamp, transactions, uncles: vec![uncle] }
}

/// The block with the given timestamp.
pub fn set_timestamp(block: Block, timestamp: u64) -> (r: Block)
    ensures
        r.origin == block.origin,
        r.timestamp == timestamp,
        r.transactions@ == block.transactions@,
        r.uncles@ == block.uncles@,
{
    let Block { origin, timestamp: _, transactions, uncles } = block;
    Block { origin, timestamp, transactions, uncles }
}


/// Whether `after` is `before` with the cellbase's outputs replaced by `outputs`.
pub open spec fn cellbase_outputs_replaced(before: Block, after: Block, outputs: Seq<u64>) -> bool {
    &&& same_header(after, before)
    &&& after.transactions.len() == before.transactions.len()
    &&& forall|i: int|
        1 <= i < before.transactions.len() ==> #[trigger] after.transactions@[i]
            == before.transactions@[i]
    &&& after.transactions@[0].witness_hash == before.transactions@[0].witness_hash
    &&& after.transactions@[0].inputs@ == before.transactions@[0].inputs@
    &&& after.transactions@[0].outputs@ == outputs
}

/// What `prepare_block` makes of `block` for `tamper`, given the scenario's transaction.
pub open spec fn prepared(
    block: Block,
    tamper: Tamper,
    transaction: Option<Transaction>,
    r: Result<Block, Failure>,
) -> bool {
    match tamper {
        Tamper::Keep => r == Ok::<Block, Failure>(block),
        Tamper::InflateCellbaseReward => {
            if block.transactions.len() == 0 {
                r == Err::<Block, Failure>(Failure::MissingTransactionInBlock)
            } else if block.transactions@[0].outputs.len() == 0 {
                r == Err::<Block, Failure>(Failure::MissingOutput)
            } else if block.transactions@[0].outputs@[0] + BYTE_SHANNONS > u64::MAX {
                r == Err::<Block, Failure>(Failure::CapacityOverflow)
            } else {
                r matches Ok(after) && cellbase_outputs_replaced(
                    block,
                    after,
                    seq![(block.transactions@[0].outputs@[0] + BYTE_SHANNONS) as u64],
                )
            }
        },
        Tamper::CellbaseOfOneCkbyte => {
            if block.transactions.len() == 0 {
                r == Err::<Block, Failure>(Failure::MissingTransactionInBlock)
            } else if block.transactions@[0].outputs.len() == 0 {
                r == Err::<Block, Failure>(Failure::MissingOutput)
            } else {
                r matches Ok(after) && cellbase_outputs_replaced(block, after, seq![BYTE_SHANNONS])
            }
        },
        Tamper::AppendTransaction => match transaction {
            None => r == Err::<Block, Failure>(Failure::NoTransaction),
            Some(t) => r matches Ok(after) && same_header(after, block)
                && after.transactions@ == block.transactions@.push(t),
        },
        Tamper::IncludeTransaction => match transaction {
            None => r == Err::<Block, Failure>(Failure::NoTransaction),
            Some(t) => r matches Ok(after) && same_header(after, block) && after.transactions@
                == (if holds_transaction(block.transactions@, t) {
                block.transactions@
            } else {
                block.transactions@.push(t)
            }),
        },
        Tamper::AppendTransactionWithInputIndex { index } => match transaction {
            None => r == Err::<Block, Failure>(Failure::NoTransaction),
            Some(t) => if t.inputs.len() == 0 {
                r == Err::<Block, Failure>(Failure::MissingInput)
            } else {
                r matches Ok(after) && same_header(after, block) && after.transactions.len()
                    == block.transactions.len() + 1 && after.transactions@.drop_last()
                    == block.transactions@ && after.transactions@.last().witness_hash
                    == t.witness_hash && after.transactions@.last().inputs@ == seq![
                    OutPoint { tx_hash: t.inputs@[0].tx_hash, index },
                ] && after.transactions@.last().outputs@ == t.outputs@
            },
        },
    }
}

/// A block template altered as `tamper` says, with `transaction` as the scenario's
/// transaction; the failure where the block or the transaction lacks what is to be altered.
pub fn prepare_block(block: Block, tamper: Tamper, transaction: Option<Transaction>) -> (r:
    Result<Block, Failure>)
    ensures
        prepared(block, tamper, transaction, r),
{
    match tamper {
        Tamper::Keep => Ok(block),
        Tamper::InflateCellbaseReward => {
            if block.transactions.len() == 0 {
                return Err(Failure::MissingTransactionInBlock);
            }
            if block.transactions[0].outputs.len() == 0 {
                return Err(Failure::MissingOutput);
            }
            let reward = block.transactions[0].outputs[0];
            let one_ckbyte = match capacity_bytes(1) {
                Ok(shannons) => shannons,
                Err(_) => {
                    assert(false);
                    0
                },
            };
            if safe_add(reward, one_ckbyte).is_err() {
                return Err(Failure::CapacityOverflow);
            }
            let inflate = |t: Transaction| -> (u: Transaction)
                requires
                    t.outputs.len() > 0,
                    t.outputs@[0] + BYTE_SHANNONS <= u64::MAX,
                ensures
                    u.witness_hash == t.witness_hash,
                    u.inputs@ == t.inputs@,
                    u.outputs@ == seq![(t.outputs@[0] + BYTE_SHANNONS) as u64],
                { inflate_first_output(t) };
            let after = modify_block_transaction(block, 0, inflate);
            assert forall|i: int| 1 <= i < block.transactions.len() implies
                #[trigger] after.transactions@[i] == block.transactions@[i] by {}
            Ok(after)
        },
        Tamper::CellbaseOfOneCkbyte => {
            if block.transactions.len() == 0 {
                return Err(Failure::MissingTransactionInBlock);
            }
            if block.transactions[0].outputs.len() == 0 {
                return Err(Failure::MissingOutput);
            }
            let shrink = |t: Transaction| -> (u: Transaction)
                requires
                    t.outputs.len() > 0,
                ensures
                    u.witness_hash == t.witness_hash,
                    u.inputs@ == t.inputs@,
                    u.outputs@ == seq![BYTE_SHANNONS],
                { shrink_first_output(t) };
            let after = modify_block_transaction(block, 0, shrink);
            assert forall|i: int| 1 <= i < block.transactions.len() implies
                #[trigger] after.transactions@[i] == block.transactions@[i] by {}
            Ok(after)
        },
        Tamper::AppendTransaction => match transaction {
            None => Err(Failure::NoTransaction),
            Some(t) => Ok(append_transaction(block, t)),
        },
        Tamper::IncludeTransaction => match transaction {
            None => Err(Failure::NoTransaction),
            Some(t) => Ok(include_transaction(block, t)),
        },
        Tamper::AppendTransactionWithInputIndex { index } => match transaction {
            None => Err(Failure::NoTransaction),
            Some(t) => {
                if t.inputs.len() == 0 {
                    return Err(Failure::MissingInput);
                }
                let redirected = redirect_first_input(t, index);
                let after = append_transaction(block, redirected);
                assert(after.transactions@.drop_last() =~= block.transactions@);
                Ok(after)
            },
        },
    }
}


/// A block template that names `uncle` as its only uncle; where `previous_timestamp` is
/// given, its timestamp is two milliseconds after it (the failure where that leaves `u64`).
pub fn fork_with_uncle(block: Block, uncle: &Block, previous_timestamp: Option<u64>) -> (r:
    Result<Block, Failure>)
    ensures
        match previous_timestamp {
            None => r matches Ok(b) && b.origin == block.origin && b.timestamp == block.timestamp
                && b.transactions@ == block.transactions@ && b.uncles@ == seq![
                Header { origin: uncle.origin, timestamp: uncle.timestamp },
            ],
            Some(previous) => if previous + 2 > u64::MAX {
                r == Err::<Block, Failure>(Failure::ArithmeticOverflow)
            } else {
                r matches Ok(b) && b.origin == block.origin && b.timestamp == previous + 2
                    && b.transactions@ == block.transactions@ && b.uncles@ == seq![
                    Header { origin: uncle.origin, timestamp: uncle.timestamp },
                ]
            },
        },
{
    let with_uncle = set_uncle(block, as_uncle(uncle));
    match previous_timestamp {
        None => Ok(with_uncle),
        Some(previous) => {
            if previous > u64::MAX - 2 {
                return Err(Failure::ArithmeticOverflow);
            }
            Ok(set_timestamp(with_uncle, previous + 2))
        },
    }
}


/// Including the scenario's transaction appends it, at the end, exactly when no transaction
/// of the block has its witness hash; otherwise the block's transactions stay as they are.
/// Either way the block keeps its template, timestamp and uncles.
pub proof fn include_appends_exactly_when_missing(
    block: Block,
    transaction: Transaction,
    r: Result<Block, Failure>,
)
    requires
        prepared(block, Tamper::IncludeTransaction, Some(transaction), r),
    ensures
        r is Ok,
        same_header(r->Ok_0, block),
        (forall|i: int|
            0 <= i < block.transactions.len() ==> #[trigger] block.transactions@[i].witness_hash
                != transaction.witness_hash) ==> r->Ok_0.transactions@.len()
            == block.transactions.len() + 1 && r->Ok_0.transactions@.last() == transaction
            && r->Ok_0.transactions@.drop_last() == block.transactions@,
        (exists|i: int|
            0 <= i < block.transactions.len() && #[trigger] block.transactions@[i].witness_hash
                == transaction.witness_hash) ==> r->Ok_0.transactions@ == block.transactions@,
{
    if !holds_transaction(block.transactions@, transaction) {
        assert(r->Ok_0.transactions@.drop_last() =~= block.transactions@);
    }
}

} // verus!

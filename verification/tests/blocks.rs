use chain_forks::block::append_transaction;
use chain_forks::block::as_uncle;
use chain_forks::block::construct_uncle;
use chain_forks::block::contains_transaction;
use chain_forks::block::fork_with_uncle;
use chain_forks::block::include_transaction;
use chain_forks::block::inflate_first_output;
use chain_forks::block::modify_block_transaction;
use chain_forks::block::prepare_block;
use chain_forks::block::redirect_first_input;
use chain_forks::block::shrink_first_output;
use chain_forks::block::unknown_transaction_hash;
use chain_forks::block::Block;
use chain_forks::block::Digest;
use chain_forks::block::Header;
use chain_forks::block::OutPoint;
use chain_forks::block::Tamper;
use chain_forks::block::Transaction;
use chain_forks::failure::Failure;

fn digest(n: u64) -> Digest {
    Digest(0, 0, 0, n)
}

fn cellbase(reward: u64) -> Transaction {
    Transaction {
        witness_hash: digest(100),
        inputs: vec![OutPoint { tx_hash: digest(0), index: u32::MAX }],
        outputs: vec![reward],
    }
}

fn spending(hash: u64) -> Transaction {
    Transaction {
        witness_hash: digest(hash),
        inputs: vec![OutPoint { tx_hash: digest(7), index: 0 }, OutPoint { tx_hash: digest(8), index: 1 }],
        outputs: vec![500, 600],
    }
}

fn block(transactions: Vec<Transaction>) -> Block {
    Block { origin: 3, timestamp: 1_000, transactions, uncles: vec![] }
}

#[test]
fn modify_block_transaction_replaces_only_the_indexed_transaction() {
    let b = block(vec![cellbase(10), spending(1), spending(2)]);
    let after = modify_block_transaction(b, 1, |t: Transaction| Transaction { outputs: vec![1], ..t });
    assert_eq!(after.transactions.len(), 3);
    assert_eq!(after.transactions[0].outputs, vec![10]);
    assert_eq!(after.transactions[1].outputs, vec![1]);
    assert_eq!(after.transactions[1].witness_hash, digest(1));
    assert_eq!(after.transactions[2].outputs, vec![500, 600]);
    assert_eq!(after.origin, 3);
    assert_eq!(after.timestamp, 1_000);
}

#[test]
fn inflate_adds_one_ckbyte_and_keeps_one_output() {
    let t = Transaction { outputs: vec![1_000, 2_000], ..cellbase(0) };
    let u = inflate_first_output(t);
    assert_eq!(u.outputs, vec![100_001_000]);
    assert_eq!(u.inputs, vec![OutPoint { tx_hash: digest(0), index: u32::MAX }]);
}

#[test]
fn shrink_sets_one_ckbyte() {
    let u = shrink_first_output(cellbase(123_456_789_000));
    assert_eq!(u.outputs, vec![100_000_000]);
}

#[test]
fn redirect_points_the_first_input_at_another_index() {
    let u = redirect_first_input(spending(1), 999);
    assert_eq!(u.inputs, vec![OutPoint { tx_hash: digest(7), index: 999 }]);
    assert_eq!(u.outputs, vec![500, 600]);
}

#[test]
fn contains_and_include_compare_witness_hashes() {
    let b = block(vec![cellbase(10), spending(1)]);
    assert!(contains_transaction(&b.transactions, &spending(1)));
    assert!(!contains_transaction(&b.transactions, &spending(2)));
    let same = include_transaction(b, spending(1));
    assert_eq!(same.transactions.len(), 2);
    let more = include_transaction(same, spending(2));
    assert_eq!(more.transactions.len(), 3);
    assert_eq!(more.transactions[2].witness_hash, digest(2));
    let again = append_transaction(more, spending(2));
    assert_eq!(again.transactions.len(), 4);
}

#[test]
fn uncle_is_ten_milliseconds_later() {
    let uncle = construct_uncle(block(vec![cellbase(1)])).unwrap();
    assert_eq!(uncle.timestamp, 1_010);
    assert_eq!(as_uncle(&uncle), Header { origin: 3, timestamp: 1_010 });
    let late = Block { timestamp: u64::MAX - 5, ..block(vec![]) };
    assert_eq!(construct_uncle(late).err(), Some(Failure::ArithmeticOverflow));
}

#[test]
fn forks_name_the_uncle_and_follow_the_previous_block() {
    let uncle = construct_uncle(Block { origin: 9, ..block(vec![]) }).unwrap();
    let a = fork_with_uncle(block(vec![cellbase(1)]), &uncle, None).unwrap();
    assert_eq!(a.uncles, vec![Header { origin: 9, timestamp: 1_010 }]);
    assert_eq!(a.timestamp, 1_000);
    let b = fork_with_uncle(Block { timestamp: 5, ..block(vec![]) }, &uncle, Some(a.timestamp)).unwrap();
    assert_eq!(b.timestamp, 1_002);
    assert_eq!(b.uncles, vec![Header { origin: 9, timestamp: 1_010 }]);
    assert_eq!(fork_with_uncle(block(vec![]), &uncle, Some(u64::MAX - 1)).err(), Some(Failure::ArithmeticOverflow));
}

#[test]
fn unknown_hash_is_one() {
    assert_eq!(unknown_transaction_hash(), Digest(0, 0, 0, 1));
}

#[test]
fn prepare_block_keep() {
    let b = prepare_block(block(vec![cellbase(5)]), Tamper::Keep, None).unwrap();
    assert_eq!(b.transactions[0].outputs, vec![5]);
}

#[test]
fn prepare_block_inflates_the_cellbase_reward() {
    let b = prepare_block(block(vec![cellbase(5), spending(1)]), Tamper::InflateCellbaseReward, None).unwrap();
    assert_eq!(b.transactions[0].outputs, vec![100_000_005]);
    assert_eq!(b.transactions[1].outputs, vec![500, 600]);
}

#[test]
fn prepare_block_cellbase_errors() {
    assert_eq!(
        prepare_block(block(vec![]), Tamper::InflateCellbaseReward, None).err(),
        Some(Failure::MissingTransactionInBlock)
    );
    let no_output = Transaction { outputs: vec![], ..cellbase(0) };
    assert_eq!(
        prepare_block(block(vec![no_output]), Tamper::CellbaseOfOneCkbyte, None).err(),
        Some(Failure::MissingOutput)
    );
    assert_eq!(
        prepare_block(block(vec![cellbase(u64::MAX - 10)]), Tamper::InflateCellbaseReward, None).err(),
        Some(Failure::CapacityOverflow)
    );
    assert_eq!(
        prepare_block(block(vec![]), Tamper::CellbaseOfOneCkbyte, None).err(),
        Some(Failure::MissingTransactionInBlock)
    );
}

#[test]
fn prepare_block_cellbase_of_one_ckbyte() {
    let b = prepare_block(block(vec![cellbase(u64::MAX)]), Tamper::CellbaseOfOneCkbyte, None).unwrap();
    assert_eq!(b.transactions[0].outputs, vec![100_000_000]);
}

#[test]
fn prepare_block_transaction_tampers() {
    assert_eq!(
        prepare_block(block(vec![cellbase(1)]), Tamper::AppendTransaction, None).err(),
        Some(Failure::NoTransaction)
    );
    assert_eq!(
        prepare_block(block(vec![cellbase(1)]), Tamper::IncludeTransaction, None).err(),
        Some(Failure::NoTransaction)
    );
    let appended = prepare_block(block(vec![cellbase(1), spending(1)]), Tamper::AppendTransaction, Some(spending(1))).unwrap();
    assert_eq!(appended.transactions.len(), 3);
    let included = prepare_block(block(vec![cellbase(1), spending(1)]), Tamper::IncludeTransaction, Some(spending(1))).unwrap();
    assert_eq!(included.transactions.len(), 2);
    let redirected = prepare_block(
        block(vec![cellbase(1)]),
        Tamper::AppendTransactionWithInputIndex { index: 999 },
        Some(spending(4)),
    )
    .unwrap();
    assert_eq!(redirected.transactions.len(), 2);
    assert_eq!(redirected.transactions[1].inputs, vec![OutPoint { tx_hash: digest(7), index: 999 }]);
    let no_input = Transaction { inputs: vec![], ..spending(4) };
    assert_eq!(
        prepare_block(block(vec![cellbase(1)]), Tamper::AppendTransactionWithInputIndex { index: 999 }, Some(no_input)).err(),
        Some(Failure::MissingInput)
    );
}

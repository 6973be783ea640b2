use chain_forks::capacity::capacity_bytes;
use chain_forks::capacity::safe_add;
use chain_forks::capacity::CapacityOverflow;
use chain_forks::capacity::BYTE_SHANNONS;
use chain_forks::status::is_committed;
use chain_forks::status::is_pending;
use chain_forks::status::TxState;

#[test]
fn one_ckbyte_is_a_hundred_million_shannons() {
    assert_eq!(capacity_bytes(1), Ok(100_000_000));
    assert_eq!(capacity_bytes(0), Ok(0));
    assert_eq!(capacity_bytes(61), Ok(6_100_000_000));
    assert_eq!(BYTE_SHANNONS, 100_000_000);
}

#[test]
fn capacity_bytes_overflows_past_u64() {
    assert_eq!(capacity_bytes(usize::MAX), Err(CapacityOverflow));
    let largest = (u64::MAX / 100_000_000) as usize;
    assert_eq!(capacity_bytes(largest), Ok(largest as u64 * 100_000_000));
    assert_eq!(capacity_bytes(largest + 1), Err(CapacityOverflow));
}

#[test]
fn safe_add_sums_or_overflows() {
    assert_eq!(safe_add(2, 3), Ok(5));
    assert_eq!(safe_add(u64::MAX - 1, 1), Ok(u64::MAX));
    assert_eq!(safe_add(u64::MAX, 1), Err(CapacityOverflow));
}

#[test]
fn only_pending_is_pending() {
    assert!(is_pending(TxState::Pending));
    assert!(!is_pending(TxState::Proposed));
    assert!(!is_pending(TxState::Committed));
    assert!(!is_pending(TxState::Unknown));
    assert!(!is_pending(TxState::Rejected));
}

#[test]
fn only_committed_is_committed() {
    assert!(is_committed(TxState::Committed));
    assert!(!is_committed(TxState::Pending));
    assert!(!is_committed(TxState::Unknown));
}

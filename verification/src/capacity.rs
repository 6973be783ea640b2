//! CKB capacity arithmetic, done by ckb-types' `Capacity`.
use vstd::prelude::*;

verus! {

/// ckb-types' capacity error; its one variant is `Overflow`.
#[verifier::external_type_specification]
#[verifier::external_body]
pub struct ExCapacityError(ckb_types::core::CapacityError);

/// Shannons in one CKByte.
pub const BYTE_SHANNONS: u64 = 100_000_000;

/// Capacity arithmetic that would leave the range of a `u64` of shannons.
#[derive(Clone, Copy, PartialEq, Eq, Structural, Debug)]
pub struct CapacityOverflow;

/// `Capacity::bytes` of ckb-types: `ckbytes` CKBytes in shannons, that is `ckbytes` times
/// 10^8, checked with `checked_mul`; `Err(Overflow)` where the product leaves `u64`.
#[verifier::external_body]
fn ckb_capacity_bytes(ckbytes: usize) -> (r: Result<u64, ckb_types::core::CapacityError>)
    ensures
        r is Ok <==> ckbytes * BYTE_SHANNONS <= u64::MAX,
        r matches Ok(shannons) ==> shannons == ckbytes * BYTE_SHANNONS,
{
    match ckb_types::core::Capacity::bytes(ckbytes) {
        Ok(capacity) => Ok(capacity.as_u64()),
        Err(e) => Err(e),
    }
}

/// `Capacity::safe_add` of ckb-types on `Capacity::shannons(lhs)` and
/// `Capacity::shannons(rhs)`: the sum in shannons, checked with `checked_add`;
/// `Err(Overflow)` where the sum leaves `u64`.
#[verifier::external_body]
fn ckb_capacity_safe_add(lhs: u64, rhs: u64) -> (r: Result<u64, ckb_types::core::CapacityError>)
    ensures
        r is Ok <==> lhs + rhs <= u64::MAX,
        r matches Ok(sum) ==> sum == lhs + rhs,
{
    match ckb_types::core::Capacity::shannons(lhs).safe_add(ckb_types::core::Capacity::shannons(rhs)) {
        Ok(capacity) => Ok(capacity.as_u64()),
        Err(e) => Err(e),
    }
}

/// The capacity of `ckbytes` CKBytes, in shannons (what `capacity_bytes!` computes).
pub fn capacity_bytes(ckbytes: usize) -> (r: Result<u64, CapacityOverflow>)
    ensures
        r is Ok <==> ckbytes * BYTE_SHANNONS <= u64::MAX,
        r matches Ok(shannons) ==> shannons == ckbytes * BYTE_SHANNONS,
{
    match ckb_capacity_bytes(ckbytes) {
        Ok(shannons) => Ok(shannons),
        Err(_) => Err(CapacityOverflow),
    }
}

/// The sum of two capacities in shannons, or `CapacityOverflow` where it leaves `u64`.
pub fn safe_add(lhs: u64, rhs: u64) -> (r: Result<u64, CapacityOverflow>)
    ensures
        r is Ok <==> lhs + rhs <= u64::MAX,
        r matches Ok(sum) ==> sum == lhs + rhs,
{
    match ckb_capacity_safe_add(lhs, rhs) {
        Ok(sum) => Ok(sum),
        Err(_) => Err(CapacityOverflow),
    }
}

} // verus!

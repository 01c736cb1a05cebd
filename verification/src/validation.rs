//! Checks on the values that callers hand in.

use vstd::prelude::*;
use crate::errors::ContractError;
use crate::fees::MAX_FEE_BPS;
use crate::principal::Principal;

verus! {

/// What `validate_address` returns for `address`.
pub open spec fn address_check(address: Principal) -> Result<(), ContractError> {
    if address.well_formed() {
        Ok(())
    } else {
        Err(ContractError::InvalidAddress)
    }
}

/// Accepts a principal that can hold or receive value; any other fails with
/// `InvalidAddress`.
pub fn validate_address(address: &Principal) -> (result: Result<(), ContractError>)
    ensures
        result == address_check(*address),
{
    if address.is_well_formed() {
        Ok(())
    } else {
        Err(ContractError::InvalidAddress)
    }
}

/// What `validate_fee_bps` returns for `fee_bps`.
pub open spec fn fee_bps_check(fee_bps: u32) -> Result<(), ContractError> {
    if fee_bps <= MAX_FEE_BPS {
        Ok(())
    } else {
        Err(ContractError::InvalidFeeBps)
    }
}

/// Accepts a fee rate of at most 10000 basis points; any other fails with
/// `InvalidFeeBps`.
pub fn validate_fee_bps(fee_bps: u32) -> (result: Result<(), ContractError>)
    ensures
        result == fee_bps_check(fee_bps),
{
    if fee_bps > MAX_FEE_BPS {
        Err(ContractError::InvalidFeeBps)
    } else {
        Ok(())
    }
}

} // verus!

use swiftremit::{
    compute_fee, compute_payout, validate_address, validate_fee_bps, AgentRegistry, Authorization,
    ContractError, Principal, ACCOUNT_KEY, BPS_DENOMINATOR, CONTRACT_KEY, MAX_FEE_BPS,
};

#[test]
fn fee_is_floor_of_basis_points() {
    assert_eq!(compute_fee(1000, 250), Ok(25));
    assert_eq!(compute_fee(12345, 250), Ok(308));
    assert_eq!(compute_fee(10000, 1), Ok(1));
    assert_eq!(compute_fee(9999, 1), Ok(0));
    assert_eq!(compute_fee(1, 9999), Ok(0));
    assert_eq!(compute_fee(3, 5000), Ok(1));
}

#[test]
fn fee_at_the_ends_of_the_rate_range() {
    assert_eq!(compute_fee(777, 0), Ok(0));
    assert_eq!(compute_fee(777, 10000), Ok(777));
    assert_eq!(compute_fee(1, 10000), Ok(1));
    assert_eq!(compute_fee(0, 250), Ok(0));
}

#[test]
fn fee_rounds_toward_zero_below_zero() {
    assert_eq!(compute_fee(-12345, 250), Ok(-308));
    assert_eq!(compute_fee(-1, 9999), Ok(0));
    assert_eq!(compute_fee(-10000, 1), Ok(-1));
}

#[test]
fn fee_overflow_is_reported() {
    assert_eq!(compute_fee(i128::MAX, 2), Err(ContractError::Overflow));
    assert_eq!(compute_fee(i128::MIN, 2), Err(ContractError::Overflow));
    assert_eq!(compute_fee(i128::MAX / 10000 + 1, 10000), Err(ContractError::Overflow));
}

#[test]
fn fee_on_the_largest_amounts_that_fit() {
    assert_eq!(compute_fee(i128::MAX, 1), Ok(i128::MAX / 10000));
    assert_eq!(compute_fee(i128::MAX, 0), Ok(0));
    assert_eq!(compute_fee(i128::MAX / 10000, 10000), Ok(i128::MAX / 10000));
    assert_eq!(compute_fee(i128::MIN, 1), Ok(i128::MIN / 10000));
}

#[test]
fn fee_never_exceeds_a_positive_amount() {
    let amounts: [i128; 8] = [1, 2, 3, 99, 100, 9_999, 10_001, 1_000_000_007];
    let rates: [u32; 8] = [0, 1, 2, 33, 250, 5000, 9999, 10000];
    for amount in amounts {
        for rate in rates {
            let fee = compute_fee(amount, rate).unwrap();
            assert_eq!(fee, amount * (rate as i128) / 10000);
            assert!(0 <= fee && fee <= amount);
            let payout = compute_payout(amount, fee).unwrap();
            assert_eq!(payout, amount - fee);
            assert!(payout >= 0);
        }
    }
}

#[test]
fn payout_is_amount_less_fee() {
    assert_eq!(compute_payout(1000, 25), Ok(975));
    assert_eq!(compute_payout(1000, 0), Ok(1000));
    assert_eq!(compute_payout(1000, 1000), Ok(0));
    assert_eq!(compute_payout(5, 7), Ok(-2));
}

#[test]
fn payout_overflow_is_reported() {
    assert_eq!(compute_payout(i128::MAX, -1), Err(ContractError::Overflow));
    assert_eq!(compute_payout(i128::MIN, 1), Err(ContractError::Overflow));
    assert_eq!(compute_payout(i128::MAX, 0), Ok(i128::MAX));
    assert_eq!(compute_payout(i128::MIN, 0), Ok(i128::MIN));
}

#[test]
fn rate_constants() {
    assert_eq!(MAX_FEE_BPS, 10000);
    assert_eq!(BPS_DENOMINATOR, 10000);
}

#[test]
fn fee_rate_is_validated() {
    assert_eq!(validate_fee_bps(0), Ok(()));
    assert_eq!(validate_fee_bps(250), Ok(()));
    assert_eq!(validate_fee_bps(10000), Ok(()));
    assert_eq!(validate_fee_bps(10001), Err(ContractError::InvalidFeeBps));
    assert_eq!(validate_fee_bps(u32::MAX), Err(ContractError::InvalidFeeBps));
}

#[test]
fn account_and_contract_keys_are_well_formed() {
    let account = Principal::account(1, 2);
    let contract = Principal::contract(3, 4);
    assert_eq!(account, Principal { version: ACCOUNT_KEY, key_hi: 1, key_lo: 2 });
    assert_eq!(contract, Principal { version: CONTRACT_KEY, key_hi: 3, key_lo: 4 });
    assert!(account.is_well_formed());
    assert!(contract.is_well_formed());
    assert_eq!(validate_address(&account), Ok(()));
    assert_eq!(validate_address(&contract), Ok(()));
}

#[test]
fn other_keys_are_not_addresses() {
    let muxed = Principal { version: 96, key_hi: 1, key_lo: 2 };
    let seed = Principal { version: 144, key_hi: 1, key_lo: 2 };
    let zero = Principal { version: 0, key_hi: 0, key_lo: 0 };
    assert!(!muxed.is_well_formed());
    assert_eq!(validate_address(&muxed), Err(ContractError::InvalidAddress));
    assert_eq!(validate_address(&seed), Err(ContractError::InvalidAddress));
    assert_eq!(validate_address(&zero), Err(ContractError::InvalidAddress));
}

#[test]
fn principals_differ_by_kind_and_key() {
    assert_ne!(Principal::account(1, 2), Principal::contract(1, 2));
    assert_ne!(Principal::account(1, 2), Principal::account(2, 1));
    assert_eq!(Principal::account(1, 2), Principal::account(1, 2));
}

#[test]
fn authorization_covers_its_principal_only() {
    let alice = Principal::account(1, 1);
    let bob = Principal::account(1, 2);
    let auth = Authorization::new(alice);
    assert_eq!(auth.principal, alice);
    assert!(auth.covers(&alice));
    assert!(!auth.covers(&bob));
    assert!(!auth.covers(&Principal::contract(1, 1)));
}

#[test]
fn registry_starts_empty() {
    let registry = AgentRegistry::new();
    assert!(!registry.is_registered(&Principal::account(0, 1)));
}

#[test]
fn registry_keeps_the_last_line_of_each_agent() {
    let a = Principal::account(0, 1);
    let b = Principal::account(0, 2);
    let c = Principal::contract(0, 1);
    let mut registry = AgentRegistry::new();
    registry.set(a, true);
    registry.set(b, true);
    assert!(registry.is_registered(&a));
    assert!(registry.is_registered(&b));
    assert!(!registry.is_registered(&c));
    registry.set(a, false);
    assert!(!registry.is_registered(&a));
    assert!(registry.is_registered(&b));
    registry.set(a, false);
    assert!(!registry.is_registered(&a));
    registry.set(a, true);
    registry.set(a, true);
    assert!(registry.is_registered(&a));
    registry.set(c, false);
    assert!(!registry.is_registered(&c));
    assert!(registry.is_registered(&b));
}

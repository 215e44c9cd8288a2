use batched_address_tree::errors::BatchedMerkleTreeError;
use batched_address_tree::fee::{check_sufficient, compute_fee};
use batched_address_tree::params::InitAddressTreeAccountsInstructionData;
use batched_address_tree::size::{
    get_address_merkle_tree_account_size_checked, get_address_merkle_tree_account_size_from_params,
    get_merkle_tree_account_size,
};

/// 95 * 2^40: the divisor of the fee formula for the default threshold at
/// the fixed height.
const DEFAULT_FEE_DIVISOR: u64 = 104453604638720;

#[test]
fn account_size_is_deterministic_and_exact() {
    // 280 + 32*20 + 32*500 + 160000/8
    let params = InitAddressTreeAccountsInstructionData::e2e_test_default();
    let first = get_address_merkle_tree_account_size_from_params(params);
    let second = get_address_merkle_tree_account_size_from_params(params);
    assert_eq!(first, 36920);
    assert_eq!(first, second);
    // 280 + 32*20 + 32*10000 + 80000/8
    let params = InitAddressTreeAccountsInstructionData::default();
    assert_eq!(get_address_merkle_tree_account_size_from_params(params), 330920);
}

#[test]
fn account_size_is_monotone_in_each_parameter() {
    let base = get_merkle_tree_account_size(500, 160000, 100, 20, 40);
    assert!(get_merkle_tree_account_size(501, 160000, 100, 20, 40) >= base);
    assert!(get_merkle_tree_account_size(500, 160008, 100, 20, 40) >= base);
    assert!(get_merkle_tree_account_size(500, 160000, 100, 21, 40) >= base);
}

#[test]
fn checked_account_size_rejects_overflowing_parameters() {
    let mut params = InitAddressTreeAccountsInstructionData::test_default();
    params.input_queue_batch_size = u64::MAX / 8;
    params.bloom_filter_capacity = u64::MAX - 7;
    assert_eq!(get_address_merkle_tree_account_size_checked(params), None);
    let params = InitAddressTreeAccountsInstructionData::e2e_test_default();
    assert_eq!(get_address_merkle_tree_account_size_checked(params), Some(36920));
}

#[test]
fn fee_is_zero_without_a_threshold() {
    assert_eq!(compute_fee(None, 40, 0), Ok(0));
    assert_eq!(compute_fee(None, 40, 12345), Ok(0));
    assert_eq!(compute_fee(None, 200, u64::MAX), Ok(0));
}

#[test]
fn fee_at_default_threshold_has_exact_amortized_value() {
    // rent equal to the divisor makes the fee exactly one hundred; a
    // pass-through of the rent would return the divisor itself.
    assert_eq!(compute_fee(Some(95), 40, DEFAULT_FEE_DIVISOR), Ok(100));
    // The smallest positive rent still costs a positive fee.
    assert_eq!(compute_fee(Some(95), 40, 1), Ok(1));
    // One lamport above the divisor rounds up.
    assert_eq!(compute_fee(Some(95), 40, DEFAULT_FEE_DIVISOR + 1), Ok(101));
}

#[test]
fn fee_bounded_by_rent_and_sufficient_at_default_threshold() {
    for rent in [
        1u64,
        5000,
        1_000_000_000,
        DEFAULT_FEE_DIVISOR,
        (u64::MAX - DEFAULT_FEE_DIVISOR) / 100,
    ] {
        let fee = compute_fee(Some(95), 40, rent).unwrap();
        assert!(fee > 0);
        assert!(fee <= rent);
        assert_eq!(check_sufficient(fee, 0, rent, 95, 40), Ok(()));
    }
}

#[test]
fn fee_threshold_edge_cases() {
    // Threshold zero mirrors the fee helper: the whole rent per operation.
    assert_eq!(compute_fee(Some(0), 40, 7), Ok(7));
    // A threshold above one hundred percent is rejected.
    assert_eq!(
        compute_fee(Some(101), 40, 1),
        Err(BatchedMerkleTreeError::InvalidRolloverThreshold)
    );
    // A height that would overflow the leaf count is rejected.
    assert_eq!(
        compute_fee(Some(95), 64, 1),
        Err(BatchedMerkleTreeError::ArithmeticOverflow)
    );
    // A rent whose scaling by one hundred overflows is rejected.
    assert_eq!(
        compute_fee(Some(95), 40, u64::MAX / 100 + 1),
        Err(BatchedMerkleTreeError::ArithmeticOverflow)
    );
}

#[test]
fn sufficiency_check_is_exact_at_the_boundary() {
    // fee * 95 * 2^40 / 100 with fee 100 equals the divisor exactly.
    assert_eq!(check_sufficient(100, 0, DEFAULT_FEE_DIVISOR, 95, 40), Ok(()));
    assert_eq!(
        check_sufficient(99, 0, DEFAULT_FEE_DIVISOR, 95, 40),
        Err(BatchedMerkleTreeError::InsufficientRolloverFee)
    );
}

#[test]
fn sufficiency_check_with_zero_threshold_needs_the_whole_rent() {
    assert_eq!(check_sufficient(5, 2, 3, 0, 40), Ok(()));
    assert_eq!(
        check_sufficient(4, 2, 3, 0, 40),
        Err(BatchedMerkleTreeError::InsufficientRolloverFee)
    );
}

#[test]
fn sufficiency_check_rejects_overflow() {
    assert_eq!(
        check_sufficient(1, 0, 1, 95, 64),
        Err(BatchedMerkleTreeError::ArithmeticOverflow)
    );
    assert_eq!(
        check_sufficient(1, u64::MAX, 1, 95, 40),
        Err(BatchedMerkleTreeError::ArithmeticOverflow)
    );
    assert_eq!(
        check_sufficient(u64::MAX, 0, 1, 2, 40),
        Err(BatchedMerkleTreeError::ArithmeticOverflow)
    );
}

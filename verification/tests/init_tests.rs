use batched_address_tree::errors::BatchedMerkleTreeError;
use batched_address_tree::params::InitAddressTreeAccountsInstructionData;
use batched_address_tree::pubkey::Pubkey;
use batched_address_tree::size::get_address_merkle_tree_account_size_from_params;
use batched_address_tree::tree::{init_batched_address_merkle_tree_account, TreeStatus};

#[test]
fn init_with_production_defaults_succeeds() {
    let params = InitAddressTreeAccountsInstructionData::default();
    let owner = Pubkey::new([7u8; 32]);
    let size = get_address_merkle_tree_account_size_from_params(params);
    let mut buffer = vec![0u8; size];
    let rent = 1_000_000_000u64;

    let tree = init_batched_address_merkle_tree_account(owner, params, &mut buffer, rent)
        .unwrap();

    assert_eq!(tree.status, TreeStatus::Active);
    assert_eq!(tree.metadata.access_metadata.owner, owner);
    assert_eq!(tree.metadata.access_metadata.program_owner, Pubkey::new([0u8; 32]));
    assert_eq!(tree.metadata.access_metadata.forester, Pubkey::new([0u8; 32]));
    assert!(tree.metadata.rollover_metadata.rollover_fee > 0);
    assert_eq!(tree.metadata.rollover_metadata.rollover_threshold, 95);
    assert_eq!(tree.metadata.rollover_metadata.network_fee, 5000);
    assert_eq!(tree.metadata.rollover_metadata.close_threshold, u64::MAX);
    assert_eq!(tree.metadata.rollover_metadata.rolledover_slot, u64::MAX);
    assert_eq!(tree.metadata.associated_queue, Pubkey::new([0u8; 32]));
    assert_eq!(tree.metadata.next_merkle_tree, Pubkey::new([0u8; 32]));
}

#[test]
fn init_end_to_end_scenario() {
    let params = InitAddressTreeAccountsInstructionData::e2e_test_default();
    assert_eq!(params.input_queue_batch_size, 500);
    assert_eq!(params.input_queue_zkp_batch_size, 100);
    assert_eq!(params.bloom_filter_capacity, 20000 * 8);
    assert_eq!(params.bloom_filter_num_iters, 3);
    assert_eq!(params.root_history_capacity, 20);
    assert_eq!(params.height, 40);
    assert_eq!(params.rollover_threshold, Some(95));
    assert_eq!(params.close_threshold, None);

    let owner = Pubkey::new([9u8; 32]);
    let size = get_address_merkle_tree_account_size_from_params(params);
    let rent = 2_000_000_000u64;

    // A buffer of exactly the computed size yields an active tree.
    let mut buffer = vec![0u8; size];
    let tree = init_batched_address_merkle_tree_account(owner, params, &mut buffer, rent)
        .unwrap();
    assert_eq!(tree.status, TreeStatus::Active);

    // A buffer one byte short is rejected without mutation.
    let mut short = vec![0xABu8; size - 1];
    let result = init_batched_address_merkle_tree_account(owner, params, &mut short, rent);
    assert_eq!(result, Err(BatchedMerkleTreeError::BufferSizeMismatch));
    assert_eq!(short.len(), size - 1);
    assert!(short.iter().all(|b| *b == 0xAB));
}

#[test]
fn init_writes_the_versioned_layout() {
    let params = InitAddressTreeAccountsInstructionData::e2e_test_default();
    let owner = Pubkey::new([5u8; 32]);
    let size = get_address_merkle_tree_account_size_from_params(params);
    let mut buffer = vec![0xFFu8; size];
    let rent = 1_000_000_000u64;

    let tree = init_batched_address_merkle_tree_account(owner, params, &mut buffer, rent)
        .unwrap();

    // Header: layout version, tree type, height, batch size.
    assert_eq!(&buffer[0..8], &1u64.to_le_bytes());
    assert_eq!(&buffer[8..16], &4u64.to_le_bytes());
    assert_eq!(&buffer[16..24], &40u64.to_le_bytes());
    assert_eq!(&buffer[24..32], &500u64.to_le_bytes());
    assert_eq!(&buffer[32..40], &100u64.to_le_bytes());
    assert_eq!(&buffer[40..48], &3u64.to_le_bytes());
    assert_eq!(&buffer[48..56], &160000u64.to_le_bytes());
    assert_eq!(&buffer[56..64], &20u64.to_le_bytes());
    // Access metadata: owner, then the null program owner and forester.
    assert_eq!(&buffer[64..96], &[5u8; 32]);
    assert_eq!(&buffer[96..128], &[0u8; 32]);
    assert_eq!(&buffer[128..160], &[0u8; 32]);
    // Rollover metadata words.
    assert_eq!(&buffer[160..168], &0u64.to_le_bytes());
    let fee = tree.metadata.rollover_metadata.rollover_fee;
    assert_eq!(&buffer[168..176], &fee.to_le_bytes());
    assert_eq!(&buffer[176..184], &95u64.to_le_bytes());
    assert_eq!(&buffer[184..192], &5000u64.to_le_bytes());
    assert_eq!(&buffer[192..200], &u64::MAX.to_le_bytes());
    assert_eq!(&buffer[200..208], &u64::MAX.to_le_bytes());
    assert_eq!(&buffer[208..216], &0u64.to_le_bytes());
    // Null queue and successor references.
    assert_eq!(&buffer[216..248], &[0u8; 32]);
    assert_eq!(&buffer[248..280], &[0u8; 32]);
    // Empty root history and batch state.
    assert!(buffer[280..].iter().all(|b| *b == 0));
}

#[test]
fn init_rejects_invalid_params_without_mutation() {
    let mut params = InitAddressTreeAccountsInstructionData::e2e_test_default();
    let size = get_address_merkle_tree_account_size_from_params(params);
    params.height = 39;
    let owner = Pubkey::new([1u8; 32]);
    let mut buffer = vec![0xABu8; size];
    let result = init_batched_address_merkle_tree_account(owner, params, &mut buffer, 1_000_000);
    assert_eq!(result, Err(BatchedMerkleTreeError::InvalidHeight));
    assert!(buffer.iter().all(|b| *b == 0xAB));
}

#[test]
fn init_without_threshold_seeds_no_fee() {
    let mut params = InitAddressTreeAccountsInstructionData::e2e_test_default();
    params.rollover_threshold = None;
    params.network_fee = None;
    let owner = Pubkey::new([2u8; 32]);
    let size = get_address_merkle_tree_account_size_from_params(params);
    let mut buffer = vec![0u8; size];
    let tree = init_batched_address_merkle_tree_account(owner, params, &mut buffer, 55)
        .unwrap();
    assert_eq!(tree.metadata.rollover_metadata.rollover_fee, 0);
    assert_eq!(tree.metadata.rollover_metadata.rollover_threshold, u64::MAX);
    assert_eq!(tree.metadata.rollover_metadata.network_fee, 0);
}

#[test]
fn init_preserves_explicit_access_settings() {
    let mut params = InitAddressTreeAccountsInstructionData::test_default();
    params.index = 11;
    params.program_owner = Some(Pubkey::new([3u8; 32]));
    params.forester = Some(Pubkey::new([4u8; 32]));
    let owner = Pubkey::new([6u8; 32]);
    let size = get_address_merkle_tree_account_size_from_params(params);
    let mut buffer = vec![0u8; size];
    let tree = init_batched_address_merkle_tree_account(owner, params, &mut buffer, 777_777)
        .unwrap();
    assert_eq!(tree.metadata.rollover_metadata.index, 11);
    assert_eq!(tree.metadata.access_metadata.owner, owner);
    assert_eq!(tree.metadata.access_metadata.program_owner, Pubkey::new([3u8; 32]));
    assert_eq!(tree.metadata.access_metadata.forester, Pubkey::new([4u8; 32]));
    assert_eq!(&buffer[96..128], &[3u8; 32]);
    assert_eq!(&buffer[128..160], &[4u8; 32]);
}

use vstd::prelude::*;

use crate::constants::{
    DEFAULT_ADDRESS_TREE_HEIGHT, DEFAULT_BATCH_SIZE, DEFAULT_ZKP_BATCH_SIZE,
    TEST_DEFAULT_BATCH_SIZE, TEST_DEFAULT_ZKP_BATCH_SIZE,
};
use crate::pubkey::Pubkey;

verus! {

/// Caller-supplied parameters of one batched address tree, immutable once
/// submitted. Optional knobs are explicit options, never sentinel values.
#[derive(Clone, Copy, Debug, PartialEq)]
pub struct InitAddressTreeAccountsInstructionData {
    /// Sequence number distinguishing tree instances.
    pub index: u64,
    /// Optional restriction on which external program may append leaves.
    pub program_owner: Option<Pubkey>,
    /// Optional address authorized to perform batch-processing operations.
    pub forester: Option<Pubkey>,
    /// Total leaves per operational batch.
    pub input_queue_batch_size: u64,
    /// Sub-batch size consumed per proof.
    pub input_queue_zkp_batch_size: u64,
    /// Hash iterations of the duplicate-leaf bloom filter.
    pub bloom_filter_num_iters: u64,
    /// Capacity of the duplicate-leaf bloom filter, in bits.
    pub bloom_filter_capacity: u64,
    /// Number of historical roots retained for proof validity windows.
    pub root_history_capacity: u32,
    /// Optional per-operation tip for maintaining the tree.
    pub network_fee: Option<u64>,
    /// Percentage of capacity after which the tree should roll over.
    pub rollover_threshold: Option<u64>,
    /// Unsupported for address trees; must be unset.
    pub close_threshold: Option<u64>,
    /// Depth of the accumulator.
    pub height: u32,
}

/// The small test parameter bundle.
pub open spec fn test_default_params() -> InitAddressTreeAccountsInstructionData {
    InitAddressTreeAccountsInstructionData {
        index: 0,
        program_owner: None,
        forester: None,
        bloom_filter_num_iters: 3,
        input_queue_batch_size: TEST_DEFAULT_BATCH_SIZE,
        input_queue_zkp_batch_size: TEST_DEFAULT_ZKP_BATCH_SIZE,
        height: DEFAULT_ADDRESS_TREE_HEIGHT,
        root_history_capacity: 20,
        bloom_filter_capacity: 160000,
        network_fee: Some(5000),
        rollover_threshold: Some(95),
        close_threshold: None,
    }
}

/// The medium end-to-end test parameter bundle.
pub open spec fn e2e_test_default_params() -> InitAddressTreeAccountsInstructionData {
    InitAddressTreeAccountsInstructionData {
        input_queue_batch_size: 500,
        ..test_default_params()
    }
}

/// The production default parameter bundle.
pub open spec fn default_params() -> InitAddressTreeAccountsInstructionData {
    InitAddressTreeAccountsInstructionData {
        index: 0,
        program_owner: None,
        forester: None,
        bloom_filter_num_iters: 3,
        input_queue_batch_size: DEFAULT_BATCH_SIZE,
        input_queue_zkp_batch_size: DEFAULT_ZKP_BATCH_SIZE,
        height: DEFAULT_ADDRESS_TREE_HEIGHT,
        root_history_capacity: (DEFAULT_BATCH_SIZE / DEFAULT_ZKP_BATCH_SIZE * 2) as u32,
        bloom_filter_capacity: (DEFAULT_BATCH_SIZE * 8) as u64,
        network_fee: Some(5000),
        rollover_threshold: Some(95),
        close_threshold: None,
    }
}

impl InitAddressTreeAccountsInstructionData {
    /// Small fixed bundle used by callers and tests.
    pub fn test_default() -> (r: Self)
        ensures
            r == test_default_params(),
    {
        Self {
            index: 0,
            program_owner: None,
            forester: None,
            bloom_filter_num_iters: 3,
            input_queue_batch_size: TEST_DEFAULT_BATCH_SIZE,
            input_queue_zkp_batch_size: TEST_DEFAULT_ZKP_BATCH_SIZE,
            height: DEFAULT_ADDRESS_TREE_HEIGHT,
            root_history_capacity: 20,
            bloom_filter_capacity: 20000 * 8,
            network_fee: Some(5000),
            rollover_threshold: Some(95),
            close_threshold: None,
        }
    }

    /// Medium fixed bundle used by end-to-end scenarios.
    pub fn e2e_test_default() -> (r: Self)
        ensures
            r == e2e_test_default_params(),
    {
        Self {
            index: 0,
            program_owner: None,
            forester: None,
            bloom_filter_num_iters: 3,
            input_queue_batch_size: 500,
            input_queue_zkp_batch_size: TEST_DEFAULT_ZKP_BATCH_SIZE,
            height: DEFAULT_ADDRESS_TREE_HEIGHT,
            root_history_capacity: 20,
            bloom_filter_capacity: 20000 * 8,
            network_fee: Some(5000),
            rollover_threshold: Some(95),
            close_threshold: None,
        }
    }
}

impl Default for InitAddressTreeAccountsInstructionData {
    /// Production default bundle.
    fn default() -> (r: Self)
        ensures
            r == default_params(),
    {
        Self {
            index: 0,
            program_owner: None,
            forester: None,
            bloom_filter_num_iters: 3,
            input_queue_batch_size: DEFAULT_BATCH_SIZE,
            input_queue_zkp_batch_size: DEFAULT_ZKP_BATCH_SIZE,
            height: DEFAULT_ADDRESS_TREE_HEIGHT,
            root_history_capacity: (DEFAULT_BATCH_SIZE / DEFAULT_ZKP_BATCH_SIZE * 2) as u32,
            bloom_filter_capacity: DEFAULT_BATCH_SIZE * 8,
            network_fee: Some(5000),
            rollover_threshold: Some(95),
            close_threshold: None,
        }
    }
}

} // verus!

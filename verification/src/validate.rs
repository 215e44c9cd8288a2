use vstd::prelude::*;

use crate::constants::DEFAULT_ADDRESS_TREE_HEIGHT;
use crate::errors::BatchedMerkleTreeError;
use crate::params::InitAddressTreeAccountsInstructionData;

verus! {

/// The closed set of proof-batch sizes with a deployed circuit. A size is
/// supported only by exact membership; nothing is interpolated.
pub open spec fn supported_circuit_size(zkp_batch_size: u64) -> bool {
    ||| zkp_batch_size == 1
    ||| zkp_batch_size == 10
    ||| zkp_batch_size == 100
    ||| zkp_batch_size == 500
    ||| zkp_batch_size == 1000
}

/// True iff `zkp_batch_size` is one of the fixed supported proof-batch
/// sizes.
pub fn match_circuit_size(zkp_batch_size: u64) -> (r: bool)
    ensures
        r == supported_circuit_size(zkp_batch_size),
{
    zkp_batch_size == 1 || zkp_batch_size == 10 || zkp_batch_size == 100
        || zkp_batch_size == 500 || zkp_batch_size == 1000
}

/// The outcome of validating a parameter bundle: the first violated
/// invariant in the order the checks run, or success.
pub open spec fn validate_result(
    params: InitAddressTreeAccountsInstructionData,
) -> Result<(), BatchedMerkleTreeError> {
    if params.input_queue_batch_size == 0 {
        Err(BatchedMerkleTreeError::BatchSizeZero)
    } else if params.input_queue_zkp_batch_size == 0 {
        Err(BatchedMerkleTreeError::UnsupportedCircuitSize)
    } else if params.input_queue_batch_size % params.input_queue_zkp_batch_size != 0 {
        Err(BatchedMerkleTreeError::BatchSizeNotDivisible)
    } else if !supported_circuit_size(params.input_queue_zkp_batch_size) {
        Err(BatchedMerkleTreeError::UnsupportedCircuitSize)
    } else if params.bloom_filter_num_iters == 0 {
        Err(BatchedMerkleTreeError::BloomFilterIterationsZero)
    } else if (params.bloom_filter_capacity as int) < params.input_queue_batch_size * 8 {
        Err(BatchedMerkleTreeError::BloomFilterTooSmall)
    } else if params.bloom_filter_capacity % 8 != 0 {
        Err(BatchedMerkleTreeError::BloomFilterNotByteAligned)
    } else if params.root_history_capacity == 0 {
        Err(BatchedMerkleTreeError::RootHistoryCapacityZero)
    } else if params.close_threshold is Some {
        Err(BatchedMerkleTreeError::CloseThresholdUnsupported)
    } else if params.height != DEFAULT_ADDRESS_TREE_HEIGHT {
        Err(BatchedMerkleTreeError::InvalidHeight)
    } else {
        Ok(())
    }
}

/// Enforces every cross-field invariant of a parameter bundle, failing fast
/// on the first violation. Pure and side-effect-free: it runs strictly
/// before any storage is touched.
pub fn validate_batched_address_tree_params(
    params: InitAddressTreeAccountsInstructionData,
) -> (r: Result<(), BatchedMerkleTreeError>)
    ensures
        r == validate_result(params),
{
    if params.input_queue_batch_size == 0 {
        return Err(BatchedMerkleTreeError::BatchSizeZero);
    }
    if params.input_queue_zkp_batch_size == 0 {
        return Err(BatchedMerkleTreeError::UnsupportedCircuitSize);
    }
    if params.input_queue_batch_size % params.input_queue_zkp_batch_size != 0 {
        return Err(BatchedMerkleTreeError::BatchSizeNotDivisible);
    }
    if !match_circuit_size(params.input_queue_zkp_batch_size) {
        return Err(BatchedMerkleTreeError::UnsupportedCircuitSize);
    }
    if params.bloom_filter_num_iters == 0 {
        return Err(BatchedMerkleTreeError::BloomFilterIterationsZero);
    }
    // A batch size above u64::MAX / 8 makes the required bit count
    // overflow u64, so no u64 capacity can reach it.
    if params.input_queue_batch_size > u64::MAX / 8
        || params.bloom_filter_capacity < params.input_queue_batch_size * 8
    {
        return Err(BatchedMerkleTreeError::BloomFilterTooSmall);
    }
    if params.bloom_filter_capacity % 8 != 0 {
        return Err(BatchedMerkleTreeError::BloomFilterNotByteAligned);
    }
    if params.root_history_capacity == 0 {
        return Err(BatchedMerkleTreeError::RootHistoryCapacityZero);
    }
    if params.close_threshold.is_some() {
        return Err(BatchedMerkleTreeError::CloseThresholdUnsupported);
    }
    if params.height != DEFAULT_ADDRESS_TREE_HEIGHT {
        return Err(BatchedMerkleTreeError::InvalidHeight);
    }
    Ok(())
}

} // verus!

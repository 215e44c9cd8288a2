use vstd::prelude::*;

use crate::constants::{ACCOUNT_LAYOUT_VERSION, TREE_TYPE_BATCHED_ADDRESS};
use crate::errors::BatchedMerkleTreeError;
use crate::fee::{check_sufficient, check_sufficient_spec, compute_fee, compute_fee_spec};
use crate::metadata::{
    rollover_metadata_new_spec, AccessMetadata, MerkleTreeMetadata, RolloverMetadata,
};
use crate::params::InitAddressTreeAccountsInstructionData;
use crate::pubkey::Pubkey;
use crate::serialize::{
    merkle_tree_metadata_bytes, push_merkle_tree_metadata, push_u64_le, push_zeros, u64_le_bytes,
};
use crate::size::{account_size, get_address_merkle_tree_account_size_checked};
use crate::validate::{validate_batched_address_tree_params, validate_result};

verus! {

/// Lifecycle state of a tree account. Initialization performs the single
/// transition from `Uninitialized` to `Active`; rollover and closure are
/// driven by components outside this crate.
#[derive(Clone, Copy, Debug, PartialEq, Eq, Structural)]
pub enum TreeStatus {
    Uninitialized,
    Active,
    RollingOver,
    Closed,
}

/// Handle to a freshly initialized batched address tree account: the
/// values that the single write placed into the account buffer.
#[derive(Clone, Copy, Debug, PartialEq)]
pub struct BatchedMerkleTreeAccount {
    pub status: TreeStatus,
    pub tree_type: u64,
    pub metadata: MerkleTreeMetadata,
    pub root_history_capacity: u32,
    pub batch_size: u64,
    pub zkp_batch_size: u64,
    pub bloom_filter_num_iters: u64,
    pub bloom_filter_capacity: u64,
    pub height: u32,
}

/// The initial account representation: layout version, tree type, height,
/// the batching parameters, the serialized metadata, then the empty
/// root-history and batch-state regions as zero bytes up to the exact
/// account size.
pub open spec fn account_bytes(tree: BatchedMerkleTreeAccount) -> Seq<u8> {
    u64_le_bytes(ACCOUNT_LAYOUT_VERSION) + u64_le_bytes(tree.tree_type) + u64_le_bytes(
        tree.height as u64,
    ) + u64_le_bytes(tree.batch_size) + u64_le_bytes(tree.zkp_batch_size) + u64_le_bytes(
        tree.bloom_filter_num_iters,
    ) + u64_le_bytes(tree.bloom_filter_capacity) + u64_le_bytes(
        tree.root_history_capacity as u64,
    ) + merkle_tree_metadata_bytes(tree.metadata) + Seq::new(
        (account_size(
            tree.batch_size as int,
            tree.bloom_filter_capacity as int,
            tree.root_history_capacity as int,
        ) - 280) as nat,
        |i: int| 0u8,
    )
}

/// The first failure initialization runs into, in the order the checks
/// run, or `None` where it succeeds: validation, sizing, buffer length,
/// fee derivation, fee sufficiency.
pub open spec fn init_error_spec(
    params: InitAddressTreeAccountsInstructionData,
    buffer_len: int,
    merkle_tree_rent: u64,
) -> Option<BatchedMerkleTreeError> {
    match validate_result(params) {
        Err(e) => Some(e),
        Ok(_) => {
            let size = account_size(
                params.input_queue_batch_size as int,
                params.bloom_filter_capacity as int,
                params.root_history_capacity as int,
            );
            if size > usize::MAX {
                Some(BatchedMerkleTreeError::ArithmeticOverflow)
            } else if buffer_len != size {
                Some(BatchedMerkleTreeError::BufferSizeMismatch)
            } else {
                match compute_fee_spec(
                    params.rollover_threshold,
                    params.height,
                    merkle_tree_rent,
                ) {
                    Err(e) => Some(e),
                    Ok(fee) => match params.rollover_threshold {
                        None => None,
                        Some(threshold) => match check_sufficient_spec(
                            fee,
                            0,
                            merkle_tree_rent,
                            threshold,
                            params.height,
                        ) {
                            Err(e) => Some(e),
                            Ok(_) => None,
                        },
                    },
                }
            }
        },
    }
}

/// The rollover fee a successful initialization seeds: what the fee engine
/// derives, or zero without a threshold.
pub open spec fn rollover_fee_spec(
    params: InitAddressTreeAccountsInstructionData,
    merkle_tree_rent: u64,
) -> u64 {
    match compute_fee_spec(params.rollover_threshold, params.height, merkle_tree_rent) {
        Ok(fee) => fee,
        Err(_) => 0u64,
    }
}

/// Initializes a batched address tree account in a caller-provided buffer.
///
/// All checks run before any byte is written: validation, the buffer
/// length against the deterministic size formula, and the rollover fee and
/// its sufficiency against the supplied rent. On success the buffer holds
/// the full initial representation and the returned handle is `Active`; on
/// any error the buffer is untouched.
pub fn init_batched_address_merkle_tree_account(
    owner: Pubkey,
    params: InitAddressTreeAccountsInstructionData,
    mt_account_data: &mut Vec<u8>,
    merkle_tree_rent: u64,
) -> (r: Result<BatchedMerkleTreeAccount, BatchedMerkleTreeError>)
    ensures
        match r {
            Ok(tree) => {
                &&& init_error_spec(
                    params,
                    old(mt_account_data).len() as int,
                    merkle_tree_rent,
                ) is None
                &&& tree.status == TreeStatus::Active
                &&& tree.tree_type == TREE_TYPE_BATCHED_ADDRESS
                &&& tree.height == params.height
                &&& tree.batch_size == params.input_queue_batch_size
                &&& tree.zkp_batch_size == params.input_queue_zkp_batch_size
                &&& tree.bloom_filter_num_iters == params.bloom_filter_num_iters
                &&& tree.bloom_filter_capacity == params.bloom_filter_capacity
                &&& tree.root_history_capacity == params.root_history_capacity
                &&& tree.metadata.access_metadata.owner == owner
                &&& match params.program_owner {
                    Some(p) => tree.metadata.access_metadata.program_owner == p,
                    None => tree.metadata.access_metadata.program_owner.is_zero(),
                }
                &&& match params.forester {
                    Some(p) => tree.metadata.access_metadata.forester == p,
                    None => tree.metadata.access_metadata.forester.is_zero(),
                }
                &&& tree.metadata.rollover_metadata == rollover_metadata_new_spec(
                    params.index,
                    rollover_fee_spec(params, merkle_tree_rent),
                    params.rollover_threshold,
                    match params.network_fee {
                        Some(f) => f,
                        None => 0u64,
                    },
                    params.close_threshold,
                    None,
                )
                &&& tree.metadata.associated_queue.is_zero()
                &&& tree.metadata.next_merkle_tree.is_zero()
                &&& final(mt_account_data)@ == account_bytes(tree)
                &&& final(mt_account_data).len() == old(mt_account_data).len()
            },
            Err(e) => {
                &&& init_error_spec(params, old(mt_account_data).len() as int, merkle_tree_rent)
                    == Some(e)
                &&& final(mt_account_data)@ == old(mt_account_data)@
            },
        },
{
    match validate_batched_address_tree_params(params) {
        Ok(_) => {},
        Err(e) => {
            return Err(e);
        },
    }
    let size = match get_address_merkle_tree_account_size_checked(params) {
        Some(s) => s,
        None => {
            return Err(BatchedMerkleTreeError::ArithmeticOverflow);
        },
    };
    if mt_account_data.len() != size {
        return Err(BatchedMerkleTreeError::BufferSizeMismatch);
    }
    let rollover_fee = match compute_fee(
        params.rollover_threshold,
        params.height,
        merkle_tree_rent,
    ) {
        Ok(fee) => fee,
        Err(e) => {
            return Err(e);
        },
    };
    match params.rollover_threshold {
        Some(threshold) => {
            match check_sufficient(rollover_fee, 0, merkle_tree_rent, threshold, params.height) {
                Ok(_) => {},
                Err(e) => {
                    return Err(e);
                },
            }
        },
        None => {},
    }
    let network_fee = match params.network_fee {
        Some(f) => f,
        None => 0,
    };
    let access_metadata = AccessMetadata::new(owner, params.program_owner, params.forester);
    let rollover_metadata = RolloverMetadata::new(
        params.index,
        rollover_fee,
        params.rollover_threshold,
        network_fee,
        params.close_threshold,
        None,
    );
    let metadata = MerkleTreeMetadata {
        access_metadata,
        rollover_metadata,
        associated_queue: Pubkey::zero(),
        next_merkle_tree: Pubkey::zero(),
    };
    let tree = BatchedMerkleTreeAccount {
        status: TreeStatus::Active,
        tree_type: TREE_TYPE_BATCHED_ADDRESS,
        metadata,
        root_history_capacity: params.root_history_capacity,
        batch_size: params.input_queue_batch_size,
        zkp_batch_size: params.input_queue_zkp_batch_size,
        bloom_filter_num_iters: params.bloom_filter_num_iters,
        bloom_filter_capacity: params.bloom_filter_capacity,
        height: params.height,
    };
    let mut out: Vec<u8> = Vec::new();
    push_u64_le(&mut out, ACCOUNT_LAYOUT_VERSION);
    push_u64_le(&mut out, tree.tree_type);
    push_u64_le(&mut out, params.height as u64);
    push_u64_le(&mut out, params.input_queue_batch_size);
    push_u64_le(&mut out, params.input_queue_zkp_batch_size);
    push_u64_le(&mut out, params.bloom_filter_num_iters);
    push_u64_le(&mut out, params.bloom_filter_capacity);
    push_u64_le(&mut out, params.root_history_capacity as u64);
    push_merkle_tree_metadata(&mut out, &tree.metadata);
    assert(out.len() == 280);
    push_zeros(&mut out, size - 280);
    proof {
        assert(out@ =~= account_bytes(tree));
    }
    *mt_account_data = out;
    Ok(tree)
}

} // verus!

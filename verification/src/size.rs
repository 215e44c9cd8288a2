use vstd::prelude::*;

use crate::params::InitAddressTreeAccountsInstructionData;

verus! {

/// Bytes of the fixed account header: layout version, tree type, height and
/// the five batching parameters as little-endian 64-bit words, followed by
/// the serialized tree metadata.
pub const ACCOUNT_HEADER_LEN: u64 = 280;

/// The exact byte length of a batched address tree account: the fixed
/// header, a root-history ring buffer of 32-byte roots, batch state holding
/// one 32-byte record per batch element, and the bloom filter bitset.
///
/// This formula is a versioned storage contract: external callers size and
/// fund the account from it before initialization runs, so any change to it
/// is a breaking format revision.
pub open spec fn account_size(
    batch_size: int,
    bloom_filter_capacity: int,
    root_history_capacity: int,
) -> int {
    280 + 32 * root_history_capacity + 32 * batch_size + bloom_filter_capacity / 8
}

/// Deterministic, pure account size computation.
///
/// The proof-batch size and the height belong to the sizing interface but
/// do not change the byte count: batch records are stored densely whatever
/// the proof sub-batching, and the tree above them is recomputed rather
/// than persisted.
pub fn get_merkle_tree_account_size(
    batch_size: u64,
    bloom_filter_capacity: u64,
    zkp_batch_size: u64,
    root_history_capacity: u32,
    height: u32,
) -> (r: usize)
    requires
        account_size(
            batch_size as int,
            bloom_filter_capacity as int,
            root_history_capacity as int,
        ) <= usize::MAX,
    ensures
        r as int == account_size(
            batch_size as int,
            bloom_filter_capacity as int,
            root_history_capacity as int,
        ),
{
    let roots: u64 = 32 * (root_history_capacity as u64);
    let values: u64 = 32 * batch_size;
    let bloom_bytes: u64 = bloom_filter_capacity / 8;
    let total: u64 = 280 + roots + values + bloom_bytes;
    total as usize
}

/// Account size for a parameter bundle.
pub fn get_address_merkle_tree_account_size_from_params(
    params: InitAddressTreeAccountsInstructionData,
) -> (r: usize)
    requires
        account_size(
            params.input_queue_batch_size as int,
            params.bloom_filter_capacity as int,
            params.root_history_capacity as int,
        ) <= usize::MAX,
    ensures
        r as int == account_size(
            params.input_queue_batch_size as int,
            params.bloom_filter_capacity as int,
            params.root_history_capacity as int,
        ),
{
    get_merkle_tree_account_size(
        params.input_queue_batch_size,
        params.bloom_filter_capacity,
        params.input_queue_zkp_batch_size,
        params.root_history_capacity,
        params.height,
    )
}

/// Account size for a parameter bundle, or `None` where the size would not
/// fit the machine's address space.
pub fn get_address_merkle_tree_account_size_checked(
    params: InitAddressTreeAccountsInstructionData,
) -> (r: Option<usize>)
    ensures
        match r {
            Some(n) => {
                &&& account_size(
                    params.input_queue_batch_size as int,
                    params.bloom_filter_capacity as int,
                    params.root_history_capacity as int,
                ) <= usize::MAX
                &&& n as int == account_size(
                    params.input_queue_batch_size as int,
                    params.bloom_filter_capacity as int,
                    params.root_history_capacity as int,
                )
            },
            None => account_size(
                params.input_queue_batch_size as int,
                params.bloom_filter_capacity as int,
                params.root_history_capacity as int,
            ) > usize::MAX,
        },
{
    let roots: u64 = 32 * (params.root_history_capacity as u64);
    if params.input_queue_batch_size > u64::MAX / 32 {
        return None;
    }
    let values: u64 = 32 * params.input_queue_batch_size;
    let bloom_bytes: u64 = params.bloom_filter_capacity / 8;
    let head: u64 = 280 + roots;
    if values > u64::MAX - head {
        return None;
    }
    let partial: u64 = head + values;
    if bloom_bytes > u64::MAX - partial {
        return None;
    }
    let total: u64 = partial + bloom_bytes;
    if total > usize::MAX as u64 {
        return None;
    }
    Some(total as usize)
}

/// The account size is monotonically non-decreasing in the batch size, the
/// bloom filter capacity and the root history capacity.
pub proof fn lemma_account_size_monotone(
    b1: int,
    f1: int,
    r1: int,
    b2: int,
    f2: int,
    r2: int,
)
    requires
        0 <= b1 <= b2,
        0 <= f1 <= f2,
        0 <= r1 <= r2,
    ensures
        account_size(b1, f1, r1) <= account_size(b2, f2, r2),
{
    vstd::arithmetic::div_mod::lemma_div_is_ordered(f1, f2, 8);
}

} // verus!

use vstd::prelude::*;

verus! {

/// Fixed depth of every batched address tree.
pub const DEFAULT_ADDRESS_TREE_HEIGHT: u32 = 40;

/// Production default for the number of leaves per operational batch.
pub const DEFAULT_BATCH_SIZE: u64 = 10000;

/// Production default for the number of leaves consumed per proof.
pub const DEFAULT_ZKP_BATCH_SIZE: u64 = 1000;

/// Batch size used by the small test parameter bundle.
pub const TEST_DEFAULT_BATCH_SIZE: u64 = 500;

/// Proof-batch size used by the test parameter bundles.
pub const TEST_DEFAULT_ZKP_BATCH_SIZE: u64 = 100;

/// Tag stored in the account header marking it as a batched address tree.
pub const TREE_TYPE_BATCHED_ADDRESS: u64 = 4;

/// Version tag of the account byte layout. Any change to the layout is a
/// breaking format revision and must bump this value.
pub const ACCOUNT_LAYOUT_VERSION: u64 = 1;

} // verus!

use vstd::prelude::*;

verus! {

/// Errors surfaced by parameter validation, account sizing, rollover-fee
/// derivation and account initialization. All of them are detected before
/// any byte of the account buffer is written.
#[derive(Clone, Copy, Debug, PartialEq, Eq, Structural)]
pub enum BatchedMerkleTreeError {
    /// The batch size is zero.
    BatchSizeZero,
    /// The batch size is not divisible by the proof-batch size.
    BatchSizeNotDivisible,
    /// The proof-batch size is not one of the supported circuit sizes.
    UnsupportedCircuitSize,
    /// The bloom filter is configured with zero hash iterations.
    BloomFilterIterationsZero,
    /// The bloom filter holds fewer than eight bits per batch element.
    BloomFilterTooSmall,
    /// The bloom filter capacity in bits is not a multiple of eight.
    BloomFilterNotByteAligned,
    /// The root history ring buffer would hold no roots.
    RootHistoryCapacityZero,
    /// A close threshold was supplied; address trees never close early.
    CloseThresholdUnsupported,
    /// The tree height differs from the fixed depth of this tree type.
    InvalidHeight,
    /// The caller-provided buffer does not have exactly the computed size.
    BufferSizeMismatch,
    /// The rollover threshold exceeds one hundred percent.
    InvalidRolloverThreshold,
    /// The rollover fee cannot fund the successor tree's rent.
    InsufficientRolloverFee,
    /// An intermediate value would not fit its machine integer.
    ArithmeticOverflow,
}

} // verus!

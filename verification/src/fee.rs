use vstd::prelude::*;

use vstd::arithmetic::div_mod::{
    lemma_div_by_self, lemma_div_is_ordered, lemma_div_multiples_vanish,
    lemma_div_multiples_vanish_fancy, lemma_fundamental_div_mod, lemma_mod_bound,
};
use vstd::arithmetic::mul::lemma_mul_inequality;
use vstd::arithmetic::power2::{lemma2_to64_rest, lemma_pow2_pos, pow2};
use vstd::bits::{lemma_u64_pow2_no_overflow, lemma_u64_shl_is_mul};

use crate::errors::BatchedMerkleTreeError;

verus! {

/// Integer division rounded towards positive infinity.
pub open spec fn div_ceil_spec(a: int, b: int) -> int {
    (a + b - 1) / b
}

/// The fee charged per operation so that, amortized over the leaves
/// inserted before `rollover_threshold` percent of a tree of depth `height`
/// is filled, the accumulated fees cover `rent` for the successor tree.
pub open spec fn rollover_fee_formula(rollover_threshold: u64, height: u32, rent: u64) -> int {
    div_ceil_spec(rent * 100, pow2(height as nat) * rollover_threshold)
}

/// Outcome of deriving the rollover fee: zero without a threshold; the
/// rent itself at threshold zero; otherwise the amortized formula, with
/// every overflow rejected rather than wrapped.
pub open spec fn compute_fee_spec(
    rollover_threshold: Option<u64>,
    height: u32,
    rent: u64,
) -> Result<u64, BatchedMerkleTreeError> {
    match rollover_threshold {
        None => Ok(0u64),
        Some(threshold) => {
            if height >= 64 {
                Err(BatchedMerkleTreeError::ArithmeticOverflow)
            } else if threshold > 100 {
                Err(BatchedMerkleTreeError::InvalidRolloverThreshold)
            } else if threshold == 0 {
                Ok(rent)
            } else if rent * 100 > u64::MAX || pow2(height as nat) * threshold > u64::MAX {
                Err(BatchedMerkleTreeError::ArithmeticOverflow)
            } else {
                Ok(rollover_fee_formula(threshold, height, rent) as u64)
            }
        },
    }
}

/// A fee funds the rollover if the fees collected until the threshold
/// fraction of the tree is filled reach the rent of the successor, or, for
/// a zero threshold, if the fee alone covers that rent.
pub open spec fn fee_sufficient(
    rollover_fee: u64,
    total_rent: int,
    rollover_threshold: u64,
    height: u32,
) -> bool {
    ||| rollover_threshold == 0 && rollover_fee >= total_rent
    ||| (rollover_fee * rollover_threshold * pow2(height as nat)) / 100 >= total_rent
}

/// Outcome of re-deriving the minimum acceptable fee and comparing, with
/// every overflow rejected rather than wrapped.
pub open spec fn check_sufficient_spec(
    rollover_fee: u64,
    queue_rent: u64,
    merkle_tree_rent: u64,
    rollover_threshold: u64,
    height: u32,
) -> Result<(), BatchedMerkleTreeError> {
    if height >= 64 {
        Err(BatchedMerkleTreeError::ArithmeticOverflow)
    } else if queue_rent + merkle_tree_rent > u64::MAX {
        Err(BatchedMerkleTreeError::ArithmeticOverflow)
    } else if rollover_fee * rollover_threshold * pow2(height as nat) > u64::MAX {
        Err(BatchedMerkleTreeError::ArithmeticOverflow)
    } else if fee_sufficient(
        rollover_fee,
        queue_rent + merkle_tree_rent,
        rollover_threshold,
        height,
    ) {
        Ok(())
    } else {
        Err(BatchedMerkleTreeError::InsufficientRolloverFee)
    }
}

/// Relies on `light_utils::fee::compute_rollover_fee`: it rejects a
/// threshold above one hundred, returns the rent unchanged for a zero
/// threshold, and otherwise returns `rent * 100` divided by
/// `2^tree_height * rollover_threshold`, rounded up. The bounds in
/// `requires` keep its internal shift and multiplications from
/// overflowing.
#[verifier::external_body]
fn compute_rollover_fee_raw(
    rollover_threshold: u64,
    tree_height: u32,
    rent: u64,
) -> (r: Result<u64, BatchedMerkleTreeError>)
    requires
        tree_height < 64,
        0 < rollover_threshold <= 100 ==> rent * 100 <= u64::MAX
            && pow2(tree_height as nat) * rollover_threshold <= u64::MAX,
    ensures
        r == (if rollover_threshold > 100 {
            Err::<u64, BatchedMerkleTreeError>(BatchedMerkleTreeError::InvalidRolloverThreshold)
        } else if rollover_threshold == 0 {
            Ok::<u64, BatchedMerkleTreeError>(rent)
        } else {
            Ok::<u64, BatchedMerkleTreeError>(
                rollover_fee_formula(rollover_threshold, tree_height, rent) as u64,
            )
        }),
{
    match light_utils::fee::compute_rollover_fee(rollover_threshold, tree_height, rent) {
        Ok(fee) => Ok(fee),
        Err(_) => Err(BatchedMerkleTreeError::InvalidRolloverThreshold),
    }
}

/// Relies on
/// `light_merkle_tree_metadata::rollover::check_rollover_fee_sufficient`:
/// it accepts exactly when the fee, taken over the leaves inserted up to
/// the threshold fraction of a tree of the given height, covers the summed
/// rent. The bounds in `requires` keep its internal multiplications and
/// addition from overflowing.
#[verifier::external_body]
fn check_rollover_fee_sufficient_raw(
    rollover_fee: u64,
    queue_rent: u64,
    merkle_tree_rent: u64,
    rollover_threshold: u64,
    height: u32,
) -> (r: Result<(), BatchedMerkleTreeError>)
    requires
        height < 64,
        queue_rent + merkle_tree_rent <= u64::MAX,
        rollover_fee * rollover_threshold * pow2(height as nat) <= u64::MAX,
    ensures
        r == if fee_sufficient(
            rollover_fee,
            queue_rent + merkle_tree_rent,
            rollover_threshold,
            height,
        ) {
            Ok::<(), BatchedMerkleTreeError>(())
        } else {
            Err::<(), BatchedMerkleTreeError>(BatchedMerkleTreeError::InsufficientRolloverFee)
        },
{
    match light_merkle_tree_metadata::rollover::check_rollover_fee_sufficient(
        rollover_fee,
        queue_rent,
        merkle_tree_rent,
        rollover_threshold,
        height,
    ) {
        Ok(()) => Ok(()),
        Err(_) => Err(BatchedMerkleTreeError::InsufficientRolloverFee),
    }
}

/// For non-negative `a` and `m` and positive `b`, comparing `a` against
/// `m / b` decides whether `a * b` stays within `m`.
proof fn lemma_mul_le_iff_div(a: int, b: int, m: int)
    requires
        0 < b,
        0 <= a,
        0 <= m,
    ensures
        (a * b <= m) <==> (a <= m / b),
{
    lemma_fundamental_div_mod(m, b);
    lemma_mod_bound(m, b);
    let q = m / b;
    if a <= q {
        lemma_mul_inequality(a, q, b);
        assert(q * b == b * q) by (nonlinear_arith);
    } else {
        lemma_mul_inequality(q + 1, a, b);
        assert((q + 1) * b == b * q + b) by (nonlinear_arith);
    }
}

/// Derives the per-operation rollover fee. Without a threshold the tree is
/// not designed to roll over and the fee is zero.
pub fn compute_fee(
    rollover_threshold: Option<u64>,
    height: u32,
    rent: u64,
) -> (r: Result<u64, BatchedMerkleTreeError>)
    ensures
        r == compute_fee_spec(rollover_threshold, height, rent),
{
    match rollover_threshold {
        None => Ok(0),
        Some(threshold) => {
            if height >= 64 {
                return Err(BatchedMerkleTreeError::ArithmeticOverflow);
            }
            if threshold > 100 || threshold == 0 {
                return compute_rollover_fee_raw(threshold, height, rent);
            }
            proof {
                lemma_mul_le_iff_div(rent as int, 100, u64::MAX as int);
            }
            if rent > u64::MAX / 100 {
                return Err(BatchedMerkleTreeError::ArithmeticOverflow);
            }
            proof {
                lemma_u64_pow2_no_overflow(height as nat);
                lemma_u64_shl_is_mul(1u64, height as u64);
                lemma_pow2_pos(height as nat);
            }
            let leaves: u64 = 1u64 << (height as u64);
            proof {
                lemma_mul_le_iff_div(threshold as int, leaves as int, u64::MAX as int);
            }
            if threshold > u64::MAX / leaves {
                return Err(BatchedMerkleTreeError::ArithmeticOverflow);
            }
            compute_rollover_fee_raw(threshold, height, rent)
        },
    }
}

/// Re-derives the minimum acceptable rollover fee from the same inputs and
/// rejects a supplied fee that falls below it.
pub fn check_sufficient(
    rollover_fee: u64,
    queue_rent: u64,
    merkle_tree_rent: u64,
    rollover_threshold: u64,
    height: u32,
) -> (r: Result<(), BatchedMerkleTreeError>)
    ensures
        r == check_sufficient_spec(
            rollover_fee,
            queue_rent,
            merkle_tree_rent,
            rollover_threshold,
            height,
        ),
{
    if height >= 64 {
        return Err(BatchedMerkleTreeError::ArithmeticOverflow);
    }
    if queue_rent > u64::MAX - merkle_tree_rent {
        return Err(BatchedMerkleTreeError::ArithmeticOverflow);
    }
    proof {
        lemma_pow2_pos(height as nat);
        if rollover_fee > 0 {
            lemma_mul_le_iff_div(rollover_threshold as int, rollover_fee as int, u64::MAX as int);
            lemma_mul_inequality(
                1,
                pow2(height as nat) as int,
                rollover_fee * rollover_threshold,
            );
        }
    }
    if rollover_fee > 0 && rollover_threshold > u64::MAX / rollover_fee {
        return Err(BatchedMerkleTreeError::ArithmeticOverflow);
    }
    let fee_times_threshold: u64 = rollover_fee * rollover_threshold;
    proof {
        lemma_u64_pow2_no_overflow(height as nat);
        lemma_u64_shl_is_mul(1u64, height as u64);
    }
    let leaves: u64 = 1u64 << (height as u64);
    proof {
        lemma_mul_le_iff_div(fee_times_threshold as int, leaves as int, u64::MAX as int);
        lemma_mul_inequality(
            1,
            pow2(height as nat) as int,
            fee_times_threshold as int,
        );
    }
    if fee_times_threshold > u64::MAX / leaves {
        return Err(BatchedMerkleTreeError::ArithmeticOverflow);
    }
    check_rollover_fee_sufficient_raw(
        rollover_fee,
        queue_rent,
        merkle_tree_rent,
        rollover_threshold,
        height,
    )
}

/// A tree without a rollover threshold pays no rollover fee, whatever the
/// height and rent.
pub proof fn lemma_compute_fee_none_is_zero(height: u32, rent: u64)
    ensures
        compute_fee_spec(None, height, rent) == Ok::<u64, BatchedMerkleTreeError>(0u64),
{
}

/// With the default ninety-five percent threshold at the fixed tree depth
/// of forty, every positive rent whose fee derivation stays within `u64`
/// yields a fee that is positive, at most the rent itself, and passes the
/// sufficiency check against that same rent.
pub proof fn lemma_default_threshold_fee_sufficient(rent: u64)
    requires
        0 < rent,
        rent * 100 + 95 * pow2(40) <= u64::MAX,
    ensures
        compute_fee_spec(Some(95u64), 40, rent) is Ok,
        0 < compute_fee_spec(Some(95u64), 40, rent)->Ok_0 <= rent,
        check_sufficient_spec(
            compute_fee_spec(Some(95u64), 40, rent)->Ok_0,
            0,
            rent,
            95,
            40,
        ) == Ok::<(), BatchedMerkleTreeError>(()),
{
    lemma2_to64_rest();
    let p = pow2(40) as int;
    assert(p == 0x10000000000);
    let d = p * 95;
    let a = rent * 100;
    let fee = (a + d - 1) / d;
    assert(rollover_fee_formula(95u64, 40, rent) == fee);
    // The fee is positive: the dividend reaches the divisor.
    lemma_div_is_ordered(d, a + d - 1, d);
    lemma_div_by_self(d);
    assert(1 <= fee);
    // The fee stays at or below the rent.
    lemma_mul_inequality(100, d, rent as int);
    assert(a <= d * rent);
    lemma_div_is_ordered(a + d - 1, d * rent + (d - 1), d);
    lemma_div_multiples_vanish_fancy(rent as int, d - 1, d);
    assert(fee <= rent);
    assert(compute_fee_spec(Some(95u64), 40, rent) == Ok::<u64, BatchedMerkleTreeError>(
        fee as u64,
    ));
    // The amortized collection covers the rent again.
    lemma_fundamental_div_mod(a + d - 1, d);
    lemma_mod_bound(a + d - 1, d);
    assert(a <= d * fee <= a + d - 1);
    assert(fee * 95 * p == d * fee) by (nonlinear_arith)
        requires
            d == p * 95,
    ;
    lemma_div_is_ordered(a, d * fee, 100);
    lemma_div_multiples_vanish(rent as int, 100);
    assert(rent <= (d * fee) / 100);
    assert(fee_sufficient(fee as u64, rent as int, 95u64, 40));
}

} // verus!

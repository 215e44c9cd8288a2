use vstd::prelude::*;

use crate::metadata::{AccessMetadata, MerkleTreeMetadata, RolloverMetadata};
use crate::pubkey::Pubkey;

verus! {

/// Little-endian bytes of a 64-bit word.
pub open spec fn u64_le_bytes(x: u64) -> Seq<u8> {
    seq![
        x as u8,
        (x >> 8) as u8,
        (x >> 16) as u8,
        (x >> 24) as u8,
        (x >> 32) as u8,
        (x >> 40) as u8,
        (x >> 48) as u8,
        (x >> 56) as u8,
    ]
}

/// Serialized access record: the three addresses in declared order.
pub open spec fn access_metadata_bytes(m: AccessMetadata) -> Seq<u8> {
    m.owner@ + m.program_owner@ + m.forester@
}

/// Serialized rollover record: the seven words in declared order, little
/// endian.
pub open spec fn rollover_metadata_bytes(m: RolloverMetadata) -> Seq<u8> {
    u64_le_bytes(m.index) + u64_le_bytes(m.rollover_fee) + u64_le_bytes(m.rollover_threshold)
        + u64_le_bytes(m.network_fee) + u64_le_bytes(m.rolledover_slot)
        + u64_le_bytes(m.close_threshold) + u64_le_bytes(m.additional_bytes)
}

/// Serialized tree metadata: access record, rollover record, associated
/// queue, successor tree.
pub open spec fn merkle_tree_metadata_bytes(m: MerkleTreeMetadata) -> Seq<u8> {
    access_metadata_bytes(m.access_metadata) + rollover_metadata_bytes(m.rollover_metadata)
        + m.associated_queue@ + m.next_merkle_tree@
}

/// Appends the little-endian bytes of `x`.
pub fn push_u64_le(out: &mut Vec<u8>, x: u64)
    ensures
        final(out)@ == old(out)@ + u64_le_bytes(x),
{
    out.push(#[verifier::truncate] (x as u8));
    out.push(#[verifier::truncate] ((x >> 8) as u8));
    out.push(#[verifier::truncate] ((x >> 16) as u8));
    out.push(#[verifier::truncate] ((x >> 24) as u8));
    out.push(#[verifier::truncate] ((x >> 32) as u8));
    out.push(#[verifier::truncate] ((x >> 40) as u8));
    out.push(#[verifier::truncate] ((x >> 48) as u8));
    out.push(#[verifier::truncate] ((x >> 56) as u8));
    proof {
        assert(out@ =~= old(out)@ + u64_le_bytes(x));
    }
}

/// Appends the 32 bytes of an address.
pub fn push_pubkey(out: &mut Vec<u8>, key: &Pubkey)
    ensures
        final(out)@ == old(out)@ + key@,
{
    let mut i: usize = 0;
    while i < 32
        invariant
            i <= 32,
            out@ == old(out)@ + key@.subrange(0, i as int),
        decreases 32 - i,
    {
        out.push(key.bytes[i]);
        i = i + 1;
        proof {
            assert(out@ =~= old(out)@ + key@.subrange(0, i as int));
        }
    }
    proof {
        assert(key@.subrange(0, 32) =~= key@);
    }
}

/// Appends `n` zero bytes: the empty root-history and batch-state regions.
pub fn push_zeros(out: &mut Vec<u8>, n: usize)
    ensures
        final(out)@ == old(out)@ + Seq::new(n as nat, |i: int| 0u8),
{
    let mut i: usize = 0;
    while i < n
        invariant
            i <= n,
            out@ == old(out)@ + Seq::new(i as nat, |j: int| 0u8),
        decreases n - i,
    {
        out.push(0u8);
        i = i + 1;
        proof {
            assert(out@ =~= old(out)@ + Seq::new(i as nat, |j: int| 0u8));
        }
    }
}

/// Appends the serialized tree metadata.
pub fn push_merkle_tree_metadata(out: &mut Vec<u8>, m: &MerkleTreeMetadata)
    ensures
        final(out)@ == old(out)@ + merkle_tree_metadata_bytes(*m),
{
    push_pubkey(out, &m.access_metadata.owner);
    push_pubkey(out, &m.access_metadata.program_owner);
    push_pubkey(out, &m.access_metadata.forester);
    push_u64_le(out, m.rollover_metadata.index);
    push_u64_le(out, m.rollover_metadata.rollover_fee);
    push_u64_le(out, m.rollover_metadata.rollover_threshold);
    push_u64_le(out, m.rollover_metadata.network_fee);
    push_u64_le(out, m.rollover_metadata.rolledover_slot);
    push_u64_le(out, m.rollover_metadata.close_threshold);
    push_u64_le(out, m.rollover_metadata.additional_bytes);
    push_pubkey(out, &m.associated_queue);
    push_pubkey(out, &m.next_merkle_tree);
    proof {
        assert(out@ =~= old(out)@ + merkle_tree_metadata_bytes(*m));
    }
}

} // verus!

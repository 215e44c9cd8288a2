use vstd::prelude::*;

use crate::pubkey::Pubkey;

verus! {

/// Who may mutate the tree after initialization.
#[derive(Clone, Copy, Debug, PartialEq)]
pub struct AccessMetadata {
    /// Owner of the tree.
    pub owner: Pubkey,
    /// Program allowed to append leaves; the null sentinel when
    /// unrestricted.
    pub program_owner: Pubkey,
    /// Address authorized to perform batch-processing operations; the null
    /// sentinel when unset.
    pub forester: Pubkey,
}

impl AccessMetadata {
    /// Builds the access record, replacing absent optional addresses by the
    /// null sentinel.
    pub fn new(owner: Pubkey, program_owner: Option<Pubkey>, forester: Option<Pubkey>) -> (r:
        Self)
        ensures
            r.owner == owner,
            match program_owner {
                Some(p) => r.program_owner == p,
                None => r.program_owner.is_zero(),
            },
            match forester {
                Some(p) => r.forester == p,
                None => r.forester.is_zero(),
            },
    {
        let program_owner_key = match program_owner {
            Some(p) => p,
            None => Pubkey::zero(),
        };
        let forester_key = match forester {
            Some(p) => p,
            None => Pubkey::zero(),
        };
        AccessMetadata { owner, program_owner: program_owner_key, forester: forester_key }
    }
}

/// Economic and lifecycle record seeded at creation so that a later
/// rollover is possible and funded. Optional knobs are stored with
/// `u64::MAX` standing for "not configured".
#[derive(Clone, Copy, Debug, PartialEq, Eq, Structural)]
pub struct RolloverMetadata {
    /// Sequence number distinguishing tree instances.
    pub index: u64,
    /// Per-operation fee accumulated to fund the successor tree.
    pub rollover_fee: u64,
    /// Percentage of capacity after which the tree should roll over;
    /// `u64::MAX` when rollover is not configured.
    pub rollover_threshold: u64,
    /// Per-operation tip for maintaining the tree.
    pub network_fee: u64,
    /// Slot of the rollover; `u64::MAX` until one happens.
    pub rolledover_slot: u64,
    /// Staleness window after which an empty, rolled-over tree could close;
    /// `u64::MAX` when closing is unsupported.
    pub close_threshold: u64,
    /// Bytes of further accounts tied to this tree that roll over with it.
    pub additional_bytes: u64,
}

/// The rollover record a creation-time constructor yields: absent options
/// become `u64::MAX` (or zero for the byte count) and the rolled-over
/// marker is unset.
pub open spec fn rollover_metadata_new_spec(
    index: u64,
    rollover_fee: u64,
    rollover_threshold: Option<u64>,
    network_fee: u64,
    close_threshold: Option<u64>,
    additional_bytes: Option<u64>,
) -> RolloverMetadata {
    RolloverMetadata {
        index,
        rollover_fee,
        rollover_threshold: match rollover_threshold {
            Some(t) => t,
            None => u64::MAX,
        },
        network_fee,
        rolledover_slot: u64::MAX,
        close_threshold: match close_threshold {
            Some(t) => t,
            None => u64::MAX,
        },
        additional_bytes: match additional_bytes {
            Some(b) => b,
            None => 0u64,
        },
    }
}

impl RolloverMetadata {
    /// Builds the creation-time rollover record.
    pub fn new(
        index: u64,
        rollover_fee: u64,
        rollover_threshold: Option<u64>,
        network_fee: u64,
        close_threshold: Option<u64>,
        additional_bytes: Option<u64>,
    ) -> (r: Self)
        ensures
            r == rollover_metadata_new_spec(
                index,
                rollover_fee,
                rollover_threshold,
                network_fee,
                close_threshold,
                additional_bytes,
            ),
    {
        RolloverMetadata {
            index,
            rollover_fee,
            rollover_threshold: match rollover_threshold {
                Some(t) => t,
                None => u64::MAX,
            },
            network_fee,
            rolledover_slot: u64::MAX,
            close_threshold: match close_threshold {
                Some(t) => t,
                None => u64::MAX,
            },
            additional_bytes: match additional_bytes {
                Some(b) => b,
                None => 0,
            },
        }
    }
}

/// Full metadata of one batched tree account: access control, rollover
/// economics, the queue working with this tree (associated later, the null
/// sentinel at creation) and the successor tree (set at rollover, the null
/// sentinel at creation).
#[derive(Clone, Copy, Debug, PartialEq)]
pub struct MerkleTreeMetadata {
    pub access_metadata: AccessMetadata,
    pub rollover_metadata: RolloverMetadata,
    pub associated_queue: Pubkey,
    pub next_merkle_tree: Pubkey,
}

} // verus!

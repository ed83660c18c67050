//! The power actor's state as protocol version 7 lays it out.
//!
//! These are the decoded values of that version's schema. Decoding the
//! stored bytes, and walking the claims table that `claims` points to, is
//! the work of whoever provides the [`ActorStore`](crate::power::ActorStore).

use crate::content_id::Cid;
use crate::power::StoragePower;
use crate::power::TokenAmount;
use vstd::prelude::*;

verus! {

/// Code identifier of the version-7 power actor: the identity hash of
/// `fil/7/storagepower` over raw bytes.
pub const CODE_NAME: [u8; 18] = [
    0x66, 0x69, 0x6c, 0x2f, 0x37, 0x2f, 0x73, 0x74, 0x6f,
    0x72, 0x61, 0x67, 0x65, 0x70, 0x6f, 0x77, 0x65, 0x72,
];

/// Smoothed estimate of a quantity and of its rate of change.
#[derive(Debug)]
pub struct FilterEstimate {
    pub position: StoragePower,
    pub velocity: StoragePower,
}

/// Power claimed by one miner.
#[derive(Debug)]
pub struct Claim {
    /// Proof type of the miner's window PoSt, as its registered number.
    pub window_post_proof_type: i64,
    /// Sum of raw byte power for the miner's sectors.
    pub raw_byte_power: StoragePower,
    /// Sum of quality adjusted power for the miner's sectors.
    pub quality_adj_power: StoragePower,
}

/// Decoded state of the power actor.
#[derive(Debug)]
pub struct State {
    pub total_raw_byte_power: StoragePower,
    pub total_bytes_committed: StoragePower,
    pub total_quality_adj_power: StoragePower,
    pub total_qa_bytes_committed: StoragePower,
    pub total_pledge_collateral: TokenAmount,
    pub this_epoch_raw_byte_power: StoragePower,
    pub this_epoch_quality_adj_power: StoragePower,
    pub this_epoch_pledge_collateral: TokenAmount,
    pub this_epoch_qa_power_smoothed: FilterEstimate,
    pub miner_count: i64,
    /// Number of miners having proven the minimum consensus power.
    pub miner_above_min_power_count: i64,
    /// Root of the queue of events to be triggered by cron.
    pub cron_event_queue: Cid,
    /// First epoch in which a cron task may be stored.
    pub first_cron_epoch: i64,
    /// Root of the table of claimed power, keyed by miner address.
    pub claims: Cid,
    pub proof_validation_batch: Option<Cid>,
}

} // verus!

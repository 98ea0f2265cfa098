use vstd::prelude::*;

use crate::pubkey::Pubkey;

verus! {

/// A record was created.
#[derive(Debug, PartialEq, Eq)]
pub struct EscrowInitialized {
    pub job_id: u64,
    pub poster: Pubkey,
    pub worker: Pubkey,
    pub amount: u64,
    pub oracles: Vec<Pubkey>,
    pub threshold: u8,
}

/// A record was funded with `amount`.
#[derive(Clone, Copy, Debug, PartialEq, Eq, Structural)]
pub struct EscrowFunded {
    pub job_id: u64,
    pub amount: u64,
}

/// An oracle approved a release; `approvals_count` approvals stand now.
#[derive(Clone, Copy, Debug, PartialEq, Eq)]
pub struct ReleaseApproved {
    pub job_id: u64,
    pub oracle: Pubkey,
    pub approvals_count: u64,
    pub threshold: u8,
}

/// An oracle approved a refund; `approvals_count` approvals stand now.
#[derive(Clone, Copy, Debug, PartialEq, Eq)]
pub struct RefundApproved {
    pub job_id: u64,
    pub oracle: Pubkey,
    pub approvals_count: u64,
    pub threshold: u8,
}

/// A record was paid out to the worker.
#[derive(Debug, PartialEq, Eq)]
pub struct PaymentReleased {
    pub job_id: u64,
    pub worker: Pubkey,
    pub worker_amount: u64,
    pub platform_amount: u64,
    pub juror_amount: u64,
    pub approved_by: Vec<Pubkey>,
}

/// A record was returned to the poster: `amount` to the poster, and after a
/// dispute `juror_amount` to the juror pool and `treasury_amount` to the
/// treasury.
#[derive(Debug, PartialEq, Eq)]
pub struct PaymentRefunded {
    pub job_id: u64,
    pub poster: Pubkey,
    pub amount: u64,
    pub juror_amount: u64,
    pub treasury_amount: u64,
    pub approved_by: Vec<Pubkey>,
}

/// A dispute was opened.
#[derive(Clone, Copy, Debug, PartialEq, Eq)]
pub struct DisputeInitiated {
    pub job_id: u64,
    pub initiator: Pubkey,
}

/// A juror voted.
#[derive(Clone, Copy, Debug, PartialEq, Eq)]
pub struct DisputeVote {
    pub job_id: u64,
    pub juror: Pubkey,
    pub vote_for_worker: bool,
}

} // verus!

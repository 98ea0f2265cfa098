use vstd::prelude::*;

use crate::pubkey::Pubkey;

verus! {

/// Largest number of members an oracle committee may have.
pub const MAX_ORACLES: usize = 5;

/// Grace window, in seconds, after the deadline before the timeout paths open.
pub const TIMEOUT_GRACE: i64 = 172800;

/// Number of juror votes that resolves a dispute for either side.
pub const JUROR_QUORUM: u64 = 2;

/// Lifecycle of an escrow record.
#[derive(Clone, Copy, Debug, PartialEq, Eq, Structural)]
pub enum EscrowStatus {
    Pending,
    Funded,
    Released,
    Refunded,
    Disputed,
}

/// Reasons an operation is refused. A refused operation changes nothing.
#[derive(Clone, Copy, Debug, PartialEq, Eq, Structural)]
pub enum ErrorCode {
    /// The operation is not allowed from the record's current status.
    InvalidStatus,
    /// No record holds this job id, or the deposit does not match it.
    InvalidJobId,
    /// The caller, or the authorization condition, does not permit the operation.
    Unauthorized,
    /// A record for this job id already exists.
    AlreadyExists,
    /// Bad oracle committee or threshold.
    InvalidConfig,
    /// The oracle has already approved this action.
    AlreadyApproved,
    /// The ledger refused a transfer.
    TransferFailed,
}

impl EscrowStatus {
    /// Released and Refunded are terminal: nothing leaves them.
    pub open spec fn is_terminal(self) -> bool {
        self == EscrowStatus::Released || self == EscrowStatus::Refunded
    }

    /// The status graph, reflexive and transitive:
    /// Pending -> Funded -> (Disputed ->) Released | Refunded.
    pub open spec fn leads_to(self, next: EscrowStatus) -> bool {
        self == next || match self {
            EscrowStatus::Pending => true,
            EscrowStatus::Funded => next != EscrowStatus::Pending,
            EscrowStatus::Disputed => next.is_terminal(),
            EscrowStatus::Released | EscrowStatus::Refunded => false,
        }
    }
}

/// The mathematical content of an escrow record.
pub struct EscrowView {
    pub job_id: u64,
    pub poster: Pubkey,
    pub worker: Pubkey,
    pub amount: u64,
    pub deadline: i64,
    pub status: EscrowStatus,
    pub dispute_initiated: bool,
    pub dispute_initiator: Option<Pubkey>,
    pub juror_votes_for_worker: u64,
    pub juror_votes_for_poster: u64,
    pub oracles: Seq<Pubkey>,
    pub threshold: u8,
    pub release_approvals: Seq<Pubkey>,
    pub refund_approvals: Seq<Pubkey>,
}

/// One escrow record: the custody state of one job.
pub struct Escrow {
    pub job_id: u64,
    pub poster: Pubkey,
    pub worker: Pubkey,
    pub amount: u64,
    pub deadline: i64,
    pub status: EscrowStatus,
    pub dispute_initiated: bool,
    pub dispute_initiator: Option<Pubkey>,
    pub juror_votes_for_worker: u64,
    pub juror_votes_for_poster: u64,
    pub oracles: Vec<Pubkey>,
    pub threshold: u8,
    pub release_approvals: Vec<Pubkey>,
    pub refund_approvals: Vec<Pubkey>,
}

impl View for Escrow {
    type V = EscrowView;

    open spec fn view(&self) -> EscrowView {
        EscrowView {
            job_id: self.job_id,
            poster: self.poster,
            worker: self.worker,
            amount: self.amount,
            deadline: self.deadline,
            status: self.status,
            dispute_initiated: self.dispute_initiated,
            dispute_initiator: self.dispute_initiator,
            juror_votes_for_worker: self.juror_votes_for_worker,
            juror_votes_for_poster: self.juror_votes_for_poster,
            oracles: self.oracles@,
            threshold: self.threshold,
            release_approvals: self.release_approvals@,
            refund_approvals: self.refund_approvals@,
        }
    }
}

/// Every member of `approvals` is a member of `oracles`, and none appears twice.
pub open spec fn approvals_ok(approvals: Seq<Pubkey>, oracles: Seq<Pubkey>) -> bool {
    &&& approvals.no_duplicates()
    &&& forall|i: int| 0 <= i < approvals.len() ==> oracles.contains(#[trigger] approvals[i])
}

/// A committee of at most `MAX_ORACLES` distinct members with a threshold in
/// `[1, |oracles|]`.
pub open spec fn config_ok(oracles: Seq<Pubkey>, threshold: u8) -> bool {
    &&& oracles.len() <= MAX_ORACLES
    &&& oracles.no_duplicates()
    &&& 1 <= threshold <= oracles.len()
}

impl EscrowView {
    /// The record's invariant.
    pub open spec fn wf(self) -> bool {
        &&& config_ok(self.oracles, self.threshold)
        &&& approvals_ok(self.release_approvals, self.oracles)
        &&& approvals_ok(self.refund_approvals, self.oracles)
        &&& self.status == EscrowStatus::Pending ==> {
            &&& self.release_approvals.len() == 0
            &&& self.refund_approvals.len() == 0
        }
        &&& self.status == EscrowStatus::Disputed ==> self.dispute_initiated
        &&& self.dispute_initiated <==> self.dispute_initiator is Some
        &&& (self.status == EscrowStatus::Pending || self.status == EscrowStatus::Funded)
            ==> !self.dispute_initiated
        &&& !self.dispute_initiated ==> {
            &&& self.juror_votes_for_worker == 0
            &&& self.juror_votes_for_poster == 0
        }
    }

    /// Whether the record may still receive approvals and payouts.
    pub open spec fn is_open(self) -> bool {
        self.status == EscrowStatus::Funded || self.status == EscrowStatus::Disputed
    }

    /// Whether `now` lies past the deadline plus the grace window.
    pub open spec fn timed_out(self, now: i64) -> bool {
        now > self.deadline + TIMEOUT_GRACE
    }
}

} // verus!

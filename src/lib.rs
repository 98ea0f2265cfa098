//! Escrow and dispute-resolution engine for paying a worker out of funds
//! deposited by a poster, with an oracle committee that approves releases and
//! refunds, and a juror tally for disputes.
//!
//! The host reads signers and the clock and moves tokens; this crate decides.
//! Each operation takes the store of records, the signer (and the time where
//! it matters), and either commits its effect and returns the event and the
//! ledger transfers to make, or refuses with an `ErrorCode` and changes
//! nothing.

mod events;
mod laws;
mod machine;
mod program;
mod pubkey;
mod split;
mod state;
mod store;

pub use events::{
    DisputeInitiated, DisputeVote, EscrowFunded, EscrowInitialized, PaymentRefunded,
    PaymentReleased, RefundApproved, ReleaseApproved,
};
pub use laws::{
    approvals_never_repeat, evolves, lifecycle_has_no_cycles, operations_only_append,
    payout_happens_once, payouts_conserve_amount, second_approval_is_refused,
    status_only_moves_forward, terminal_record_refuses_everything,
};
pub use machine::{
    after_approve_refund, after_approve_release, after_deposit, after_execute_refund,
    after_execute_release, after_initiate_dispute, after_vote, bumped, new_escrow,
    refund_authorized, release_authorized, with_approval,
};
pub use program::{
    approve_refund, approve_release, deposit, execute_refund, execute_release, initialize_escrow,
    initiate_dispute, vote_dispute, Deposit, ExecuteRefund, ExecuteRelease, InitializeEscrow,
    InitiateDispute, OracleAction, VoteDispute,
};
pub use pubkey::Pubkey;
pub use split::{
    percent, percent_of, refund_split, refund_transfers, release_split, release_transfers,
    total_of, Payee, Transfer,
};
pub use state::{
    approvals_ok, config_ok, Escrow, EscrowStatus, EscrowView, ErrorCode, JUROR_QUORUM,
    MAX_ORACLES, TIMEOUT_GRACE,
};
pub use store::EscrowStore;

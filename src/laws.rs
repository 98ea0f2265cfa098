use vstd::prelude::*;

use crate::machine::{
    after_approve_refund, after_approve_release, after_deposit, after_execute_refund,
    after_execute_release, after_initiate_dispute, after_vote,
};
use crate::pubkey::Pubkey;
use crate::split::{percent_of, refund_transfers, release_transfers, total_of};
use crate::state::{EscrowView, ErrorCode};
use crate::store::EscrowStore;

verus! {

/// Every payout hands out exactly the escrowed amount: the three release
/// shares add up to `amount`, the three shares of a refund after a dispute
/// add up to `amount`, and a refund without a dispute is one transfer of the
/// whole `amount` to the poster.
pub proof fn payouts_conserve_amount(amount: u64)
    ensures
        total_of(release_transfers(amount)) == amount,
        total_of(refund_transfers(amount, true)) == amount,
        refund_transfers(amount, false).len() == 1,
        refund_transfers(amount, false)[0].amount == amount,
{
    assert(percent_of(amount, 95) + percent_of(amount, 4) <= amount) by (nonlinear_arith);
    assert(percent_of(amount, 90) + percent_of(amount, 5) <= amount) by (nonlinear_arith);
    assert(0 <= percent_of(amount, 95) && 0 <= percent_of(amount, 4)) by (nonlinear_arith);
    assert(0 <= percent_of(amount, 90) && 0 <= percent_of(amount, 5)) by (nonlinear_arith);
    reveal_with_fuel(total_of, 4);
}

/// An oracle approves each action at most once: right after an approval
/// succeeds, the same oracle's second approval of the same action is refused
/// with `AlreadyApproved`.
pub proof fn second_approval_is_refused(e: EscrowView, oracle: Pubkey)
    requires
        e.wf(),
    ensures
        after_approve_release(e, oracle) matches Ok(v) ==> after_approve_release(v, oracle)
            == Err::<EscrowView, ErrorCode>(ErrorCode::AlreadyApproved),
        after_approve_refund(e, oracle) matches Ok(v) ==> after_approve_refund(v, oracle)
            == Err::<EscrowView, ErrorCode>(ErrorCode::AlreadyApproved),
{
    if let Ok(v) = after_approve_release(e, oracle) {
        assert(v.release_approvals.last() == oracle);
        assert(v.release_approvals.contains(oracle));
    }
    if let Ok(v) = after_approve_refund(e, oracle) {
        assert(v.refund_approvals.last() == oracle);
        assert(v.refund_approvals.contains(oracle));
    }
}

/// In every reachable state of the store, each approval list of each record
/// holds committee members only, none of them twice.
pub proof fn approvals_never_repeat(store: &EscrowStore, job_id: u64)
    requires
        store.wf(),
        store@.contains_key(job_id),
    ensures
        store@[job_id].release_approvals.no_duplicates(),
        store@[job_id].refund_approvals.no_duplicates(),
        forall|o: Pubkey| #[trigger]
            store@[job_id].release_approvals.contains(o) ==> store@[job_id].oracles.contains(o),
        forall|o: Pubkey| #[trigger]
            store@[job_id].refund_approvals.contains(o) ==> store@[job_id].oracles.contains(o),
{
    store.lemma_record_wf(job_id);
}

/// A released or refunded record is final: every operation on it is refused
/// with `InvalidStatus`.
pub proof fn terminal_record_refuses_everything(
    e: EscrowView,
    caller: Pubkey,
    amount: u64,
    now: i64,
    vote_for_worker: bool,
)
    requires
        e.status.is_terminal(),
    ensures
        after_deposit(e, caller, amount) == Err::<EscrowView, ErrorCode>(ErrorCode::InvalidStatus),
        after_approve_release(e, caller) == Err::<EscrowView, ErrorCode>(
            ErrorCode::InvalidStatus,
        ),
        after_approve_refund(e, caller) == Err::<EscrowView, ErrorCode>(ErrorCode::InvalidStatus),
        after_execute_release(e, caller, now) == Err::<EscrowView, ErrorCode>(
            ErrorCode::InvalidStatus,
        ),
        after_execute_refund(e, now) == Err::<EscrowView, ErrorCode>(ErrorCode::InvalidStatus),
        after_initiate_dispute(e, caller) == Err::<EscrowView, ErrorCode>(
            ErrorCode::InvalidStatus,
        ),
        after_vote(e, vote_for_worker) == Err::<EscrowView, ErrorCode>(ErrorCode::InvalidStatus),
{
}

/// No operation moves a record's status backward: whatever succeeds leaves
/// a status that the lifecycle graph reaches from the one before.
pub proof fn status_only_moves_forward(
    e: EscrowView,
    caller: Pubkey,
    amount: u64,
    now: i64,
    vote_for_worker: bool,
)
    ensures
        after_deposit(e, caller, amount) matches Ok(v) ==> e.status.leads_to(v.status),
        after_approve_release(e, caller) matches Ok(v) ==> e.status.leads_to(v.status),
        after_approve_refund(e, caller) matches Ok(v) ==> e.status.leads_to(v.status),
        after_execute_release(e, caller, now) matches Ok(v) ==> e.status.leads_to(v.status),
        after_execute_refund(e, now) matches Ok(v) ==> e.status.leads_to(v.status),
        after_initiate_dispute(e, caller) matches Ok(v) ==> e.status.leads_to(v.status),
        after_vote(e, vote_for_worker) matches Ok(v) ==> e.status.leads_to(v.status),
{
}

/// A status that the lifecycle graph leads to never leads back to an earlier
/// one.
pub proof fn lifecycle_has_no_cycles(e: EscrowView, v: EscrowView)
    requires
        e.status.leads_to(v.status),
        v.status.leads_to(e.status),
    ensures
        e.status == v.status,
{
}

/// A payout happens at most once: after a successful release, a second
/// release or a refund of the same record, by anyone at any time, is refused
/// with `InvalidStatus`; and the same after a successful refund.
pub proof fn payout_happens_once(
    e: EscrowView,
    caller: Pubkey,
    now: i64,
    later_caller: Pubkey,
    later: i64,
)
    ensures
        after_execute_release(e, caller, now) matches Ok(v) ==> {
            &&& after_execute_release(v, later_caller, later) == Err::<EscrowView, ErrorCode>(
                ErrorCode::InvalidStatus,
            )
            &&& after_execute_refund(v, later) == Err::<EscrowView, ErrorCode>(
                ErrorCode::InvalidStatus,
            )
        },
        after_execute_refund(e, now) matches Ok(v) ==> {
            &&& after_execute_release(v, later_caller, later) == Err::<EscrowView, ErrorCode>(
                ErrorCode::InvalidStatus,
            )
            &&& after_execute_refund(v, later) == Err::<EscrowView, ErrorCode>(
                ErrorCode::InvalidStatus,
            )
        },
{
}

/// What may change between a record and its successor: the terms of the job
/// (id, parties, amount, deadline, committee, threshold) stay fixed, the
/// approval lists only grow at their end, the juror counters never go down,
/// and an opened dispute stays recorded.
pub open spec fn evolves(e: EscrowView, v: EscrowView) -> bool {
    &&& v.job_id == e.job_id
    &&& v.poster == e.poster
    &&& v.worker == e.worker
    &&& v.amount == e.amount
    &&& v.deadline == e.deadline
    &&& v.oracles == e.oracles
    &&& v.threshold == e.threshold
    &&& e.release_approvals.is_prefix_of(v.release_approvals)
    &&& e.refund_approvals.is_prefix_of(v.refund_approvals)
    &&& e.juror_votes_for_worker <= v.juror_votes_for_worker
    &&& e.juror_votes_for_poster <= v.juror_votes_for_poster
    &&& e.dispute_initiated ==> v.dispute_initiated && v.dispute_initiator == e.dispute_initiator
}

/// Every operation that succeeds changes a record only as `evolves` allows.
pub proof fn operations_only_append(
    e: EscrowView,
    caller: Pubkey,
    amount: u64,
    now: i64,
    vote_for_worker: bool,
)
    requires
        e.wf(),
    ensures
        after_deposit(e, caller, amount) matches Ok(v) ==> evolves(e, v),
        after_approve_release(e, caller) matches Ok(v) ==> evolves(e, v),
        after_approve_refund(e, caller) matches Ok(v) ==> evolves(e, v),
        after_execute_release(e, caller, now) matches Ok(v) ==> evolves(e, v),
        after_execute_refund(e, now) matches Ok(v) ==> evolves(e, v),
        after_initiate_dispute(e, caller) matches Ok(v) ==> evolves(e, v),
        after_vote(e, vote_for_worker) matches Ok(v) ==> evolves(e, v),
{
    assert(e.release_approvals.is_prefix_of(e.release_approvals));
    assert(e.refund_approvals.is_prefix_of(e.refund_approvals));
    assert(e.release_approvals.is_prefix_of(e.release_approvals.push(caller)));
    assert(e.refund_approvals.is_prefix_of(e.refund_approvals.push(caller)));
}

} // verus!

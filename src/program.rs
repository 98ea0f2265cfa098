use vstd::prelude::*;

use crate::events::{
    DisputeInitiated, DisputeVote, EscrowFunded, EscrowInitialized, PaymentRefunded,
    PaymentReleased, RefundApproved, ReleaseApproved,
};
use crate::machine::{
    after_approve_refund, after_approve_release, after_deposit, after_execute_refund,
    after_execute_release, after_initiate_dispute, after_vote, copy_keys, new_escrow,
};
use crate::pubkey::Pubkey;
use crate::split::{refund_transfers, release_transfers, Transfer};
use crate::state::{Escrow, EscrowStatus, ErrorCode};
use crate::store::EscrowStore;

verus! {

/// Who creates an escrow: the poster, who signs.
#[derive(Clone, Copy, Debug)]
pub struct InitializeEscrow {
    pub poster: Pubkey,
}

/// Who funds an escrow: the poster, who signs.
#[derive(Clone, Copy, Debug)]
pub struct Deposit {
    pub poster: Pubkey,
}

/// The oracle that signs an approval.
#[derive(Clone, Copy, Debug)]
pub struct OracleAction {
    pub oracle: Pubkey,
}

/// Who asks for a release, and the clock's time in seconds.
#[derive(Clone, Copy, Debug)]
pub struct ExecuteRelease {
    pub executor: Pubkey,
    pub now: i64,
}

/// Who asks for a refund, and the clock's time in seconds. The signer is not
/// consulted: a refund's authorization never depends on who asks.
#[derive(Clone, Copy, Debug)]
pub struct ExecuteRefund {
    pub executor: Pubkey,
    pub now: i64,
}

/// Who opens a dispute.
#[derive(Clone, Copy, Debug)]
pub struct InitiateDispute {
    pub initiator: Pubkey,
}

/// The juror who votes.
#[derive(Clone, Copy, Debug)]
pub struct VoteDispute {
    pub juror: Pubkey,
}

/// Creates the record of `job_id` in `Pending`, with the signer as poster.
/// Refuses a job id that already has a record (`AlreadyExists`), and a
/// committee of more than `MAX_ORACLES` members, with a repeated member, or
/// with a threshold outside `[1, |oracles|]` (`InvalidConfig`).
pub fn initialize_escrow(
    store: &mut EscrowStore,
    ctx: &InitializeEscrow,
    job_id: u64,
    amount: u64,
    worker: Pubkey,
    deadline: i64,
    oracles: Vec<Pubkey>,
    threshold: u8,
) -> (r: Result<EscrowInitialized, ErrorCode>)
    requires
        old(store).wf(),
    ensures
        final(store).wf(),
        old(store)@.contains_key(job_id) ==> (r matches Err(e) && e == ErrorCode::AlreadyExists
            && final(store)@ == old(store)@),
        !old(store)@.contains_key(job_id) ==> match new_escrow(
            job_id,
            ctx.poster,
            worker,
            amount,
            deadline,
            oracles@,
            threshold,
        ) {
            Ok(v) => r matches Ok(ev) && final(store)@ == old(store)@.insert(job_id, v) && ev.job_id
                == job_id && ev.poster == ctx.poster && ev.worker == worker && ev.amount == amount
                && ev.oracles@ == oracles@ && ev.threshold == threshold,
            Err(err) => r matches Err(e) && e == err && final(store)@ == old(store)@,
        },
{
    if store.get(job_id).is_some() {
        return Err(ErrorCode::AlreadyExists);
    }
    let listed = copy_keys(&oracles);
    match Escrow::create(job_id, ctx.poster, worker, amount, deadline, oracles, threshold) {
        Ok(e) => {
            store.put(e);
            Ok(
                EscrowInitialized {
                    job_id,
                    poster: ctx.poster,
                    worker,
                    amount,
                    oracles: listed,
                    threshold,
                },
            )
        },
        Err(err) => Err(err),
    }
}

/// Funds the record of `job_id`: from `Pending` to `Funded`. The caller moves
/// `amount` from the poster into custody when this succeeds. Refuses an
/// unknown job id (`InvalidJobId`), a record not in `Pending`
/// (`InvalidStatus`), a signer other than the poster (`Unauthorized`) and an
/// amount other than the configured one (`InvalidJobId`).
pub fn deposit(store: &mut EscrowStore, ctx: &Deposit, job_id: u64, amount: u64) -> (r: Result<
    EscrowFunded,
    ErrorCode,
>)
    requires
        old(store).wf(),
    ensures
        final(store).wf(),
        !old(store)@.contains_key(job_id) ==> r == Err::<EscrowFunded, ErrorCode>(
            ErrorCode::InvalidJobId,
        ) && final(store)@ == old(store)@,
        old(store)@.contains_key(job_id) ==> match after_deposit(
            old(store)@[job_id],
            ctx.poster,
            amount,
        ) {
            Ok(v) => r == Ok::<EscrowFunded, ErrorCode>(EscrowFunded { job_id, amount })
                && final(store)@ == old(store)@.insert(job_id, v),
            Err(err) => r == Err::<EscrowFunded, ErrorCode>(err) && final(store)@ == old(store)@,
        },
{
    let mut e = match store.take(job_id) {
        Some(e) => e,
        None => return Err(ErrorCode::InvalidJobId),
    };
    let r = e.fund(ctx.poster, amount);
    store.put(e);
    proof {
        assert(old(store)@.remove(job_id).insert(job_id, old(store)@[job_id]) =~= old(store)@);
    }
    match r {
        Ok(()) => Ok(EscrowFunded { job_id, amount }),
        Err(err) => Err(err),
    }
}

/// Records the signing oracle's approval of a release of `job_id`. Refuses
/// an unknown job id (`InvalidJobId`), a record neither `Funded` nor
/// `Disputed` (`InvalidStatus`), a signer off the committee
/// (`Unauthorized`) and a second approval by the same oracle
/// (`AlreadyApproved`).
pub fn approve_release(store: &mut EscrowStore, ctx: &OracleAction, job_id: u64) -> (r: Result<
    ReleaseApproved,
    ErrorCode,
>)
    requires
        old(store).wf(),
    ensures
        final(store).wf(),
        !old(store)@.contains_key(job_id) ==> (r matches Err(e) && e == ErrorCode::InvalidJobId
            && final(store)@ == old(store)@),
        old(store)@.contains_key(job_id) ==> match after_approve_release(
            old(store)@[job_id],
            ctx.oracle,
        ) {
            Ok(v) => r matches Ok(ev) && final(store)@ == old(store)@.insert(job_id, v) && ev.job_id
                == job_id && ev.oracle == ctx.oracle && ev.approvals_count
                == v.release_approvals.len() && ev.threshold == v.threshold,
            Err(err) => r matches Err(e) && e == err && final(store)@ == old(store)@,
        },
{
    let mut e = match store.take(job_id) {
        Some(e) => e,
        None => return Err(ErrorCode::InvalidJobId),
    };
    let r = e.approve_release(ctx.oracle);
    let approvals_count = e.release_approvals.len() as u64;
    let threshold = e.threshold;
    store.put(e);
    proof {
        assert(old(store)@.remove(job_id).insert(job_id, old(store)@[job_id]) =~= old(store)@);
    }
    match r {
        Ok(()) => Ok(ReleaseApproved { job_id, oracle: ctx.oracle, approvals_count, threshold }),
        Err(err) => Err(err),
    }
}

/// Records the signing oracle's approval of a refund of `job_id`, under the
/// same rules as `approve_release`.
pub fn approve_refund(store: &mut EscrowStore, ctx: &OracleAction, job_id: u64) -> (r: Result<
    RefundApproved,
    ErrorCode,
>)
    requires
        old(store).wf(),
    ensures
        final(store).wf(),
        !old(store)@.contains_key(job_id) ==> (r matches Err(e) && e == ErrorCode::InvalidJobId
            && final(store)@ == old(store)@),
        old(store)@.contains_key(job_id) ==> match after_approve_refund(
            old(store)@[job_id],
            ctx.oracle,
        ) {
            Ok(v) => r matches Ok(ev) && final(store)@ == old(store)@.insert(job_id, v) && ev.job_id
                == job_id && ev.oracle == ctx.oracle && ev.approvals_count
                == v.refund_approvals.len() && ev.threshold == v.threshold,
            Err(err) => r matches Err(e) && e == err && final(store)@ == old(store)@,
        },
{
    let mut e = match store.take(job_id) {
        Some(e) => e,
        None => return Err(ErrorCode::InvalidJobId),
    };
    let r = e.approve_refund(ctx.oracle);
    let approvals_count = e.refund_approvals.len() as u64;
    let threshold = e.threshold;
    store.put(e);
    proof {
        assert(old(store)@.remove(job_id).insert(job_id, old(store)@[job_id]) =~= old(store)@);
    }
    match r {
        Ok(()) => Ok(RefundApproved { job_id, oracle: ctx.oracle, approvals_count, threshold }),
        Err(err) => Err(err),
    }
}

/// Pays the record of `job_id` out: from `Funded` or `Disputed` to
/// `Released`. Allowed when the release approvals reach the threshold, when
/// a dispute has at least two juror votes for the worker, when the signer is
/// the poster, or when the signer is the worker and `now` is past the
/// deadline plus 48 hours. Returns the event and the transfers to make from
/// custody: 95% to the worker, 4% to the treasury, the rest to the juror
/// pool. Refuses an unknown job id (`InvalidJobId`), another status
/// (`InvalidStatus`) and a missing authorization (`Unauthorized`); a second
/// call on the same job finds it `Released` and pays nothing.
pub fn execute_release(store: &mut EscrowStore, ctx: &ExecuteRelease, job_id: u64) -> (r: Result<
    (PaymentReleased, Vec<Transfer>),
    ErrorCode,
>)
    requires
        old(store).wf(),
    ensures
        final(store).wf(),
        !old(store)@.contains_key(job_id) ==> (r matches Err(e) && e == ErrorCode::InvalidJobId
            && final(store)@ == old(store)@),
        old(store)@.contains_key(job_id) ==> match after_execute_release(
            old(store)@[job_id],
            ctx.executor,
            ctx.now,
        ) {
            Ok(v) => r matches Ok(out) && final(store)@ == old(store)@.insert(job_id, v) && {
                let (ev, transfers) = out;
                let e = old(store)@[job_id];
                &&& transfers@ == release_transfers(e.amount)
                &&& ev.job_id == job_id
                &&& ev.worker == e.worker
                &&& ev.worker_amount == transfers@[0].amount
                &&& ev.platform_amount == transfers@[1].amount
                &&& ev.juror_amount == transfers@[2].amount
                &&& ev.approved_by@ == e.release_approvals
            },
            Err(err) => r matches Err(e) && e == err && final(store)@ == old(store)@,
        },
{
    let mut e = match store.take(job_id) {
        Some(e) => e,
        None => return Err(ErrorCode::InvalidJobId),
    };
    let r = e.release(ctx.executor, ctx.now);
    let worker = e.worker;
    let approved_by = copy_keys(&e.release_approvals);
    store.put(e);
    proof {
        assert(old(store)@.remove(job_id).insert(job_id, old(store)@[job_id]) =~= old(store)@);
    }
    match r {
        Ok(transfers) => {
            let ev = PaymentReleased {
                job_id,
                worker,
                worker_amount: transfers[0].amount,
                platform_amount: transfers[1].amount,
                juror_amount: transfers[2].amount,
                approved_by,
            };
            Ok((ev, transfers))
        },
        Err(err) => Err(err),
    }
}

/// Returns the record of `job_id` to the poster: from `Funded` or
/// `Disputed` to `Refunded`. Allowed when the refund approvals reach the
/// threshold, when a dispute has at least two juror votes for the poster,
/// or, whoever signs, when `now` is past the deadline plus 48 hours. Returns
/// the event and the transfers to make from custody: after a dispute 90% to
/// the poster, 5% to the juror pool and the rest to the treasury; otherwise
/// the whole amount to the poster. Refuses an unknown job id
/// (`InvalidJobId`), another status (`InvalidStatus`) and a missing
/// authorization (`Unauthorized`).
pub fn execute_refund(store: &mut EscrowStore, ctx: &ExecuteRefund, job_id: u64) -> (r: Result<
    (PaymentRefunded, Vec<Transfer>),
    ErrorCode,
>)
    requires
        old(store).wf(),
    ensures
        final(store).wf(),
        !old(store)@.contains_key(job_id) ==> (r matches Err(e) && e == ErrorCode::InvalidJobId
            && final(store)@ == old(store)@),
        old(store)@.contains_key(job_id) ==> match after_execute_refund(
            old(store)@[job_id],
            ctx.now,
        ) {
            Ok(v) => r matches Ok(out) && final(store)@ == old(store)@.insert(job_id, v) && {
                let (ev, transfers) = out;
                let e = old(store)@[job_id];
                let disputed = e.status == EscrowStatus::Disputed;
                &&& transfers@ == refund_transfers(e.amount, disputed)
                &&& ev.job_id == job_id
                &&& ev.poster == e.poster
                &&& ev.amount == transfers@[0].amount
                &&& ev.juror_amount == (if disputed {
                    transfers@[1].amount
                } else {
                    0
                })
                &&& ev.treasury_amount == (if disputed {
                    transfers@[2].amount
                } else {
                    0
                })
                &&& ev.approved_by@ == e.refund_approvals
            },
            Err(err) => r matches Err(e) && e == err && final(store)@ == old(store)@,
        },
{
    let mut e = match store.take(job_id) {
        Some(e) => e,
        None => return Err(ErrorCode::InvalidJobId),
    };
    let disputed = e.status == EscrowStatus::Disputed;
    let r = e.refund(ctx.now);
    let poster = e.poster;
    let approved_by = copy_keys(&e.refund_approvals);
    store.put(e);
    proof {
        assert(old(store)@.remove(job_id).insert(job_id, old(store)@[job_id]) =~= old(store)@);
    }
    match r {
        Ok(transfers) => {
            let (juror_amount, treasury_amount) = if disputed {
                (transfers[1].amount, transfers[2].amount)
            } else {
                (0, 0)
            };
            let ev = PaymentRefunded {
                job_id,
                poster,
                amount: transfers[0].amount,
                juror_amount,
                treasury_amount,
                approved_by,
            };
            Ok((ev, transfers))
        },
        Err(err) => Err(err),
    }
}

/// Opens a dispute on the record of `job_id`: from `Funded` to `Disputed`,
/// recording the signer as initiator. Refuses an unknown job id
/// (`InvalidJobId`), another status, a second dispute included
/// (`InvalidStatus`), and a signer who is neither poster nor worker
/// (`Unauthorized`).
pub fn initiate_dispute(store: &mut EscrowStore, ctx: &InitiateDispute, job_id: u64) -> (r:
    Result<DisputeInitiated, ErrorCode>)
    requires
        old(store).wf(),
    ensures
        final(store).wf(),
        !old(store)@.contains_key(job_id) ==> (r matches Err(e) && e == ErrorCode::InvalidJobId
            && final(store)@ == old(store)@),
        old(store)@.contains_key(job_id) ==> match after_initiate_dispute(
            old(store)@[job_id],
            ctx.initiator,
        ) {
            Ok(v) => r matches Ok(ev) && final(store)@ == old(store)@.insert(job_id, v) && ev
                == DisputeInitiated { job_id, initiator: ctx.initiator },
            Err(err) => r matches Err(e) && e == err && final(store)@ == old(store)@,
        },
{
    let mut e = match store.take(job_id) {
        Some(e) => e,
        None => return Err(ErrorCode::InvalidJobId),
    };
    let r = e.open_dispute(ctx.initiator);
    store.put(e);
    proof {
        assert(old(store)@.remove(job_id).insert(job_id, old(store)@[job_id]) =~= old(store)@);
    }
    match r {
        Ok(()) => Ok(DisputeInitiated { job_id, initiator: ctx.initiator }),
        Err(err) => Err(err),
    }
}

/// Counts the signing juror's vote on the disputed record of `job_id`, for
/// the worker or for the poster. Any signer may vote, any number of times.
/// Refuses an unknown job id (`InvalidJobId`) and a record not `Disputed`
/// (`InvalidStatus`).
pub fn vote_dispute(
    store: &mut EscrowStore,
    ctx: &VoteDispute,
    job_id: u64,
    vote_for_worker: bool,
) -> (r: Result<DisputeVote, ErrorCode>)
    requires
        old(store).wf(),
    ensures
        final(store).wf(),
        !old(store)@.contains_key(job_id) ==> (r matches Err(e) && e == ErrorCode::InvalidJobId
            && final(store)@ == old(store)@),
        old(store)@.contains_key(job_id) ==> match after_vote(
            old(store)@[job_id],
            vote_for_worker,
        ) {
            Ok(v) => r matches Ok(ev) && final(store)@ == old(store)@.insert(job_id, v) && ev
                == DisputeVote { job_id, juror: ctx.juror, vote_for_worker },
            Err(err) => r matches Err(e) && e == err && final(store)@ == old(store)@,
        },
{
    let mut e = match store.take(job_id) {
        Some(e) => e,
        None => return Err(ErrorCode::InvalidJobId),
    };
    let r = e.record_vote(vote_for_worker);
    store.put(e);
    proof {
        assert(old(store)@.remove(job_id).insert(job_id, old(store)@[job_id]) =~= old(store)@);
    }
    match r {
        Ok(()) => Ok(DisputeVote { job_id, juror: ctx.juror, vote_for_worker }),
        Err(err) => Err(err),
    }
}

} // verus!

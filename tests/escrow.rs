use skill_issue_escrow::{
    approve_refund, approve_release, deposit, execute_refund, execute_release, initialize_escrow,
    initiate_dispute, vote_dispute, Deposit, ErrorCode, EscrowStatus, EscrowStore, ExecuteRefund,
    ExecuteRelease, InitializeEscrow, InitiateDispute, OracleAction, Payee, Pubkey, Transfer,
    VoteDispute,
};

const GRACE: i64 = 48 * 3600;
const DEADLINE: i64 = 1_700_000_000;

fn key(n: u8) -> Pubkey {
    Pubkey::new_from_array([n; 32])
}

fn poster() -> Pubkey {
    key(1)
}

fn worker() -> Pubkey {
    key(2)
}

fn oracle(i: u8) -> Pubkey {
    key(10 + i)
}

fn stranger() -> Pubkey {
    key(99)
}

fn t(to: Payee, amount: u64) -> Transfer {
    Transfer { to, amount }
}

/// Job 1: amount 1000, oracles O1..O3, threshold 2.
fn initialized() -> EscrowStore {
    let mut store = EscrowStore::new();
    let r = initialize_escrow(
        &mut store,
        &InitializeEscrow { poster: poster() },
        1,
        1000,
        worker(),
        DEADLINE,
        vec![oracle(1), oracle(2), oracle(3)],
        2,
    );
    assert!(r.is_ok());
    store
}

fn funded() -> EscrowStore {
    let mut store = initialized();
    deposit(&mut store, &Deposit { poster: poster() }, 1, 1000).unwrap();
    store
}

fn disputed_by_worker() -> EscrowStore {
    let mut store = funded();
    initiate_dispute(&mut store, &InitiateDispute { initiator: worker() }, 1).unwrap();
    store
}

fn status(store: &EscrowStore) -> EscrowStatus {
    store.get(1).unwrap().status
}

fn release_by(store: &mut EscrowStore, who: Pubkey, now: i64) -> Result<Vec<Transfer>, ErrorCode> {
    execute_release(store, &ExecuteRelease { executor: who, now }, 1).map(|(_, ts)| ts)
}

fn refund_by(store: &mut EscrowStore, who: Pubkey, now: i64) -> Result<Vec<Transfer>, ErrorCode> {
    execute_refund(store, &ExecuteRefund { executor: who, now }, 1).map(|(_, ts)| ts)
}

fn released() -> EscrowStore {
    let mut store = funded();
    release_by(&mut store, poster(), DEADLINE).unwrap();
    store
}

fn refunded() -> EscrowStore {
    let mut store = funded();
    refund_by(&mut store, stranger(), DEADLINE + GRACE + 1).unwrap();
    store
}

#[test]
fn scenario_threshold_release() {
    let mut store = initialized();
    deposit(&mut store, &Deposit { poster: poster() }, 1, 1000).unwrap();
    approve_release(&mut store, &OracleAction { oracle: oracle(1) }, 1).unwrap();
    approve_release(&mut store, &OracleAction { oracle: oracle(2) }, 1).unwrap();
    let (ev, transfers) =
        execute_release(&mut store, &ExecuteRelease { executor: oracle(3), now: DEADLINE }, 1)
            .unwrap();
    assert_eq!(
        transfers,
        vec![t(Payee::Worker, 950), t(Payee::Treasury, 40), t(Payee::JurorPool, 10)]
    );
    assert_eq!(status(&store), EscrowStatus::Released);
    assert_eq!(ev.job_id, 1);
    assert_eq!(ev.worker, worker());
    assert_eq!((ev.worker_amount, ev.platform_amount, ev.juror_amount), (950, 40, 10));
    assert_eq!(ev.approved_by, vec![oracle(1), oracle(2)]);
}

#[test]
fn scenario_juror_refund_after_dispute() {
    let mut store = disputed_by_worker();
    vote_dispute(&mut store, &VoteDispute { juror: key(50) }, 1, false).unwrap();
    vote_dispute(&mut store, &VoteDispute { juror: key(51) }, 1, false).unwrap();
    assert_eq!(store.get(1).unwrap().refund_approvals.len(), 0);
    let (ev, transfers) =
        execute_refund(&mut store, &ExecuteRefund { executor: stranger(), now: DEADLINE }, 1)
            .unwrap();
    assert_eq!(
        transfers,
        vec![t(Payee::Poster, 900), t(Payee::JurorPool, 50), t(Payee::Treasury, 50)]
    );
    assert_eq!(status(&store), EscrowStatus::Refunded);
    assert_eq!((ev.amount, ev.juror_amount, ev.treasury_amount), (900, 50, 50));
    assert_eq!(ev.poster, poster());
}

#[test]
fn scenario_timeout_refund_without_dispute() {
    let mut store = funded();
    assert_eq!(status(&store), EscrowStatus::Funded);
    let (ev, transfers) = execute_refund(
        &mut store,
        &ExecuteRefund { executor: stranger(), now: DEADLINE + GRACE + 1 },
        1,
    )
    .unwrap();
    assert_eq!(transfers, vec![t(Payee::Poster, 1000)]);
    assert_eq!((ev.amount, ev.juror_amount, ev.treasury_amount), (1000, 0, 0));
    assert_eq!(status(&store), EscrowStatus::Refunded);
}

#[test]
fn scenario_invalid_config() {
    let mut store = EscrowStore::new();
    let six: Vec<Pubkey> = (1..=6).map(oracle).collect();
    let r = initialize_escrow(
        &mut store,
        &InitializeEscrow { poster: poster() },
        1,
        1000,
        worker(),
        DEADLINE,
        six,
        2,
    );
    assert_eq!(r.unwrap_err(), ErrorCode::InvalidConfig);
    let r = initialize_escrow(
        &mut store,
        &InitializeEscrow { poster: poster() },
        1,
        1000,
        worker(),
        DEADLINE,
        vec![oracle(1), oracle(2), oracle(3)],
        0,
    );
    assert_eq!(r.unwrap_err(), ErrorCode::InvalidConfig);
    assert!(store.get(1).is_none());
}

#[test]
fn threshold_above_committee_size_is_invalid() {
    let mut store = EscrowStore::new();
    let r = initialize_escrow(
        &mut store,
        &InitializeEscrow { poster: poster() },
        1,
        1000,
        worker(),
        DEADLINE,
        vec![oracle(1), oracle(2)],
        3,
    );
    assert_eq!(r.unwrap_err(), ErrorCode::InvalidConfig);
}

#[test]
fn repeated_oracle_is_invalid() {
    let mut store = EscrowStore::new();
    let r = initialize_escrow(
        &mut store,
        &InitializeEscrow { poster: poster() },
        1,
        1000,
        worker(),
        DEADLINE,
        vec![oracle(1), oracle(2), oracle(1)],
        2,
    );
    assert_eq!(r.unwrap_err(), ErrorCode::InvalidConfig);
}

#[test]
fn five_oracles_and_full_threshold_are_accepted() {
    let mut store = EscrowStore::new();
    let five: Vec<Pubkey> = (1..=5).map(oracle).collect();
    let ev = initialize_escrow(
        &mut store,
        &InitializeEscrow { poster: poster() },
        7,
        1000,
        worker(),
        DEADLINE,
        five.clone(),
        5,
    )
    .unwrap();
    assert_eq!(ev.job_id, 7);
    assert_eq!(ev.poster, poster());
    assert_eq!(ev.worker, worker());
    assert_eq!(ev.amount, 1000);
    assert_eq!(ev.oracles, five);
    assert_eq!(ev.threshold, 5);
    let e = store.get(7).unwrap();
    assert_eq!(e.status, EscrowStatus::Pending);
    assert!(!e.dispute_initiated);
    assert!(e.is_well_formed());
}

#[test]
fn empty_committee_is_invalid() {
    let mut store = EscrowStore::new();
    let r = initialize_escrow(
        &mut store,
        &InitializeEscrow { poster: poster() },
        1,
        1000,
        worker(),
        DEADLINE,
        vec![],
        1,
    );
    assert_eq!(r.unwrap_err(), ErrorCode::InvalidConfig);
}

#[test]
fn second_initialize_already_exists() {
    let mut store = funded();
    let r = initialize_escrow(
        &mut store,
        &InitializeEscrow { poster: stranger() },
        1,
        5,
        stranger(),
        0,
        vec![oracle(1)],
        1,
    );
    assert_eq!(r.unwrap_err(), ErrorCode::AlreadyExists);
    let e = store.get(1).unwrap();
    assert_eq!(e.amount, 1000);
    assert_eq!(e.poster, poster());
    assert_eq!(e.status, EscrowStatus::Funded);
}

#[test]
fn deposit_funds_pending_record() {
    let mut store = initialized();
    let ev = deposit(&mut store, &Deposit { poster: poster() }, 1, 1000).unwrap();
    assert_eq!((ev.job_id, ev.amount), (1, 1000));
    assert_eq!(status(&store), EscrowStatus::Funded);
}

#[test]
fn deposit_twice_is_invalid_status() {
    let mut store = funded();
    let r = deposit(&mut store, &Deposit { poster: poster() }, 1, 1000);
    assert_eq!(r.unwrap_err(), ErrorCode::InvalidStatus);
    assert_eq!(status(&store), EscrowStatus::Funded);
}

#[test]
fn deposit_of_other_amount_is_refused() {
    let mut store = initialized();
    assert_eq!(
        deposit(&mut store, &Deposit { poster: poster() }, 1, 999).unwrap_err(),
        ErrorCode::InvalidJobId
    );
    assert_eq!(
        deposit(&mut store, &Deposit { poster: poster() }, 1, 1001).unwrap_err(),
        ErrorCode::InvalidJobId
    );
    assert_eq!(status(&store), EscrowStatus::Pending);
}

#[test]
fn deposit_by_other_than_poster_is_unauthorized() {
    let mut store = initialized();
    let r = deposit(&mut store, &Deposit { poster: worker() }, 1, 1000);
    assert_eq!(r.unwrap_err(), ErrorCode::Unauthorized);
    assert_eq!(status(&store), EscrowStatus::Pending);
}

#[test]
fn unknown_job_is_invalid_job_id() {
    let mut store = funded();
    assert_eq!(
        deposit(&mut store, &Deposit { poster: poster() }, 2, 1000).unwrap_err(),
        ErrorCode::InvalidJobId
    );
    assert_eq!(
        approve_release(&mut store, &OracleAction { oracle: oracle(1) }, 2).unwrap_err(),
        ErrorCode::InvalidJobId
    );
    assert_eq!(
        approve_refund(&mut store, &OracleAction { oracle: oracle(1) }, 2).unwrap_err(),
        ErrorCode::InvalidJobId
    );
    assert_eq!(
        execute_release(&mut store, &ExecuteRelease { executor: poster(), now: 0 }, 2)
            .unwrap_err(),
        ErrorCode::InvalidJobId
    );
    assert_eq!(
        execute_refund(&mut store, &ExecuteRefund { executor: poster(), now: i64::MAX }, 2)
            .unwrap_err(),
        ErrorCode::InvalidJobId
    );
    assert_eq!(
        initiate_dispute(&mut store, &InitiateDispute { initiator: poster() }, 2).unwrap_err(),
        ErrorCode::InvalidJobId
    );
    assert_eq!(
        vote_dispute(&mut store, &VoteDispute { juror: key(50) }, 2, true).unwrap_err(),
        ErrorCode::InvalidJobId
    );
    assert!(store.get(2).is_none());
}

#[test]
fn approve_twice_is_already_approved() {
    let mut store = funded();
    let ev = approve_release(&mut store, &OracleAction { oracle: oracle(1) }, 1).unwrap();
    assert_eq!((ev.job_id, ev.oracle, ev.approvals_count, ev.threshold), (1, oracle(1), 1, 2));
    let r = approve_release(&mut store, &OracleAction { oracle: oracle(1) }, 1);
    assert_eq!(r.unwrap_err(), ErrorCode::AlreadyApproved);
    assert_eq!(store.get(1).unwrap().release_approvals.len(), 1);

    let ev = approve_refund(&mut store, &OracleAction { oracle: oracle(2) }, 1).unwrap();
    assert_eq!((ev.job_id, ev.oracle, ev.approvals_count, ev.threshold), (1, oracle(2), 1, 2));
    let r = approve_refund(&mut store, &OracleAction { oracle: oracle(2) }, 1);
    assert_eq!(r.unwrap_err(), ErrorCode::AlreadyApproved);
    assert_eq!(store.get(1).unwrap().refund_approvals.len(), 1);
}

#[test]
fn approvals_are_tracked_per_action() {
    let mut store = funded();
    approve_release(&mut store, &OracleAction { oracle: oracle(1) }, 1).unwrap();
    let ev = approve_refund(&mut store, &OracleAction { oracle: oracle(1) }, 1).unwrap();
    assert_eq!(ev.approvals_count, 1);
    let ev = approve_release(&mut store, &OracleAction { oracle: oracle(3) }, 1).unwrap();
    assert_eq!(ev.approvals_count, 2);
    let e = store.get(1).unwrap();
    assert_eq!(e.release_approvals, vec![oracle(1), oracle(3)]);
    assert_eq!(e.refund_approvals, vec![oracle(1)]);
}

#[test]
fn approval_by_non_oracle_is_unauthorized() {
    let mut store = funded();
    assert_eq!(
        approve_release(&mut store, &OracleAction { oracle: poster() }, 1).unwrap_err(),
        ErrorCode::Unauthorized
    );
    assert_eq!(
        approve_refund(&mut store, &OracleAction { oracle: stranger() }, 1).unwrap_err(),
        ErrorCode::Unauthorized
    );
    assert_eq!(store.get(1).unwrap().release_approvals.len(), 0);
}

#[test]
fn approval_before_funding_is_invalid_status() {
    let mut store = initialized();
    assert_eq!(
        approve_release(&mut store, &OracleAction { oracle: oracle(1) }, 1).unwrap_err(),
        ErrorCode::InvalidStatus
    );
    assert_eq!(
        approve_refund(&mut store, &OracleAction { oracle: oracle(1) }, 1).unwrap_err(),
        ErrorCode::InvalidStatus
    );
}

#[test]
fn approval_during_dispute_is_accepted() {
    let mut store = disputed_by_worker();
    approve_refund(&mut store, &OracleAction { oracle: oracle(1) }, 1).unwrap();
    approve_refund(&mut store, &OracleAction { oracle: oracle(2) }, 1).unwrap();
    let ts = refund_by(&mut store, stranger(), DEADLINE).unwrap();
    assert_eq!(ts, vec![t(Payee::Poster, 900), t(Payee::JurorPool, 50), t(Payee::Treasury, 50)]);
}

#[test]
fn one_approval_below_threshold_is_not_enough() {
    let mut store = funded();
    approve_release(&mut store, &OracleAction { oracle: oracle(1) }, 1).unwrap();
    assert_eq!(release_by(&mut store, stranger(), DEADLINE).unwrap_err(), ErrorCode::Unauthorized);
    approve_refund(&mut store, &OracleAction { oracle: oracle(1) }, 1).unwrap();
    assert_eq!(refund_by(&mut store, stranger(), DEADLINE).unwrap_err(), ErrorCode::Unauthorized);
    assert_eq!(status(&store), EscrowStatus::Funded);
}

#[test]
fn poster_may_release_at_once() {
    let mut store = funded();
    let ts = release_by(&mut store, poster(), 0).unwrap();
    assert_eq!(ts, vec![t(Payee::Worker, 950), t(Payee::Treasury, 40), t(Payee::JurorPool, 10)]);
}

#[test]
fn worker_release_waits_for_grace_window() {
    let mut store = funded();
    assert_eq!(
        release_by(&mut store, worker(), DEADLINE + GRACE).unwrap_err(),
        ErrorCode::Unauthorized
    );
    assert_eq!(status(&store), EscrowStatus::Funded);
    let ts = release_by(&mut store, worker(), DEADLINE + GRACE + 1).unwrap();
    assert_eq!(ts[0], t(Payee::Worker, 950));
    assert_eq!(status(&store), EscrowStatus::Released);
}

#[test]
fn worker_release_with_threshold_needs_no_wait() {
    let mut store = funded();
    approve_release(&mut store, &OracleAction { oracle: oracle(2) }, 1).unwrap();
    approve_release(&mut store, &OracleAction { oracle: oracle(3) }, 1).unwrap();
    assert!(release_by(&mut store, worker(), DEADLINE).is_ok());
}

#[test]
fn stranger_cannot_release_even_after_deadline() {
    let mut store = funded();
    assert_eq!(
        release_by(&mut store, stranger(), i64::MAX).unwrap_err(),
        ErrorCode::Unauthorized
    );
}

#[test]
fn refund_timeout_boundary() {
    let mut store = funded();
    assert_eq!(refund_by(&mut store, stranger(), DEADLINE + GRACE).unwrap_err(), ErrorCode::Unauthorized);
    assert_eq!(refund_by(&mut store, poster(), DEADLINE).unwrap_err(), ErrorCode::Unauthorized);
    assert!(refund_by(&mut store, stranger(), DEADLINE + GRACE + 1).is_ok());
}

#[test]
fn deadline_near_the_integer_limit_does_not_overflow() {
    let mut store = EscrowStore::new();
    initialize_escrow(
        &mut store,
        &InitializeEscrow { poster: poster() },
        1,
        1000,
        worker(),
        i64::MAX,
        vec![oracle(1)],
        1,
    )
    .unwrap();
    deposit(&mut store, &Deposit { poster: poster() }, 1, 1000).unwrap();
    assert_eq!(refund_by(&mut store, stranger(), i64::MAX).unwrap_err(), ErrorCode::Unauthorized);
    assert_eq!(release_by(&mut store, worker(), i64::MAX).unwrap_err(), ErrorCode::Unauthorized);

    let mut store = EscrowStore::new();
    initialize_escrow(
        &mut store,
        &InitializeEscrow { poster: poster() },
        1,
        1000,
        worker(),
        i64::MIN,
        vec![oracle(1)],
        1,
    )
    .unwrap();
    deposit(&mut store, &Deposit { poster: poster() }, 1, 1000).unwrap();
    assert!(refund_by(&mut store, stranger(), i64::MIN + GRACE + 1).is_ok());
}

#[test]
fn oracle_refund_threshold_without_dispute() {
    let mut store = funded();
    approve_refund(&mut store, &OracleAction { oracle: oracle(1) }, 1).unwrap();
    approve_refund(&mut store, &OracleAction { oracle: oracle(3) }, 1).unwrap();
    let (ev, ts) =
        execute_refund(&mut store, &ExecuteRefund { executor: stranger(), now: 0 }, 1).unwrap();
    assert_eq!(ts, vec![t(Payee::Poster, 1000)]);
    assert_eq!(ev.approved_by, vec![oracle(1), oracle(3)]);
}

#[test]
fn juror_votes_for_worker_release() {
    let mut store = disputed_by_worker();
    vote_dispute(&mut store, &VoteDispute { juror: key(50) }, 1, true).unwrap();
    assert_eq!(release_by(&mut store, stranger(), DEADLINE).unwrap_err(), ErrorCode::Unauthorized);
    let ev = vote_dispute(&mut store, &VoteDispute { juror: key(50) }, 1, true).unwrap();
    assert_eq!((ev.job_id, ev.juror, ev.vote_for_worker), (1, key(50), true));
    assert_eq!(store.get(1).unwrap().juror_votes_for_worker, 2);
    let ts = release_by(&mut store, stranger(), DEADLINE).unwrap();
    assert_eq!(ts, vec![t(Payee::Worker, 950), t(Payee::Treasury, 40), t(Payee::JurorPool, 10)]);
}

#[test]
fn votes_for_the_other_side_do_not_authorize() {
    let mut store = disputed_by_worker();
    vote_dispute(&mut store, &VoteDispute { juror: key(50) }, 1, true).unwrap();
    vote_dispute(&mut store, &VoteDispute { juror: key(51) }, 1, true).unwrap();
    assert_eq!(refund_by(&mut store, stranger(), DEADLINE).unwrap_err(), ErrorCode::Unauthorized);
    let e = store.get(1).unwrap();
    assert_eq!((e.juror_votes_for_worker, e.juror_votes_for_poster), (2, 0));
}

#[test]
fn dispute_records_initiator() {
    let mut store = funded();
    let ev = initiate_dispute(&mut store, &InitiateDispute { initiator: poster() }, 1).unwrap();
    assert_eq!((ev.job_id, ev.initiator), (1, poster()));
    let e = store.get(1).unwrap();
    assert_eq!(e.status, EscrowStatus::Disputed);
    assert!(e.dispute_initiated);
    assert_eq!(e.dispute_initiator, Some(poster()));
}

#[test]
fn dispute_by_stranger_is_unauthorized() {
    let mut store = funded();
    let r = initiate_dispute(&mut store, &InitiateDispute { initiator: oracle(1) }, 1);
    assert_eq!(r.unwrap_err(), ErrorCode::Unauthorized);
    assert_eq!(status(&store), EscrowStatus::Funded);
}

#[test]
fn dispute_twice_or_before_funding_is_invalid_status() {
    let mut store = initialized();
    assert_eq!(
        initiate_dispute(&mut store, &InitiateDispute { initiator: poster() }, 1).unwrap_err(),
        ErrorCode::InvalidStatus
    );
    let mut store = disputed_by_worker();
    assert_eq!(
        initiate_dispute(&mut store, &InitiateDispute { initiator: poster() }, 1).unwrap_err(),
        ErrorCode::InvalidStatus
    );
}

#[test]
fn vote_without_dispute_is_invalid_status() {
    let mut store = funded();
    let r = vote_dispute(&mut store, &VoteDispute { juror: key(50) }, 1, true);
    assert_eq!(r.unwrap_err(), ErrorCode::InvalidStatus);
    assert_eq!(store.get(1).unwrap().juror_votes_for_worker, 0);
}

#[test]
fn second_release_pays_nothing() {
    let mut store = funded();
    assert!(release_by(&mut store, poster(), DEADLINE).is_ok());
    assert_eq!(release_by(&mut store, poster(), DEADLINE).unwrap_err(), ErrorCode::InvalidStatus);
    assert_eq!(status(&store), EscrowStatus::Released);
}

fn every_operation_is_invalid_status(store: &mut EscrowStore) {
    let before = status(store);
    assert_eq!(
        deposit(store, &Deposit { poster: poster() }, 1, 1000).unwrap_err(),
        ErrorCode::InvalidStatus
    );
    assert_eq!(
        approve_release(store, &OracleAction { oracle: oracle(1) }, 1).unwrap_err(),
        ErrorCode::InvalidStatus
    );
    assert_eq!(
        approve_refund(store, &OracleAction { oracle: oracle(1) }, 1).unwrap_err(),
        ErrorCode::InvalidStatus
    );
    assert_eq!(release_by(store, poster(), i64::MAX).unwrap_err(), ErrorCode::InvalidStatus);
    assert_eq!(refund_by(store, poster(), i64::MAX).unwrap_err(), ErrorCode::InvalidStatus);
    assert_eq!(
        initiate_dispute(store, &InitiateDispute { initiator: worker() }, 1).unwrap_err(),
        ErrorCode::InvalidStatus
    );
    assert_eq!(
        vote_dispute(store, &VoteDispute { juror: key(50) }, 1, false).unwrap_err(),
        ErrorCode::InvalidStatus
    );
    assert_eq!(status(store), before);
}

#[test]
fn released_record_refuses_everything() {
    let mut store = released();
    every_operation_is_invalid_status(&mut store);
}

#[test]
fn refunded_record_refuses_everything() {
    let mut store = refunded();
    every_operation_is_invalid_status(&mut store);
}

#[test]
fn disputed_then_released_refuses_everything() {
    let mut store = disputed_by_worker();
    release_by(&mut store, poster(), DEADLINE).unwrap();
    assert!(store.get(1).unwrap().dispute_initiated);
    every_operation_is_invalid_status(&mut store);
}

#[test]
fn records_of_different_jobs_are_independent() {
    let mut store = funded();
    initialize_escrow(
        &mut store,
        &InitializeEscrow { poster: poster() },
        2,
        500,
        worker(),
        DEADLINE,
        vec![oracle(1)],
        1,
    )
    .unwrap();
    release_by(&mut store, poster(), DEADLINE).unwrap();
    let e2 = store.get(2).unwrap();
    assert_eq!(e2.status, EscrowStatus::Pending);
    assert_eq!(e2.amount, 500);
}

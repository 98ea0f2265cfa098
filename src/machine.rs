use vstd::prelude::*;

use crate::pubkey::Pubkey;
use crate::split::{refund_split, release_split, refund_transfers, release_transfers, Transfer};
use crate::state::{
    approvals_ok, config_ok, Escrow, EscrowStatus, EscrowView, ErrorCode, JUROR_QUORUM,
    MAX_ORACLES, TIMEOUT_GRACE,
};

verus! {

/// A fresh record in `Pending`, or `InvalidConfig` for a bad committee.
pub open spec fn new_escrow(
    job_id: u64,
    poster: Pubkey,
    worker: Pubkey,
    amount: u64,
    deadline: i64,
    oracles: Seq<Pubkey>,
    threshold: u8,
) -> Result<EscrowView, ErrorCode> {
    if !config_ok(oracles, threshold) {
        Err(ErrorCode::InvalidConfig)
    } else {
        Ok(
            EscrowView {
                job_id,
                poster,
                worker,
                amount,
                deadline,
                status: EscrowStatus::Pending,
                dispute_initiated: false,
                dispute_initiator: None,
                juror_votes_for_worker: 0,
                juror_votes_for_poster: 0,
                oracles,
                threshold,
                release_approvals: Seq::empty(),
                refund_approvals: Seq::empty(),
            },
        )
    }
}

/// Funding: only from `Pending`, only by the poster, only for the configured
/// amount.
pub open spec fn after_deposit(e: EscrowView, caller: Pubkey, amount: u64) -> Result<
    EscrowView,
    ErrorCode,
> {
    if e.status != EscrowStatus::Pending {
        Err(ErrorCode::InvalidStatus)
    } else if caller != e.poster {
        Err(ErrorCode::Unauthorized)
    } else if amount != e.amount {
        Err(ErrorCode::InvalidJobId)
    } else {
        Ok(EscrowView { status: EscrowStatus::Funded, ..e })
    }
}

/// Adds `oracle` to `approvals`, when the record is open, the oracle sits on
/// the committee and has not approved yet.
pub open spec fn with_approval(e: EscrowView, approvals: Seq<Pubkey>, oracle: Pubkey) -> Result<
    Seq<Pubkey>,
    ErrorCode,
> {
    if !e.is_open() {
        Err(ErrorCode::InvalidStatus)
    } else if !e.oracles.contains(oracle) {
        Err(ErrorCode::Unauthorized)
    } else if approvals.contains(oracle) {
        Err(ErrorCode::AlreadyApproved)
    } else {
        Ok(approvals.push(oracle))
    }
}

pub open spec fn after_approve_release(e: EscrowView, oracle: Pubkey) -> Result<
    EscrowView,
    ErrorCode,
> {
    match with_approval(e, e.release_approvals, oracle) {
        Ok(a) => Ok(EscrowView { release_approvals: a, ..e }),
        Err(err) => Err(err),
    }
}

pub open spec fn after_approve_refund(e: EscrowView, oracle: Pubkey) -> Result<
    EscrowView,
    ErrorCode,
> {
    match with_approval(e, e.refund_approvals, oracle) {
        Ok(a) => Ok(EscrowView { refund_approvals: a, ..e }),
        Err(err) => Err(err),
    }
}

/// A release is authorized by the oracle threshold, by a dispute that the
/// jurors settled for the worker, by the poster, or by the worker once the
/// deadline and the grace window have passed.
pub open spec fn release_authorized(e: EscrowView, caller: Pubkey, now: i64) -> bool {
    ||| e.release_approvals.len() >= e.threshold
    ||| e.status == EscrowStatus::Disputed && e.juror_votes_for_worker >= JUROR_QUORUM
    ||| caller == e.poster
    ||| caller == e.worker && e.timed_out(now)
}

/// A refund is authorized by the oracle threshold, by a dispute that the
/// jurors settled for the poster, or by anyone once the deadline and the
/// grace window have passed.
pub open spec fn refund_authorized(e: EscrowView, now: i64) -> bool {
    ||| e.refund_approvals.len() >= e.threshold
    ||| e.status == EscrowStatus::Disputed && e.juror_votes_for_poster >= JUROR_QUORUM
    ||| e.timed_out(now)
}

pub open spec fn after_execute_release(e: EscrowView, caller: Pubkey, now: i64) -> Result<
    EscrowView,
    ErrorCode,
> {
    if !e.is_open() {
        Err(ErrorCode::InvalidStatus)
    } else if !release_authorized(e, caller, now) {
        Err(ErrorCode::Unauthorized)
    } else {
        Ok(EscrowView { status: EscrowStatus::Released, ..e })
    }
}

pub open spec fn after_execute_refund(e: EscrowView, now: i64) -> Result<EscrowView, ErrorCode> {
    if !e.is_open() {
        Err(ErrorCode::InvalidStatus)
    } else if !refund_authorized(e, now) {
        Err(ErrorCode::Unauthorized)
    } else {
        Ok(EscrowView { status: EscrowStatus::Refunded, ..e })
    }
}

/// Opening a dispute: only from `Funded`, only by the poster or the worker.
pub open spec fn after_initiate_dispute(e: EscrowView, caller: Pubkey) -> Result<
    EscrowView,
    ErrorCode,
> {
    if e.status != EscrowStatus::Funded {
        Err(ErrorCode::InvalidStatus)
    } else if caller != e.poster && caller != e.worker {
        Err(ErrorCode::Unauthorized)
    } else {
        Ok(
            EscrowView {
                status: EscrowStatus::Disputed,
                dispute_initiated: true,
                dispute_initiator: Some(caller),
                ..e
            },
        )
    }
}

/// `x + 1`, held at `u64::MAX`.
pub open spec fn bumped(x: u64) -> u64 {
    if x < u64::MAX {
        (x + 1) as u64
    } else {
        x
    }
}

/// A juror vote: only while `Disputed`; counts one vote for the chosen side.
pub open spec fn after_vote(e: EscrowView, vote_for_worker: bool) -> Result<
    EscrowView,
    ErrorCode,
> {
    if e.status != EscrowStatus::Disputed {
        Err(ErrorCode::InvalidStatus)
    } else if vote_for_worker {
        Ok(EscrowView { juror_votes_for_worker: bumped(e.juror_votes_for_worker), ..e })
    } else {
        Ok(EscrowView { juror_votes_for_poster: bumped(e.juror_votes_for_poster), ..e })
    }
}

/// `v` contains `k`.
fn contains_key(v: &Vec<Pubkey>, k: &Pubkey) -> (r: bool)
    ensures
        r == v@.contains(*k),
{
    let mut i: usize = 0;
    while i < v.len()
        invariant
            0 <= i <= v@.len(),
            forall|j: int| 0 <= j < i ==> v@[j] != *k,
        decreases v@.len() - i,
    {
        if v[i] == *k {
            return true;
        }
        i = i + 1;
    }
    false
}

/// `v` holds no key twice.
fn all_distinct(v: &Vec<Pubkey>) -> (r: bool)
    ensures
        r == v@.no_duplicates(),
{
    let mut i: usize = 0;
    while i < v.len()
        invariant
            0 <= i <= v@.len(),
            forall|a: int, b: int| 0 <= a < b < v@.len() && a < i ==> v@[a] != v@[b],
        decreases v@.len() - i,
    {
        let mut j: usize = i + 1;
        while j < v.len()
            invariant
                i < v@.len(),
                i + 1 <= j <= v@.len(),
                forall|a: int, b: int| 0 <= a < b < v@.len() && a < i ==> v@[a] != v@[b],
                forall|b: int| i < b < j ==> v@[i as int] != v@[b],
            decreases v@.len() - j,
        {
            if v[i] == v[j] {
                return false;
            }
            j = j + 1;
        }
        i = i + 1;
    }
    true
}

/// Every key of `approvals` is in `oracles`, and none appears twice.
fn approvals_valid(approvals: &Vec<Pubkey>, oracles: &Vec<Pubkey>) -> (r: bool)
    ensures
        r == approvals_ok(approvals@, oracles@),
{
    if !all_distinct(approvals) {
        return false;
    }
    let mut i: usize = 0;
    while i < approvals.len()
        invariant
            0 <= i <= approvals@.len(),
            forall|j: int| 0 <= j < i ==> oracles@.contains(#[trigger] approvals@[j]),
        decreases approvals@.len() - i,
    {
        if !contains_key(oracles, &approvals[i]) {
            return false;
        }
        i = i + 1;
    }
    true
}

/// A copy of a list of keys.
pub(crate) fn copy_keys(v: &Vec<Pubkey>) -> (r: Vec<Pubkey>)
    ensures
        r@ == v@,
{
    let mut r: Vec<Pubkey> = Vec::new();
    let mut i: usize = 0;
    while i < v.len()
        invariant
            0 <= i <= v@.len(),
            r@ == v@.subrange(0, i as int),
        decreases v@.len() - i,
    {
        r.push(v[i]);
        i = i + 1;
    }
    assert(r@ =~= v@);
    r
}

/// Whether `now` lies past `deadline` plus the grace window.
fn past_grace(deadline: i64, now: i64) -> (r: bool)
    ensures
        r == (now > deadline + TIMEOUT_GRACE),
{
    (now as i128) > (deadline as i128) + (TIMEOUT_GRACE as i128)
}

impl Escrow {
    pub open spec fn wf(&self) -> bool {
        self@.wf()
    }

    /// Whether the record satisfies its invariant, so that a record loaded
    /// from outside may be handed to the methods below.
    pub fn is_well_formed(&self) -> (r: bool)
        ensures
            r == self.wf(),
    {
        if self.oracles.len() > MAX_ORACLES || self.threshold == 0 || self.threshold as usize
            > self.oracles.len() || !all_distinct(&self.oracles) {
            return false;
        }
        if !approvals_valid(&self.release_approvals, &self.oracles) || !approvals_valid(
            &self.refund_approvals,
            &self.oracles,
        ) {
            return false;
        }
        if self.status == EscrowStatus::Pending && (self.release_approvals.len() > 0
            || self.refund_approvals.len() > 0) {
            return false;
        }
        if self.status == EscrowStatus::Disputed && !self.dispute_initiated {
            return false;
        }
        if self.dispute_initiated != self.dispute_initiator.is_some() {
            return false;
        }
        if (self.status == EscrowStatus::Pending || self.status == EscrowStatus::Funded)
            && self.dispute_initiated {
            return false;
        }
        if !self.dispute_initiated && (self.juror_votes_for_worker != 0
            || self.juror_votes_for_poster != 0) {
            return false;
        }
        true
    }

    /// Builds a fresh `Pending` record, or refuses a bad committee.
    pub fn create(
        job_id: u64,
        poster: Pubkey,
        worker: Pubkey,
        amount: u64,
        deadline: i64,
        oracles: Vec<Pubkey>,
        threshold: u8,
    ) -> (r: Result<Escrow, ErrorCode>)
        ensures
            match new_escrow(job_id, poster, worker, amount, deadline, oracles@, threshold) {
                Ok(v) => r matches Ok(e) && e@ == v && e.wf(),
                Err(err) => r == Err::<Escrow, ErrorCode>(err),
            },
    {
        if oracles.len() > MAX_ORACLES || threshold == 0 || threshold as usize > oracles.len()
            || !all_distinct(&oracles) {
            return Err(ErrorCode::InvalidConfig);
        }
        let e = Escrow {
            job_id,
            poster,
            worker,
            amount,
            deadline,
            status: EscrowStatus::Pending,
            dispute_initiated: false,
            dispute_initiator: None,
            juror_votes_for_worker: 0,
            juror_votes_for_poster: 0,
            oracles,
            threshold,
            release_approvals: Vec::new(),
            refund_approvals: Vec::new(),
        };
        assert(e@ =~= new_escrow(job_id, poster, worker, amount, deadline, e.oracles@, threshold)
            ->Ok_0);
        Ok(e)
    }

    /// Moves a `Pending` record to `Funded`.
    pub fn fund(&mut self, caller: Pubkey, amount: u64) -> (r: Result<(), ErrorCode>)
        requires
            old(self).wf(),
        ensures
            final(self).wf(),
            match after_deposit(old(self)@, caller, amount) {
                Ok(v) => r is Ok && final(self)@ == v,
                Err(err) => r == Err::<(), ErrorCode>(err) && final(self)@ == old(self)@,
            },
    {
        if self.status != EscrowStatus::Pending {
            return Err(ErrorCode::InvalidStatus);
        }
        if caller != self.poster {
            return Err(ErrorCode::Unauthorized);
        }
        if amount != self.amount {
            return Err(ErrorCode::InvalidJobId);
        }
        self.status = EscrowStatus::Funded;
        Ok(())
    }
    /// Records `oracle`'s approval of a release.
    pub fn approve_release(&mut self, oracle: Pubkey) -> (r: Result<(), ErrorCode>)
        requires
            old(self).wf(),
        ensures
            final(self).wf(),
            match after_approve_release(old(self)@, oracle) {
                Ok(v) => r is Ok && final(self)@ == v,
                Err(err) => r == Err::<(), ErrorCode>(err) && final(self)@ == old(self)@,
            },
    {
        if !(self.status == EscrowStatus::Funded || self.status == EscrowStatus::Disputed) {
            return Err(ErrorCode::InvalidStatus);
        }
        if !contains_key(&self.oracles, &oracle) {
            return Err(ErrorCode::Unauthorized);
        }
        if contains_key(&self.release_approvals, &oracle) {
            return Err(ErrorCode::AlreadyApproved);
        }
        proof {
            lemma_push_keeps_approvals_ok(self.release_approvals@, self.oracles@, oracle);
        }
        self.release_approvals.push(oracle);
        Ok(())
    }

    /// Records `oracle`'s approval of a refund.
    pub fn approve_refund(&mut self, oracle: Pubkey) -> (r: Result<(), ErrorCode>)
        requires
            old(self).wf(),
        ensures
            final(self).wf(),
            match after_approve_refund(old(self)@, oracle) {
                Ok(v) => r is Ok && final(self)@ == v,
                Err(err) => r == Err::<(), ErrorCode>(err) && final(self)@ == old(self)@,
            },
    {
        if !(self.status == EscrowStatus::Funded || self.status == EscrowStatus::Disputed) {
            return Err(ErrorCode::InvalidStatus);
        }
        if !contains_key(&self.oracles, &oracle) {
            return Err(ErrorCode::Unauthorized);
        }
        if contains_key(&self.refund_approvals, &oracle) {
            return Err(ErrorCode::AlreadyApproved);
        }
        proof {
            lemma_push_keeps_approvals_ok(self.refund_approvals@, self.oracles@, oracle);
        }
        self.refund_approvals.push(oracle);
        Ok(())
    }

    /// Pays the record out to the worker, and returns the transfers to make
    /// from custody.
    pub fn release(&mut self, caller: Pubkey, now: i64) -> (r: Result<Vec<Transfer>, ErrorCode>)
        requires
            old(self).wf(),
        ensures
            final(self).wf(),
            match after_execute_release(old(self)@, caller, now) {
                Ok(v) => r matches Ok(t) && final(self)@ == v && t@ == release_transfers(
                    old(self).amount,
                ),
                Err(err) => r matches Err(e) && e == err && final(self)@ == old(self)@,
            },
    {
        if !(self.status == EscrowStatus::Funded || self.status == EscrowStatus::Disputed) {
            return Err(ErrorCode::InvalidStatus);
        }
        let has_threshold = self.release_approvals.len() >= self.threshold as usize;
        let dispute_resolved = self.status == EscrowStatus::Disputed
            && self.juror_votes_for_worker >= JUROR_QUORUM;
        let by_poster = caller == self.poster;
        let by_worker_after_grace = caller == self.worker && past_grace(self.deadline, now);
        if !(has_threshold || dispute_resolved || by_poster || by_worker_after_grace) {
            return Err(ErrorCode::Unauthorized);
        }
        let transfers = release_split(self.amount);
        self.status = EscrowStatus::Released;
        Ok(transfers)
    }

    /// Returns the record to the poster, and returns the transfers to make
    /// from custody.
    pub fn refund(&mut self, now: i64) -> (r: Result<Vec<Transfer>, ErrorCode>)
        requires
            old(self).wf(),
        ensures
            final(self).wf(),
            match after_execute_refund(old(self)@, now) {
                Ok(v) => r matches Ok(t) && final(self)@ == v && t@ == refund_transfers(
                    old(self).amount,
                    old(self).status == EscrowStatus::Disputed,
                ),
                Err(err) => r matches Err(e) && e == err && final(self)@ == old(self)@,
            },
    {
        if !(self.status == EscrowStatus::Funded || self.status == EscrowStatus::Disputed) {
            return Err(ErrorCode::InvalidStatus);
        }
        let disputed = self.status == EscrowStatus::Disputed;
        let has_threshold = self.refund_approvals.len() >= self.threshold as usize;
        let dispute_resolved = disputed && self.juror_votes_for_poster >= JUROR_QUORUM;
        if !(has_threshold || dispute_resolved || past_grace(self.deadline, now)) {
            return Err(ErrorCode::Unauthorized);
        }
        let transfers = refund_split(self.amount, disputed);
        self.status = EscrowStatus::Refunded;
        Ok(transfers)
    }

    /// Moves a `Funded` record to `Disputed` on behalf of the poster or the
    /// worker.
    pub fn open_dispute(&mut self, caller: Pubkey) -> (r: Result<(), ErrorCode>)
        requires
            old(self).wf(),
        ensures
            final(self).wf(),
            match after_initiate_dispute(old(self)@, caller) {
                Ok(v) => r is Ok && final(self)@ == v,
                Err(err) => r == Err::<(), ErrorCode>(err) && final(self)@ == old(self)@,
            },
    {
        if self.status != EscrowStatus::Funded {
            return Err(ErrorCode::InvalidStatus);
        }
        if caller != self.poster && caller != self.worker {
            return Err(ErrorCode::Unauthorized);
        }
        self.status = EscrowStatus::Disputed;
        self.dispute_initiated = true;
        self.dispute_initiator = Some(caller);
        Ok(())
    }

    /// Counts one juror vote on a `Disputed` record.
    pub fn record_vote(&mut self, vote_for_worker: bool) -> (r: Result<(), ErrorCode>)
        requires
            old(self).wf(),
        ensures
            final(self).wf(),
            match after_vote(old(self)@, vote_for_worker) {
                Ok(v) => r is Ok && final(self)@ == v,
                Err(err) => r == Err::<(), ErrorCode>(err) && final(self)@ == old(self)@,
            },
    {
        if self.status != EscrowStatus::Disputed {
            return Err(ErrorCode::InvalidStatus);
        }
        if vote_for_worker {
            self.juror_votes_for_worker = self.juror_votes_for_worker.saturating_add(1);
        } else {
            self.juror_votes_for_poster = self.juror_votes_for_poster.saturating_add(1);
        }
        Ok(())
    }
}

/// Appending a committee member that has not approved yet keeps an approval
/// list valid.
proof fn lemma_push_keeps_approvals_ok(approvals: Seq<Pubkey>, oracles: Seq<Pubkey>, o: Pubkey)
    requires
        approvals_ok(approvals, oracles),
        oracles.contains(o),
        !approvals.contains(o),
    ensures
        approvals_ok(approvals.push(o), oracles),
{
    let p = approvals.push(o);
    assert forall|i: int| 0 <= i < p.len() implies oracles.contains(#[trigger] p[i]) by {
        if i < approvals.len() {
            assert(p[i] == approvals[i]);
        }
    }
    assert forall|a: int, b: int| 0 <= a < p.len() && 0 <= b < p.len() && a != b implies p[a]
        != p[b] by {
        if a == approvals.len() as int {
            assert(p[b] == approvals[b]);
        } else if b == approvals.len() as int {
            assert(p[a] == approvals[a]);
        } else {
            assert(p[a] == approvals[a] && p[b] == approvals[b]);
        }
    }
}

} // verus!

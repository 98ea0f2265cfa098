use vstd::prelude::*;

use std::collections::HashMap;

use crate::state::{Escrow, EscrowView};

verus! {

broadcast use vstd::std_specs::hash::group_hash_axioms;

/// Durable keyed storage: at most one escrow record per job id.
pub struct EscrowStore {
    records: HashMap<u64, Escrow>,
}

impl View for EscrowStore {
    type V = Map<u64, EscrowView>;

    closed spec fn view(&self) -> Map<u64, EscrowView> {
        self.records@.map_values(|e: Escrow| e@)
    }
}

impl EscrowStore {
    /// Every record is valid and filed under its own job id.
    pub closed spec fn wf(&self) -> bool {
        forall|k: u64| #[trigger]
            self.records@.contains_key(k) ==> self.records@[k].wf() && self.records@[k].job_id
                == k
    }

    /// Every record of a valid store is valid and filed under its own job id.
    pub proof fn lemma_record_wf(&self, job_id: u64)
        requires
            self.wf(),
            self@.contains_key(job_id),
        ensures
            self@[job_id].wf(),
            self@[job_id].job_id == job_id,
    {
    }

    /// An empty store.
    pub fn new() -> (r: EscrowStore)
        ensures
            r.wf(),
            r@ == Map::<u64, EscrowView>::empty(),
    {
        let r = EscrowStore { records: HashMap::new() };
        assert(r@ =~= Map::<u64, EscrowView>::empty());
        r
    }

    /// The record of `job_id`, if there is one.
    pub fn get(&self, job_id: u64) -> (r: Option<&Escrow>)
        ensures
            match r {
                Some(e) => self@.contains_key(job_id) && e@ == self@[job_id],
                None => !self@.contains_key(job_id),
            },
    {
        self.records.get(&job_id)
    }

    /// Takes the record of `job_id` out of the store.
    pub(crate) fn take(&mut self, job_id: u64) -> (r: Option<Escrow>)
        requires
            old(self).wf(),
        ensures
            final(self).wf(),
            match r {
                Some(e) => {
                    &&& old(self)@.contains_key(job_id)
                    &&& e@ == old(self)@[job_id]
                    &&& e.wf()
                    &&& e.job_id == job_id
                    &&& final(self)@ == old(self)@.remove(job_id)
                },
                None => !old(self)@.contains_key(job_id) && final(self)@ == old(self)@,
            },
    {
        let r = self.records.remove(&job_id);
        assert(self@ =~= old(self)@.remove(job_id));
        r
    }

    /// Files `e` under its job id.
    pub(crate) fn put(&mut self, e: Escrow)
        requires
            old(self).wf(),
            e.wf(),
        ensures
            final(self).wf(),
            final(self)@ == old(self)@.insert(e.job_id, e@),
    {
        let ghost v = e@;
        let k = e.job_id;
        self.records.insert(k, e);
        assert(self@ =~= old(self)@.insert(k, v));
    }
}

} // verus!

//! The metrics model: an append-only list of per-operation observations.
//! Aggregation and export belong to the surrounding process; the pipeline
//! only appends, exactly once per lookup.
use vstd::prelude::*;

verus! {

/// The observations recorded so far, newest last, each tagged with the
/// logical operation it measured.
pub struct RegisteredMetrics {
    observations: Vec<String>,
}

impl RegisteredMetrics {
    /// The recorded operation tags, in order.
    pub closed spec fn view(&self) -> Seq<Seq<char>> {
        self.observations.deep_view()
    }

    pub fn new() -> (m: RegisteredMetrics)
        ensures
            m@ == Seq::<Seq<char>>::empty(),
    {
        let m = RegisteredMetrics { observations: Vec::new() };
        proof {
            assert(m@ =~= Seq::<Seq<char>>::empty());
        }
        m
    }

    /// Appends one observation for the operation `op`.
    pub fn record(&mut self, op: String)
        ensures
            final(self)@ == old(self)@.push(op@),
    {
        self.observations.push(op);
        proof {
            assert(self@ =~= old(self)@.push(op@));
        }
    }

    /// The observations, for the exporter to drain.
    pub fn observations(&self) -> (r: &Vec<String>)
        ensures
            r.deep_view() == self@,
    {
        &self.observations
    }
}

} // verus!

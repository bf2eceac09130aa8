use vstd::prelude::*;

use crate::root::RootCollection;

verus! {

/// The collector's marking pass, as this layer sees it: a sink that
/// records every collector-visible identity reported live for the current
/// collection.  The embedding hands the recorded identities on to the
/// collector's own reporting primitive.
pub struct Tracer {
    reported: Vec<u64>,
}

impl Tracer {
    /// The identities reported so far, in reporting order.
    pub closed spec fn reported(self) -> Seq<u64> {
        self.reported@
    }

    /// A fresh pass with nothing reported yet.
    pub fn new() -> (r: Tracer)
        ensures
            r.reported() == Seq::<u64>::empty(),
    {
        Tracer { reported: Vec::new() }
    }

    /// Mark one identity live for the current pass.
    pub fn report(&mut self, identity: u64)
        ensures
            final(self).reported() == old(self).reported().push(identity),
    {
        self.reported.push(identity);
    }

    /// Hand the recorded identities out, for the embedding to forward.
    pub fn into_reported(self) -> (r: Vec<u64>)
        ensures
            r@ == self.reported(),
    {
        self.reported
    }
}

/// The callback the collector invokes during its marking phase: walk the
/// current thread's root collection and report every entry, each exactly
/// once, in registration order.  Runs only while the collector has paused
/// all script activity, so no root or unroot call mutates the collection
/// concurrently.
pub fn trace_roots(tracer: &mut Tracer, roots: &RootCollection)
    ensures
        final(tracer).reported() == old(tracer).reported() + roots@,
{
    let n = roots.len();
    let mut i: usize = 0;
    while i < n
        invariant
            n == roots@.len(),
            i <= n,
            tracer.reported() == old(tracer).reported() + roots@.take(i as int),
        decreases n - i,
    {
        let entry = roots.entry_at(i);
        tracer.report(entry);
        proof {
            assert(roots@.take(i + 1 as int) == roots@.take(i as int).push(roots@[i as int]));
        }
        i += 1;
    }
    proof {
        assert(roots@.take(n as int) == roots@);
    }
}

/// Trace completeness: a pass over a collection holding contents `s`
/// extends what a tracer already reported (`before`) by exactly `s`, so
/// each registered identity is reported exactly as many times as it is
/// registered — each entry once, independent of order — and an identity
/// with no entry is not reported by the pass at all.
pub proof fn lemma_trace_reports_each_entry_once(before: Seq<u64>, s: Seq<u64>, id: u64)
    ensures
        (before + s).to_multiset().count(id) == before.to_multiset().count(id)
            + s.to_multiset().count(id),
        s.to_multiset().count(id) == 0 <==> !s.contains(id),
{
    broadcast use vstd::seq_lib::group_to_multiset_ensures;
    broadcast use vstd::multiset::group_multiset_axioms;

    vstd::seq_lib::lemma_multiset_commutative(before, s);
}

} // verus!

use vstd::prelude::*;

use crate::hierarchy::TypeHierarchy;
use crate::js::HeapObject;
use crate::js::JS;
use crate::phase::Phase;

verus! {

/// The contents of a root collection after removing the last entry equal
/// to `id`, or unchanged when no entry matches.  Removal is by identity
/// search, not by stack discipline: entries may be removed in any order
/// relative to insertion.
pub open spec fn remove_last_occurrence(s: Seq<u64>, id: u64) -> Seq<u64>
    decreases s.len(),
{
    if s.len() == 0 {
        s
    } else if s.last() == id {
        s.drop_last()
    } else {
        remove_last_occurrence(s.drop_last(), id).push(s.last())
    }
}

/// Removing the last occurrence of `id` removes exactly the entry at the
/// largest index holding `id`.
proof fn lemma_remove_last_at(s: Seq<u64>, id: u64, k: int)
    requires
        0 <= k < s.len(),
        s[k] == id,
        forall|j: int| k < j < s.len() ==> s[j] != id,
    ensures
        remove_last_occurrence(s, id) == s.remove(k),
    decreases s.len(),
{
    if k == s.len() - 1 {
        assert(remove_last_occurrence(s, id) =~= s.remove(k));
    } else {
        lemma_remove_last_at(s.drop_last(), id, k);
        assert(remove_last_occurrence(s, id) =~= s.remove(k));
    }
}

/// At the multiset level, removing the last occurrence takes exactly one
/// entry for `id` away and leaves every other identity's entries alone.
pub proof fn lemma_remove_last_occurrence_multiset(s: Seq<u64>, id: u64)
    requires
        s.contains(id),
    ensures
        remove_last_occurrence(s, id).to_multiset() == s.to_multiset().remove(id),
    decreases s.len(),
{
    broadcast use vstd::seq_lib::group_to_multiset_ensures;

    assert(s =~= s.drop_last().push(s.last()));
    assert(s.to_multiset() == s.drop_last().to_multiset().insert(s.last()));
    if s.last() == id {
        assert(remove_last_occurrence(s, id).to_multiset() =~= s.to_multiset().remove(id));
    } else {
        let j = choose|j: int| 0 <= j < s.len() && s[j] == id;
        assert(s.drop_last()[j] == id);
        assert(s.drop_last().contains(id));
        lemma_remove_last_occurrence_multiset(s.drop_last(), id);
        assert(remove_last_occurrence(s, id).to_multiset() == remove_last_occurrence(
            s.drop_last(),
            id,
        ).to_multiset().insert(s.last()));
        assert(remove_last_occurrence(s, id).to_multiset() =~= s.to_multiset().remove(id));
    }
}

/// Registering an identity adds exactly one entry for it and leaves every
/// other identity's entries alone.
pub proof fn lemma_root_adds_one_entry(s: Seq<u64>, id: u64, other: u64)
    ensures
        s.push(id).to_multiset().count(id) == s.to_multiset().count(id) + 1,
        other != id ==> s.push(id).to_multiset().count(other) == s.to_multiset().count(other),
{
    broadcast use vstd::seq_lib::group_to_multiset_ensures;
    broadcast use vstd::multiset::group_multiset_axioms;

}

/// Unrooting removes exactly one entry for the identity and leaves every
/// other identity's entries alone.
pub proof fn lemma_unroot_removes_one_entry(s: Seq<u64>, id: u64, other: u64)
    requires
        s.contains(id),
    ensures
        remove_last_occurrence(s, id).to_multiset().count(id) == s.to_multiset().count(id) - 1,
        other != id ==> remove_last_occurrence(s, id).to_multiset().count(other)
            == s.to_multiset().count(other),
{
    broadcast use vstd::seq_lib::group_to_multiset_ensures;
    broadcast use vstd::multiset::group_multiset_axioms;

    lemma_remove_last_occurrence_multiset(s, id);
}

/// Unrooting exactly undoes rooting: removing the last occurrence of `id`
/// right after appending it restores the collection as it was, whatever
/// else it holds.
pub proof fn lemma_unroot_cancels_root(s: Seq<u64>, id: u64)
    ensures
        remove_last_occurrence(s.push(id), id) == s,
{
    assert(remove_last_occurrence(s.push(id), id) =~= s);
}

/// Roots are additive.  Starting from any collection contents `s`,
/// registering `id` twice and then dropping one of the two entries leaves
/// one more entry for `id` than `s` had — the object stays rooted through
/// the other handle.  Dropping the second entry restores `s` exactly; if
/// `s` held no entry for `id`, the collection then reports none.
pub proof fn lemma_roots_are_additive(s: Seq<u64>, id: u64)
    ensures
        remove_last_occurrence(s.push(id).push(id), id) == s.push(id),
        remove_last_occurrence(s.push(id).push(id), id).to_multiset().count(id)
            == s.to_multiset().count(id) + 1,
        remove_last_occurrence(remove_last_occurrence(s.push(id).push(id), id), id) == s,
        !s.contains(id) ==> remove_last_occurrence(
            remove_last_occurrence(s.push(id).push(id), id),
            id,
        ).to_multiset().count(id) == 0,
{
    broadcast use vstd::seq_lib::group_to_multiset_ensures;

    lemma_unroot_cancels_root(s.push(id), id);
    lemma_unroot_cancels_root(s, id);
}

/// The per-thread collection of currently stack-rooted identities.
///
/// Its invariant is the heart of the layer: every live [`Root`] on the
/// thread owns exactly one matching entry here, so the collector's trace
/// pass sees every stack-held object.  Entries are ordered, removal is
/// last-in-wins by identity — LIFO is not required.
pub struct RootCollection {
    roots: Vec<u64>,
}

impl View for RootCollection {
    type V = Seq<u64>;

    closed spec fn view(&self) -> Seq<u64> {
        self.roots@
    }
}

impl RootCollection {
    /// Create an empty collection of roots.
    pub fn new(phase: Phase) -> (r: RootCollection)
        requires
            phase == Phase::Script,
        ensures
            r@ == Seq::<u64>::empty(),
    {
        RootCollection { roots: Vec::new() }
    }

    /// Start tracking a stack-based root.  A zero identity is a null or
    /// finalized collector handle; registering one is a contract
    /// violation, so it is refused as a precondition.
    pub fn root(&mut self, identity: u64, phase: Phase)
        requires
            phase == Phase::Script,
            identity != 0,
        ensures
            final(self)@ == old(self)@.push(identity),
    {
        self.roots.push(identity);
    }

    /// Stop tracking a stack-based root, removing the most recently
    /// registered entry for `identity`.  Unrooting an identity never
    /// registered here is a fatal misuse (a double unroot, or a handle
    /// from another collection), so the entry's presence is a
    /// precondition.
    pub fn unroot(&mut self, identity: u64, phase: Phase)
        requires
            phase == Phase::Script,
            identity != 0,
            old(self)@.contains(identity),
        ensures
            final(self)@ == remove_last_occurrence(old(self)@, identity),
    {
        let ghost s = self.roots@;
        let mut i: usize = self.roots.len();
        loop
            invariant
                old(self)@ == s,
                self.roots@ == s,
                i <= s.len(),
                exists|j: int| 0 <= j < i && #[trigger] s[j] == identity,
                forall|j: int| i <= j < s.len() ==> s[j] != identity,
            decreases i,
        {
            proof {
                let j0 = choose|j: int| 0 <= j < i && #[trigger] s[j] == identity;
                assert(i >= 1);
            }
            i -= 1;
            if self.roots[i] == identity {
                proof {
                    lemma_remove_last_at(s, identity, i as int);
                }
                self.roots.remove(i);
                return ;
            }
            proof {
                let j0 = choose|j: int| 0 <= j < i + 1 && #[trigger] s[j] == identity;
                assert(0 <= j0 < i && s[j0] == identity);
            }
        }
    }

    /// The number of registered entries.
    pub fn len(&self) -> (n: usize)
        ensures
            n == self@.len(),
    {
        self.roots.len()
    }

    /// The entry at position `i`, in registration order.
    pub fn entry_at(&self, i: usize) -> (r: u64)
        requires
            i < self@.len(),
        ensures
            r == self@[i as int],
    {
        self.roots[i]
    }

    /// How many entries the collection holds for `identity`.
    pub fn count_of(&self, identity: u64) -> (n: usize)
        ensures
            n == self@.to_multiset().count(identity),
    {
        broadcast use vstd::seq_lib::group_to_multiset_ensures;
        broadcast use vstd::multiset::group_multiset_axioms;

        let ghost s = self.roots@;
        let mut n: usize = 0;
        let mut i: usize = 0;
        while i < self.roots.len()
            invariant
                self.roots@ == s,
                i <= s.len(),
                n <= i,
                n == s.take(i as int).to_multiset().count(identity),
            decreases s.len() - i,
        {
            proof {
                assert(s.take(i + 1 as int) =~= s.take(i as int).push(s[i as int]));
                vstd::seq_lib::to_multiset_build(s.take(i as int), s[i as int]);
            }
            if self.roots[i] == identity {
                n += 1;
            }
            i += 1;
        }
        proof {
            assert(s.take(s.len() as int) =~= s);
        }
        n
    }
}

/// A stack-bound rooted handle to a collector-managed object.
///
/// The referent is pinned for as long as this handle's registry entry
/// stands.  Roots are additive: each handle owns an independent entry, so
/// releasing one never invalidates another for the same object.
pub struct Root {
    /// The rooted handle.
    pub js: JS,
}

impl Root {
    /// Create a new stack-bounded root for the provided handle, appending
    /// one entry to the collection.
    pub fn new(unrooted: JS, roots: &mut RootCollection, phase: Phase) -> (r: Root)
        requires
            phase == Phase::Script,
            unrooted.identity != 0,
        ensures
            r.js == unrooted,
            final(roots)@ == old(roots)@.push(unrooted.identity),
    {
        roots.root(unrooted.identity, phase);
        Root { js: unrooted }
    }

    /// Generate a new root directly from a live object.
    pub fn from_ref(obj: &HeapObject, roots: &mut RootCollection, phase: Phase) -> (r: Root)
        requires
            phase == Phase::Script,
            obj.identity != 0,
        ensures
            r.js == JS::from_ref_spec(*obj),
            final(roots)@ == old(roots)@.push(obj.identity),
    {
        let js = JS::from_ref(obj, phase);
        Root::new(js, roots, phase)
    }

    /// Create a second, independent root for the same handle.  The clone
    /// owns a fresh registry entry of its own — roots are additive — so
    /// releasing either root never invalidates the other.
    pub fn clone_in(&self, roots: &mut RootCollection, phase: Phase) -> (r: Root)
        requires
            phase == Phase::Script,
            self.js.identity != 0,
        ensures
            r.js == self.js,
            final(roots)@ == old(roots)@.push(self.js.identity),
    {
        Root::new(self.js, roots, phase)
    }

    /// Release this root, removing exactly the one entry it owns.  The
    /// scoped-acquisition discipline: acquire on construction, release
    /// exactly once on every exit path.
    pub fn unroot(self, roots: &mut RootCollection, phase: Phase)
        requires
            phase == Phase::Script,
            self.js.identity != 0,
            old(roots)@.contains(self.js.identity),
        ensures
            final(roots)@ == remove_last_occurrence(old(roots)@, self.js.identity),
    {
        roots.unroot(self.js.identity, phase);
    }

    /// Cast a rooted handle upwards to one of the types its referent
    /// derives from, consuming the input; the registry entry carries over
    /// unchanged.
    pub fn upcast(root: Root, target: u32, h: &TypeHierarchy) -> (r: Root)
        requires
            h.wf(),
            root.js.wf(*h),
            h.derives(root.js.as_ty, target),
        ensures
            r.js == root.js.upcast_spec(target),
            r.js.wf(*h),
            r.js.identity == root.js.identity,
    {
        proof {
            h.lemma_derives_transitive(root.js.ty, root.js.as_ty, target);
            h.lemma_derives_le(root.js.as_ty, target);
        }
        Root { js: JS { identity: root.js.identity, ty: root.js.ty, as_ty: target } }
    }

    /// Cast a rooted handle downwards, consuming the input.  On a match
    /// the entry carries over to the returned root; on a mismatch the
    /// consumed handle's entry is released, exactly as dropping the
    /// transient retyped wrapper would.
    pub fn downcast(
        root: Root,
        target: u32,
        h: &TypeHierarchy,
        roots: &mut RootCollection,
        phase: Phase,
    ) -> (r: Option<Root>)
        requires
            phase == Phase::Script,
            h.wf(),
            root.js.wf(*h),
            h.tag_ok(target),
            root.js.identity != 0,
            old(roots)@.contains(root.js.identity),
        ensures
            match r {
                Some(d) => root.js.downcast_spec(target, *h) == Some(d.js) && d.js.wf(*h)
                    && final(roots)@ == old(roots)@,
                None => root.js.downcast_spec(target, *h) is None && final(roots)@
                    == remove_last_occurrence(old(roots)@, root.js.identity),
            },
    {
        if h.derives_from(root.js.ty, target) {
            Some(Root { js: JS { identity: root.js.identity, ty: root.js.ty, as_ty: target } })
        } else {
            root.unroot(roots, phase);
            None
        }
    }
}

/// Get a handle back out of a rooted value.
pub trait RootedReference {
    /// The type of the extracted handle.
    type Ref;

    /// What `r` extracts.
    spec fn r_spec(&self) -> Self::Ref;

    /// Obtain the handle held by this rooted value.
    fn r(&self) -> (out: Self::Ref)
        ensures
            out == self.r_spec(),
    ;
}

impl RootedReference for Root {
    type Ref = JS;

    open spec fn r_spec(&self) -> JS {
        self.js
    }

    fn r(&self) -> (out: JS) {
        self.js
    }
}

impl RootedReference for JS {
    type Ref = JS;

    open spec fn r_spec(&self) -> JS {
        *self
    }

    fn r(&self) -> (out: JS) {
        *self
    }
}

impl<T: RootedReference> RootedReference for Option<T> {
    type Ref = Option<<T as RootedReference>::Ref>;

    open spec fn r_spec(&self) -> Option<<T as RootedReference>::Ref> {
        match self {
            Some(x) => Some(x.r_spec()),
            None => None,
        }
    }

    fn r(&self) -> (out: Option<<T as RootedReference>::Ref>) {
        match self {
            Some(x) => Some(x.r()),
            None => None,
        }
    }
}

} // verus!

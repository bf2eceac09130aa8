use vstd::prelude::*;

verus! {

/// Whether a parent table describes a well-formed hierarchy: every tag's
/// parent is an earlier tag, or the tag itself for a root of the forest.
pub open spec fn table_wf(t: Seq<u32>) -> bool {
    &&& t.len() <= u32::MAX
    &&& forall|i: int| 0 <= i < t.len() ==> #[trigger] t[i] <= i
}

/// The type hierarchy of the collector-managed objects, as an explicit
/// lookup table: each concrete type is a tag (an index into the table),
/// and the table gives each tag's immediate supertype.
///
/// A tag whose parent is itself is a root of the hierarchy.  Parents come
/// strictly earlier in the table, so every parent chain ends at a root.
pub struct TypeHierarchy {
    parent: Vec<u32>,
}

impl TypeHierarchy {
    /// The parent table.
    pub closed spec fn parents(self) -> Seq<u32> {
        self.parent@
    }

    /// A well-formed hierarchy has a well-formed parent table.
    pub open spec fn wf(self) -> bool {
        table_wf(self.parents())
    }

    /// Whether `t` is a tag of this hierarchy.
    pub open spec fn tag_ok(self, t: u32) -> bool {
        (t as int) < self.parents().len()
    }

    /// Whether type `t` derives from type `u`: `u` lies on `t`'s parent
    /// chain (every type derives from itself).
    pub open spec fn derives(self, t: u32, u: u32) -> bool
        decreases t,
        when self.wf() && self.tag_ok(t)
    {
        if t == u {
            true
        } else if self.parents()[t as int] == t {
            false
        } else {
            self.derives(self.parents()[t as int], u)
        }
    }

    /// Build a hierarchy from a parent table, refusing a table whose
    /// entries do not point strictly backwards.
    pub fn from_table(parent: Vec<u32>) -> (r: Option<TypeHierarchy>)
        ensures
            match r {
                Some(h) => h.parents() == parent@ && h.wf(),
                None => !table_wf(parent@),
            },
    {
        if parent.len() > u32::MAX as usize {
            return None;
        }
        let mut i: usize = 0;
        while i < parent.len()
            invariant
                i <= parent.len(),
                parent.len() <= u32::MAX,
                forall|j: int| 0 <= j < i ==> #[trigger] parent@[j] <= j,
            decreases parent.len() - i,
        {
            if parent[i] as usize > i {
                return None;
            }
            i += 1;
        }
        Some(TypeHierarchy { parent })
    }

    /// The number of declared tags.
    pub fn tag_count(&self) -> (n: usize)
        ensures
            n == self.parents().len(),
    {
        self.parent.len()
    }

    /// The runtime test behind every downcast: walk `t`'s parent chain
    /// looking for `u`.
    pub fn derives_from(&self, t: u32, u: u32) -> (r: bool)
        requires
            self.wf(),
            self.tag_ok(t),
        ensures
            r == self.derives(t, u),
    {
        let mut cur = t;
        loop
            invariant
                self.wf(),
                self.tag_ok(cur),
                self.derives(t, u) == self.derives(cur, u),
            decreases cur,
        {
            if cur == u {
                return true;
            }
            let p = self.parent[cur as usize];
            if p == cur {
                return false;
            }
            cur = p;
        }
    }

    /// Every type derives from itself.
    pub proof fn lemma_derives_reflexive(self, t: u32)
        requires
            self.wf(),
            self.tag_ok(t),
        ensures
            self.derives(t, t),
    {
    }

    /// Derivation runs down the table: a supertype's tag is never larger.
    pub proof fn lemma_derives_le(self, t: u32, u: u32)
        requires
            self.wf(),
            self.tag_ok(t),
            self.derives(t, u),
        ensures
            u <= t,
            self.tag_ok(u),
        decreases t,
    {
        if t != u {
            self.lemma_derives_le(self.parents()[t as int], u);
        }
    }

    /// Derivation is transitive: a type derives from its supertypes'
    /// supertypes.
    pub proof fn lemma_derives_transitive(self, t: u32, u: u32, v: u32)
        requires
            self.wf(),
            self.tag_ok(t),
            self.derives(t, u),
            self.derives(u, v),
        ensures
            self.derives(t, v),
        decreases t,
    {
        if t != u {
            self.lemma_derives_transitive(self.parents()[t as int], u, v);
        }
    }
}

} // verus!

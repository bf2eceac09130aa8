use vstd::prelude::*;

use crate::hierarchy::TypeHierarchy;
use crate::phase::Phase;
use crate::trace::Tracer;

verus! {

/// A collector-managed object, as this layer sees it: a stable identity
/// (its address, never zero for an object that exists), a collector-visible
/// handle (zero until the object is initialized, and again once it is
/// finalized), and the tag of its concrete type in the hierarchy.
#[derive(Clone, Copy, PartialEq, Eq, Structural, Debug)]
pub struct HeapObject {
    /// The collector-visible identity, reported for rooting and tracing.
    /// Zero stands for a null or finalized handle; rooting such an object
    /// is a contract violation.
    pub identity: u64,
    /// The tag of the object's concrete type.
    pub ty: u32,
}

/// An untraced handle to a collector-managed object.
///
/// This type is critical to making garbage collection work, but it is very
/// dangerous; if a collection happens while a `JS` sits on the stack with
/// no matching root, it can be left holding the identity of freed memory.
/// It is safe only as a field of another traced structure, on the sole
/// condition that the structure reports it when traced.
#[derive(Clone, Copy, PartialEq, Eq, Structural, Debug)]
pub struct JS {
    /// The referent's collector-visible identity.
    pub identity: u64,
    /// The tag of the referent's concrete type.
    pub ty: u32,
    /// The tag this handle is currently viewed at: always a supertype of
    /// `ty` (widened by `upcast`, narrowed back by a successful
    /// `downcast`).
    pub as_ty: u32,
}

/// An unrooted handle for use in the layout phase only, where an external
/// scheduling contract guarantees that no collection runs.
#[derive(Clone, Copy, PartialEq, Eq, Structural, Debug)]
pub struct LayoutJS {
    /// The referent's collector-visible identity.
    pub identity: u64,
    /// The tag of the referent's concrete type.
    pub ty: u32,
    /// The tag this handle is currently viewed at.
    pub as_ty: u32,
}

/// An address the layout phase's caller vouches is a live node, together
/// with the node's concrete type tag.
#[derive(Clone, Copy, PartialEq, Eq, Structural, Debug)]
pub struct TrustedNodeAddress {
    /// The vouched-for identity.
    pub addr: u64,
    /// The tag of the node's concrete type.
    pub ty: u32,
}

impl JS {
    /// What a handle freshly captured from a live object holds: the
    /// object's identity, viewed at its own concrete type.
    pub open spec fn from_ref_spec(obj: HeapObject) -> JS {
        JS { identity: obj.identity, ty: obj.ty, as_ty: obj.ty }
    }

    /// A handle is well formed under a hierarchy when its tags are
    /// declared there and its viewing tag is a supertype of its concrete
    /// tag.
    pub open spec fn wf(self, h: TypeHierarchy) -> bool {
        &&& h.tag_ok(self.ty)
        &&& h.tag_ok(self.as_ty)
        &&& h.derives(self.ty, self.as_ty)
    }

    /// What widening this handle to the supertype `target` yields.
    pub open spec fn upcast_spec(self, target: u32) -> JS {
        JS { identity: self.identity, ty: self.ty, as_ty: target }
    }

    /// What narrowing this handle to `target` yields: the retyped handle
    /// when the referent's concrete type derives from `target`, nothing
    /// otherwise.
    pub open spec fn downcast_spec(self, target: u32, h: TypeHierarchy) -> Option<JS> {
        if h.derives(self.ty, target) {
            Some(JS { identity: self.identity, ty: self.ty, as_ty: target })
        } else {
            None
        }
    }

    /// Capture a handle from a live object.
    pub fn from_ref(obj: &HeapObject, phase: Phase) -> (r: JS)
        requires
            phase == Phase::Script,
        ensures
            r == JS::from_ref_spec(*obj),
    {
        JS { identity: obj.identity, ty: obj.ty, as_ty: obj.ty }
    }

    /// Rewrap this handle for the layout phase.
    pub fn to_layout(&self, phase: Phase) -> (r: LayoutJS)
        requires
            phase == Phase::Layout,
        ensures
            r == (LayoutJS { identity: self.identity, ty: self.ty, as_ty: self.as_ty }),
    {
        LayoutJS { identity: self.identity, ty: self.ty, as_ty: self.as_ty }
    }

    /// Report this handle's referent to the collector's tracer.  Called
    /// while the structure holding this handle is being traced.
    pub fn trace(&self, tracer: &mut Tracer)
        ensures
            final(tracer).reported() == old(tracer).reported().push(self.identity),
    {
        tracer.report(self.identity);
    }
}

impl LayoutJS {
    /// See [`JS::wf`].
    pub open spec fn wf(self, h: TypeHierarchy) -> bool {
        &&& h.tag_ok(self.ty)
        &&& h.tag_ok(self.as_ty)
        &&& h.derives(self.ty, self.as_ty)
    }

    /// What widening this handle to the supertype `target` yields.
    pub open spec fn upcast_spec(self, target: u32) -> LayoutJS {
        LayoutJS { identity: self.identity, ty: self.ty, as_ty: target }
    }

    /// What narrowing this handle to `target` yields: the retyped handle
    /// when the referent's concrete type derives from `target`, nothing
    /// otherwise.
    pub open spec fn downcast_spec(self, target: u32, h: TypeHierarchy) -> Option<LayoutJS> {
        if h.derives(self.ty, target) {
            Some(LayoutJS { identity: self.identity, ty: self.ty, as_ty: target })
        } else {
            None
        }
    }

    /// Cast this handle upwards to one of the types its referent derives
    /// from.  The widening demand is a precondition, so an illegal upcast
    /// is refused statically.
    pub fn upcast(&self, target: u32, h: &TypeHierarchy, phase: Phase) -> (r: LayoutJS)
        requires
            phase == Phase::Layout,
            h.wf(),
            self.wf(*h),
            h.derives(self.as_ty, target),
        ensures
            r == self.upcast_spec(target),
            r.wf(*h),
    {
        proof {
            h.lemma_derives_transitive(self.ty, self.as_ty, target);
            h.lemma_derives_le(self.as_ty, target);
        }
        LayoutJS { identity: self.identity, ty: self.ty, as_ty: target }
    }

    /// Cast this handle downwards to one of the types its referent might
    /// have, testing the referent's concrete tag at runtime.
    pub fn downcast(&self, target: u32, h: &TypeHierarchy, phase: Phase) -> (r: Option<LayoutJS>)
        requires
            phase == Phase::Layout,
            h.wf(),
            self.wf(*h),
            h.tag_ok(target),
        ensures
            r == self.downcast_spec(target, *h),
            r matches Some(d) ==> d.wf(*h),
    {
        if h.derives_from(self.ty, target) {
            Some(LayoutJS { identity: self.identity, ty: self.ty, as_ty: target })
        } else {
            None
        }
    }

    /// The referent's collector-visible handle, for the layout phase.
    pub fn get_jsobject(&self, phase: Phase) -> (r: u64)
        requires
            phase == Phase::Layout,
        ensures
            r == self.identity,
    {
        self.identity
    }

    /// Raw access to the referent's identity, with no liveness check.
    /// Sound only because the layout phase guarantees that no collection
    /// runs for its whole duration.
    pub fn unsafe_get(&self, phase: Phase) -> (r: u64)
        requires
            phase == Phase::Layout,
        ensures
            r == self.identity,
    {
        self.identity
    }

    /// The referent's identity for use back in the script phase, once the
    /// caller has independently established liveness (for example by also
    /// holding a root).  Performs no rooting itself.
    pub fn get_for_script(&self, phase: Phase) -> (r: u64)
        requires
            phase == Phase::Script,
        ensures
            r == self.identity,
    {
        self.identity
    }

    /// Wrap an address the caller vouches is a live node.
    pub fn from_trusted_node_address(
        inner: TrustedNodeAddress,
        node_tag: u32,
        h: &TypeHierarchy,
        phase: Phase,
    ) -> (r: LayoutJS)
        requires
            phase == Phase::Layout,
            h.wf(),
            h.tag_ok(inner.ty),
            h.derives(inner.ty, node_tag),
        ensures
            r == (LayoutJS { identity: inner.addr, ty: inner.ty, as_ty: node_tag }),
            r.wf(*h),
    {
        proof {
            h.lemma_derives_le(inner.ty, node_tag);
        }
        LayoutJS { identity: inner.addr, ty: inner.ty, as_ty: node_tag }
    }
}

/// Casting is sound: widening a handle and then narrowing it back to the
/// type it was viewed at recovers a handle identity-equal to the first
/// whenever the referent's concrete type still matches — and it always
/// does here, because a well-formed handle's concrete type derives from
/// its viewing type.  Narrowing to a type the concrete type does not
/// derive from yields nothing.
pub proof fn lemma_cast_roundtrip(js: LayoutJS, target: u32, other: u32, h: TypeHierarchy)
    requires
        h.wf(),
        js.wf(h),
        h.derives(js.as_ty, target),
    ensures
        js.upcast_spec(target).downcast_spec(js.as_ty, h) matches Some(back) && back.identity
            == js.identity && back == (LayoutJS { as_ty: js.as_ty, ..js.upcast_spec(target) }),
        !h.derives(js.ty, other) ==> js.upcast_spec(target).downcast_spec(other, h) is None,
{
}

} // verus!

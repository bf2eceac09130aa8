use vstd::prelude::*;

use crate::js::HeapObject;
use crate::js::JS;
use crate::js::LayoutJS;
use crate::phase::Phase;
use crate::root::Root;
use crate::root::RootCollection;
use crate::trace::Tracer;

verus! {

/// A heap-resident slot always holding one handle, mutated in place.
///
/// It must live as a field of a traced structure, which reports the
/// stored handle through [`MutJS::trace`] whenever the owner is traced.
/// Reading it back goes through [`MutJS::get`], which materializes a
/// fresh root: handing out the stored handle directly would not keep the
/// referent alive past the call.
pub struct MutJS {
    val: JS,
}

impl MutJS {
    /// The handle currently stored.
    pub closed spec fn value(self) -> JS {
        self.val
    }

    /// The slot never stores a null identity, so reading it can always
    /// root the referent.
    pub open spec fn wf(self) -> bool {
        self.value().identity != 0
    }

    /// What the slot holds after being set from the live object `val`.
    pub closed spec fn set_spec(self, val: HeapObject) -> MutJS {
        MutJS { val: JS::from_ref_spec(val) }
    }

    /// Create a new slot holding a handle to `initial`.
    pub fn new(initial: &HeapObject, phase: Phase) -> (r: MutJS)
        requires
            phase == Phase::Script,
            initial.identity != 0,
        ensures
            r.value() == JS::from_ref_spec(*initial),
            r.wf(),
    {
        MutJS { val: JS::from_ref(initial, phase) }
    }

    /// Replace the stored handle with one to `val`.
    pub fn set(&mut self, val: &HeapObject, phase: Phase)
        requires
            phase == Phase::Script,
            val.identity != 0,
        ensures
            *final(self) == old(self).set_spec(*val),
            final(self).value() == JS::from_ref_spec(*val),
            final(self).wf(),
    {
        self.val = JS::from_ref(val, phase);
    }

    /// Read the stored handle back as a fresh root — the only sanctioned
    /// way to read the slot.
    pub fn get(&self, roots: &mut RootCollection, phase: Phase) -> (r: Root)
        requires
            phase == Phase::Script,
            self.wf(),
        ensures
            r.js == self.value(),
            final(roots)@ == old(roots)@.push(self.value().identity),
    {
        Root::new(self.val, roots, phase)
    }

    /// Report the stored handle when the owning structure is traced.
    pub fn trace(&self, tracer: &mut Tracer)
        ensures
            final(tracer).reported() == old(tracer).reported().push(self.value().identity),
    {
        self.val.trace(tracer);
    }
}

impl PartialEq for MutJS {
    /// Two slots are equal when they store the same handle.
    fn eq(&self, other: &MutJS) -> (r: bool) {
        self.val == other.val
    }
}

impl vstd::std_specs::cmp::PartialEqSpecImpl for MutJS {
    open spec fn obeys_eq_spec() -> bool {
        true
    }

    open spec fn eq_spec(&self, other: &MutJS) -> bool {
        self.value() == other.value()
    }
}

/// A slot set to `b` reads back a handle identity-equal to `b`, never to
/// an earlier occupant `a`, whatever the slot held before.
pub proof fn lemma_cell_reads_last_write(c: MutJS, a: HeapObject, b: HeapObject)
    ensures
        c.set_spec(a).set_spec(b).value() == JS::from_ref_spec(b),
        a.identity != b.identity ==> c.set_spec(a).set_spec(b).value().identity != a.identity,
{
}

/// A heap-resident slot holding zero or one handle, mutated in place,
/// with absence as an explicit result.  See [`MutJS`] for the tracing and
/// reading discipline.
pub struct MutNullableJS {
    val: Option<JS>,
}

impl MutNullableJS {
    /// The handle currently stored, if any.
    pub closed spec fn value(self) -> Option<JS> {
        self.val
    }

    /// A stored handle never has a null identity.
    pub open spec fn wf(self) -> bool {
        self.value() matches Some(v) ==> v.identity != 0
    }

    /// What the slot holds after being set from `val`.
    pub closed spec fn set_spec(self, val: Option<HeapObject>) -> MutNullableJS {
        match val {
            Some(o) => MutNullableJS { val: Some(JS::from_ref_spec(o)) },
            None => MutNullableJS { val: None },
        }
    }

    /// Create a new slot, empty or holding a handle to `initial`.
    pub fn new(initial: Option<&HeapObject>, phase: Phase) -> (r: MutNullableJS)
        requires
            phase == Phase::Script,
            initial matches Some(o) ==> o.identity != 0,
        ensures
            r.value() == match initial {
                Some(o) => Some(JS::from_ref_spec(*o)),
                None => None::<JS>,
            },
            r.wf(),
    {
        match initial {
            Some(o) => MutNullableJS { val: Some(JS::from_ref(o, phase)) },
            None => MutNullableJS { val: None },
        }
    }

    /// Read the stored handle back as a fresh root, or report absence.
    pub fn get(&self, roots: &mut RootCollection, phase: Phase) -> (r: Option<Root>)
        requires
            phase == Phase::Script,
            self.wf(),
        ensures
            match self.value() {
                Some(v) => r matches Some(root) && root.js == v && (final(roots)@ == old(
                    roots)@.push(v.identity)),
                None => r is None && final(roots)@ == old(roots)@,
            },
    {
        match self.val {
            Some(v) => Some(Root::new(v, roots, phase)),
            None => None,
        }
    }

    /// Retrieve the existing handle as a fresh root, or on absence invoke
    /// `cb`, store its result, and return it rooted.  On a slot already
    /// holding a handle, `cb` is not invoked.  Re-entrant invocation of
    /// `cb` from within itself is for callers to avoid; nothing beyond
    /// single-thread, single-phase confinement is implied.
    pub fn or_init<F: FnOnce() -> JS>(
        &mut self,
        roots: &mut RootCollection,
        phase: Phase,
        cb: F,
    ) -> (r: Root)
        requires
            phase == Phase::Script,
            old(self).wf(),
            call_requires(cb, ()),
            forall|j: JS| call_ensures(cb, (), j) ==> j.identity != 0,
        ensures
            final(self).wf(),
            match old(self).value() {
                Some(v) => r.js == v && final(self).value() == Some(v) && (final(roots)@ == old(
                    roots)@.push(v.identity)),
                None => call_ensures(cb, (), r.js) && final(self).value() == Some(r.js) && (final(
                    roots)@ == old(roots)@.push(r.js.identity)),
            },
    {
        match self.val {
            Some(v) => Root::new(v, roots, phase),
            None => {
                let j = cb();
                self.val = Some(j);
                Root::new(j, roots, phase)
            },
        }
    }

    /// Retrieve a copy of the stored handle rewrapped for layout, which
    /// cannot use the rooted types.
    pub fn get_inner_as_layout(&self, phase: Phase) -> (r: Option<LayoutJS>)
        requires
            phase == Phase::Layout,
        ensures
            match self.value() {
                Some(v) => r == Some(
                    LayoutJS { identity: v.identity, ty: v.ty, as_ty: v.as_ty },
                ),
                None => r is None,
            },
    {
        match self.val {
            Some(v) => Some(v.to_layout(phase)),
            None => None,
        }
    }

    /// Replace the stored handle, or clear the slot.
    pub fn set(&mut self, val: Option<&HeapObject>, phase: Phase)
        requires
            phase == Phase::Script,
            val matches Some(o) ==> o.identity != 0,
        ensures
            *final(self) == old(self).set_spec(
                match val {
                    Some(o) => Some(*o),
                    None => None::<HeapObject>,
                },
            ),
            final(self).value() == match val {
                Some(o) => Some(JS::from_ref_spec(*o)),
                None => None::<JS>,
            },
            final(self).wf(),
    {
        match val {
            Some(o) => {
                self.val = Some(JS::from_ref(o, phase));
            },
            None => {
                self.val = None;
            },
        }
    }

    /// Read the stored handle out as a fresh root and clear the slot.
    pub fn take(&mut self, roots: &mut RootCollection, phase: Phase) -> (r: Option<Root>)
        requires
            phase == Phase::Script,
            old(self).wf(),
        ensures
            final(self).value() is None,
            match old(self).value() {
                Some(v) => r matches Some(root) && root.js == v && (final(roots)@ == old(
                    roots)@.push(v.identity)),
                None => r is None && final(roots)@ == old(roots)@,
            },
    {
        let value = self.get(roots, phase);
        self.set(None, phase);
        value
    }

    /// Report the stored handle, if any, when the owning structure is
    /// traced; an empty slot reports nothing.
    pub fn trace(&self, tracer: &mut Tracer)
        ensures
            match self.value() {
                Some(v) => final(tracer).reported() == old(tracer).reported().push(v.identity),
                None => final(tracer).reported() == old(tracer).reported(),
            },
    {
        match self.val {
            Some(v) => v.trace(tracer),
            None => (),
        }
    }
}

impl PartialEq for MutNullableJS {
    /// Two slots are equal when they store the same handle, or are both
    /// empty.
    fn eq(&self, other: &MutNullableJS) -> (r: bool) {
        self.val == other.val
    }
}

impl vstd::std_specs::cmp::PartialEqSpecImpl for MutNullableJS {
    open spec fn obeys_eq_spec() -> bool {
        true
    }

    open spec fn eq_spec(&self, other: &MutNullableJS) -> bool {
        self.value() == other.value()
    }
}

impl Default for MutNullableJS {
    /// A fresh slot is empty; building one touches no collector state.
    fn default() -> (r: MutNullableJS)
        ensures
            r.value() == None::<JS>,
            r.wf(),
    {
        MutNullableJS { val: None }
    }
}

/// A fresh nullable slot reads empty, and stays empty under clearing
/// writes; only a `set` of a present value makes it read that value.
pub proof fn lemma_nullable_empty_until_set(c: MutNullableJS, x: HeapObject)
    ensures
        (c.set_spec(None::<HeapObject>).value() is None),
        c.set_spec(Some(x)).value() == Some(JS::from_ref_spec(x)),
{
}

/// Declares mitochondria's write-once cell so that it can stand in a
/// field and in the trusted wrappers below.
#[verifier::external_type_specification]
#[verifier::external_body]
#[verifier::reject_recursive_types(T)]
pub struct ExOnceCell<T>(mitochondria::OnceCell<T>);

/// The handle a write-once cell holds, if it was ever initialized.
pub uninterp spec fn once_cell_value(c: mitochondria::OnceCell<JS>) -> Option<JS>;

/// Relies on mitochondria's `OnceCell::new`, which creates a cell that is
/// not initialized.
#[verifier::external_body]
fn once_cell_new() -> (r: mitochondria::OnceCell<JS>)
    ensures
        once_cell_value(r) == None::<JS>,
{
    mitochondria::OnceCell::new()
}

/// Relies on mitochondria's `OnceCell::as_ref`, which returns the stored
/// value of an initialized cell and nothing otherwise.
#[verifier::external_body]
fn once_cell_get(c: &mitochondria::OnceCell<JS>) -> (r: Option<JS>)
    ensures
        r == once_cell_value(*c),
{
    c.as_ref().copied()
}

/// Relies on mitochondria's `OnceCell::init_once`, which on a cell that
/// is not initialized stores its closure's result; the closure here
/// returns the given value and cannot re-enter the cell.
#[verifier::external_body]
fn once_cell_init(c: &mut mitochondria::OnceCell<JS>, v: JS)
    requires
        once_cell_value(*old(c)) == None::<JS>,
    ensures
        once_cell_value(*final(c)) == Some(v),
{
    c.init_once(|| v);
}

/// A heap-resident slot that is lazily initialized at most once over its
/// whole lifetime.  See [`MutJS`] for the tracing discipline.
pub struct OnceCellJS {
    cell: mitochondria::OnceCell<JS>,
}

impl OnceCellJS {
    /// The handle stored by the one initialization, if it has happened.
    pub closed spec fn value(self) -> Option<JS> {
        once_cell_value(self.cell)
    }

    /// A stored handle never has a null identity.
    pub open spec fn wf(self) -> bool {
        self.value() matches Some(v) ==> v.identity != 0
    }

    /// What one `init_once` call returns, given the slot's state and the
    /// handle the producer would make: the already-stored handle wins.
    pub open spec fn once_result(state: Option<JS>, produced: JS) -> JS {
        match state {
            Some(v) => v,
            None => produced,
        }
    }

    /// The slot's state after one `init_once` call: filled by the first
    /// call, untouched by every later one.
    pub open spec fn once_next_state(state: Option<JS>, produced: JS) -> Option<JS> {
        match state {
            Some(v) => Some(v),
            None => Some(produced),
        }
    }

    /// Retrieve the stored handle; if the slot was never initialized,
    /// invoke `cb` first and store its result.  The producer runs at most
    /// once over the cell's lifetime: a slot already holding a handle
    /// returns it without invoking `cb`.
    pub fn init_once<F: FnOnce() -> JS>(&mut self, phase: Phase, cb: F) -> (r: JS)
        requires
            phase == Phase::Script,
            old(self).wf(),
            call_requires(cb, ()),
            forall|j: JS| call_ensures(cb, (), j) ==> j.identity != 0,
        ensures
            final(self).wf(),
            r == Self::once_result(old(self).value(), r),
            final(self).value() == Self::once_next_state(old(self).value(), r),
            old(self).value() is None ==> call_ensures(cb, (), r),
    {
        match once_cell_get(&self.cell) {
            Some(v) => v,
            None => {
                let j = cb();
                once_cell_init(&mut self.cell, j);
                j
            },
        }
    }

    /// Report the stored handle, if any, when the owning structure is
    /// traced; an uninitialized slot reports nothing.
    pub fn trace(&self, tracer: &mut Tracer)
        ensures
            match self.value() {
                Some(v) => final(tracer).reported() == old(tracer).reported().push(v.identity),
                None => final(tracer).reported() == old(tracer).reported(),
            },
    {
        match once_cell_get(&self.cell) {
            Some(v) => v.trace(tracer),
            None => (),
        }
    }
}

impl Default for OnceCellJS {
    /// A fresh slot is not initialized; building one touches no collector
    /// state.
    fn default() -> (r: OnceCellJS)
        ensures
            r.value() == None::<JS>,
            r.wf(),
    {
        OnceCellJS { cell: once_cell_new() }
    }
}

/// Write-once idempotence: the first initialization fills the slot with
/// the handle its producer made, and every later call returns that same
/// handle and leaves the slot untouched, whatever its producer would have
/// made.
pub proof fn lemma_write_once_idempotent(p1: JS, p2: JS)
    ensures
        OnceCellJS::once_result(None::<JS>, p1) == p1,
        OnceCellJS::once_next_state(None::<JS>, p1) == Some(p1),
        OnceCellJS::once_result(Some(p1), p2) == p1,
        OnceCellJS::once_next_state(Some(p1), p2) == Some(p1),
{
}

} // verus!

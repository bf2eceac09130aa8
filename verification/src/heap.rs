use vstd::prelude::*;

verus! {

/// A pinned slot for a raw collector value, as the collector's heap
/// wrappers expose it: a fixed location whose contents are replaced in
/// place.  Zero is the null value a fresh slot holds.
#[derive(Clone, Copy, PartialEq, Eq, Structural, Debug)]
pub struct HeapSlot {
    /// The raw collector-visible value written into the slot.
    pub value: u64,
}

impl Default for HeapSlot {
    /// A fresh slot holds the null value.
    fn default() -> (r: HeapSlot)
        ensures
            r.value == 0,
    {
        HeapSlot { value: 0 }
    }
}

impl HeapSlot {
    /// Overwrite the slot in place.
    pub fn set(&mut self, v: u64)
        ensures
            final(self).value == v,
    {
        self.value = v;
    }
}

/// Helper trait for safer manipulation of optional heap-slot values.
pub trait OptionalHeapSetter: Sized {
    /// The raw value a slot holds.
    type Value;

    /// What the holder reads as after an update with `v`.
    spec fn set_spec(v: Option<Self::Value>) -> Self;

    /// Update this optional heap value with a new value.
    fn set(&mut self, v: Option<Self::Value>)
        ensures
            *final(self) == Self::set_spec(v),
    ;
}

impl OptionalHeapSetter for Option<HeapSlot> {
    type Value = u64;

    open spec fn set_spec(v: Option<u64>) -> Option<HeapSlot> {
        match v {
            Some(x) => Some(HeapSlot { value: x }),
            None => None,
        }
    }

    /// Clearing drops the slot; writing a value fills the slot that is
    /// there, making one first if the holder was empty.
    fn set(&mut self, v: Option<u64>) {
        let x = match v {
            None => {
                *self = None;
                return ;
            },
            Some(x) => x,
        };
        if self.is_none() {
            *self = Some(HeapSlot::default());
        }
        let mut slot = (*self).unwrap();
        slot.set(x);
        *self = Some(slot);
    }
}

} // verus!

use vstd::prelude::*;

verus! {

/// The two mutually exclusive operating phases.
///
/// The script phase freely mutates the object graph; the layout phase
/// performs read-only traversal under an external guarantee that no
/// collection and no script activity overlaps it.  Which phase is current
/// is decided by an oracle outside this crate; callers consult it and pass
/// the answer down, and every operation states the phase it demands as a
/// precondition.
#[derive(Clone, Copy, PartialEq, Eq, Structural, Debug)]
pub enum Phase {
    /// The mutation phase.
    Script,
    /// The read-only traversal phase.
    Layout,
}

} // verus!

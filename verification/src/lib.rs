//! Smart handles for objects managed by an embedded tracing garbage
//! collector.
//!
//! Objects of interest are allocated and reclaimed entirely under the
//! collector's control.  The host must never hold an object's identity
//! unless that identity is also visible to the collector's reachability
//! scan, or the object may be freed out from under it.  The types here
//! are that discipline:
//!
//! - [`js::JS`]: an untraced handle, usable only as a field of another
//!   traced structure, which reports it when traced.
//! - [`root::Root`]: a stack-bound handle that registers its identity in a
//!   [`root::RootCollection`] for as long as it lives.
//! - [`cell::MutJS`], [`cell::MutNullableJS`], [`cell::OnceCellJS`]:
//!   heap-resident slots holding zero or one handle, readable only by
//!   materializing a fresh root.
//! - [`js::LayoutJS`]: a registry-free handle restricted to the layout
//!   phase, which runs under an external no-collection guarantee.
//! - [`trace::trace_roots`]: the entry point the collector calls to learn
//!   every currently registered root.

pub mod cell;
pub mod heap;
pub mod hierarchy;
pub mod js;
pub mod phase;
pub mod root;
pub mod trace;

//! A single-threaded readiness reactor for a host that offers opaque
//! readiness handles with one combined blocking wait, plus cooperative
//! stream adapters layered on top.
//!
//! Host capabilities (readiness handles, stream handles, wakers) are opaque
//! to this core and stand here as plain integer identifiers. Every call that
//! only the host can answer (the combined wait, a readiness query, one
//! bounded read or write) is made by the embedding layer, which hands its
//! outcome back in as a plain value; everything this crate decides from
//! those outcomes is verified.
use vstd::prelude::*;

pub mod polling;
pub mod reactor;
pub mod streams;

verus! {

/// Outcome of one cooperative operation: either it finished with `T`, or the
/// caller must suspend and retry once the stored waker is invoked.
#[derive(Debug, PartialEq, Eq)]
pub enum Poll<T> {
    Ready(T),
    Pending,
}

} // verus!

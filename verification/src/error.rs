//! Errors of a conversion pass.

use vstd::prelude::*;

verus! {

/// A failure that aborts the remainder of a conversion pass. The protocol is
/// fail-fast: no retry, no partial-result recovery. Output already written by
/// a sink before the failure is not rolled back.
#[derive(Clone, Copy, Debug, PartialEq, Eq, Structural)]
pub enum GeozeroError {
    /// The underlying output transport of a sink failed.
    Sink,
    /// A foreign geometry library failed while building its object.
    Geometry,
    /// An event arrived out of the order the protocol grammar allows.
    GeometryFormat,
}

} // verus!

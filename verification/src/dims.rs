//! Coordinate dimensionality: which optional coordinate channels are active.

use vstd::prelude::*;

verus! {

/// Declares which optional coordinate channels (Z, M, T, TM) are active for a
/// whole processing pass. A pass's dimensionality is fixed for its duration;
/// sinks honor only the channels declared active here.
#[derive(Clone, Copy, Debug, PartialEq, Eq, Structural)]
pub struct CoordDimensions {
    /// Elevation channel.
    pub z: bool,
    /// Linear measure channel.
    pub m: bool,
    /// Time channel.
    pub t: bool,
    /// Time-measure identifier channel.
    pub tm: bool,
}

impl CoordDimensions {
    /// Only X/Y active: the default for 2D producers.
    pub fn xy() -> (d: CoordDimensions)
        ensures
            d == (CoordDimensions { z: false, m: false, t: false, tm: false }),
    {
        CoordDimensions { z: false, m: false, t: false, tm: false }
    }

    /// X/Y/Z active.
    pub fn xyz() -> (d: CoordDimensions)
        ensures
            d == (CoordDimensions { z: true, m: false, t: false, tm: false }),
    {
        CoordDimensions { z: true, m: false, t: false, tm: false }
    }
}

impl Default for CoordDimensions {
    /// Only X/Y active.
    fn default() -> (d: CoordDimensions)
        ensures
            d == (CoordDimensions { z: false, m: false, t: false, tm: false }),
    {
        CoordDimensions { z: false, m: false, t: false, tm: false }
    }
}

} // verus!

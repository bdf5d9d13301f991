//! The geometry event interface.

use crate::dims::CoordDimensions;
use crate::error::GeozeroError;
use vstd::prelude::*;

verus! {

/// The capability of receiving the structural and coordinate events for one
/// (possibly compound) geometry, independent of feature framing.
///
/// The event stream obeys a stack discipline: every `..._begin` call that
/// introduces a compound structure is matched by exactly one `..._end` call
/// for the same structure, and the pairs nest like parentheses — a
/// structure's begin/end pair fully contains all events for its children.
/// Coordinate emission is a leaf event and never itself nests. A compound
/// with zero children still emits its matched begin/end pair, with no
/// intervening event. Depth is unbounded.
///
/// Every `idx` argument is the zero-based position of the child among its
/// siblings in the same parent scope; a sink uses index `0` to suppress
/// separator emission and any later index to emit one. Every `size`
/// argument is an advisory child count (`0` when unknown); sinks must not
/// rely on its accuracy.
///
/// Coordinate channel values are handed over as their decimal text.
pub trait GeomProcessor {
    /// The coordinate dimensionality in effect for the whole pass. Sinks use
    /// it to decide which optional coordinate channels to consume and do not
    /// mutate it mid-pass.
    fn dimensions(&self) -> CoordDimensions;

    /// One 2D point: equivalent to `coordinate` with all optional channels
    /// empty.
    fn xy(&mut self, x: &str, y: &str, idx: usize) -> Result<(), GeozeroError>;

    /// One fully-qualified point. An optional channel value is present only
    /// when the corresponding dimensionality flag is active; a sink must
    /// ignore values offered for inactive channels and must never fabricate
    /// values for active channels that are not supplied.
    fn coordinate(
        &mut self,
        x: &str,
        y: &str,
        z: Option<&str>,
        m: Option<&str>,
        t: Option<&str>,
        tm: Option<u64>,
        idx: usize,
    ) -> Result<(), GeozeroError>;

    /// Begin of a point.
    fn point_begin(&mut self, idx: usize) -> Result<(), GeozeroError>;

    /// End of a point.
    fn point_end(&mut self, idx: usize) -> Result<(), GeozeroError>;

    /// Begin of a multipoint.
    fn multipoint_begin(&mut self, size: usize, idx: usize) -> Result<(), GeozeroError>;

    /// End of a multipoint.
    fn multipoint_end(&mut self, idx: usize) -> Result<(), GeozeroError>;

    /// Begin of a line string. `tagged` is `false` when the line is a direct
    /// child of a multilinestring (its own type tag is redundant and a
    /// self-describing sink suppresses it) and `true` when it stands alone as
    /// a top-level geometry.
    fn linestring_begin(&mut self, tagged: bool, size: usize, idx: usize) -> Result<
        (),
        GeozeroError,
    >;

    /// End of a line string; `tagged` mirrors the matching begin.
    fn linestring_end(&mut self, tagged: bool, idx: usize) -> Result<(), GeozeroError>;

    /// Begin of a multilinestring.
    fn multilinestring_begin(&mut self, size: usize, idx: usize) -> Result<(), GeozeroError>;

    /// End of a multilinestring.
    fn multilinestring_end(&mut self, idx: usize) -> Result<(), GeozeroError>;

    /// Begin of a polygon. `tagged` is `false` when the polygon's rings are
    /// emitted as direct children of a polygon scope inside a multipolygon
    /// and `true` when the polygon stands alone as a top-level geometry.
    fn polygon_begin(&mut self, tagged: bool, size: usize, idx: usize) -> Result<
        (),
        GeozeroError,
    >;

    /// End of a polygon; `tagged` mirrors the matching begin.
    fn polygon_end(&mut self, tagged: bool, idx: usize) -> Result<(), GeozeroError>;

    /// Begin of a multipolygon.
    fn multipolygon_begin(&mut self, size: usize, idx: usize) -> Result<(), GeozeroError>;

    /// End of a multipolygon.
    fn multipolygon_end(&mut self, idx: usize) -> Result<(), GeozeroError>;

    /// Begin of a geometry collection.
    fn geometrycollection_begin(&mut self, size: usize, idx: usize) -> Result<(), GeozeroError>;

    /// End of a geometry collection.
    fn geometrycollection_end(&mut self, idx: usize) -> Result<(), GeozeroError>;
}

} // verus!

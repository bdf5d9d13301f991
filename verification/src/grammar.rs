//! An optional grammar-checking sink for debugging drivers.
//!
//! Validating event order is a driver responsibility, not a sink
//! responsibility; this checker exists so a driver under development can be
//! held to the grammar. Drive it with the same events as a real sink: every
//! call answers whether the event is admissible where it stands — the
//! begin/end pairs nest like parentheses, sibling indices count up from
//! zero, rings and lines nested in a polygon or multilinestring are
//! untagged, a dataset frames its features in order. An inadmissible event
//! is refused and leaves the checker unchanged, so a driver can stop at the
//! first violation.

use crate::dims::CoordDimensions;
use crate::error::GeozeroError;
use crate::feature::FeatureProcessor;
use crate::geometry::GeomProcessor;
use crate::property::{ColumnValue, PropertyProcessor};
use vstd::prelude::*;

verus! {

/// One structural kind of the geometry event grammar.
#[derive(Clone, Copy, Debug, PartialEq, Eq, Structural)]
pub enum GeomKind {
    /// A single position.
    Point,
    /// A row of positions, each its own point.
    MultiPoint,
    /// A row of positions forming a line or ring.
    LineString,
    /// A row of untagged lines.
    MultiLineString,
    /// A row of untagged rings.
    Polygon,
    /// A row of untagged polygons.
    MultiPolygon,
    /// A row of tagged geometries of any kind.
    GeometryCollection,
}

/// Where a pass stands in the framing grammar.
#[derive(Clone, Copy, Debug, PartialEq, Eq, Structural)]
pub enum Frame {
    /// Nothing has happened: a dataset or a bare geometry may start.
    Fresh,
    /// Inside a dataset, between features.
    Dataset,
    /// Inside a feature, outside its blocks.
    Feature,
    /// Inside a feature's property block.
    Properties,
    /// Inside a feature's geometry block.
    Geometry,
    /// The dataset has closed.
    Done,
}

/// One open compound scope: its kind, how many children have begun in it,
/// and the tagged flag its begin carried.
#[derive(Clone, Copy, Debug, PartialEq, Eq, Structural)]
pub struct Scope {
    /// The structural kind that was begun.
    pub kind: GeomKind,
    /// How many children have begun in this scope so far.
    pub children: usize,
    /// The tagged flag of the begin event (`true` for kinds without a flag).
    pub tagged: bool,
}

/// The whole state of a grammar check: the framing position, the feature
/// and property counters of the current scopes, and the stack of open
/// geometry scopes.
#[verifier::ext_equal]
pub struct State {
    /// Position in the framing grammar.
    pub frame: Frame,
    /// Features completed in the dataset so far.
    pub features: int,
    /// Properties received in the current property block so far.
    pub props: int,
    /// Whether the current feature already had its property block.
    pub had_props: bool,
    /// Whether the current feature already had its geometry block.
    pub had_geometry: bool,
    /// The open geometry scopes, outermost first.
    pub stack: Seq<Scope>,
    /// Completed top-level geometry subtrees in the current geometry block.
    pub roots: int,
}

/// The state of a checker that has seen nothing.
pub open spec fn initial_state() -> State {
    State {
        frame: Frame::Fresh,
        features: 0,
        props: 0,
        had_props: false,
        had_geometry: false,
        stack: Seq::empty(),
        roots: 0,
    }
}

/// Geometry events are admissible inside a feature's geometry block, or in
/// a bare pass that frames no features at all.
pub open spec fn geom_ctx(s: State) -> bool {
    s.frame == Frame::Geometry || s.frame == Frame::Fresh
}

/// The kinds whose children are coordinate leaf events.
pub open spec fn leaf_parent(k: GeomKind) -> bool {
    k == GeomKind::Point || k == GeomKind::MultiPoint || k == GeomKind::LineString
}

/// Which structural child a compound kind admits, and with which tagged
/// flag: rings and lines inside a polygon or multilinestring are untagged,
/// polygons inside a multipolygon are untagged, members of a geometry
/// collection are tagged, and the leaf kinds admit no structural child.
pub open spec fn child_ok(parent: GeomKind, child: GeomKind, tagged: bool) -> bool {
    match parent {
        GeomKind::Polygon => child == GeomKind::LineString && !tagged,
        GeomKind::MultiLineString => child == GeomKind::LineString && !tagged,
        GeomKind::MultiPolygon => child == GeomKind::Polygon && !tagged,
        GeomKind::GeometryCollection => tagged,
        _ => false,
    }
}

/// A fresh scope for a begin event.
pub open spec fn new_scope(kind: GeomKind, tagged: bool) -> Scope {
    Scope { kind, children: 0, tagged }
}

/// A scope after the child at position `idx` has begun in it.
pub open spec fn bumped(p: Scope, idx: int) -> Scope {
    Scope { children: (idx + 1) as usize, ..p }
}

/// When a structural begin event is admissible: in a geometry context, at
/// the top level only as the single root with index 0 and tagged, below a
/// parent only at the parent's next sibling position and with the flag the
/// parent dictates.
pub open spec fn begin_ok(s: State, kind: GeomKind, tagged: bool, idx: int) -> bool {
    geom_ctx(s) && idx < usize::MAX && if s.stack.len() == 0 {
        s.roots == 0 && idx == 0 && tagged
    } else {
        idx == s.stack.last().children as int && child_ok(s.stack.last().kind, kind, tagged)
    }
}

/// The state after an admissible begin: the parent's child count moves past
/// `idx` and the new scope opens.
pub open spec fn begin_next(s: State, kind: GeomKind, tagged: bool, idx: int) -> State {
    if s.stack.len() == 0 {
        State { stack: s.stack.push(new_scope(kind, tagged)), ..s }
    } else {
        State {
            stack: s.stack.update(s.stack.len() - 1, bumped(s.stack.last(), idx)).push(
                new_scope(kind, tagged),
            ),
            ..s
        }
    }
}

/// When a coordinate leaf event is admissible: inside an open point,
/// multipoint or line scope, at that scope's next sibling position.
pub open spec fn coord_ok(s: State, idx: int) -> bool {
    geom_ctx(s) && idx < usize::MAX && s.stack.len() > 0 && leaf_parent(s.stack.last().kind)
        && idx == s.stack.last().children as int
}

/// The state after an admissible coordinate: the enclosing scope's child
/// count moves past `idx`.
pub open spec fn coord_next(s: State, idx: int) -> State {
    State { stack: s.stack.update(s.stack.len() - 1, bumped(s.stack.last(), idx)), ..s }
}

/// When an end event is admissible: it must close the innermost open scope,
/// of the same kind, and — for the kinds that carry one — with the tagged
/// flag their begin carried.
pub open spec fn end_ok(s: State, kind: GeomKind, tagged: Option<bool>) -> bool {
    geom_ctx(s) && s.stack.len() > 0 && s.stack.last().kind == kind && (match tagged {
        Some(t) => s.stack.last().tagged == t,
        None => true,
    }) && (s.stack.len() == 1 ==> s.roots < usize::MAX)
}

/// The state after an admissible end: the innermost scope closes; closing
/// the last one completes a root subtree.
pub open spec fn end_next(s: State) -> State {
    State {
        stack: s.stack.drop_last(),
        roots: if s.stack.len() == 1 {
            s.roots + 1
        } else {
            s.roots
        },
        ..s
    }
}

/// A dataset may begin only before anything else has happened.
pub open spec fn dataset_begin_ok(s: State) -> bool {
    s.frame == Frame::Fresh && s.stack.len() == 0 && s.roots == 0
}

/// The state after `dataset_begin`.
pub open spec fn dataset_begin_next(s: State) -> State {
    State { frame: Frame::Dataset, features: 0, ..s }
}

/// Features begin between features of an open dataset, in increasing index
/// order.
pub open spec fn feature_begin_ok(s: State, idx: int) -> bool {
    s.frame == Frame::Dataset && idx == s.features && idx < u64::MAX
}

/// The state after `feature_begin`.
pub open spec fn feature_begin_next(s: State) -> State {
    State { frame: Frame::Feature, had_props: false, had_geometry: false, ..s }
}

/// At most one property block per feature, and before its geometry block.
pub open spec fn properties_begin_ok(s: State) -> bool {
    s.frame == Frame::Feature && !s.had_props && !s.had_geometry
}

/// The state after `properties_begin`.
pub open spec fn properties_begin_next(s: State) -> State {
    State { frame: Frame::Properties, props: 0, ..s }
}

/// Properties arrive inside the block, in increasing index order.
pub open spec fn property_ok(s: State, idx: int) -> bool {
    s.frame == Frame::Properties && idx == s.props && idx < usize::MAX
}

/// The state after an admissible `property`.
pub open spec fn property_next(s: State, idx: int) -> State {
    State { props: idx + 1, ..s }
}

/// The property block closes only while it is open.
pub open spec fn properties_end_ok(s: State) -> bool {
    s.frame == Frame::Properties
}

/// The state after `properties_end`.
pub open spec fn properties_end_next(s: State) -> State {
    State { frame: Frame::Feature, had_props: true, ..s }
}

/// Exactly one geometry block per feature.
pub open spec fn geometry_begin_ok(s: State) -> bool {
    s.frame == Frame::Feature && !s.had_geometry
}

/// The state after `geometry_begin`.
pub open spec fn geometry_begin_next(s: State) -> State {
    State { frame: Frame::Geometry, roots: 0, ..s }
}

/// The geometry block closes only once exactly one complete geometry
/// subtree has been delivered.
pub open spec fn geometry_end_ok(s: State) -> bool {
    s.frame == Frame::Geometry && s.stack.len() == 0 && s.roots == 1
}

/// The state after `geometry_end`.
pub open spec fn geometry_end_next(s: State) -> State {
    State { frame: Frame::Feature, had_geometry: true, ..s }
}

/// A feature ends under its own index, after its geometry block.
pub open spec fn feature_end_ok(s: State, idx: int) -> bool {
    s.frame == Frame::Feature && s.had_geometry && idx == s.features && idx < u64::MAX
}

/// The state after `feature_end`.
pub open spec fn feature_end_next(s: State, idx: int) -> State {
    State { frame: Frame::Dataset, features: idx + 1, ..s }
}

/// The dataset closes between features.
pub open spec fn dataset_end_ok(s: State) -> bool {
    s.frame == Frame::Dataset
}

/// The state after `dataset_end`.
pub open spec fn dataset_end_next(s: State) -> State {
    State { frame: Frame::Done, ..s }
}

/// Whether a pass has delivered one complete document: a closed dataset, or
/// one whole bare geometry.
pub open spec fn complete(s: State) -> bool {
    s.frame == Frame::Done || (s.frame == Frame::Fresh && s.stack.len() == 0 && s.roots == 1)
}

/// Stack discipline. A begin that the grammar admits can always be closed,
/// and only by its matching end — the same kind, the same tagged flag — and
/// that end restores the nesting depth the begin found: the pairs nest like
/// parentheses.
pub proof fn lemma_begin_end_nesting(s: State, kind: GeomKind, tagged: bool, idx: int)
    requires
        begin_ok(s, kind, tagged, idx),
    ensures
        end_ok(begin_next(s, kind, tagged, idx), kind, Some(tagged)),
        forall|k2: GeomKind, t2: bool|
            #[trigger] end_ok(begin_next(s, kind, tagged, idx), k2, Some(t2)) ==> k2 == kind && t2
                == tagged,
        end_next(begin_next(s, kind, tagged, idx)).stack.len() == s.stack.len(),
        end_next(begin_next(s, kind, tagged, idx)).frame == s.frame,
{
    let s2 = begin_next(s, kind, tagged, idx);
    assert(s2.stack.last() == new_scope(kind, tagged));
}

/// The grammar-checking sink. It renders nothing: each event answers
/// `Ok` when it is admissible where it stands and
/// `Err(GeozeroError::GeometryFormat)` when it is not, leaving the checker
/// unchanged so the violation can be examined.
pub struct GrammarChecker {
    dims: CoordDimensions,
    frame: Frame,
    features: u64,
    props: usize,
    had_props: bool,
    had_geometry: bool,
    stack: Vec<Scope>,
    roots: usize,
}

impl GrammarChecker {
    /// The abstract state the contracts speak of.
    pub closed spec fn state(&self) -> State {
        State {
            frame: self.frame,
            features: self.features as int,
            props: self.props as int,
            had_props: self.had_props,
            had_geometry: self.had_geometry,
            stack: self.stack@,
            roots: self.roots as int,
        }
    }

    /// The coordinate dimensionality the checker reports.
    pub closed spec fn spec_dims(&self) -> CoordDimensions {
        self.dims
    }

    /// A checker with default dimensionality that has seen nothing.
    pub fn new() -> (c: GrammarChecker)
        ensures
            c.state() == initial_state(),
            c.spec_dims() == (CoordDimensions { z: false, m: false, t: false, tm: false }),
    {
        let c = GrammarChecker {
            dims: CoordDimensions::default(),
            frame: Frame::Fresh,
            features: 0,
            props: 0,
            had_props: false,
            had_geometry: false,
            stack: Vec::new(),
            roots: 0,
        };
        proof {
            assert(c.state() =~= initial_state());
        }
        c
    }

    /// A checker with the given dimensionality that has seen nothing.
    pub fn with_dims(dims: CoordDimensions) -> (c: GrammarChecker)
        ensures
            c.state() == initial_state(),
            c.spec_dims() == dims,
    {
        let c = GrammarChecker {
            dims,
            frame: Frame::Fresh,
            features: 0,
            props: 0,
            had_props: false,
            had_geometry: false,
            stack: Vec::new(),
            roots: 0,
        };
        proof {
            assert(c.state() =~= initial_state());
        }
        c
    }

    /// Whether the pass delivered one complete document.
    pub fn finished(&self) -> (b: bool)
        ensures
            b == complete(self.state()),
    {
        match self.frame {
            Frame::Done => true,
            Frame::Fresh => self.stack.len() == 0 && self.roots == 1,
            _ => false,
        }
    }

    fn check_begin(&mut self, kind: GeomKind, tagged: bool, idx: usize) -> (r: Result<
        (),
        GeozeroError,
    >)
        ensures
            r is Ok <==> begin_ok(old(self).state(), kind, tagged, idx as int),
            r is Ok ==> final(self).state() == begin_next(
                old(self).state(),
                kind,
                tagged,
                idx as int,
            ),
            !(r is Ok) ==> final(self).state() == old(self).state(),
            final(self).spec_dims() == old(self).spec_dims(),
    {
        if !(self.frame == Frame::Geometry || self.frame == Frame::Fresh) {
            return Err(GeozeroError::GeometryFormat);
        }
        if idx == usize::MAX {
            return Err(GeozeroError::GeometryFormat);
        }
        let n = self.stack.len();
        if n == 0 {
            if !(self.roots == 0 && idx == 0 && tagged) {
                return Err(GeozeroError::GeometryFormat);
            }
            self.stack.push(Scope { kind, children: 0, tagged });
            proof {
                assert(self.state() =~= begin_next(old(self).state(), kind, tagged, idx as int));
            }
            Ok(())
        } else {
            let parent = self.stack[n - 1];
            if idx != parent.children {
                return Err(GeozeroError::GeometryFormat);
            }
            if !child_ok_exec(parent.kind, kind, tagged) {
                return Err(GeozeroError::GeometryFormat);
            }
            self.stack[n - 1] = Scope { kind: parent.kind, children: idx + 1, tagged: parent.tagged };
            self.stack.push(Scope { kind, children: 0, tagged });
            proof {
                assert(self.state() =~= begin_next(old(self).state(), kind, tagged, idx as int));
            }
            Ok(())
        }
    }

    fn check_coord(&mut self, idx: usize) -> (r: Result<(), GeozeroError>)
        ensures
            r is Ok <==> coord_ok(old(self).state(), idx as int),
            r is Ok ==> final(self).state() == coord_next(old(self).state(), idx as int),
            !(r is Ok) ==> final(self).state() == old(self).state(),
            final(self).spec_dims() == old(self).spec_dims(),
    {
        if !(self.frame == Frame::Geometry || self.frame == Frame::Fresh) {
            return Err(GeozeroError::GeometryFormat);
        }
        if idx == usize::MAX {
            return Err(GeozeroError::GeometryFormat);
        }
        let n = self.stack.len();
        if n == 0 {
            return Err(GeozeroError::GeometryFormat);
        }
        let top = self.stack[n - 1];
        if !(top.kind == GeomKind::Point || top.kind == GeomKind::MultiPoint || top.kind
            == GeomKind::LineString) {
            return Err(GeozeroError::GeometryFormat);
        }
        if idx != top.children {
            return Err(GeozeroError::GeometryFormat);
        }
        self.stack[n - 1] = Scope { kind: top.kind, children: idx + 1, tagged: top.tagged };
        proof {
            assert(self.state() =~= coord_next(old(self).state(), idx as int));
        }
        Ok(())
    }

    fn check_end(&mut self, kind: GeomKind, tagged: Option<bool>) -> (r: Result<(), GeozeroError>)
        ensures
            r is Ok <==> end_ok(old(self).state(), kind, tagged),
            r is Ok ==> final(self).state() == end_next(old(self).state()),
            !(r is Ok) ==> final(self).state() == old(self).state(),
            final(self).spec_dims() == old(self).spec_dims(),
    {
        if !(self.frame == Frame::Geometry || self.frame == Frame::Fresh) {
            return Err(GeozeroError::GeometryFormat);
        }
        let n = self.stack.len();
        if n == 0 {
            return Err(GeozeroError::GeometryFormat);
        }
        let top = self.stack[n - 1];
        if top.kind != kind {
            return Err(GeozeroError::GeometryFormat);
        }
        if let Some(t) = tagged {
            if top.tagged != t {
                return Err(GeozeroError::GeometryFormat);
            }
        }
        if n == 1 && self.roots == usize::MAX {
            return Err(GeozeroError::GeometryFormat);
        }
        let _ = self.stack.pop();
        if n == 1 {
            self.roots = self.roots + 1;
        }
        proof {
            assert(self.state() =~= end_next(old(self).state()));
        }
        Ok(())
    }
}

fn child_ok_exec(parent: GeomKind, child: GeomKind, tagged: bool) -> (b: bool)
    ensures
        b == child_ok(parent, child, tagged),
{
    match parent {
        GeomKind::Polygon => child == GeomKind::LineString && !tagged,
        GeomKind::MultiLineString => child == GeomKind::LineString && !tagged,
        GeomKind::MultiPolygon => child == GeomKind::Polygon && !tagged,
        GeomKind::GeometryCollection => tagged,
        _ => false,
    }
}

impl GeomProcessor for GrammarChecker {
    fn dimensions(&self) -> (d: CoordDimensions)
        ensures
            d == self.spec_dims(),
    {
        self.dims
    }

    fn xy(&mut self, _x: &str, _y: &str, idx: usize) -> (r: Result<(), GeozeroError>)
        ensures
            r is Ok <==> coord_ok(old(self).state(), idx as int),
            r is Ok ==> final(self).state() == coord_next(old(self).state(), idx as int),
            !(r is Ok) ==> final(self).state() == old(self).state(),
    {
        self.check_coord(idx)
    }

    fn coordinate(
        &mut self,
        _x: &str,
        _y: &str,
        _z: Option<&str>,
        _m: Option<&str>,
        _t: Option<&str>,
        _tm: Option<u64>,
        idx: usize,
    ) -> (r: Result<(), GeozeroError>)
        ensures
            r is Ok <==> coord_ok(old(self).state(), idx as int),
            r is Ok ==> final(self).state() == coord_next(old(self).state(), idx as int),
            !(r is Ok) ==> final(self).state() == old(self).state(),
    {
        self.check_coord(idx)
    }

    fn point_begin(&mut self, idx: usize) -> (r: Result<(), GeozeroError>)
        ensures
            r is Ok <==> begin_ok(old(self).state(), GeomKind::Point, true, idx as int),
            r is Ok ==> final(self).state() == begin_next(
                old(self).state(),
                GeomKind::Point,
                true,
                idx as int,
            ),
            !(r is Ok) ==> final(self).state() == old(self).state(),
    {
        self.check_begin(GeomKind::Point, true, idx)
    }

    fn point_end(&mut self, _idx: usize) -> (r: Result<(), GeozeroError>)
        ensures
            r is Ok <==> end_ok(old(self).state(), GeomKind::Point, None),
            r is Ok ==> final(self).state() == end_next(old(self).state()),
            !(r is Ok) ==> final(self).state() == old(self).state(),
    {
        self.check_end(GeomKind::Point, None)
    }

    fn multipoint_begin(&mut self, _size: usize, idx: usize) -> (r: Result<(), GeozeroError>)
        ensures
            r is Ok <==> begin_ok(old(self).state(), GeomKind::MultiPoint, true, idx as int),
            r is Ok ==> final(self).state() == begin_next(
                old(self).state(),
                GeomKind::MultiPoint,
                true,
                idx as int,
            ),
            !(r is Ok) ==> final(self).state() == old(self).state(),
    {
        self.check_begin(GeomKind::MultiPoint, true, idx)
    }

    fn multipoint_end(&mut self, _idx: usize) -> (r: Result<(), GeozeroError>)
        ensures
            r is Ok <==> end_ok(old(self).state(), GeomKind::MultiPoint, None),
            r is Ok ==> final(self).state() == end_next(old(self).state()),
            !(r is Ok) ==> final(self).state() == old(self).state(),
    {
        self.check_end(GeomKind::MultiPoint, None)
    }

    fn linestring_begin(&mut self, tagged: bool, _size: usize, idx: usize) -> (r: Result<
        (),
        GeozeroError,
    >)
        ensures
            r is Ok <==> begin_ok(old(self).state(), GeomKind::LineString, tagged, idx as int),
            r is Ok ==> final(self).state() == begin_next(
                old(self).state(),
                GeomKind::LineString,
                tagged,
                idx as int,
            ),
            !(r is Ok) ==> final(self).state() == old(self).state(),
    {
        self.check_begin(GeomKind::LineString, tagged, idx)
    }

    fn linestring_end(&mut self, tagged: bool, _idx: usize) -> (r: Result<(), GeozeroError>)
        ensures
            r is Ok <==> end_ok(old(self).state(), GeomKind::LineString, Some(tagged)),
            r is Ok ==> final(self).state() == end_next(old(self).state()),
            !(r is Ok) ==> final(self).state() == old(self).state(),
    {
        self.check_end(GeomKind::LineString, Some(tagged))
    }

    fn multilinestring_begin(&mut self, _size: usize, idx: usize) -> (r: Result<(), GeozeroError>)
        ensures
            r is Ok <==> begin_ok(old(self).state(), GeomKind::MultiLineString, true, idx as int),
            r is Ok ==> final(self).state() == begin_next(
                old(self).state(),
                GeomKind::MultiLineString,
                true,
                idx as int,
            ),
            !(r is Ok) ==> final(self).state() == old(self).state(),
    {
        self.check_begin(GeomKind::MultiLineString, true, idx)
    }

    fn multilinestring_end(&mut self, _idx: usize) -> (r: Result<(), GeozeroError>)
        ensures
            r is Ok <==> end_ok(old(self).state(), GeomKind::MultiLineString, None),
            r is Ok ==> final(self).state() == end_next(old(self).state()),
            !(r is Ok) ==> final(self).state() == old(self).state(),
    {
        self.check_end(GeomKind::MultiLineString, None)
    }

    fn polygon_begin(&mut self, tagged: bool, _size: usize, idx: usize) -> (r: Result<
        (),
        GeozeroError,
    >)
        ensures
            r is Ok <==> begin_ok(old(self).state(), GeomKind::Polygon, tagged, idx as int),
            r is Ok ==> final(self).state() == begin_next(
                old(self).state(),
                GeomKind::Polygon,
                tagged,
                idx as int,
            ),
            !(r is Ok) ==> final(self).state() == old(self).state(),
    {
        self.check_begin(GeomKind::Polygon, tagged, idx)
    }

    fn polygon_end(&mut self, tagged: bool, _idx: usize) -> (r: Result<(), GeozeroError>)
        ensures
            r is Ok <==> end_ok(old(self).state(), GeomKind::Polygon, Some(tagged)),
            r is Ok ==> final(self).state() == end_next(old(self).state()),
            !(r is Ok) ==> final(self).state() == old(self).state(),
    {
        self.check_end(GeomKind::Polygon, Some(tagged))
    }

    fn multipolygon_begin(&mut self, _size: usize, idx: usize) -> (r: Result<(), GeozeroError>)
        ensures
            r is Ok <==> begin_ok(old(self).state(), GeomKind::MultiPolygon, true, idx as int),
            r is Ok ==> final(self).state() == begin_next(
                old(self).state(),
                GeomKind::MultiPolygon,
                true,
                idx as int,
            ),
            !(r is Ok) ==> final(self).state() == old(self).state(),
    {
        self.check_begin(GeomKind::MultiPolygon, true, idx)
    }

    fn multipolygon_end(&mut self, _idx: usize) -> (r: Result<(), GeozeroError>)
        ensures
            r is Ok <==> end_ok(old(self).state(), GeomKind::MultiPolygon, None),
            r is Ok ==> final(self).state() == end_next(old(self).state()),
            !(r is Ok) ==> final(self).state() == old(self).state(),
    {
        self.check_end(GeomKind::MultiPolygon, None)
    }

    fn geometrycollection_begin(&mut self, _size: usize, idx: usize) -> (r: Result<
        (),
        GeozeroError,
    >)
        ensures
            r is Ok <==> begin_ok(
                old(self).state(),
                GeomKind::GeometryCollection,
                true,
                idx as int,
            ),
            r is Ok ==> final(self).state() == begin_next(
                old(self).state(),
                GeomKind::GeometryCollection,
                true,
                idx as int,
            ),
            !(r is Ok) ==> final(self).state() == old(self).state(),
    {
        self.check_begin(GeomKind::GeometryCollection, true, idx)
    }

    fn geometrycollection_end(&mut self, _idx: usize) -> (r: Result<(), GeozeroError>)
        ensures
            r is Ok <==> end_ok(old(self).state(), GeomKind::GeometryCollection, None),
            r is Ok ==> final(self).state() == end_next(old(self).state()),
            !(r is Ok) ==> final(self).state() == old(self).state(),
    {
        self.check_end(GeomKind::GeometryCollection, None)
    }
}

impl PropertyProcessor for GrammarChecker {
    fn property(&mut self, idx: usize, _colname: &str, _colval: &ColumnValue) -> (r: Result<
        bool,
        GeozeroError,
    >)
        ensures
            r is Ok <==> property_ok(old(self).state(), idx as int),
            r is Ok ==> r == Ok::<bool, GeozeroError>(false) && final(self).state()
                == property_next(old(self).state(), idx as int),
            !(r is Ok) ==> final(self).state() == old(self).state(),
    {
        if !(self.frame == Frame::Properties) {
            return Err(GeozeroError::GeometryFormat);
        }
        if idx == usize::MAX || idx != self.props {
            return Err(GeozeroError::GeometryFormat);
        }
        self.props = idx + 1;
        proof {
            assert(self.state() =~= property_next(old(self).state(), idx as int));
        }
        Ok(false)
    }
}

impl FeatureProcessor for GrammarChecker {
    fn dataset_begin(&mut self, _name: Option<&str>) -> (r: Result<(), GeozeroError>)
        ensures
            r is Ok <==> dataset_begin_ok(old(self).state()),
            r is Ok ==> final(self).state() == dataset_begin_next(old(self).state()),
            !(r is Ok) ==> final(self).state() == old(self).state(),
    {
        if !(self.frame == Frame::Fresh && self.stack.len() == 0 && self.roots == 0) {
            return Err(GeozeroError::GeometryFormat);
        }
        self.frame = Frame::Dataset;
        self.features = 0;
        proof {
            assert(self.state() =~= dataset_begin_next(old(self).state()));
        }
        Ok(())
    }

    fn dataset_end(&mut self) -> (r: Result<(), GeozeroError>)
        ensures
            r is Ok <==> dataset_end_ok(old(self).state()),
            r is Ok ==> final(self).state() == dataset_end_next(old(self).state()),
            !(r is Ok) ==> final(self).state() == old(self).state(),
    {
        if !(self.frame == Frame::Dataset) {
            return Err(GeozeroError::GeometryFormat);
        }
        self.frame = Frame::Done;
        proof {
            assert(self.state() =~= dataset_end_next(old(self).state()));
        }
        Ok(())
    }

    fn feature_begin(&mut self, idx: u64) -> (r: Result<(), GeozeroError>)
        ensures
            r is Ok <==> feature_begin_ok(old(self).state(), idx as int),
            r is Ok ==> final(self).state() == feature_begin_next(old(self).state()),
            !(r is Ok) ==> final(self).state() == old(self).state(),
    {
        if !(self.frame == Frame::Dataset) {
            return Err(GeozeroError::GeometryFormat);
        }
        if idx == u64::MAX || idx != self.features {
            return Err(GeozeroError::GeometryFormat);
        }
        self.frame = Frame::Feature;
        self.had_props = false;
        self.had_geometry = false;
        proof {
            assert(self.state() =~= feature_begin_next(old(self).state()));
        }
        Ok(())
    }

    fn feature_end(&mut self, idx: u64) -> (r: Result<(), GeozeroError>)
        ensures
            r is Ok <==> feature_end_ok(old(self).state(), idx as int),
            r is Ok ==> final(self).state() == feature_end_next(old(self).state(), idx as int),
            !(r is Ok) ==> final(self).state() == old(self).state(),
    {
        if !(self.frame == Frame::Feature && self.had_geometry) {
            return Err(GeozeroError::GeometryFormat);
        }
        if idx == u64::MAX || idx != self.features {
            return Err(GeozeroError::GeometryFormat);
        }
        self.frame = Frame::Dataset;
        self.features = idx + 1;
        proof {
            assert(self.state() =~= feature_end_next(old(self).state(), idx as int));
        }
        Ok(())
    }

    fn properties_begin(&mut self) -> (r: Result<(), GeozeroError>)
        ensures
            r is Ok <==> properties_begin_ok(old(self).state()),
            r is Ok ==> final(self).state() == properties_begin_next(old(self).state()),
            !(r is Ok) ==> final(self).state() == old(self).state(),
    {
        if !(self.frame == Frame::Feature && !self.had_props && !self.had_geometry) {
            return Err(GeozeroError::GeometryFormat);
        }
        self.frame = Frame::Properties;
        self.props = 0;
        proof {
            assert(self.state() =~= properties_begin_next(old(self).state()));
        }
        Ok(())
    }

    fn properties_end(&mut self) -> (r: Result<(), GeozeroError>)
        ensures
            r is Ok <==> properties_end_ok(old(self).state()),
            r is Ok ==> final(self).state() == properties_end_next(old(self).state()),
            !(r is Ok) ==> final(self).state() == old(self).state(),
    {
        if !(self.frame == Frame::Properties) {
            return Err(GeozeroError::GeometryFormat);
        }
        self.frame = Frame::Feature;
        self.had_props = true;
        proof {
            assert(self.state() =~= properties_end_next(old(self).state()));
        }
        Ok(())
    }

    fn geometry_begin(&mut self) -> (r: Result<(), GeozeroError>)
        ensures
            r is Ok <==> geometry_begin_ok(old(self).state()),
            r is Ok ==> final(self).state() == geometry_begin_next(old(self).state()),
            !(r is Ok) ==> final(self).state() == old(self).state(),
    {
        if !(self.frame == Frame::Feature && !self.had_geometry) {
            return Err(GeozeroError::GeometryFormat);
        }
        self.frame = Frame::Geometry;
        self.roots = 0;
        proof {
            assert(self.state() =~= geometry_begin_next(old(self).state()));
        }
        Ok(())
    }

    fn geometry_end(&mut self) -> (r: Result<(), GeozeroError>)
        ensures
            r is Ok <==> geometry_end_ok(old(self).state()),
            r is Ok ==> final(self).state() == geometry_end_next(old(self).state()),
            !(r is Ok) ==> final(self).state() == old(self).state(),
    {
        if !(self.frame == Frame::Geometry && self.stack.len() == 0 && self.roots == 1) {
            return Err(GeozeroError::GeometryFormat);
        }
        self.frame = Frame::Feature;
        self.had_geometry = true;
        proof {
            assert(self.state() =~= geometry_end_next(old(self).state()));
        }
        Ok(())
    }
}

} // verus!

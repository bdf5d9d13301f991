//! The reference sink: a GeoJSON writer.
//!
//! Every emitting method appends to the output buffer exactly the byte
//! sequence of a standard nested-array GeoJSON document — no intermediate
//! tree is built, so working memory is proportional to nesting depth, not to
//! geometry size. Separator insertion is driven solely by the `idx`
//! parameter: index `0` never precedes a separator, any later index always
//! does. The spec functions in this module state, character for character,
//! what each event appends.

use crate::dims::CoordDimensions;
use crate::error::GeozeroError;
use crate::escape::escaped;
use crate::feature::FeatureProcessor;
use crate::geometry::GeomProcessor;
use crate::num_text::{bool_text, dec_str, dec_str_signed, i64_text, u64_text};
use crate::property::{ColumnValue, PropertyProcessor};
use vstd::prelude::*;

verus! {

/// The separator before the sibling at position `idx`: none for the first
/// sibling, a comma for every later one.
pub open spec fn sep(idx: int) -> Seq<char> {
    if idx > 0 {
        ","@
    } else {
        Seq::empty()
    }
}

/// What `dataset_begin` appends, given the optional dataset name.
pub open spec fn dataset_open(name: Option<Seq<char>>) -> Seq<char> {
    "{\n\"type\": \"FeatureCollection\""@ + (match name {
        Some(n) => ",\n\"name\": \""@ + n + "\""@,
        None => Seq::<char>::empty(),
    }) + ",\n\"features\": ["@
}

/// What `dataset_end` appends.
pub open spec fn dataset_close() -> Seq<char> {
    "]}"@
}

/// The separator before the feature at position `idx` of the dataset: none
/// for the first feature, a comma and a newline for every later one.
pub open spec fn feature_sep(idx: int) -> Seq<char> {
    if idx > 0 {
        ",\n"@
    } else {
        Seq::empty()
    }
}

/// What `feature_begin` appends: consecutive features are separated by a
/// comma and a newline.
pub open spec fn feature_open(idx: int) -> Seq<char> {
    feature_sep(idx) + "{\"type\": \"Feature\""@
}

/// What `feature_end` appends.
pub open spec fn feature_close() -> Seq<char> {
    "}"@
}

/// What `properties_begin` appends.
pub open spec fn properties_open() -> Seq<char> {
    ", \"properties\": {"@
}

/// What `properties_end` appends.
pub open spec fn properties_close() -> Seq<char> {
    "}"@
}

/// What `geometry_begin` appends.
pub open spec fn geometry_open() -> Seq<char> {
    ", \"geometry\": "@
}

/// What `xy` appends: a bare 2D position.
pub open spec fn xy_render(x: Seq<char>, y: Seq<char>, idx: int) -> Seq<char> {
    sep(idx) + "["@ + x + ","@ + y + "]"@
}

/// The optional elevation part of a rendered position: present exactly when
/// the Z channel is active and a Z value was supplied.
pub open spec fn z_suffix(z_active: bool, z: Option<Seq<char>>) -> Seq<char> {
    match z {
        Some(t) => if z_active {
            ","@ + t
        } else {
            Seq::<char>::empty()
        },
        None => Seq::<char>::empty(),
    }
}

/// What `coordinate` appends: a position with its optional elevation. The
/// M, T and TM channels are never rendered by this sink, even when active —
/// a documented limitation of the reference output.
pub open spec fn coord_render(
    z_active: bool,
    x: Seq<char>,
    y: Seq<char>,
    z: Option<Seq<char>>,
    idx: int,
) -> Seq<char> {
    sep(idx) + "["@ + x + ","@ + y + z_suffix(z_active, z) + "]"@
}

/// What `point_begin` appends.
pub open spec fn point_open(idx: int) -> Seq<char> {
    sep(idx) + "{\"type\": \"Point\", \"coordinates\": "@
}

/// What `point_end` appends.
pub open spec fn point_close() -> Seq<char> {
    "}"@
}

/// What `multipoint_begin` appends.
pub open spec fn multipoint_open(idx: int) -> Seq<char> {
    sep(idx) + "{\"type\": \"MultiPoint\", \"coordinates\": ["@
}

/// What `multipoint_end` appends.
pub open spec fn multipoint_close() -> Seq<char> {
    "]}"@
}

/// What `linestring_begin` appends: the type tag only for a standalone
/// (tagged) line, a bare bracket for a line nested in a multilinestring.
pub open spec fn linestring_open(tagged: bool, idx: int) -> Seq<char> {
    sep(idx) + (if tagged {
        "{\"type\": \"LineString\", \"coordinates\": ["@
    } else {
        "["@
    })
}

/// What `linestring_end` appends.
pub open spec fn linestring_close(tagged: bool) -> Seq<char> {
    if tagged {
        "]}"@
    } else {
        "]"@
    }
}

/// What `multilinestring_begin` appends.
pub open spec fn multilinestring_open(idx: int) -> Seq<char> {
    sep(idx) + "{\"type\": \"MultiLineString\", \"coordinates\": ["@
}

/// What `multilinestring_end` appends.
pub open spec fn multilinestring_close() -> Seq<char> {
    "]}"@
}

/// What `polygon_begin` appends: the type tag only for a standalone (tagged)
/// polygon, a bare bracket for one nested in a multipolygon.
pub open spec fn polygon_open(tagged: bool, idx: int) -> Seq<char> {
    sep(idx) + (if tagged {
        "{\"type\": \"Polygon\", \"coordinates\": ["@
    } else {
        "["@
    })
}

/// What `polygon_end` appends.
pub open spec fn polygon_close(tagged: bool) -> Seq<char> {
    if tagged {
        "]}"@
    } else {
        "]"@
    }
}

/// What `multipolygon_begin` appends.
pub open spec fn multipolygon_open(idx: int) -> Seq<char> {
    sep(idx) + "{\"type\": \"MultiPolygon\", \"coordinates\": ["@
}

/// What `multipolygon_end` appends.
pub open spec fn multipolygon_close() -> Seq<char> {
    "]}"@
}

/// What `geometrycollection_begin` appends.
pub open spec fn geometrycollection_open(idx: int) -> Seq<char> {
    sep(idx) + "{\"type\": \"GeometryCollection\", \"geometries\": ["@
}

/// What `geometrycollection_end` appends.
pub open spec fn geometrycollection_close() -> Seq<char> {
    "]}"@
}

/// The separator before the property at position `idx` of its block.
pub open spec fn prop_sep(idx: int) -> Seq<char> {
    if idx > 0 {
        ", "@
    } else {
        Seq::empty()
    }
}

/// A rendered numeric property entry: the quote-escaped name, then the bare
/// number text.
pub open spec fn num_prop(name: Seq<char>, text: Seq<char>) -> Seq<char> {
    "\""@ + escaped(name) + "\": "@ + text
}

/// A rendered string property entry: the quote-escaped name, then the
/// quote-escaped value in quotes.
pub open spec fn str_prop(name: Seq<char>, text: Seq<char>) -> Seq<char> {
    "\""@ + escaped(name) + "\": \""@ + escaped(text) + "\""@
}

/// The rendered entry of one attribute value: numeric kinds as bare
/// numbers, string and date-time kinds as escaped quoted strings, blob kinds
/// as nothing at all (the property is dropped from the output).
pub open spec fn prop_entry(name: Seq<char>, v: ColumnValue<'_>) -> Seq<char> {
    match v {
        ColumnValue::Byte(n) => num_prop(name, dec_str_signed(n as int)),
        ColumnValue::UByte(n) => num_prop(name, dec_str(n as int)),
        ColumnValue::Bool(b) => num_prop(
            name,
            if b {
                "true"@
            } else {
                "false"@
            },
        ),
        ColumnValue::Short(n) => num_prop(name, dec_str_signed(n as int)),
        ColumnValue::UShort(n) => num_prop(name, dec_str(n as int)),
        ColumnValue::Int(n) => num_prop(name, dec_str_signed(n as int)),
        ColumnValue::UInt(n) => num_prop(name, dec_str(n as int)),
        ColumnValue::Long(n) => num_prop(name, dec_str_signed(n as int)),
        ColumnValue::ULong(n) => num_prop(name, dec_str(n as int)),
        ColumnValue::Float(s) => num_prop(name, s@),
        ColumnValue::Double(s) => num_prop(name, s@),
        ColumnValue::String(s) => str_prop(name, s@),
        ColumnValue::Json(_) => Seq::empty(),
        ColumnValue::Binary(_) => Seq::empty(),
        ColumnValue::DateTime(s) => str_prop(name, s@),
    }
}

/// What `property` appends: its separator, then the entry. A blob kind
/// contributes no entry, but the separator of its position is still written,
/// as for every other kind.
pub open spec fn prop_render(idx: int, name: Seq<char>, v: ColumnValue<'_>) -> Seq<char> {
    prop_sep(idx) + prop_entry(name, v)
}

/// The view of an optional coordinate text argument.
pub open spec fn opt_text(o: Option<&str>) -> Option<Seq<char>> {
    match o {
        Some(s) => Some(s@),
        None => None,
    }
}

/// Writes one numeric property entry: the quote-escaped `colname`, a colon,
/// then `v` — the decimal text of the number — bare.
pub fn write_num_prop(out: &mut String, colname: &str, v: &str) -> (r: Result<(), GeozeroError>)
    ensures
        r is Ok,
        final(out)@ == old(out)@ + num_prop(colname@, v@),
{
    out.append("\"");
    crate::escape::append_escaped(out, colname);
    out.append("\": ");
    out.append(v);
    proof {
        assert(out@ =~= old(out)@ + num_prop(colname@, v@));
    }
    Ok(())
}

/// Writes one string property entry: the quote-escaped `colname`, a colon,
/// then the quote-escaped `v` in quotes.
pub fn write_str_prop(out: &mut String, colname: &str, v: &str) -> (r: Result<(), GeozeroError>)
    ensures
        r is Ok,
        final(out)@ == old(out)@ + str_prop(colname@, v@),
{
    out.append("\"");
    crate::escape::append_escaped(out, colname);
    out.append("\": \"");
    crate::escape::append_escaped(out, v);
    out.append("\"");
    proof {
        assert(out@ =~= old(out)@ + str_prop(colname@, v@));
    }
    Ok(())
}

/// The reference sink: renders the event stream as a GeoJSON document,
/// appended to the output buffer it exclusively owns for the pass.
pub struct GeoJsonWriter {
    dims: CoordDimensions,
    out: String,
}

impl View for GeoJsonWriter {
    type V = Seq<char>;

    /// The content of the writer's output buffer.
    closed spec fn view(&self) -> Seq<char> {
        self.out@
    }
}

impl GeoJsonWriter {
    /// The coordinate dimensionality the writer honors for its pass.
    pub closed spec fn spec_dims(&self) -> CoordDimensions {
        self.dims
    }

    /// A writer with default dimensionality (only X/Y active) that appends
    /// to `out`.
    pub fn new(out: String) -> (w: GeoJsonWriter)
        ensures
            w@ == out@,
            w.spec_dims() == (CoordDimensions { z: false, m: false, t: false, tm: false }),
    {
        GeoJsonWriter { dims: CoordDimensions::default(), out }
    }

    /// A writer with the given dimensionality that appends to `out`.
    pub fn with_dims(out: String, dims: CoordDimensions) -> (w: GeoJsonWriter)
        ensures
            w@ == out@,
            w.spec_dims() == dims,
    {
        GeoJsonWriter { dims, out }
    }

    /// Gives the accumulated output back, once the pass is over.
    pub fn into_inner(self) -> (out: String)
        ensures
            out@ == self@,
    {
        self.out
    }

    /// Writes the separator owed before the sibling at position `idx`: a
    /// comma for every sibling but the first.
    pub fn comma(&mut self, idx: usize) -> (r: Result<(), GeozeroError>)
        ensures
            r is Ok,
            final(self)@ == old(self)@ + sep(idx as int),
            final(self).spec_dims() == old(self).spec_dims(),
    {
        if idx > 0 {
            self.out.append(",");
        }
        proof {
            assert(self.out@ =~= old(self)@ + sep(idx as int));
        }
        Ok(())
    }

    /// Writes the separator owed before the property at position `idx`.
    fn prop_comma(&mut self, idx: usize) -> (r: Result<(), GeozeroError>)
        ensures
            r is Ok,
            final(self)@ == old(self)@ + prop_sep(idx as int),
            final(self).spec_dims() == old(self).spec_dims(),
    {
        if idx > 0 {
            self.out.append(", ");
        }
        proof {
            assert(self.out@ =~= old(self)@ + prop_sep(idx as int));
        }
        Ok(())
    }
}

impl FeatureProcessor for GeoJsonWriter {
    fn dataset_begin(&mut self, name: Option<&str>) -> (r: Result<(), GeozeroError>)
        ensures
            r is Ok,
            final(self)@ == old(self)@ + dataset_open(opt_text(name)),
            final(self).spec_dims() == old(self).spec_dims(),
    {
        self.out.append("{\n\"type\": \"FeatureCollection\"");
        if let Some(n) = name {
            self.out.append(",\n\"name\": \"");
            self.out.append(n);
            self.out.append("\"");
        }
        self.out.append(",\n\"features\": [");
        proof {
            assert(self.out@ =~= old(self)@ + dataset_open(opt_text(name)));
        }
        Ok(())
    }

    fn dataset_end(&mut self) -> (r: Result<(), GeozeroError>)
        ensures
            r is Ok,
            final(self)@ == old(self)@ + dataset_close(),
            final(self).spec_dims() == old(self).spec_dims(),
    {
        self.out.append("]}");
        Ok(())
    }

    fn feature_begin(&mut self, idx: u64) -> (r: Result<(), GeozeroError>)
        ensures
            r is Ok,
            final(self)@ == old(self)@ + feature_open(idx as int),
            final(self).spec_dims() == old(self).spec_dims(),
    {
        if idx > 0 {
            self.out.append(",\n");
        }
        self.out.append("{\"type\": \"Feature\"");
        proof {
            assert(self.out@ =~= old(self)@ + feature_open(idx as int));
        }
        Ok(())
    }

    fn feature_end(&mut self, _idx: u64) -> (r: Result<(), GeozeroError>)
        ensures
            r is Ok,
            final(self)@ == old(self)@ + feature_close(),
            final(self).spec_dims() == old(self).spec_dims(),
    {
        self.out.append("}");
        Ok(())
    }

    fn properties_begin(&mut self) -> (r: Result<(), GeozeroError>)
        ensures
            r is Ok,
            final(self)@ == old(self)@ + properties_open(),
            final(self).spec_dims() == old(self).spec_dims(),
    {
        self.out.append(", \"properties\": {");
        Ok(())
    }

    fn properties_end(&mut self) -> (r: Result<(), GeozeroError>)
        ensures
            r is Ok,
            final(self)@ == old(self)@ + properties_close(),
            final(self).spec_dims() == old(self).spec_dims(),
    {
        self.out.append("}");
        Ok(())
    }

    fn geometry_begin(&mut self) -> (r: Result<(), GeozeroError>)
        ensures
            r is Ok,
            final(self)@ == old(self)@ + geometry_open(),
            final(self).spec_dims() == old(self).spec_dims(),
    {
        self.out.append(", \"geometry\": ");
        Ok(())
    }

    fn geometry_end(&mut self) -> (r: Result<(), GeozeroError>)
        ensures
            r is Ok,
            final(self)@ == old(self)@,
            final(self).spec_dims() == old(self).spec_dims(),
    {
        Ok(())
    }
}

impl GeomProcessor for GeoJsonWriter {
    fn dimensions(&self) -> (d: CoordDimensions)
        ensures
            d == self.spec_dims(),
    {
        self.dims
    }

    fn xy(&mut self, x: &str, y: &str, idx: usize) -> (r: Result<(), GeozeroError>)
        ensures
            r is Ok,
            final(self)@ == old(self)@ + xy_render(x@, y@, idx as int),
            final(self).spec_dims() == old(self).spec_dims(),
    {
        self.comma(idx)?;
        self.out.append("[");
        self.out.append(x);
        self.out.append(",");
        self.out.append(y);
        self.out.append("]");
        proof {
            assert(self.out@ =~= old(self)@ + xy_render(x@, y@, idx as int));
        }
        Ok(())
    }

    fn coordinate(
        &mut self,
        x: &str,
        y: &str,
        z: Option<&str>,
        _m: Option<&str>,
        _t: Option<&str>,
        _tm: Option<u64>,
        idx: usize,
    ) -> (r: Result<(), GeozeroError>)
        ensures
            r is Ok,
            final(self)@ == old(self)@ + coord_render(
                old(self).spec_dims().z,
                x@,
                y@,
                opt_text(z),
                idx as int,
            ),
            final(self).spec_dims() == old(self).spec_dims(),
    {
        self.comma(idx)?;
        self.out.append("[");
        self.out.append(x);
        self.out.append(",");
        self.out.append(y);
        if self.dims.z {
            if let Some(zt) = z {
                self.out.append(",");
                self.out.append(zt);
            }
        }
        self.out.append("]");
        proof {
            assert(self.out@ =~= old(self)@ + coord_render(
                old(self).spec_dims().z,
                x@,
                y@,
                opt_text(z),
                idx as int,
            ));
        }
        Ok(())
    }

    fn point_begin(&mut self, idx: usize) -> (r: Result<(), GeozeroError>)
        ensures
            r is Ok,
            final(self)@ == old(self)@ + point_open(idx as int),
            final(self).spec_dims() == old(self).spec_dims(),
    {
        self.comma(idx)?;
        self.out.append("{\"type\": \"Point\", \"coordinates\": ");
        proof {
            assert(self.out@ =~= old(self)@ + point_open(idx as int));
        }
        Ok(())
    }

    fn point_end(&mut self, _idx: usize) -> (r: Result<(), GeozeroError>)
        ensures
            r is Ok,
            final(self)@ == old(self)@ + point_close(),
            final(self).spec_dims() == old(self).spec_dims(),
    {
        self.out.append("}");
        Ok(())
    }

    fn multipoint_begin(&mut self, _size: usize, idx: usize) -> (r: Result<(), GeozeroError>)
        ensures
            r is Ok,
            final(self)@ == old(self)@ + multipoint_open(idx as int),
            final(self).spec_dims() == old(self).spec_dims(),
    {
        self.comma(idx)?;
        self.out.append("{\"type\": \"MultiPoint\", \"coordinates\": [");
        proof {
            assert(self.out@ =~= old(self)@ + multipoint_open(idx as int));
        }
        Ok(())
    }

    fn multipoint_end(&mut self, _idx: usize) -> (r: Result<(), GeozeroError>)
        ensures
            r is Ok,
            final(self)@ == old(self)@ + multipoint_close(),
            final(self).spec_dims() == old(self).spec_dims(),
    {
        self.out.append("]}");
        Ok(())
    }

    fn linestring_begin(&mut self, tagged: bool, _size: usize, idx: usize) -> (r: Result<
        (),
        GeozeroError,
    >)
        ensures
            r is Ok,
            final(self)@ == old(self)@ + linestring_open(tagged, idx as int),
            final(self).spec_dims() == old(self).spec_dims(),
    {
        self.comma(idx)?;
        if tagged {
            self.out.append("{\"type\": \"LineString\", \"coordinates\": [");
        } else {
            self.out.append("[");
        }
        proof {
            assert(self.out@ =~= old(self)@ + linestring_open(tagged, idx as int));
        }
        Ok(())
    }

    fn linestring_end(&mut self, tagged: bool, _idx: usize) -> (r: Result<(), GeozeroError>)
        ensures
            r is Ok,
            final(self)@ == old(self)@ + linestring_close(tagged),
            final(self).spec_dims() == old(self).spec_dims(),
    {
        if tagged {
            self.out.append("]}");
        } else {
            self.out.append("]");
        }
        Ok(())
    }

    fn multilinestring_begin(&mut self, _size: usize, idx: usize) -> (r: Result<(), GeozeroError>)
        ensures
            r is Ok,
            final(self)@ == old(self)@ + multilinestring_open(idx as int),
            final(self).spec_dims() == old(self).spec_dims(),
    {
        self.comma(idx)?;
        self.out.append("{\"type\": \"MultiLineString\", \"coordinates\": [");
        proof {
            assert(self.out@ =~= old(self)@ + multilinestring_open(idx as int));
        }
        Ok(())
    }

    fn multilinestring_end(&mut self, _idx: usize) -> (r: Result<(), GeozeroError>)
        ensures
            r is Ok,
            final(self)@ == old(self)@ + multilinestring_close(),
            final(self).spec_dims() == old(self).spec_dims(),
    {
        self.out.append("]}");
        Ok(())
    }

    fn polygon_begin(&mut self, tagged: bool, _size: usize, idx: usize) -> (r: Result<
        (),
        GeozeroError,
    >)
        ensures
            r is Ok,
            final(self)@ == old(self)@ + polygon_open(tagged, idx as int),
            final(self).spec_dims() == old(self).spec_dims(),
    {
        self.comma(idx)?;
        if tagged {
            self.out.append("{\"type\": \"Polygon\", \"coordinates\": [");
        } else {
            self.out.append("[");
        }
        proof {
            assert(self.out@ =~= old(self)@ + polygon_open(tagged, idx as int));
        }
        Ok(())
    }

    fn polygon_end(&mut self, tagged: bool, _idx: usize) -> (r: Result<(), GeozeroError>)
        ensures
            r is Ok,
            final(self)@ == old(self)@ + polygon_close(tagged),
            final(self).spec_dims() == old(self).spec_dims(),
    {
        if tagged {
            self.out.append("]}");
        } else {
            self.out.append("]");
        }
        Ok(())
    }

    fn multipolygon_begin(&mut self, _size: usize, idx: usize) -> (r: Result<(), GeozeroError>)
        ensures
            r is Ok,
            final(self)@ == old(self)@ + multipolygon_open(idx as int),
            final(self).spec_dims() == old(self).spec_dims(),
    {
        self.comma(idx)?;
        self.out.append("{\"type\": \"MultiPolygon\", \"coordinates\": [");
        proof {
            assert(self.out@ =~= old(self)@ + multipolygon_open(idx as int));
        }
        Ok(())
    }

    fn multipolygon_end(&mut self, _idx: usize) -> (r: Result<(), GeozeroError>)
        ensures
            r is Ok,
            final(self)@ == old(self)@ + multipolygon_close(),
            final(self).spec_dims() == old(self).spec_dims(),
    {
        self.out.append("]}");
        Ok(())
    }

    fn geometrycollection_begin(&mut self, _size: usize, idx: usize) -> (r: Result<
        (),
        GeozeroError,
    >)
        ensures
            r is Ok,
            final(self)@ == old(self)@ + geometrycollection_open(idx as int),
            final(self).spec_dims() == old(self).spec_dims(),
    {
        self.comma(idx)?;
        self.out.append("{\"type\": \"GeometryCollection\", \"geometries\": [");
        proof {
            assert(self.out@ =~= old(self)@ + geometrycollection_open(idx as int));
        }
        Ok(())
    }

    fn geometrycollection_end(&mut self, _idx: usize) -> (r: Result<(), GeozeroError>)
        ensures
            r is Ok,
            final(self)@ == old(self)@ + geometrycollection_close(),
            final(self).spec_dims() == old(self).spec_dims(),
    {
        self.out.append("]}");
        Ok(())
    }
}

impl PropertyProcessor for GeoJsonWriter {
    fn property(&mut self, idx: usize, colname: &str, colval: &ColumnValue) -> (r: Result<
        bool,
        GeozeroError,
    >)
        ensures
            r == Ok::<bool, GeozeroError>(false),
            final(self)@ == old(self)@ + prop_render(idx as int, colname@, *colval),
            final(self).spec_dims() == old(self).spec_dims(),
    {
        self.prop_comma(idx)?;
        match colval {
            ColumnValue::Byte(v) => {
                let t = i64_text(*v as i64);
                write_num_prop(&mut self.out, colname, t.as_str())?;
            },
            ColumnValue::UByte(v) => {
                let t = u64_text(*v as u64);
                write_num_prop(&mut self.out, colname, t.as_str())?;
            },
            ColumnValue::Bool(v) => {
                let t = bool_text(*v);
                write_num_prop(&mut self.out, colname, t.as_str())?;
            },
            ColumnValue::Short(v) => {
                let t = i64_text(*v as i64);
                write_num_prop(&mut self.out, colname, t.as_str())?;
            },
            ColumnValue::UShort(v) => {
                let t = u64_text(*v as u64);
                write_num_prop(&mut self.out, colname, t.as_str())?;
            },
            ColumnValue::Int(v) => {
                let t = i64_text(*v as i64);
                write_num_prop(&mut self.out, colname, t.as_str())?;
            },
            ColumnValue::UInt(v) => {
                let t = u64_text(*v as u64);
                write_num_prop(&mut self.out, colname, t.as_str())?;
            },
            ColumnValue::Long(v) => {
                let t = i64_text(*v);
                write_num_prop(&mut self.out, colname, t.as_str())?;
            },
            ColumnValue::ULong(v) => {
                let t = u64_text(*v);
                write_num_prop(&mut self.out, colname, t.as_str())?;
            },
            ColumnValue::Float(v) => {
                write_num_prop(&mut self.out, colname, v)?;
            },
            ColumnValue::Double(v) => {
                write_num_prop(&mut self.out, colname, v)?;
            },
            ColumnValue::String(v) => {
                write_str_prop(&mut self.out, colname, v)?;
            },
            ColumnValue::Json(_) => {},
            ColumnValue::Binary(_) => {},
            ColumnValue::DateTime(v) => {
                write_str_prop(&mut self.out, colname, v)?;
            },
        }
        proof {
            assert(self.out@ =~= old(self)@ + prop_render(idx as int, colname@, *colval));
        }
        Ok(false)
    }
}

} // verus!

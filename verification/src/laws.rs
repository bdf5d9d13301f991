//! Protocol-wide laws of the reference sink, stated and proved once over the
//! emission spec functions that the sink's contracts use.

use crate::escape::{escaped, escaped_char};
use crate::geojson_writer::{
    coord_render, feature_sep, linestring_close, linestring_open, polygon_close, polygon_open,
    prop_entry, prop_render, prop_sep, sep, str_prop, xy_render,
};
use crate::num_text::dec_str;
use crate::property::ColumnValue;
use vstd::prelude::*;

verus! {

/// How many separators are emitted for a row of `n` geometry siblings,
/// where the sibling at position `i` is preceded by `sep(i)`.
pub open spec fn sep_count(n: int) -> int
    decreases n,
{
    if n <= 0 {
        0
    } else {
        sep_count(n - 1) + if sep(n - 1) == Seq::<char>::empty() {
            0int
        } else {
            1int
        }
    }
}

/// How many separators are emitted for a block of `n` properties.
pub open spec fn prop_sep_count(n: int) -> int
    decreases n,
{
    if n <= 0 {
        0
    } else {
        prop_sep_count(n - 1) + if prop_sep(n - 1) == Seq::<char>::empty() {
            0int
        } else {
            1int
        }
    }
}

/// How many separators are emitted for a dataset of `n` features.
pub open spec fn feature_sep_count(n: int) -> int
    decreases n,
{
    if n <= 0 {
        0
    } else {
        feature_sep_count(n - 1) + if feature_sep(n - 1) == Seq::<char>::empty() {
            0int
        } else {
            1int
        }
    }
}

/// Index-based separator insertion. In any sibling row — geometry siblings,
/// properties of a block, features of a dataset — no separator precedes the
/// first sibling, every later sibling is preceded by exactly one, and a row
/// of length `n` therefore emits exactly `n - 1` separators (none when the
/// row is empty or a singleton).
pub proof fn lemma_sibling_separators(n: int)
    requires
        n >= 0,
    ensures
        sep(0) == Seq::<char>::empty(),
        prop_sep(0) == Seq::<char>::empty(),
        feature_sep(0) == Seq::<char>::empty(),
        forall|i: int| i >= 1 ==> #[trigger] sep(i) != Seq::<char>::empty(),
        forall|i: int| i >= 1 ==> #[trigger] prop_sep(i) != Seq::<char>::empty(),
        forall|i: int| i >= 1 ==> #[trigger] feature_sep(i) != Seq::<char>::empty(),
        sep_count(n) == if n <= 1 {
            0
        } else {
            n - 1
        },
        prop_sep_count(n) == if n <= 1 {
            0
        } else {
            n - 1
        },
        feature_sep_count(n) == if n <= 1 {
            0
        } else {
            n - 1
        },
    decreases n,
{
    reveal_strlit(",");
    reveal_strlit(", ");
    reveal_strlit(",\n");
    assert forall|i: int| i >= 1 implies #[trigger] sep(i) != Seq::<char>::empty() by {
        assert(sep(i).len() == 1);
    }
    assert forall|i: int| i >= 1 implies #[trigger] prop_sep(i) != Seq::<char>::empty() by {
        assert(prop_sep(i).len() == 2);
    }
    assert forall|i: int| i >= 1 implies #[trigger] feature_sep(i) != Seq::<char>::empty() by {
        assert(feature_sep(i).len() == 2);
    }
    if n > 0 {
        lemma_sibling_separators(n - 1);
    }
}

/// Type tagging. A ring or line emitted as an untagged child (nested inside
/// a polygon or multilinestring) opens with its separator and a bare
/// bracket and closes with a bare bracket: no double quote — and so no type
/// tag — ever appears in its own structural emissions. The same structure
/// emitted standalone (`tagged == true`) always opens with its quoted type
/// tag.
pub proof fn lemma_untagged_no_type_tag(idx: int)
    ensures
        linestring_open(false, idx) == sep(idx) + "["@,
        polygon_open(false, idx) == sep(idx) + "["@,
        linestring_close(false) == "]"@,
        polygon_close(false) == "]"@,
        forall|j: int|
            0 <= j < linestring_open(false, idx).len() ==> #[trigger] linestring_open(
                false,
                idx,
            )[j] != '"',
        forall|j: int|
            0 <= j < polygon_open(false, idx).len() ==> #[trigger] polygon_open(false, idx)[j]
                != '"',
        forall|j: int|
            0 <= j < linestring_close(false).len() ==> #[trigger] linestring_close(false)[j]
                != '"',
        forall|j: int|
            0 <= j < polygon_close(false).len() ==> #[trigger] polygon_close(false)[j] != '"',
        linestring_open(true, idx).contains('"'),
        polygon_open(true, idx).contains('"'),
{
    reveal_strlit(",");
    reveal_strlit("[");
    reveal_strlit("]");
    reveal_strlit("{\"type\": \"LineString\", \"coordinates\": [");
    reveal_strlit("{\"type\": \"Polygon\", \"coordinates\": [");
    assert(linestring_open(true, idx)[sep(idx).len() + 1int] == '"');
    assert(polygon_open(true, idx)[sep(idx).len() + 1int] == '"');
}

/// Dimensionality gating. With the Z channel inactive, a supplied Z value
/// never reaches the rendered output: the position renders exactly as the
/// plain 2D form. With the Z channel active, a supplied Z always appears,
/// spliced between the Y text and the closing bracket; and when no Z is
/// supplied, none is fabricated.
pub proof fn lemma_dimension_gating(x: Seq<char>, y: Seq<char>, z: Seq<char>, idx: int)
    ensures
        coord_render(false, x, y, Some(z), idx) == xy_render(x, y, idx),
        coord_render(true, x, y, Some(z), idx) == sep(idx) + "["@ + x + ","@ + y + ","@ + z
            + "]"@,
        coord_render(true, x, y, None, idx) == xy_render(x, y, idx),
        coord_render(false, x, y, None, idx) == xy_render(x, y, idx),
{
    assert(coord_render(false, x, y, Some(z), idx) =~= xy_render(x, y, idx));
    assert(coord_render(true, x, y, Some(z), idx) =~= sep(idx) + "["@ + x + ","@ + y + ","@ + z
        + "]"@);
    assert(coord_render(true, x, y, None, idx) =~= xy_render(x, y, idx));
    assert(coord_render(false, x, y, None, idx) =~= xy_render(x, y, idx));
}

/// Attribute rendering. Blob kinds contribute nothing to the output beyond
/// the separator of their position; string and date-time kinds render as
/// the quote-escaped value in quotes; numeric kinds render as the bare
/// decimal text, unquoted.
pub proof fn lemma_attribute_rendering(idx: int, name: Seq<char>, v: ColumnValue<'_>)
    ensures
        (v is Json || v is Binary) ==> prop_render(idx, name, v) == prop_sep(idx),
        v is String ==> prop_entry(name, v) == str_prop(name, v->String_0@),
        v is DateTime ==> prop_entry(name, v) == str_prop(name, v->DateTime_0@),
        v is ULong ==> prop_entry(name, v) == "\""@ + escaped(name) + "\": "@ + dec_str(
            v->ULong_0 as int,
        ),
{
    if v is Json || v is Binary {
        assert(prop_render(idx, name, v) =~= prop_sep(idx));
    }
}

/// Escaping touches quotes alone. A text without a double quote renders
/// unchanged inside its quotes; in the escaped form of any text, every
/// double quote is preceded by a backslash, so the quotes delimiting the
/// rendered value are never matched early by a quote of the value itself.
pub proof fn lemma_escaping_exact(name: Seq<char>, s: Seq<char>)
    ensures
        (forall|j: int| 0 <= j < s.len() ==> s[j] != '"') ==> str_prop(name, s) == "\""@ + escaped(
            name,
        ) + "\": \""@ + s + "\""@,
        forall|j: int|
            0 <= j < escaped(s).len() && #[trigger] escaped(s)[j] == '"' ==> j > 0 && escaped(
                s,
            )[j - 1] == '\\',
        s.len() == 0 ==> escaped(s) == s,
        escaped_char('"') == seq!['\\', '"'],
{
    if forall|j: int| 0 <= j < s.len() ==> s[j] != '"' {
        crate::escape::lemma_escaped_identity(s);
    }
    crate::escape::lemma_escaped_quotes_guarded(s);
    if s.len() == 0 {
        assert(escaped(s) =~= s);
    }
}

} // verus!

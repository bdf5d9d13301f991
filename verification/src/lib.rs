//! Streaming geometry event protocol with a reference GeoJSON sink.
//!
//! Geometry feature data flows one way: a driver that owns a source geometry
//! emits structural, coordinate and attribute events; a sink implementing the
//! event interfaces renders them. The reference sink here writes a nested
//! GeoJSON document directly to an output buffer, with no intermediate tree.

pub mod dims;
pub mod error;
pub mod escape;
pub mod feature;
pub mod geojson_writer;
pub mod geometry;
pub mod grammar;
pub mod laws;
pub mod num_text;
pub mod property;

pub use dims::CoordDimensions;
pub use error::GeozeroError;
pub use feature::FeatureProcessor;
pub use geojson_writer::GeoJsonWriter;
pub use geometry::GeomProcessor;
pub use grammar::GrammarChecker;
pub use property::{ColumnValue, PropertyProcessor};

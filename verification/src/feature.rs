//! The feature event interface: dataset and feature framing.

use crate::error::GeozeroError;
use crate::geometry::GeomProcessor;
use crate::property::PropertyProcessor;
use vstd::prelude::*;

verus! {

/// Composes the geometry and property capabilities with dataset/feature
/// framing.
///
/// A driver delivers the calls in this order: `dataset_begin`, then for each
/// feature in increasing index order — `feature_begin`, optionally
/// `properties_begin`, the property events, `properties_end`, then
/// `geometry_begin`, one geometry event subtree, `geometry_end`,
/// `feature_end` — then `dataset_end`. A sink that receives calls out of this
/// order has undefined rendering; validating the order is the driver's
/// responsibility.
pub trait FeatureProcessor: GeomProcessor + PropertyProcessor {
    /// Begin of the dataset, with its optional name.
    fn dataset_begin(&mut self, name: Option<&str>) -> Result<(), GeozeroError>;

    /// End of the dataset.
    fn dataset_end(&mut self) -> Result<(), GeozeroError>;

    /// Begin of the feature with zero-based ordinal `idx` in the dataset.
    fn feature_begin(&mut self, idx: u64) -> Result<(), GeozeroError>;

    /// End of the feature with ordinal `idx`.
    fn feature_end(&mut self, idx: u64) -> Result<(), GeozeroError>;

    /// Begin of the feature's property block.
    fn properties_begin(&mut self) -> Result<(), GeozeroError>;

    /// End of the feature's property block.
    fn properties_end(&mut self) -> Result<(), GeozeroError>;

    /// Begin of the feature's geometry block.
    fn geometry_begin(&mut self) -> Result<(), GeozeroError>;

    /// End of the feature's geometry block.
    fn geometry_end(&mut self) -> Result<(), GeozeroError>;
}

} // verus!

//! Turns a personal location-history export into a self-contained,
//! interactive heatmap page.
//!
//! The pipeline has three stages: admission of raw records (a record is
//! kept exactly when its accuracy field is present), transformation of
//! each admitted record into a weighted heatmap point, and assembly of
//! the points into a single renderable document with two adjustable
//! filter controls.

pub mod assemble;
pub mod error;
pub mod filter;
pub mod loader;
pub mod pipeline;
pub mod record;
pub mod render;
pub mod transform;

pub use record::RawRecord;
pub use record::admit_records;
pub use assemble::assemble_artifact;
pub use error::HeatmapError;
pub use filter::FilterParams;
pub use filter::filter_points;
pub use filter::is_displayed;
pub use loader::load_document;
pub use pipeline::build_from_records;
pub use pipeline::generate_heatmap;
pub use transform::HeatmapPoint;
pub use transform::transform_record;
pub use transform::transform_records;

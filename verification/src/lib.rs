//! Schema compatibility diff engine for GraphQL-style API descriptions.
//!
//! Two parsed schema documents (a "left" and a "right") are correlated
//! declaration by declaration; every structural difference is reported with a
//! breadcrumb location and classified as breaking, non-breaking, or of
//! unknown impact.

pub mod cli;
pub mod correlate;
pub mod diff_location;
pub mod document;
pub mod errors;
pub mod laws;
pub mod model;
pub mod named;
pub mod report;
pub mod schema_diff;
pub mod sql_records;
pub mod text;
pub mod type_compare;
pub mod value_compare;
pub mod wf;

pub use diff_location::{DiffLocation, DiffLocationSegment, DiffLocationSegmentType};
pub use report::{ChangeType, ReportEntry, ReportKind};

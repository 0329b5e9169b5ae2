//! The configuration layer: the on-disk shapes of the pipeline's pieces
//! and their conversions into the engine types.
//!
//! Deserializing these shapes from files is an external concern; the
//! conversions themselves — what each configured value means to the
//! engine — are verified.

pub mod auth;
pub mod html;
pub mod json;
pub mod read_filter;
pub mod settings;
pub mod source;
pub mod task;
pub mod transform;
pub mod view_mode;

//! Loads a skill record from a nested document and flattens it into one
//! header row and one value row of a table.
pub mod document;
pub mod error;
pub mod fields;
pub mod flatten;
pub mod loader;
pub mod model;
pub mod schema;
pub mod table;
pub mod text;
pub mod tracer;

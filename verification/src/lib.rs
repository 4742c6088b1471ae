//! Typed model of AsyncAPI 3.0 documents and a guarded builder for them.
//!
//! The [`spec`] module holds the document model; [`builder`] assembles a
//! document step by step and keeps the pointers it generates consistent
//! with the document's own maps.

pub mod builder;
pub mod error;
pub mod spec;

//! Terminal display of text files with syntax-aware colouring and, for files
//! inside a version-controlled working tree, per-line change annotations.
//!
//! The crate has two verified components, consumed in sequence per file:
//! the annotator ([`annotate`]) turns the diff hunks reported by a
//! version-control backend into a per-line-number change classification, and
//! the renderer ([`render`]) merges that classification with
//! syntax-highlighting output into framed, column-aligned rows.

pub mod annotate;
pub mod decimal;
pub mod highlight;
pub mod paint;
pub mod render;

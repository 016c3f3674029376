//! Typed composition of markup.
//!
//! A document is assembled from nested elements whose roles are fixed by their
//! types, and rendered as text into a sink. Every rendering function states the
//! exact text that it appends.

pub mod element;
pub mod sink;

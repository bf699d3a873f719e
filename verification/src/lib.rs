//! Turns the editing directives of one run into an ordered pipeline of image
//! operations and steers its execution.
//!
//! Directives arrive as raw occurrences (kind, source position, raw values),
//! read off the matched command line arguments. They are resolved into
//! operation descriptors, presets are expanded, and the descriptors are
//! ordered by source position with ties kept in arrival order. The executor
//! is a state machine: it names the capability call to perform next and
//! stops at the first call that fails.
//!
//! Real numbers are carried by their bit pattern and never computed with.

pub mod arguments;
pub mod commands;
pub mod decision;
pub mod directives;
pub mod executor;
pub mod pipeline;
pub mod presets;
pub mod render;
pub mod text;
pub mod values;

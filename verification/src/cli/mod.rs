//! The module compiler's command-line surface: entry-point naming, root configuration parsing,
//! and the inspection of runtime modules.
pub mod call_graph;
pub mod compile;
pub mod entry_point;

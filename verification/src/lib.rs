//! Attaches a tracing directive of a fixed severity level to the source text of a function.

pub mod directive;
pub mod guarantees;
pub mod instrument;
pub mod level;
pub mod syntax;

pub use crate::directive::{build_directive, parse_instrument_params};
pub use crate::instrument::{
    attach, instrument_debug_macro, instrument_error_macro, instrument_info_macro,
    instrument_trace_macro, instrument_warn_macro, rewrite, rewrite_with_verdict, RewriteError,
};
pub use crate::level::Level;

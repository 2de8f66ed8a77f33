//! The rewriters: one shared implementation and one entry point for each severity level.

use crate::directive::{build_directive, decorated, parse_instrument_params};
use crate::level::Level;
use crate::syntax::{is_function, is_function_definition};
use vstd::prelude::*;
use vstd::string::*;

verus! {

/// Why a rewriter gave no output.
#[derive(Clone, Copy, Debug, PartialEq, Eq)]
pub enum RewriteError {
    /// The text handed in as the function is not a complete function definition.
    MalformedInput,
}

/// What a rewriter returns for a level, a raw parameter fragment and a function text, given
/// whether that text is a function definition.
pub open spec fn rewritten(
    level: Level,
    raw_params: Seq<char>,
    fn_def: Seq<char>,
    well_formed: bool,
) -> Result<Seq<char>, RewriteError> {
    if well_formed {
        Ok(decorated(level, raw_params, fn_def))
    } else {
        Err(RewriteError::MalformedInput)
    }
}

/// The outcome of a rewriter with the output taken as the sequence of its characters.
pub open spec fn outcome_text(outcome: Result<String, RewriteError>) -> Result<
    Seq<char>,
    RewriteError,
> {
    match outcome {
        Ok(text) => Ok(text@),
        Err(error) => Err(error),
    }
}

/// Puts the directive for `level` and `raw_params` on a line of its own ahead of `fn_def`.
///
/// The function text is copied as it is and is not looked at.
pub fn attach(level: Level, raw_params: &str, fn_def: &str) -> (text: String)
    ensures
        text@ == decorated(level, raw_params@, fn_def@),
{
    let params = parse_instrument_params(raw_params);
    let mut text = build_directive(level, params.as_str());
    text.append("\n");
    text.append(fn_def);
    text
}

/// Rewrites `fn_def` for a verdict on it that the caller brings: with `well_formed` the
/// function comes back with its directive, without it the input is refused.
pub fn rewrite_with_verdict(
    level: Level,
    raw_params: &str,
    fn_def: &str,
    well_formed: bool,
) -> (outcome: Result<String, RewriteError>)
    ensures
        outcome_text(outcome) == rewritten(level, raw_params@, fn_def@, well_formed),
{
    if !well_formed {
        return Err(RewriteError::MalformedInput);
    }
    Ok(attach(level, raw_params, fn_def))
}

/// Rewrites `fn_def` so that it carries the directive for `level` and `raw_params`.
///
/// A text that is a function definition comes back unchanged behind its directive; any
/// other text gives `MalformedInput` and no output.
pub fn rewrite(level: Level, raw_params: &str, fn_def: &str) -> (outcome: Result<
    String,
    RewriteError,
>)
    ensures
        outcome_text(outcome) == rewritten(
            level,
            raw_params@,
            fn_def@,
            is_function_definition(fn_def@),
        ),
{
    let well_formed = is_function(fn_def);
    rewrite_with_verdict(level, raw_params, fn_def, well_formed)
}

/// Adds trace-level instrumentation to the function `item`, with the further parameters
/// `attr` (target, name, skip, fields and the like; may be empty).
pub fn instrument_trace_macro(attr: &str, item: &str) -> (outcome: Result<String, RewriteError>)
    ensures
        outcome_text(outcome) == rewritten(
            Level::Trace,
            attr@,
            item@,
            is_function_definition(item@),
        ),
{
    rewrite(Level::Trace, attr, item)
}

/// Adds debug-level instrumentation to the function `item`, with the further parameters
/// `attr` (target, name, skip, fields and the like; may be empty).
pub fn instrument_debug_macro(attr: &str, item: &str) -> (outcome: Result<String, RewriteError>)
    ensures
        outcome_text(outcome) == rewritten(
            Level::Debug,
            attr@,
            item@,
            is_function_definition(item@),
        ),
{
    rewrite(Level::Debug, attr, item)
}

/// Adds info-level instrumentation to the function `item`, with the further parameters
/// `attr` (target, name, skip, fields and the like; may be empty).
pub fn instrument_info_macro(attr: &str, item: &str) -> (outcome: Result<String, RewriteError>)
    ensures
        outcome_text(outcome) == rewritten(
            Level::Info,
            attr@,
            item@,
            is_function_definition(item@),
        ),
{
    rewrite(Level::Info, attr, item)
}

/// Adds warn-level instrumentation to the function `item`, with the further parameters
/// `attr` (target, name, skip, fields and the like; may be empty).
pub fn instrument_warn_macro(attr: &str, item: &str) -> (outcome: Result<String, RewriteError>)
    ensures
        outcome_text(outcome) == rewritten(
            Level::Warn,
            attr@,
            item@,
            is_function_definition(item@),
        ),
{
    rewrite(Level::Warn, attr, item)
}

/// Adds error-level instrumentation to the function `item`, with the further parameters
/// `attr` (target, name, skip, fields and the like; may be empty).
pub fn instrument_error_macro(attr: &str, item: &str) -> (outcome: Result<String, RewriteError>)
    ensures
        outcome_text(outcome) == rewritten(
            Level::Error,
            attr@,
            item@,
            is_function_definition(item@),
        ),
{
    rewrite(Level::Error, attr, item)
}

} // verus!

//! The text of a directive and of a function that carries one.

use crate::level::Level;
use vstd::prelude::*;
use vstd::string::*;

verus! {

/// What a directive starts with, up to the opening quote of the level.
pub open spec fn directive_open() -> Seq<char> {
    "#[::tracing::instrument(level = \""@
}

/// The closing quote of the level.
pub open spec fn level_close() -> Seq<char> {
    "\""@
}

/// What stands between the level and the parameters that follow it.
pub open spec fn separator() -> Seq<char> {
    ", "@
}

/// What a directive ends with.
pub open spec fn directive_close() -> Seq<char> {
    ")]"@
}

/// What stands between a directive and the function that it is attached to.
pub open spec fn line_break() -> Seq<char> {
    "\n"@
}

/// The arguments of a directive after the level: nothing for an empty fragment, else a
/// separator and the fragment as it is.
pub open spec fn trailing_arguments(params: Seq<char>) -> Seq<char> {
    if params.len() == 0 {
        Seq::empty()
    } else {
        separator() + params
    }
}

/// The directive for a level and a parameter fragment.
pub open spec fn directive(level: Level, params: Seq<char>) -> Seq<char> {
    directive_open() + level.name() + level_close() + trailing_arguments(params)
        + directive_close()
}

/// The text of a function with the directive for a level and a parameter fragment ahead of it.
pub open spec fn decorated(level: Level, params: Seq<char>, fn_def: Seq<char>) -> Seq<char> {
    directive(level, params) + line_break() + fn_def
}

/// Turns a caller's parameter fragment into the fragment that is spliced into a directive.
///
/// The fragment is taken as it is, without a look at what it holds; an empty one gives an
/// empty fragment.
pub fn parse_instrument_params(attr: &str) -> (params: String)
    ensures
        params@ == attr@,
{
    if attr.is_empty() {
        return String::new();
    }
    String::from_str(attr)
}

/// Builds the directive for a level and a normalized parameter fragment.
pub fn build_directive(level: Level, params: &str) -> (text: String)
    ensures
        text@ == directive(level, params@),
{
    let mut text = String::from_str("#[::tracing::instrument(level = \"");
    text.append(level.as_str());
    text.append("\"");
    if !params.is_empty() {
        text.append(", ");
        text.append(params);
    }
    text.append(")]");
    text
}

} // verus!

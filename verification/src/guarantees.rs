//! What holds of every rewrite, stated over the text model of the directive.

use crate::directive::{
    decorated, directive, directive_close, directive_open, level_close, line_break, separator,
    trailing_arguments,
};
use crate::instrument::{outcome_text, rewritten, RewriteError};
use crate::level::Level;
use crate::syntax::is_function_definition;
use vstd::prelude::*;

verus! {

/// Different levels have different names; they differ in their first character already.
pub proof fn level_names_are_distinct(first: Level, second: Level)
    requires
        first != second,
    ensures
        first.name().len() > 0,
        second.name().len() > 0,
        first.name()[0] != second.name()[0],
        first.name() != second.name(),
{
    reveal_strlit("trace");
    reveal_strlit("debug");
    reveal_strlit("info");
    reveal_strlit("warn");
    reveal_strlit("error");
}

/// Determinism: for one level, one parameter fragment and one function text, any two
/// outcomes that a rewriter's contract admits are the same outcome, character for character.
pub proof fn rewrite_is_deterministic(
    level: Level,
    raw_params: Seq<char>,
    fn_def: Seq<char>,
    first: Result<String, RewriteError>,
    second: Result<String, RewriteError>,
)
    requires
        outcome_text(first) == rewritten(
            level,
            raw_params,
            fn_def,
            is_function_definition(fn_def),
        ),
        outcome_text(second) == rewritten(
            level,
            raw_params,
            fn_def,
            is_function_definition(fn_def),
        ),
    ensures
        outcome_text(first) == outcome_text(second),
{
}

/// Level fidelity: for given parameters and function text, the outputs for all levels share
/// one frame, the text before the level's name and the text after it, and an output is that
/// frame with the level's name in it. Outputs for different levels are different.
pub proof fn level_is_the_only_difference(raw_params: Seq<char>, fn_def: Seq<char>) -> (frame: (
    Seq<char>,
    Seq<char>,
))
    ensures
        forall|level: Level|
            #[trigger] decorated(level, raw_params, fn_def) == frame.0 + level.name() + frame.1,
        forall|first: Level, second: Level|
            first != second ==> #[trigger] decorated(first, raw_params, fn_def)
                != #[trigger] decorated(second, raw_params, fn_def),
{
    let before = directive_open();
    let after = level_close() + trailing_arguments(raw_params) + directive_close() + line_break()
        + fn_def;
    assert forall|level: Level|
        #[trigger] decorated(level, raw_params, fn_def) == before + level.name() + after by {
        let tail = level_close() + trailing_arguments(raw_params) + directive_close();
        assert(directive(level, raw_params) == before + level.name() + tail);
        assert(decorated(level, raw_params, fn_def) == before + level.name() + (tail
            + line_break() + fn_def));
    }
    assert forall|first: Level, second: Level| first != second implies #[trigger] decorated(
        first,
        raw_params,
        fn_def,
    ) != #[trigger] decorated(second, raw_params, fn_def) by {
        level_names_are_distinct(first, second);
        let at = directive_open().len() as int;
        assert(decorated(first, raw_params, fn_def)[at] == first.name()[0]);
        assert(decorated(second, raw_params, fn_def)[at] == second.name()[0]);
    }
    (before, after)
}

/// Preservation: the output is the directive, a line break and then the function text,
/// which stands at the end of the output unchanged, with nothing after it.
pub proof fn definition_is_preserved(level: Level, raw_params: Seq<char>, fn_def: Seq<char>)
    ensures
        ({
            let out = decorated(level, raw_params, fn_def);
            let ahead = directive(level, raw_params) + line_break();
            &&& out.len() == ahead.len() + fn_def.len()
            &&& out.subrange(0, ahead.len() as int) == ahead
            &&& out.subrange(ahead.len() as int, out.len() as int) == fn_def
        }),
{
}

/// Empty parameters: the directive then holds the level alone. Its closing bracket follows
/// the level's closing quote at once, and no comma stands in it.
pub proof fn empty_parameters_leave_only_the_level(level: Level)
    ensures
        directive(level, Seq::empty()) == directive_open() + level.name() + level_close()
            + directive_close(),
        !directive(level, Seq::empty()).contains(','),
{
    let text = directive(level, Seq::empty());
    assert(text == directive_open() + level.name() + level_close() + directive_close());
    reveal_strlit("#[::tracing::instrument(level = \"");
    reveal_strlit("\"");
    reveal_strlit(")]");
    reveal_strlit("trace");
    reveal_strlit("debug");
    reveal_strlit("info");
    reveal_strlit("warn");
    reveal_strlit("error");
    assert forall|i: int| 0 <= i < text.len() implies text[i] != ',' by {
        let open = directive_open();
        let name = level.name();
        if i < open.len() {
            assert(text[i] == open[i]);
        } else if i < open.len() + name.len() {
            assert(text[i] == name[i - open.len()]);
        } else if i < open.len() + name.len() + 1 {
            assert(text[i] == level_close()[i - open.len() - name.len()]);
        } else {
            assert(text[i] == directive_close()[i - open.len() - name.len() - 1]);
        }
    }
}

/// Pass-through: a fragment that is not empty stands in the directive as it is, between
/// the separator that follows the level and the closing bracket.
pub proof fn parameters_pass_through(level: Level, params: Seq<char>)
    requires
        params.len() > 0,
    ensures
        directive(level, params) == directive_open() + level.name() + level_close()
            + separator() + params + directive_close(),
        ({
            let start = (directive_open() + level.name() + level_close() + separator()).len();
            directive(level, params).subrange(start as int, start + params.len() as int) == params
        }),
{
    let head = directive_open() + level.name() + level_close();
    assert(directive(level, params) == head + (separator() + params) + directive_close());
    assert(head + (separator() + params) + directive_close() == head + separator() + params
        + directive_close());
}

/// Refusal: for a text that is not a function definition the outcome is `MalformedInput`,
/// whatever the level and the parameters, and there is no output.
pub proof fn malformed_input_is_refused(
    level: Level,
    raw_params: Seq<char>,
    fn_def: Seq<char>,
    outcome: Result<String, RewriteError>,
)
    requires
        !is_function_definition(fn_def),
        outcome_text(outcome) == rewritten(
            level,
            raw_params,
            fn_def,
            is_function_definition(fn_def),
        ),
    ensures
        outcome == Err::<String, RewriteError>(RewriteError::MalformedInput),
{
}

} // verus!

//! The boundary to the parser that decides what counts as a function definition.

use vstd::prelude::*;

verus! {

/// Whether a source text is a complete function definition: the verdict of `syn`'s parser
/// for a free-standing function item. The verdict is a matter of the text alone. Nothing is
/// stated about it here beyond what [`is_function`] reports.
pub uninterp spec fn is_function_definition(source: Seq<char>) -> bool;

/// Calls `syn::parse_str::<syn::ItemFn>` on `source` and reports whether it succeeded.
///
/// Not proved: that the answer is the verdict named by [`is_function_definition`]. `syn`
/// first splits the text into tokens and then reads outer attributes, a visibility, a
/// signature and a braced body, and it fails if any token is left over. The lexer works on
/// the text alone, since the crate is built without the compiler's token streams. The
/// parser descends along the nesting of the text, so the stack bounds the depth it can
/// take, as memory bounds the length.
#[verifier::external_body]
pub(crate) fn is_function(source: &str) -> (ok: bool)
    ensures
        ok == is_function_definition(source@),
{
    syn::parse_str::<syn::ItemFn>(source).is_ok()
}

} // verus!

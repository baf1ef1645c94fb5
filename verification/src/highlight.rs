//! The syntax-highlighting collaborator: an external tokenizer that, given a
//! per-file context and one line of text, yields that line re-emitted with
//! inline colour control sequences. The tokenizer is a black box; the renderer
//! takes its output as it comes.

use vstd::prelude::*;

verus! {

/// The process-wide table of syntax definitions
/// (`syntect::parsing::SyntaxSet`), loaded once and never mutated.
#[verifier::external_type_specification]
#[verifier::external_body]
pub struct ExSyntaxSet(syntect::parsing::SyntaxSet);

/// The per-file highlighting context (`syntect::easy::HighlightLines`). It is
/// internally stateful: it must be fed the file's lines strictly in order and
/// not reused across files.
#[verifier::external_type_specification]
#[verifier::external_body]
pub struct ExHighlightLines<'a>(syntect::easy::HighlightLines<'a>);

/// Relies on `syntect::easy::HighlightLines::highlight_line` for one line's
/// colour spans and on `syntect::util::as_24_bit_terminal_escaped` to fold
/// the spans into one string with inline colour control sequences. The result
/// depends on the context's internal state, so nothing is promised of it; a
/// tokenizer error comes back as `None`.
#[verifier::external_body]
pub(crate) fn highlight_line_escaped<'a>(
    context: &mut syntect::easy::HighlightLines<'a>,
    syntax_set: &syntect::parsing::SyntaxSet,
    line: &str,
) -> Option<String> {
    match context.highlight_line(line, syntax_set) {
        Ok(regions) => Some(syntect::util::as_24_bit_terminal_escaped(&regions, false)),
        Err(_) => None,
    }
}

} // verus!

//! The renderer: merges a file's lines, their syntax-coloured texts and the
//! annotator's per-line classifications into a framed, column-aligned report.
//!
//! Each body row holds a 4-column right-aligned line number, one annotation
//! glyph (blank for an unchanged line), a vertical rule and the line's
//! coloured text. The report is bounded by three frame lines whose width is
//! the terminal's; a terminal no wider than the panel and its junction is
//! refused with [`RenderError::TerminalTooNarrow`].

use vstd::prelude::*;
use crate::annotate::{LineChange, LineChanges};
use crate::decimal::{decimal_digits, lemma_decimal_len, u64_to_decimal};
use crate::highlight::highlight_line_escaped;
use crate::paint::{
    fixed_paint, green_paint, paint_fixed, paint_green, paint_red, paint_white_bold, paint_yellow,
    red_paint, white_bold_paint, yellow_paint,
};

verus! {

broadcast use vstd::std_specs::hash::group_hash_axioms;

/// Width of the left panel holding the line number and the annotation glyph.
pub const PANEL_WIDTH: usize = 7;

/// 256-colour-palette number of the dim grid decoration.
pub const GRID_COLOR: u8 = 238;

/// 256-colour-palette number of the line-number column.
pub const LINE_NUMBER_COLOR: u8 = 244;

/// Why a render request was refused.
#[derive(Copy, Clone, Debug, PartialEq, Eq, Structural)]
pub enum RenderError {
    /// The terminal is no wider than the panel and its frame junction.
    TerminalTooNarrow,
    /// The tokenizer could not highlight a line.
    Highlight,
}

impl RenderError {
    /// A plain-text description of the error.
    pub fn message(&self) -> (r: &'static str)
        ensures
            *self is TerminalTooNarrow ==> r@ == "terminal too narrow"@,
            *self is Highlight ==> r@ == "could not highlight line"@,
    {
        match self {
            RenderError::TerminalTooNarrow => "terminal too narrow",
            RenderError::Highlight => "could not highlight line",
        }
    }
}

fn spaces(n: usize) -> (r: String)
    ensures
        r@ == Seq::new(n as nat, |i: int| ' '),
{
    let mut r = String::new();
    let mut k: usize = 0;
    while k < n
        invariant
            k <= n,
            r@ == Seq::new(k as nat, |i: int| ' '),
        decreases n - k,
    {
        r.append(" ");
        k = k + 1;
        proof {
            reveal_strlit(" ");
            assert(r@ =~= Seq::new(k as nat, |i: int| ' '));
        }
    }
    r
}

fn dashes(n: usize) -> (r: String)
    ensures
        r@ == Seq::new(n as nat, |i: int| '-'),
{
    let mut r = String::new();
    let mut k: usize = 0;
    while k < n
        invariant
            k <= n,
            r@ == Seq::new(k as nat, |i: int| '-'),
        decreases n - k,
    {
        r.append("-");
        k = k + 1;
        proof {
            reveal_strlit("-");
            assert(r@ =~= Seq::new(k as nat, |i: int| '-'));
        }
    }
    r
}

/// A line number as it stands in the panel: its decimal numeral, right-aligned
/// to four columns with spaces (wider numerals keep their full width).
pub open spec fn padded_number(n: nat) -> Seq<char> {
    let d = decimal_digits(n);
    if d.len() >= 4 {
        d
    } else {
        Seq::new((4 - d.len()) as nat, |i: int| ' ') + d
    }
}

/// Writes a line number right-aligned to four columns.
pub fn pad_line_number(n: u64) -> (r: String)
    ensures
        r@ == padded_number(n as nat),
{
    proof {
        lemma_decimal_len(n as nat);
    }
    let pad: usize = if n < 10 {
        3
    } else if n < 100 {
        2
    } else if n < 1000 {
        1
    } else {
        0
    };
    let mut r = spaces(pad);
    let digits = u64_to_decimal(n);
    r.append(digits.as_str());
    proof {
        assert(r@ =~= padded_number(n as nat));
    }
    r
}

/// The annotation glyph for a classification, painted in its semantic colour:
/// green `+` for an addition, red `‾` and `_` for a removal above or below,
/// yellow `~` for a modification, and a bare space for an unchanged line.
pub open spec fn marker_text(change: Option<LineChange>) -> Seq<char> {
    match change {
        Some(LineChange::Added) => green_paint(seq!['+']),
        Some(LineChange::RemovedAbove) => red_paint(seq!['\u{203e}']),
        Some(LineChange::RemovedBelow) => red_paint(seq!['_']),
        Some(LineChange::Modified) => yellow_paint(seq!['~']),
        None => seq![' '],
    }
}

/// Writes the annotation glyph for a classification.
pub fn change_marker(change: Option<LineChange>) -> (r: String)
    ensures
        r@ == marker_text(change),
{
    match change {
        Some(LineChange::Added) => {
            proof {
                reveal_strlit("+");
                assert("+"@ =~= seq!['+']);
            }
            paint_green("+")
        },
        Some(LineChange::RemovedAbove) => {
            proof {
                reveal_strlit("\u{203e}");
                assert("\u{203e}"@ =~= seq!['\u{203e}']);
            }
            paint_red("\u{203e}")
        },
        Some(LineChange::RemovedBelow) => {
            proof {
                reveal_strlit("_");
                assert("_"@ =~= seq!['_']);
            }
            paint_red("_")
        },
        Some(LineChange::Modified) => {
            proof {
                reveal_strlit("~");
                assert("~"@ =~= seq!['~']);
            }
            paint_yellow("~")
        },
        None => {
            proof {
                reveal_strlit(" ");
                assert(" "@ =~= seq![' ']);
            }
            " ".to_owned()
        },
    }
}

/// The visible content of a frame line: the panel's width in dashes, a
/// junction glyph, then dashes filling the rest of the terminal width.
pub open spec fn frame_plain(junction: char, term_width: int) -> Seq<char> {
    Seq::new(PANEL_WIDTH as nat, |i: int| '-') + seq![junction] + Seq::new(
        (term_width - PANEL_WIDTH - 1) as nat,
        |i: int| '-',
    )
}

/// One frame line: its visible content painted in the dim grid colour.
pub open spec fn frame_text(junction: char, term_width: int) -> Seq<char> {
    fixed_paint(GRID_COLOR, frame_plain(junction, term_width))
}

/// A frame line's visible glyphs, the colour control sequences aside, fill the
/// terminal width exactly.
pub proof fn lemma_frame_width(junction: char, term_width: int)
    requires
        term_width > PANEL_WIDTH + 1,
    ensures
        frame_plain(junction, term_width).len() == term_width,
{
}

fn frame_line(junction: &str, term_width: usize) -> (r: String)
    requires
        term_width > PANEL_WIDTH + 1,
    ensures
        r@ == fixed_paint(
            GRID_COLOR,
            Seq::new(PANEL_WIDTH as nat, |i: int| '-') + junction@ + Seq::new(
                (term_width - PANEL_WIDTH - 1) as nat,
                |i: int| '-',
            ),
        ),
{
    let mut plain = dashes(PANEL_WIDTH);
    plain.append(junction);
    let rest = dashes(term_width - PANEL_WIDTH - 1);
    plain.append(rest.as_str());
    let r = paint_fixed(GRID_COLOR, plain.as_str());
    r
}

/// Writes the top frame line, whose junction is `┬`.
pub fn top_frame(term_width: usize) -> (r: String)
    requires
        term_width > PANEL_WIDTH + 1,
    ensures
        r@ == frame_text('\u{252c}', term_width as int),
{
    proof {
        reveal_strlit("\u{252c}");
        assert("\u{252c}"@ =~= seq!['\u{252c}']);
    }
    frame_line("\u{252c}", term_width)
}

/// Writes the middle frame line, whose junction is `┼`.
pub fn middle_frame(term_width: usize) -> (r: String)
    requires
        term_width > PANEL_WIDTH + 1,
    ensures
        r@ == frame_text('\u{253c}', term_width as int),
{
    proof {
        reveal_strlit("\u{253c}");
        assert("\u{253c}"@ =~= seq!['\u{253c}']);
    }
    frame_line("\u{253c}", term_width)
}

/// Writes the bottom frame line, whose junction is `┴`.
pub fn bottom_frame(term_width: usize) -> (r: String)
    requires
        term_width > PANEL_WIDTH + 1,
    ensures
        r@ == frame_text('\u{2534}', term_width as int),
{
    proof {
        reveal_strlit("\u{2534}");
        assert("\u{2534}"@ =~= seq!['\u{2534}']);
    }
    frame_line("\u{2534}", term_width)
}

/// The header row: the panel's width in spaces, the dim vertical rule, one
/// space, then the file path as the caller gave it, in bold white.
pub open spec fn header_text(path: Seq<char>) -> Seq<char> {
    Seq::new(PANEL_WIDTH as nat, |i: int| ' ') + fixed_paint(GRID_COLOR, seq!['\u{2502}'])
        + seq![' '] + white_bold_paint(path)
}

/// Writes the header row for a file path.
pub fn header_row(path: &str) -> (r: String)
    ensures
        r@ == header_text(path@),
{
    proof {
        reveal_strlit("\u{2502}");
        assert("\u{2502}"@ =~= seq!['\u{2502}']);
        reveal_strlit(" ");
        assert(" "@ =~= seq![' ']);
    }
    let mut r = spaces(PANEL_WIDTH);
    let rule = paint_fixed(GRID_COLOR, "\u{2502}");
    r.append(rule.as_str());
    r.append(" ");
    let name = paint_white_bold(path);
    r.append(name.as_str());
    proof {
        assert(r@ =~= header_text(path@));
    }
    r
}

/// One body row: the dim-painted 4-column line number, the annotation glyph,
/// the dim vertical rule and the line's coloured text, separated by single
/// spaces.
pub open spec fn body_row_text(line_nr: nat, change: Option<LineChange>, text: Seq<char>) -> Seq<
    char,
> {
    fixed_paint(LINE_NUMBER_COLOR, padded_number(line_nr)) + seq![' '] + marker_text(change)
        + seq![' '] + fixed_paint(GRID_COLOR, seq!['\u{2502}']) + seq![' '] + text
}

/// Writes one body row from its line number, its classification and its
/// already-coloured text.
pub fn body_row(line_nr: u64, change: Option<LineChange>, text: &str) -> (r: String)
    ensures
        r@ == body_row_text(line_nr as nat, change, text@),
{
    proof {
        reveal_strlit("\u{2502}");
        assert("\u{2502}"@ =~= seq!['\u{2502}']);
        reveal_strlit(" ");
        assert(" "@ =~= seq![' ']);
    }
    let num = pad_line_number(line_nr);
    let mut r = paint_fixed(LINE_NUMBER_COLOR, num.as_str());
    r.append(" ");
    let marker = change_marker(change);
    r.append(marker.as_str());
    r.append(" ");
    let rule = paint_fixed(GRID_COLOR, "\u{2502}");
    r.append(rule.as_str());
    r.append(" ");
    r.append(text);
    proof {
        assert(r@ =~= body_row_text(line_nr as nat, change, text@));
    }
    r
}

/// The classification the annotations record for a line: nothing when the
/// line has no entry, or when there is no annotation mapping at all (a file
/// with no discoverable repository).
pub open spec fn annotation_at(changes: Option<&LineChanges>, line: u32) -> Option<LineChange> {
    match changes {
        Some(m) => if m@.contains_key(line) {
            Some(m@[line])
        } else {
            None
        },
        None => None,
    }
}

/// Looks a line's classification up.
pub fn change_for_line(changes: Option<&LineChanges>, line: u32) -> (c: Option<LineChange>)
    ensures
        c == annotation_at(changes, line),
{
    match changes {
        Some(m) => match m.get(&line) {
            Some(k) => Some(*k),
            None => None,
        },
        None => None,
    }
}

/// With no annotation mapping at all, every line's glyph is the blank marker.
pub proof fn lemma_no_annotations_blank(changes: Option<&LineChanges>, line: u32)
    requires
        changes is None,
    ensures
        marker_text(annotation_at(changes, line)) == seq![' '],
{
}

/// Renders one line of the file as one body row: the text is coloured by the
/// external tokenizer, whose output is taken as it comes; everything around
/// it follows [`body_row_text`] exactly. A tokenizer failure is reported as
/// [`RenderError::Highlight`].
pub fn render_line<'a>(
    context: &mut syntect::easy::HighlightLines<'a>,
    syntax_set: &syntect::parsing::SyntaxSet,
    changes: Option<&LineChanges>,
    line_nr: u32,
    line: &str,
) -> (r: Result<String, RenderError>)
    ensures
        r matches Ok(row) ==> exists|text: Seq<char>|
            row@ == body_row_text(line_nr as nat, annotation_at(changes, line_nr), text),
        r matches Err(e) ==> e == RenderError::Highlight,
{
    match highlight_line_escaped(context, syntax_set, line) {
        Some(text) => {
            let row = body_row(line_nr as u64, change_for_line(changes, line_nr), text.as_str());
            proof {
                assert(row@ == body_row_text(
                    line_nr as nat,
                    annotation_at(changes, line_nr),
                    text@,
                ));
            }
            Ok(row)
        },
        None => Err(RenderError::Highlight),
    }
}

/// Assembles the framed report for one file whose lines' coloured texts are
/// already at hand: the top frame, the header row, the middle frame, one body
/// row per line (numbered from 1, in file order), and the bottom frame —
/// three frame lines and one header row around the body, whatever the
/// annotations. A terminal no wider than the panel and its junction is
/// refused.
pub fn render_report(
    path: &str,
    texts: &Vec<String>,
    changes: Option<&LineChanges>,
    term_width: usize,
) -> (r: Result<Vec<String>, RenderError>)
    requires
        texts@.len() <= u32::MAX,
    ensures
        r is Ok <==> term_width > PANEL_WIDTH + 1,
        r matches Err(e) ==> e == RenderError::TerminalTooNarrow,
        r matches Ok(rows) ==> {
            &&& rows@.len() == texts@.len() + 4
            &&& rows@[0]@ == frame_text('\u{252c}', term_width as int)
            &&& rows@[1]@ == header_text(path@)
            &&& rows@[2]@ == frame_text('\u{253c}', term_width as int)
            &&& rows@[rows@.len() - 1]@ == frame_text('\u{2534}', term_width as int)
            &&& forall|i: int|
                0 <= i < texts@.len() ==> #[trigger] rows@[3 + i]@ == body_row_text(
                    (i + 1) as nat,
                    annotation_at(changes, (i + 1) as u32),
                    texts@[i]@,
                )
        },
{
    if term_width <= PANEL_WIDTH + 1 {
        return Err(RenderError::TerminalTooNarrow);
    }
    let mut rows: Vec<String> = Vec::new();
    rows.push(top_frame(term_width));
    rows.push(header_row(path));
    rows.push(middle_frame(term_width));
    let n = texts.len();
    let mut i: usize = 0;
    while i < n
        invariant
            n == texts@.len(),
            n <= u32::MAX,
            0 <= i <= n,
            term_width > PANEL_WIDTH + 1,
            rows@.len() == i + 3,
            rows@[0]@ == frame_text('\u{252c}', term_width as int),
            rows@[1]@ == header_text(path@),
            rows@[2]@ == frame_text('\u{253c}', term_width as int),
            forall|j: int|
                0 <= j < i ==> #[trigger] rows@[3 + j]@ == body_row_text(
                    (j + 1) as nat,
                    annotation_at(changes, (j + 1) as u32),
                    texts@[j]@,
                ),
        decreases n - i,
    {
        let line_nr: u32 = (i as u32) + 1;
        let row = body_row(line_nr as u64, change_for_line(changes, line_nr), texts[i].as_str());
        rows.push(row);
        i = i + 1;
    }
    rows.push(bottom_frame(term_width));
    Ok(rows)
}

} // verus!

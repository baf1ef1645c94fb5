use bat::annotate::{compute_line_changes, Hunk, LineChange};
use bat::render::{
    body_row, bottom_frame, change_for_line, change_marker, header_row, middle_frame,
    pad_line_number, render_line, render_report, top_frame, RenderError,
};
use bat::decimal::u64_to_decimal;

const DIM: &str = "\u{1b}[38;5;238m";
const NUMBER: &str = "\u{1b}[38;5;244m";
const RESET: &str = "\u{1b}[0m";

fn dim(text: &str) -> String {
    format!("{}{}{}", DIM, text, RESET)
}

#[test]
fn decimal_of_small_and_large_numbers() {
    assert_eq!(u64_to_decimal(0), "0");
    assert_eq!(u64_to_decimal(7), "7");
    assert_eq!(u64_to_decimal(238), "238");
    assert_eq!(u64_to_decimal(4294967295), "4294967295");
}

#[test]
fn line_numbers_right_aligned_to_four_columns() {
    assert_eq!(pad_line_number(1), "   1");
    assert_eq!(pad_line_number(42), "  42");
    assert_eq!(pad_line_number(999), " 999");
    assert_eq!(pad_line_number(1000), "1000");
    assert_eq!(pad_line_number(12345), "12345");
}

#[test]
fn top_frame_at_width_90() {
    let frame = top_frame(90);
    let expected_plain = format!("{}┬{}", "-".repeat(7), "-".repeat(82));
    assert_eq!(expected_plain.chars().count(), 90);
    assert_eq!(frame, dim(&expected_plain));
}

#[test]
fn frames_differ_only_in_the_junction() {
    let top = top_frame(20);
    let middle = middle_frame(20);
    let bottom = bottom_frame(20);
    assert_eq!(top, dim("-------┬------------"));
    assert_eq!(middle, dim("-------┼------------"));
    assert_eq!(bottom, dim("-------┴------------"));
}

#[test]
fn frame_matches_the_paint_crate() {
    let expected = format!(
        "{}\n",
        ansi_term::Colour::Fixed(238).paint("-------┬-")
    );
    assert_eq!(format!("{}\n", top_frame(9)), expected);
}

#[test]
fn header_row_holds_the_path_as_given() {
    let header = header_row("src/main.rs");
    let expected = format!("       {} \u{1b}[1;37msrc/main.rs{}", dim("│"), RESET);
    assert_eq!(header, expected);
    assert_eq!(
        header,
        format!(
            "       {} {}",
            ansi_term::Colour::Fixed(238).paint("│"),
            ansi_term::Colour::White.bold().paint("src/main.rs")
        )
    );
}

#[test]
fn one_glyph_per_change_kind() {
    assert_eq!(change_marker(Some(LineChange::Added)), "\u{1b}[32m+\u{1b}[0m");
    assert_eq!(change_marker(Some(LineChange::RemovedAbove)), "\u{1b}[31m\u{203e}\u{1b}[0m");
    assert_eq!(change_marker(Some(LineChange::RemovedBelow)), "\u{1b}[31m_\u{1b}[0m");
    assert_eq!(change_marker(Some(LineChange::Modified)), "\u{1b}[33m~\u{1b}[0m");
    assert_eq!(change_marker(None), " ");
}

#[test]
fn glyphs_match_the_paint_crate() {
    assert_eq!(
        change_marker(Some(LineChange::Added)),
        ansi_term::Colour::Green.paint("+").to_string()
    );
    assert_eq!(
        change_marker(Some(LineChange::Modified)),
        ansi_term::Colour::Yellow.paint("~").to_string()
    );
}

#[test]
fn body_row_layout() {
    let row = body_row(3, Some(LineChange::Added), "let x;");
    let expected = format!(
        "{}   3{} \u{1b}[32m+{} {} let x;",
        NUMBER, RESET, RESET,
        dim("│")
    );
    assert_eq!(row, expected);
}

#[test]
fn change_lookup_follows_the_map() {
    let hunks = vec![Hunk { old_start: 1, old_lines: 0, new_start: 2, new_lines: 1 }];
    let changes = compute_line_changes(&hunks);
    assert_eq!(change_for_line(Some(&changes), 2), Some(LineChange::Added));
    assert_eq!(change_for_line(Some(&changes), 3), None);
    assert_eq!(change_for_line(None, 2), None);
}

#[test]
fn report_has_three_frames_and_a_header_around_the_body() {
    let texts = vec!["one".to_string(), "two".to_string(), "three".to_string()];
    let rows = render_report("file.txt", &texts, None, 20).unwrap();
    assert_eq!(rows.len(), 3 + 4);
    assert_eq!(rows[0], dim("-------┬------------"));
    assert_eq!(rows[2], dim("-------┼------------"));
    assert_eq!(rows[6], dim("-------┴------------"));
}

#[test]
fn report_without_repository_has_blank_glyphs() {
    let texts = vec!["alpha".to_string(), "beta".to_string()];
    let rows = render_report("file.txt", &texts, None, 30).unwrap();
    let blank = format!("{}   1{}   {} alpha", NUMBER, RESET, dim("│"));
    assert_eq!(rows[3], blank);
    let blank = format!("{}   2{}   {} beta", NUMBER, RESET, dim("│"));
    assert_eq!(rows[4], blank);
}

#[test]
fn report_carries_the_annotations() {
    let hunks = vec![Hunk { old_start: 1, old_lines: 1, new_start: 2, new_lines: 1 }];
    let changes = compute_line_changes(&hunks);
    let texts = vec!["alpha".to_string(), "beta".to_string()];
    let rows = render_report("file.txt", &texts, Some(&changes), 30).unwrap();
    assert_eq!(
        rows[4],
        format!("{}   2{} \u{1b}[33m~{} {} beta", NUMBER, RESET, RESET, dim("│"))
    );
}

#[test]
fn narrow_terminal_is_refused() {
    let texts = vec!["one".to_string()];
    assert_eq!(render_report("f", &texts, None, 8), Err(RenderError::TerminalTooNarrow));
    assert_eq!(render_report("f", &texts, None, 0), Err(RenderError::TerminalTooNarrow));
    assert!(render_report("f", &texts, None, 9).is_ok());
    assert_eq!(RenderError::TerminalTooNarrow.message(), "terminal too narrow");
    assert_eq!(RenderError::Highlight.message(), "could not highlight line");
}

#[test]
fn rendered_line_keeps_the_panel_and_the_text() {
    let syntax_set = syntect::parsing::SyntaxSet::load_defaults_nonewlines();
    let theme_set = syntect::highlighting::ThemeSet::load_defaults();
    let theme = &theme_set.themes["base16-ocean.dark"];
    let mut context =
        syntect::easy::HighlightLines::new(syntax_set.find_syntax_plain_text(), theme);
    let row = render_line(&mut context, &syntax_set, None, 1, "hello world").unwrap();
    let panel = format!("{}   1{}   {} ", NUMBER, RESET, dim("│"));
    assert!(row.starts_with(&panel));
    assert!(row.contains("hello world"));
}

use kild_ui::grid_layout::{
    cursor_cell, font_face, layout_cells, url_to_open, selection_kind, selection_spans, url_may_open,
    CellStyle, CursorCell, CursorShape, FontFace, GridCell, SelectionKind, SelectionSpan,
};

const FG: u64 = 1;
const BG: u64 = 0;

fn style(fg: u64, bold: bool) -> CellStyle {
    CellStyle {
        fg,
        bold,
        italic: false,
        underline: false,
        strikethrough: false,
    }
}

fn cell(line: i32, col: usize, ch: char, fg: u64, bg: u64) -> GridCell {
    GridCell {
        line,
        col,
        ch,
        style: style(fg, false),
        bg,
        wide: false,
        spacer: false,
    }
}

#[test]
fn runs_split_on_style_and_lines() {
    let cells = vec![
        cell(0, 0, 'a', FG, BG),
        cell(0, 1, 'b', FG, BG),
        cell(0, 2, 'c', 7, BG),
        cell(1, 0, 'd', 7, BG),
        cell(1, 1, '\0', 7, BG),
    ];
    let g = layout_cells(&cells, (5, 5), 10, FG, BG);
    assert_eq!(g.lines.len(), 2);
    assert_eq!(g.lines[0].line_idx, 0);
    assert_eq!(g.lines[0].runs.len(), 2);
    assert_eq!(g.lines[0].runs[0].text, "ab");
    assert_eq!(g.lines[0].runs[0].start_col, 0);
    assert_eq!(g.lines[0].runs[1].text, "c");
    assert_eq!(g.lines[0].runs[1].start_col, 2);
    assert_eq!(g.lines[1].runs[0].text, "d ");
    assert!(g.bg_regions.is_empty());
    assert_eq!(g.line_texts.len(), 2);
    assert_eq!(g.line_texts[0].text, "abc");
    assert_eq!(g.line_texts[1].col_offsets, vec![(0, 1), (1, 1)]);
    assert!(!g.cursor_is_wide);
}

#[test]
fn backgrounds_merge_into_spans() {
    let cells = vec![
        cell(0, 0, 'a', FG, 5),
        cell(0, 1, 'b', FG, 5),
        cell(0, 2, 'c', FG, BG),
        cell(0, 3, 'd', FG, 6),
        cell(1, 0, 'e', FG, BG),
    ];
    let g = layout_cells(&cells, (9, 9), 8, FG, BG);
    assert_eq!(g.bg_regions.len(), 2);
    assert_eq!(
        (g.bg_regions[0].line, g.bg_regions[0].start_col, g.bg_regions[0].end_col, g.bg_regions[0].color),
        (0, 0, 2, 5)
    );
    assert_eq!(
        (g.bg_regions[1].line, g.bg_regions[1].start_col, g.bg_regions[1].end_col, g.bg_regions[1].color),
        (0, 3, 8, 6)
    );
}

#[test]
fn wide_characters_get_their_own_runs() {
    let mut wide = cell(0, 1, '你', FG, BG);
    wide.wide = true;
    let mut spacer = cell(0, 2, ' ', FG, BG);
    spacer.spacer = true;
    let cells = vec![cell(0, 0, 'a', FG, BG), wide, spacer, cell(0, 3, 'b', FG, BG)];
    let g = layout_cells(&cells, (0, 1), 10, FG, BG);
    let runs = &g.lines[0].runs;
    assert_eq!(runs.len(), 3);
    assert_eq!((runs[0].text.as_str(), runs[0].start_col), ("a", 0));
    assert_eq!((runs[1].text.as_str(), runs[1].start_col), ("你", 1));
    assert_eq!((runs[2].text.as_str(), runs[2].start_col), ("b", 3));
    assert_eq!(g.line_texts[0].col_offsets, vec![(0, 1), (1, 2), (3, 1)]);
    assert!(g.cursor_is_wide);
}

#[test]
fn empty_grid_lays_out_nothing() {
    let g = layout_cells(&vec![], (0, 0), 10, FG, BG);
    assert!(g.lines.is_empty() && g.bg_regions.is_empty() && g.line_texts.is_empty());
}

#[test]
fn selections_cover_lines() {
    assert_eq!(
        selection_spans(1, 3, 3, 2, 10, 8),
        vec![
            SelectionSpan { line: 1, start_col: 3, end_col: 8 },
            SelectionSpan { line: 2, start_col: 0, end_col: 8 },
            SelectionSpan { line: 3, start_col: 0, end_col: 3 },
        ]
    );
    assert!(selection_spans(-2, 5, 0, 1, 10, 8).is_empty());
    assert_eq!(
        selection_spans(-2, 5, 0, 6, 10, 8),
        vec![SelectionSpan { line: 0, start_col: 5, end_col: 7 }]
    );
    assert_eq!(selection_spans(2, 0, 20, 1, 4, 8).len(), 2);
}

#[test]
fn cursor_is_drawn_on_the_grid_only() {
    assert_eq!(
        cursor_cell(true, 1, 2, 5, 5, true, true),
        Some(CursorCell { line: 1, col: 2, shape: CursorShape::Block { wide: true } })
    );
    assert_eq!(
        cursor_cell(true, 1, 2, 5, 5, false, false),
        Some(CursorCell { line: 1, col: 2, shape: CursorShape::Bar })
    );
    assert_eq!(cursor_cell(false, 1, 2, 5, 5, true, false), None);
    assert_eq!(cursor_cell(true, -1, 2, 5, 5, true, false), None);
    assert_eq!(cursor_cell(true, 1, 5, 5, 5, true, false), None);
}

#[test]
fn only_web_urls_open() {
    assert!(url_may_open("https://example.com"));
    assert!(url_may_open("http://example.com"));
    assert!(!url_may_open("file:///etc/passwd"));
    assert!(!url_may_open("http:/x"));
    assert!(!url_may_open(""));
}

#[test]
fn fonts_and_click_kinds() {
    assert_eq!(font_face(true, true), FontFace::BoldItalic);
    assert_eq!(font_face(true, false), FontFace::Bold);
    assert_eq!(font_face(false, true), FontFace::Italic);
    assert_eq!(font_face(false, false), FontFace::Regular);
    assert_eq!(selection_kind(1), SelectionKind::Simple);
    assert_eq!(selection_kind(2), SelectionKind::Semantic);
    assert_eq!(selection_kind(3), SelectionKind::Lines);
    assert_eq!(selection_kind(4), SelectionKind::Simple);
}

#[test]
fn drawn_runs_spell_the_scanned_text() {
    let mut wide = cell(1, 1, '中', 3, BG);
    wide.wide = true;
    let mut spacer = cell(1, 2, ' ', 3, BG);
    spacer.spacer = true;
    let cells = vec![
        cell(0, 0, 'h', FG, BG),
        cell(0, 1, 'i', 5, BG),
        cell(1, 0, 'x', FG, BG),
        wide,
        spacer,
        cell(1, 3, 'y', FG, BG),
    ];
    let g = layout_cells(&cells, (0, 0), 4, FG, BG);
    assert_eq!(g.lines.len(), g.line_texts.len());
    for (line, text) in g.lines.iter().zip(g.line_texts.iter()) {
        let joined: String = line.runs.iter().map(|r| r.text.as_str()).collect();
        assert_eq!(joined, text.text);
        assert_eq!(line.line_idx as i32, text.line);
    }
    assert_eq!(g.line_texts[1].text, "x中y");
}

#[test]
fn cmd_click_opens_web_urls_only() {
    let regions = vec![
        kild_ui::urls::UrlRegion { line: 0, start_col: 2, end_col: 10, url: "https://a.io".to_string() },
        kild_ui::urls::UrlRegion { line: 1, start_col: 0, end_col: 5, url: "ftp://x".to_string() },
    ];
    assert_eq!(url_to_open(&regions, 0, 2, true), Some("https://a.io".to_string()));
    assert_eq!(url_to_open(&regions, 0, 9, true), Some("https://a.io".to_string()));
    assert_eq!(url_to_open(&regions, 0, 10, true), None);
    assert_eq!(url_to_open(&regions, 0, 3, false), None);
    assert_eq!(url_to_open(&regions, 1, 1, true), None);
}

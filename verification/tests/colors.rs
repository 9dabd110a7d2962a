use kild_ui::colors::{choice_key, resolve_cell_colors, resolve_color, ColorChoice, NamedColor, TermColor};

#[test]
fn test_indexed_0_to_15_matches_named() {
    assert_eq!(
        resolve_color(TermColor::Named(NamedColor::Red)),
        resolve_color(TermColor::Indexed(1))
    );
    assert_eq!(
        resolve_color(TermColor::Named(NamedColor::BrightWhite)),
        resolve_color(TermColor::Indexed(15))
    );
}

#[test]
fn test_indexed_rgb_cube() {
    assert_eq!(resolve_color(TermColor::Indexed(16)), ColorChoice::Rgb(0, 0, 0));
    assert_eq!(resolve_color(TermColor::Indexed(231)), ColorChoice::Rgb(255, 255, 255));
    assert_eq!(resolve_color(TermColor::Indexed(196)), ColorChoice::Rgb(255, 0, 0));
    assert_eq!(resolve_color(TermColor::Indexed(17)), ColorChoice::Rgb(0, 0, 95));
}

#[test]
fn test_indexed_grayscale_ramp() {
    assert_eq!(resolve_color(TermColor::Indexed(232)), ColorChoice::Rgb(8, 8, 8));
    assert_eq!(resolve_color(TermColor::Indexed(255)), ColorChoice::Rgb(238, 238, 238));
}

#[test]
fn test_spec_rgb_direct() {
    assert_eq!(resolve_color(TermColor::Spec(255, 0, 0)), ColorChoice::Rgb(255, 0, 0));
}

#[test]
fn named_colors_pick_palette_entries() {
    assert_eq!(resolve_color(TermColor::Named(NamedColor::Black)), ColorChoice::Palette(0));
    assert_eq!(resolve_color(TermColor::Named(NamedColor::BrightRed)), ColorChoice::Palette(9));
    assert_eq!(resolve_color(TermColor::Named(NamedColor::DimRed)), ColorChoice::DimPalette(1));
    assert_eq!(resolve_color(TermColor::Named(NamedColor::Foreground)), ColorChoice::Foreground);
    assert_eq!(resolve_color(TermColor::Named(NamedColor::BrightForeground)), ColorChoice::Foreground);
    assert_eq!(resolve_color(TermColor::Named(NamedColor::DimForeground)), ColorChoice::DimForeground);
    assert_eq!(resolve_color(TermColor::Named(NamedColor::Background)), ColorChoice::Background);
    assert_eq!(resolve_color(TermColor::Named(NamedColor::Cursor)), ColorChoice::Cursor);
}

#[test]
fn cell_colors_swap_dim_and_hide() {
    let fg = TermColor::Named(NamedColor::Red);
    let bg = TermColor::Indexed(232);
    let red = choice_key(ColorChoice::Palette(1), false);
    let gray = choice_key(ColorChoice::Rgb(8, 8, 8), false);
    assert_eq!(red, 0x1_0000_0001);
    assert_eq!(gray, 0x7_0008_0808);
    assert_eq!(resolve_cell_colors(fg, bg, false, false, false), (red, gray));
    assert_eq!(resolve_cell_colors(fg, bg, true, false, false), (gray, red));
    let dim_red = choice_key(ColorChoice::Palette(1), true);
    assert_ne!(dim_red, red);
    assert_eq!(dim_red, choice_key(ColorChoice::DimPalette(1), false));
    assert_ne!(dim_red, choice_key(ColorChoice::DimPalette(1), true));
    assert_eq!(
        choice_key(ColorChoice::DimForeground, false),
        choice_key(ColorChoice::Foreground, true)
    );
    assert_eq!(
        choice_key(ColorChoice::Rgb(0, 0, 0), true),
        choice_key(ColorChoice::Rgb(0, 0, 0), false)
    );
    assert_eq!(
        resolve_cell_colors(TermColor::Indexed(16), bg, false, true, false).0,
        resolve_cell_colors(TermColor::Spec(0, 0, 0), bg, false, false, false).0
    );
    assert_eq!(resolve_cell_colors(fg, bg, false, true, false), (dim_red, gray));
    assert_eq!(resolve_cell_colors(fg, bg, false, true, true), (gray, gray));
}

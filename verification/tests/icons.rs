use tb_operator::icons::Icons;
use tb_operator::screens::Screen;

#[test]
fn disabled_icons_are_plain_or_empty() {
    let icons = Icons::new(false);
    assert!(!icons.enabled());
    assert_eq!(icons.tab(Screen::Status), "");
    assert_eq!(icons.info(), "");
    assert_eq!(icons.signed_in(), "");
    // The ready dot keeps an ASCII fallback so the status bar still reads.
    assert_eq!(icons.ready(), "\u{25cf} ");
}

#[test]
fn enabled_icons_are_glyphs() {
    let icons = Icons::new(true);
    assert!(icons.enabled());
    assert_ne!(icons.tab(Screen::Messages), "");
    assert_ne!(icons.help(), "");
    // Every screen has a distinct, non-empty tab glyph.
    let mut seen = std::collections::HashSet::new();
    for screen in Screen::all() {
        let glyph = icons.tab(*screen);
        assert!(glyph.ends_with(' '), "tab glyph must be padded: {glyph:?}");
        assert!(seen.insert(glyph), "duplicate tab glyph: {glyph:?}");
    }
}

#[test]
fn enabled_glyphs_match_their_codepoints() {
    let icons = Icons::new(true);
    assert_eq!(icons.tab(Screen::Status), "\u{f0e7} ");
    assert_eq!(icons.brand(), "\u{f095} ");
    assert_eq!(icons.ready(), "\u{f111} ");
    assert_eq!(icons.warn(), "\u{f071} ");
    assert_eq!(icons.error(), "\u{f06a} ");
    assert_eq!(icons.signed_out(), "\u{f235} ");
    assert_eq!(icons.awaiting(), "\u{f252} ");
    let plain = Icons::new(false);
    assert_eq!(plain.brand(), "");
    assert_eq!(plain.awaiting(), "");
    assert_eq!(plain.help(), "");
}

use tb_operator::theme::{Color, Theme, NAMES};

#[test]
fn from_name_resolves_known_palettes() {
    assert_eq!(
        Theme::from_name("catppuccin-mocha").accent,
        Color::Rgb(203, 166, 247)
    );
    assert_eq!(
        Theme::from_name("catppuccin-latte").accent,
        Color::Rgb(136, 57, 239)
    );
    assert_eq!(
        Theme::from_name("bell-canada").accent,
        Color::Rgb(214, 73, 73)
    );
    assert_eq!(
        Theme::from_name("bell-canada-blue").accent,
        Color::Rgb(0, 87, 184)
    );
    assert_eq!(Theme::from_name("high-contrast").accent, Color::LightYellow);
}

#[test]
fn from_name_falls_back_to_default_for_unknown() {
    assert_eq!(
        Theme::from_name("does-not-exist").accent,
        Theme::catppuccin_mocha().accent
    );
}

#[test]
fn next_name_cycles_through_all_then_wraps() {
    assert_eq!(Theme::next_name("catppuccin-mocha"), "catppuccin-macchiato");
    assert_eq!(Theme::next_name("catppuccin-latte"), "bell-canada");
    assert_eq!(Theme::next_name("high-contrast"), "catppuccin-mocha");
}

#[test]
fn next_name_resolves_unknown_to_first() {
    assert_eq!(Theme::next_name("nonsense"), NAMES[0]);
}

#[test]
fn every_name_resolves_and_cycles_back_to_start() {
    // Each registered name must round-trip through the cycle exactly once.
    let mut seen = std::collections::HashSet::new();
    let mut current = NAMES[0];
    for _ in 0..NAMES.len() {
        assert!(seen.insert(current), "duplicate in cycle: {current}");
        current = Theme::next_name(current);
    }
    assert_eq!(current, NAMES[0], "cycle must wrap to the first name");
}

#[test]
fn default_theme_is_catppuccin_mocha() {
    let theme = Theme::default();
    assert_eq!(theme, Theme::catppuccin_mocha());
    assert_eq!(theme.error, Color::Rgb(243, 139, 168));
    assert_eq!(Theme::from_name("catppuccin-frappe"), Theme::catppuccin_frappe());
    assert_eq!(Theme::from_name("catppuccin-macchiato").bg, Color::Rgb(73, 77, 100));
    assert_eq!(Theme::high_contrast().dim, Color::Gray);
}

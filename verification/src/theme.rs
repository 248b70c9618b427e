//! Color themes.
//!
//! Several palettes are available and selectable at runtime from the Settings
//! screen (and persisted to the config file); the default is Catppuccin Mocha.
//! The four Catppuccin flavours and the original Bell-Canada / high-contrast
//! palettes are all selectable.

use vstd::prelude::*;

use crate::text::chars_of;

verus! {

/// A terminal color: a 24-bit RGB value or one of the named ANSI colors the
/// palettes use.
#[derive(Debug, Clone, Copy, PartialEq, Eq, Structural)]
pub enum Color {
    /// An RGB color.
    Rgb(u8, u8, u8),
    /// Bright yellow.
    LightYellow,
    /// White.
    White,
    /// Gray.
    Gray,
    /// Black.
    Black,
    /// Bright green.
    LightGreen,
    /// Bright red.
    LightRed,
}

/// A resolved set of UI colors.
#[derive(Debug, Clone, Copy, PartialEq, Eq, Structural)]
pub struct Theme {
    /// Primary accent (selected tab, headings).
    pub accent: Color,
    /// Default foreground text.
    pub fg: Color,
    /// De-emphasized text (hints, borders).
    pub dim: Color,
    /// Background for highlighted chrome (status bar pill).
    pub bg: Color,
    /// Success / healthy indicator.
    pub ok: Color,
    /// Warning indicator.
    pub warn: Color,
    /// Error indicator.
    pub error: Color,
}

/// The theme names, in the order the Settings screen cycles through them. The
/// first entry is the default.
pub const NAMES: [&'static str; 7] = [
    "catppuccin-mocha",
    "catppuccin-macchiato",
    "catppuccin-frappe",
    "catppuccin-latte",
    "bell-canada",
    "bell-canada-blue",
    "high-contrast",
];

/// The theme names as a sequence, in cycle order.
pub open spec fn theme_names() -> Seq<Seq<char>> {
    seq![
        "catppuccin-mocha"@,
        "catppuccin-macchiato"@,
        "catppuccin-frappe"@,
        "catppuccin-latte"@,
        "bell-canada"@,
        "bell-canada-blue"@,
        "high-contrast"@,
    ]
}

/// The catppuccin mocha palette.
pub open spec fn mocha_palette() -> Theme {
    Theme {
        accent: Color::Rgb(203, 166, 247),
        fg: Color::Rgb(205, 214, 244),
        dim: Color::Rgb(127, 132, 156),
        bg: Color::Rgb(69, 71, 90),
        ok: Color::Rgb(166, 227, 161),
        warn: Color::Rgb(249, 226, 175),
        error: Color::Rgb(243, 139, 168),
    }
}

/// The catppuccin macchiato palette.
pub open spec fn macchiato_palette() -> Theme {
    Theme {
        accent: Color::Rgb(198, 160, 246),
        fg: Color::Rgb(202, 211, 245),
        dim: Color::Rgb(128, 135, 162),
        bg: Color::Rgb(73, 77, 100),
        ok: Color::Rgb(166, 218, 149),
        warn: Color::Rgb(238, 212, 159),
        error: Color::Rgb(237, 135, 150),
    }
}

/// The catppuccin frappe palette.
pub open spec fn frappe_palette() -> Theme {
    Theme {
        accent: Color::Rgb(202, 158, 230),
        fg: Color::Rgb(198, 208, 245),
        dim: Color::Rgb(131, 139, 167),
        bg: Color::Rgb(81, 87, 109),
        ok: Color::Rgb(166, 209, 137),
        warn: Color::Rgb(229, 200, 144),
        error: Color::Rgb(231, 130, 132),
    }
}

/// The catppuccin latte palette.
pub open spec fn latte_palette() -> Theme {
    Theme {
        accent: Color::Rgb(136, 57, 239),
        fg: Color::Rgb(76, 79, 105),
        dim: Color::Rgb(140, 143, 161),
        bg: Color::Rgb(188, 192, 204),
        ok: Color::Rgb(64, 160, 43),
        warn: Color::Rgb(223, 142, 29),
        error: Color::Rgb(210, 15, 57),
    }
}

/// The bell canada palette.
pub open spec fn bell_palette() -> Theme {
    Theme {
        accent: Color::Rgb(214, 73, 73),
        fg: Color::Rgb(236, 228, 228),
        dim: Color::Rgb(150, 120, 122),
        bg: Color::Rgb(58, 18, 20),
        ok: Color::Rgb(64, 192, 120),
        warn: Color::Rgb(230, 170, 60),
        error: Color::Rgb(218, 41, 28),
    }
}

/// The bell canada blue palette.
pub open spec fn bell_blue_palette() -> Theme {
    Theme {
        accent: Color::Rgb(0, 87, 184),
        fg: Color::Rgb(229, 233, 240),
        dim: Color::Rgb(122, 132, 148),
        bg: Color::Rgb(0, 30, 64),
        ok: Color::Rgb(64, 192, 120),
        warn: Color::Rgb(230, 170, 60),
        error: Color::Rgb(218, 41, 28),
    }
}

/// The high-contrast palette.
pub open spec fn high_contrast_palette() -> Theme {
    Theme {
        accent: Color::LightYellow,
        fg: Color::White,
        dim: Color::Gray,
        bg: Color::Black,
        ok: Color::LightGreen,
        warn: Color::LightYellow,
        error: Color::LightRed,
    }
}

/// The palette a configured theme name resolves to: the named one, or
/// Catppuccin Mocha for `catppuccin-mocha` and any unknown name.
pub open spec fn palette_for(name: Seq<char>) -> Theme {
    if name == "catppuccin-macchiato"@ {
        macchiato_palette()
    } else if name == "catppuccin-frappe"@ {
        frappe_palette()
    } else if name == "catppuccin-latte"@ {
        latte_palette()
    } else if name == "bell-canada"@ {
        bell_palette()
    } else if name == "bell-canada-blue"@ {
        bell_blue_palette()
    } else if name == "high-contrast"@ {
        high_contrast_palette()
    } else {
        mocha_palette()
    }
}

/// The theme name after `current` in cycle order, wrapping around; the first
/// name for an unknown `current`.
pub open spec fn next_theme_name(current: Seq<char>) -> Seq<char> {
    if exists|i: int| 0 <= i < theme_names().len() && theme_names()[i] == current {
        let i = choose|i: int| 0 <= i < theme_names().len() && theme_names()[i] == current;
        theme_names()[(i + 1) % (theme_names().len() as int)]
    } else {
        theme_names()[0]
    }
}

/// Whether `a` and `b` hold the same characters.
pub fn str_eq(a: &str, b: &str) -> (r: bool)
    ensures
        r == (a@ == b@),
{
    let x = chars_of(a);
    let y = chars_of(b);
    if x.len() != y.len() {
        return false;
    }
    let mut i: usize = 0;
    while i < x.len()
        invariant
            x@ == a@,
            y@ == b@,
            x@.len() == y@.len(),
            i <= x@.len(),
            forall|j: int| 0 <= j < i ==> x@[j] == y@[j],
        decreases x@.len() - i,
    {
        if x[i] != y[i] {
            return false;
        }
        i = i + 1;
    }
    assert(x@ =~= y@);
    true
}

impl Theme {
    /// Catppuccin Mocha — the default dark palette (Mauve accent on a deep
    /// blue-charcoal base).
    pub fn catppuccin_mocha() -> (r: Self)
        ensures
            r == mocha_palette(),
    {
        Self {
            accent: Color::Rgb(203, 166, 247),
            fg: Color::Rgb(205, 214, 244),
            dim: Color::Rgb(127, 132, 156),
            bg: Color::Rgb(69, 71, 90),
            ok: Color::Rgb(166, 227, 161),
            warn: Color::Rgb(249, 226, 175),
            error: Color::Rgb(243, 139, 168),
        }
    }

    /// Catppuccin Macchiato — a slightly warmer, medium-dark flavour.
    pub fn catppuccin_macchiato() -> (r: Self)
        ensures
            r == macchiato_palette(),
    {
        Self {
            accent: Color::Rgb(198, 160, 246),
            fg: Color::Rgb(202, 211, 245),
            dim: Color::Rgb(128, 135, 162),
            bg: Color::Rgb(73, 77, 100),
            ok: Color::Rgb(166, 218, 149),
            warn: Color::Rgb(238, 212, 159),
            error: Color::Rgb(237, 135, 150),
        }
    }

    /// Catppuccin Frappé — a soft, low-contrast dark flavour.
    pub fn catppuccin_frappe() -> (r: Self)
        ensures
            r == frappe_palette(),
    {
        Self {
            accent: Color::Rgb(202, 158, 230),
            fg: Color::Rgb(198, 208, 245),
            dim: Color::Rgb(131, 139, 167),
            bg: Color::Rgb(81, 87, 109),
            ok: Color::Rgb(166, 209, 137),
            warn: Color::Rgb(229, 200, 144),
            error: Color::Rgb(231, 130, 132),
        }
    }

    /// Catppuccin Latte — the light flavour, for bright terminals.
    pub fn catppuccin_latte() -> (r: Self)
        ensures
            r == latte_palette(),
    {
        Self {
            accent: Color::Rgb(136, 57, 239),
            fg: Color::Rgb(76, 79, 105),
            dim: Color::Rgb(140, 143, 161),
            bg: Color::Rgb(188, 192, 204),
            ok: Color::Rgb(64, 160, 43),
            warn: Color::Rgb(223, 142, 29),
            error: Color::Rgb(210, 15, 57),
        }
    }

    /// The default Bell-Canada palette: a soft-red accent on a deep, slightly
    /// warm background.
    pub fn bell_canada() -> (r: Self)
        ensures
            r == bell_palette(),
    {
        Self {
            accent: Color::Rgb(214, 73, 73),
            fg: Color::Rgb(236, 228, 228),
            dim: Color::Rgb(150, 120, 122),
            bg: Color::Rgb(58, 18, 20),
            ok: Color::Rgb(64, 192, 120),
            warn: Color::Rgb(230, 170, 60),
            error: Color::Rgb(218, 41, 28),
        }
    }

    /// The original Bell-Canada palette: a deep blue with a red error accent.
    pub fn bell_canada_blue() -> (r: Self)
        ensures
            r == bell_blue_palette(),
    {
        Self {
            accent: Color::Rgb(0, 87, 184),
            fg: Color::Rgb(229, 233, 240),
            dim: Color::Rgb(122, 132, 148),
            bg: Color::Rgb(0, 30, 64),
            ok: Color::Rgb(64, 192, 120),
            warn: Color::Rgb(230, 170, 60),
            error: Color::Rgb(218, 41, 28),
        }
    }

    /// A high-contrast palette using the terminal's bright ANSI colors, for
    /// accessibility and low-color terminals.
    pub fn high_contrast() -> (r: Self)
        ensures
            r == high_contrast_palette(),
    {
        Self {
            accent: Color::LightYellow,
            fg: Color::White,
            dim: Color::Gray,
            bg: Color::Black,
            ok: Color::LightGreen,
            warn: Color::LightYellow,
            error: Color::LightRed,
        }
    }

    /// Resolve a theme by its configured name, falling back to the default
    /// (Catppuccin Mocha) for any unknown name.
    pub fn from_name(name: &str) -> (r: Self)
        ensures
            r == palette_for(name@),
    {
        if str_eq(name, "catppuccin-macchiato") {
            Self::catppuccin_macchiato()
        } else if str_eq(name, "catppuccin-frappe") {
            Self::catppuccin_frappe()
        } else if str_eq(name, "catppuccin-latte") {
            Self::catppuccin_latte()
        } else if str_eq(name, "bell-canada") {
            Self::bell_canada()
        } else if str_eq(name, "bell-canada-blue") {
            Self::bell_canada_blue()
        } else if str_eq(name, "high-contrast") {
            Self::high_contrast()
        } else {
            Self::catppuccin_mocha()
        }
    }

    /// The theme name following `current` in [`NAMES`], wrapping around. An
    /// unknown `current` resolves to the first name.
    pub fn next_name(current: &str) -> (r: &'static str)
        ensures
            r@ == next_theme_name(current@),
    {
        proof {
            lemma_theme_names_distinct();
        }
        let names: &[&'static str] = &NAMES;
        assert(names@.map_values(|n: &str| n@) =~= theme_names());
        let mut i: usize = 0;
        while i < names.len()
            invariant
                names@.map_values(|n: &str| n@) == theme_names(),
                names@.len() == 7,
                theme_names().len() == 7,
                forall|a: int, b: int|
                    0 <= a < 7 && 0 <= b < 7 && a != b ==> theme_names()[a] != theme_names()[b],
                i <= names@.len(),
                forall|j: int| 0 <= j < i ==> theme_names()[j] != current@,
            decreases names@.len() - i,
        {
            assert(names@.map_values(|n: &str| n@)[i as int] == names@[i as int]@);
            if str_eq(names[i], current) {
                assert(theme_names()[i as int] == current@);
                let k = (i + 1) % names.len();
                let next = names[k];
                assert(names@.map_values(|n: &str| n@)[k as int] == names@[k as int]@);
                assert(next@ == theme_names()[((i + 1) % 7) as int]);
                return next;
            }
            i = i + 1;
        }
        assert(names@.map_values(|n: &str| n@)[0] == names@[0]@);
        names[0]
    }
}

impl Default for Theme {
    /// The default palette, Catppuccin Mocha.
    fn default() -> (r: Self)
        ensures
            r == mocha_palette(),
    {
        Self::catppuccin_mocha()
    }
}

/// The theme names are pairwise distinct.
pub proof fn lemma_theme_names_distinct()
    ensures
        theme_names().len() == 7,
        forall|i: int, j: int|
            0 <= i < 7 && 0 <= j < 7 && i != j ==> theme_names()[i] != theme_names()[j],
{
    reveal_strlit("catppuccin-mocha");
    reveal_strlit("catppuccin-macchiato");
    reveal_strlit("catppuccin-frappe");
    reveal_strlit("catppuccin-latte");
    reveal_strlit("bell-canada");
    reveal_strlit("bell-canada-blue");
    reveal_strlit("high-contrast");
    assert(theme_names()[0].len() == 16 && theme_names()[0][0] == 'c' && theme_names()[0][11] == 'm');
    assert(theme_names()[1].len() == 20 && theme_names()[1][0] == 'c' && theme_names()[1][11] == 'm');
    assert(theme_names()[2].len() == 17 && theme_names()[2][0] == 'c' && theme_names()[2][11] == 'f');
    assert(theme_names()[3].len() == 16 && theme_names()[3][0] == 'c' && theme_names()[3][11] == 'l');
    assert(theme_names()[4].len() == 11 && theme_names()[4][0] == 'b');
    assert(theme_names()[5].len() == 16 && theme_names()[5][0] == 'b');
    assert(theme_names()[6].len() == 13 && theme_names()[6][0] == 'h');
}

/// The name after the `i`-th theme name is the next one in cycle order,
/// wrapping from the last to the first.
pub proof fn lemma_next_theme_name_known(i: int)
    requires
        0 <= i < 7,
    ensures
        next_theme_name(theme_names()[i]) == theme_names()[(i + 1) % 7],
{
    lemma_theme_names_distinct();
    assert(exists|k: int| 0 <= k < theme_names().len() && theme_names()[k] == theme_names()[i]);
}

/// A name that is not a theme name leads to the first theme name.
pub proof fn lemma_next_theme_name_unknown(unknown: Seq<char>)
    requires
        forall|j: int| 0 <= j < 7 ==> theme_names()[j] != unknown,
    ensures
        next_theme_name(unknown) == theme_names()[0],
{
}

/// The theme name reached from `start` after `k` steps of the cycle.
pub open spec fn cycle_themes(start: Seq<char>, k: nat) -> Seq<char>
    decreases k,
{
    if k == 0 {
        start
    } else {
        next_theme_name(cycle_themes(start, (k - 1) as nat))
    }
}

/// Cycling from the first theme name passes through the names in order.
pub proof fn lemma_theme_cycle(k: nat)
    ensures
        cycle_themes(theme_names()[0], k) == theme_names()[(k % 7) as int],
    decreases k,
{
    if k > 0 {
        lemma_theme_cycle((k - 1) as nat);
        lemma_theme_names_distinct();
        let j = ((k - 1) % 7) as int;
        lemma_next_theme_name_known(j);
        assert((j + 1) % 7 == k % 7);
    }
}

/// Seven steps of the cycle visit every theme name once and return to the
/// first.
pub proof fn lemma_theme_cycle_lap()
    ensures
        cycle_themes(theme_names()[0], 7) == theme_names()[0],
        forall|a: nat, b: nat|
            a < 7 && b < 7 && a != b ==> cycle_themes(theme_names()[0], a) != cycle_themes(
                theme_names()[0],
                b,
            ),
{
    lemma_theme_names_distinct();
    lemma_theme_cycle(7);
    assert forall|a: nat, b: nat|
        a < 7 && b < 7 && a != b implies cycle_themes(theme_names()[0], a) != cycle_themes(
        theme_names()[0],
        b,
    ) by {
        lemma_theme_cycle(a);
        lemma_theme_cycle(b);
    }
}

} // verus!

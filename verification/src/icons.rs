//! Nerd Font glyphs for chrome (tabs, status bar, toasts, auth, help).
//!
//! All glyphs are Nerd Font Private-Use-Area codepoints, so they only render
//! with a patched "Nerd Font" installed in the terminal. When glyphs are
//! disabled every accessor returns an empty string (or a plain marker) so the
//! interface degrades to text-only labels.

use vstd::prelude::*;

use crate::screens::Screen;

verus! {

/// A resolved glyph set. Cheap to copy; constructed from the `nerd_fonts` flag.
#[derive(Debug, Clone, Copy)]
pub struct Icons {
    enabled: bool,
}

/// The padded Nerd Font tab glyph of a screen.
pub open spec fn tab_glyph(s: Screen) -> Seq<char> {
    match s {
        Screen::Status => "\u{f0e7} "@,
        Screen::Messages => "\u{f0e0} "@,
        Screen::Questions => "\u{f059} "@,
        Screen::Events => "\u{f03a} "@,
        Screen::Sessions => "\u{f095} "@,
        Screen::Stats => "\u{f080} "@,
        Screen::LiveSystem => "\u{f108} "@,
        Screen::SystemHealth => "\u{f21e} "@,
        Screen::Debug => "\u{f188} "@,
        Screen::Tokens => "\u{f084} "@,
        Screen::Settings => "\u{f013} "@,
        Screen::About => "\u{f129} "@,
    }
}

impl Icons {
    /// Whether Nerd Font glyphs are rendered (the flag the set was built with).
    pub closed spec fn is_enabled(self) -> bool {
        self.enabled
    }

    /// The text that [`brand`](Self::brand) returns.
    pub open spec fn brand_text(self) -> Seq<char> {
        if self.is_enabled() {
            "\u{f095} "@
        } else {
            ""@
        }
    }

    /// The text that [`ready`](Self::ready) returns.
    pub open spec fn ready_text(self) -> Seq<char> {
        if self.is_enabled() {
            "\u{f111} "@
        } else {
            "\u{25cf} "@
        }
    }

    /// The text that [`info`](Self::info) returns.
    pub open spec fn info_text(self) -> Seq<char> {
        if self.is_enabled() {
            "\u{f05a} "@
        } else {
            ""@
        }
    }

    /// The text that [`warn`](Self::warn) returns.
    pub open spec fn warn_text(self) -> Seq<char> {
        if self.is_enabled() {
            "\u{f071} "@
        } else {
            ""@
        }
    }

    /// The text that [`error`](Self::error) returns.
    pub open spec fn error_text(self) -> Seq<char> {
        if self.is_enabled() {
            "\u{f06a} "@
        } else {
            ""@
        }
    }

    /// The text that [`signed_in`](Self::signed_in) returns.
    pub open spec fn signed_in_text(self) -> Seq<char> {
        if self.is_enabled() {
            "\u{f007} "@
        } else {
            ""@
        }
    }

    /// The text that [`signed_out`](Self::signed_out) returns.
    pub open spec fn signed_out_text(self) -> Seq<char> {
        if self.is_enabled() {
            "\u{f235} "@
        } else {
            ""@
        }
    }

    /// The text that [`awaiting`](Self::awaiting) returns.
    pub open spec fn awaiting_text(self) -> Seq<char> {
        if self.is_enabled() {
            "\u{f252} "@
        } else {
            ""@
        }
    }

    /// The text that [`help`](Self::help) returns.
    pub open spec fn help_text(self) -> Seq<char> {
        if self.is_enabled() {
            "\u{f059} "@
        } else {
            ""@
        }
    }

    /// The text that [`tab`](Self::tab) returns.
    pub open spec fn tab_text(self, screen: Screen) -> Seq<char> {
        if self.is_enabled() {
            tab_glyph(screen)
        } else {
            Seq::<char>::empty()
        }
    }

    /// Build the glyph set, enabling Nerd Font glyphs when `enabled` is true.
    pub fn new(enabled: bool) -> (r: Self)
        ensures
            r.is_enabled() == enabled,
    {
        Self { enabled }
    }

    /// Whether Nerd Font glyphs are rendered.
    pub fn enabled(self) -> (r: bool)
        ensures
            r == self.is_enabled(),
    {
        self.enabled
    }

    /// Pick the Nerd Font `glyph` when enabled, otherwise the plain `fallback`.
    pub fn pick(self, glyph: &'static str, fallback: &'static str) -> (r: &'static str)
        ensures
            r == (if self.is_enabled() { glyph } else { fallback }),
    {
        if self.enabled {
            glyph
        } else {
            fallback
        }
    }

    /// The tab glyph for `screen`, already padded with a trailing space, or an
    /// empty string when glyphs are disabled (so tabs render as plain text).
    pub fn tab(self, screen: Screen) -> (r: &'static str)
        ensures
            r@ == self.tab_text(screen),
    {
        if !self.enabled {
            proof {
                reveal_strlit("");
            }
            return "";
        }
        match screen {
            Screen::Status => "\u{f0e7} ",  // bolt
            Screen::Messages => "\u{f0e0} ",  // envelope
            Screen::Questions => "\u{f059} ",  // question-circle
            Screen::Events => "\u{f03a} ",  // list
            Screen::Sessions => "\u{f095} ",  // phone
            Screen::Stats => "\u{f080} ",  // bar-chart
            Screen::LiveSystem => "\u{f108} ",  // desktop
            Screen::SystemHealth => "\u{f21e} ",  // heartbeat
            Screen::Debug => "\u{f188} ",  // bug
            Screen::Tokens => "\u{f084} ",  // key
            Screen::Settings => "\u{f013} ",  // cog
            Screen::About => "\u{f129} ",     // info
        }
    }

    /// The brand glyph shown in the tab-bar title.
    pub fn brand(self) -> (r: &'static str)
        ensures
            r@ == self.brand_text(),
    {
        self.pick("\u{f095} ", "")  // phone
    }

    /// The leading "ready" status dot in the status bar.
    pub fn ready(self) -> (r: &'static str)
        ensures
            r@ == self.ready_text(),
    {
        self.pick("\u{f111} ", "\u{25cf} ")  // filled circle; a plain dot when disabled
    }

    /// Glyph for an informational toast (padded), empty when disabled.
    pub fn info(self) -> (r: &'static str)
        ensures
            r@ == self.info_text(),
    {
        self.pick("\u{f05a} ", "")  // info-circle
    }

    /// Glyph for a warning toast (padded), empty when disabled.
    pub fn warn(self) -> (r: &'static str)
        ensures
            r@ == self.warn_text(),
    {
        self.pick("\u{f071} ", "")  // exclamation-triangle
    }

    /// Glyph for an error toast (padded), empty when disabled.
    pub fn error(self) -> (r: &'static str)
        ensures
            r@ == self.error_text(),
    {
        self.pick("\u{f06a} ", "")  // exclamation-circle
    }

    /// Glyph for the "signed in" account state (padded), empty when disabled.
    pub fn signed_in(self) -> (r: &'static str)
        ensures
            r@ == self.signed_in_text(),
    {
        self.pick("\u{f007} ", "")  // user
    }

    /// Glyph for the "signed out" account state (padded), empty when disabled.
    pub fn signed_out(self) -> (r: &'static str)
        ensures
            r@ == self.signed_out_text(),
    {
        self.pick("\u{f235} ", "")  // user-times
    }

    /// Glyph for an in-progress login (padded), empty when disabled.
    pub fn awaiting(self) -> (r: &'static str)
        ensures
            r@ == self.awaiting_text(),
    {
        self.pick("\u{f252} ", "")  // hourglass-half
    }

    /// Glyph for the help overlay title (padded), empty when disabled.
    pub fn help(self) -> (r: &'static str)
        ensures
            r@ == self.help_text(),
    {
        self.pick("\u{f059} ", "")  // question-circle
    }
}

/// The glyph character at the head of a screen's tab glyph.
pub open spec fn tab_glyph_char(s: Screen) -> char {
    match s {
        Screen::Status => '\u{f0e7}',
        Screen::Messages => '\u{f0e0}',
        Screen::Questions => '\u{f059}',
        Screen::Events => '\u{f03a}',
        Screen::Sessions => '\u{f095}',
        Screen::Stats => '\u{f080}',
        Screen::LiveSystem => '\u{f108}',
        Screen::SystemHealth => '\u{f21e}',
        Screen::Debug => '\u{f188}',
        Screen::Tokens => '\u{f084}',
        Screen::Settings => '\u{f013}',
        Screen::About => '\u{f129}',
    }
}

proof fn lemma_tab_glyph_shape(s: Screen)
    ensures
        tab_glyph(s) == seq![tab_glyph_char(s), ' '],
{
    match s {
        Screen::Status => reveal_strlit("\u{f0e7} "),
        Screen::Messages => reveal_strlit("\u{f0e0} "),
        Screen::Questions => reveal_strlit("\u{f059} "),
        Screen::Events => reveal_strlit("\u{f03a} "),
        Screen::Sessions => reveal_strlit("\u{f095} "),
        Screen::Stats => reveal_strlit("\u{f080} "),
        Screen::LiveSystem => reveal_strlit("\u{f108} "),
        Screen::SystemHealth => reveal_strlit("\u{f21e} "),
        Screen::Debug => reveal_strlit("\u{f188} "),
        Screen::Tokens => reveal_strlit("\u{f084} "),
        Screen::Settings => reveal_strlit("\u{f013} "),
        Screen::About => reveal_strlit("\u{f129} "),
    }
    assert(tab_glyph(s) =~= seq![tab_glyph_char(s), ' ']);
}

/// Every tab glyph is a single glyph padded with a trailing space.
pub proof fn lemma_tab_glyph_padded(s: Screen)
    ensures
        tab_glyph(s).len() == 2,
        tab_glyph(s)[1] == ' ',
        tab_glyph(s)[0] != ' ',
{
    lemma_tab_glyph_shape(s);
}

/// Distinct screens have distinct tab glyphs.
pub proof fn lemma_tab_glyphs_distinct(s: Screen, t: Screen)
    requires
        s != t,
    ensures
        tab_glyph(s) != tab_glyph(t),
{
    lemma_tab_glyph_shape(s);
    lemma_tab_glyph_shape(t);
    assert(tab_glyph(s)[0] != tab_glyph(t)[0]);
}

} // verus!

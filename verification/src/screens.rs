//! Top-level screens and their tab order.

use vstd::prelude::*;

verus! {

/// The set of top-level screens, in tab order.
#[derive(Debug, Clone, Copy, PartialEq, Eq, Structural)]
pub enum Screen {
    /// Booth status and runtime mode.
    Status,
    /// Voicemail messages.
    Messages,
    /// Question prompts.
    Questions,
    /// Event log.
    Events,
    /// Call sessions.
    Sessions,
    /// Aggregate statistics.
    Stats,
    /// Operator-reported system readouts.
    LiveSystem,
    /// btm-style charts from the booth `/metrics`.
    SystemHealth,
    /// On-device debug panel.
    Debug,
    /// API tokens.
    Tokens,
    /// Settings and identity.
    Settings,
    /// About the console.
    About,
}

/// All screens in display/tab order.
const ALL: [Screen; 12] = [
    Screen::Status,
    Screen::Messages,
    Screen::Questions,
    Screen::Events,
    Screen::Sessions,
    Screen::Stats,
    Screen::LiveSystem,
    Screen::SystemHealth,
    Screen::Debug,
    Screen::Tokens,
    Screen::Settings,
    Screen::About,
];

/// The tab order as a mathematical sequence.
pub open spec fn tab_order() -> Seq<Screen> {
    seq![
        Screen::Status,
        Screen::Messages,
        Screen::Questions,
        Screen::Events,
        Screen::Sessions,
        Screen::Stats,
        Screen::LiveSystem,
        Screen::SystemHealth,
        Screen::Debug,
        Screen::Tokens,
        Screen::Settings,
        Screen::About,
    ]
}

/// The number of screens.
pub open spec fn screen_count() -> nat {
    12
}

/// The position of a screen in tab order.
pub open spec fn position(s: Screen) -> nat {
    match s {
        Screen::Status => 0,
        Screen::Messages => 1,
        Screen::Questions => 2,
        Screen::Events => 3,
        Screen::Sessions => 4,
        Screen::Stats => 5,
        Screen::LiveSystem => 6,
        Screen::SystemHealth => 7,
        Screen::Debug => 8,
        Screen::Tokens => 9,
        Screen::Settings => 10,
        Screen::About => 11,
    }
}

/// The screen that follows `s` in tab order, wrapping around.
pub open spec fn following(s: Screen) -> Screen {
    tab_order()[((position(s) + 1) % screen_count()) as int]
}

/// The screen that precedes `s` in tab order, wrapping around.
pub open spec fn preceding(s: Screen) -> Screen {
    tab_order()[(position(s) + screen_count() - 1) % (screen_count() as int)]
}

/// Full screen title.
pub open spec fn title_text(s: Screen) -> Seq<char> {
    match s {
        Screen::Status => "Status"@,
        Screen::Messages => "Messages"@,
        Screen::Questions => "Questions"@,
        Screen::Events => "Events"@,
        Screen::Sessions => "Sessions"@,
        Screen::Stats => "Statistics"@,
        Screen::LiveSystem => "Live System"@,
        Screen::SystemHealth => "System Health"@,
        Screen::Debug => "Debug"@,
        Screen::Tokens => "API Tokens"@,
        Screen::Settings => "Settings"@,
        Screen::About => "About"@,
    }
}

/// Short tab-bar label.
pub open spec fn short_text(s: Screen) -> Seq<char> {
    match s {
        Screen::Status => "Status"@,
        Screen::Messages => "Messages"@,
        Screen::Questions => "Questions"@,
        Screen::Events => "Events"@,
        Screen::Sessions => "Sessions"@,
        Screen::Stats => "Stats"@,
        Screen::LiveSystem => "LiveSys"@,
        Screen::SystemHealth => "Health"@,
        Screen::Debug => "Debug"@,
        Screen::Tokens => "Tokens"@,
        Screen::Settings => "Settings"@,
        Screen::About => "About"@,
    }
}

/// One-line description of a screen's contents.
pub open spec fn description_text(s: Screen) -> Seq<char> {
    match s {
        Screen::Status => "Booth state, runtime mode, last error, and state-transition history."@,
        Screen::Messages =>
            "Voicemail messages: transcription, moderation, translation, and playback."@,
        Screen::Questions =>
            "Question prompts: activate/deactivate, archive, create, and playback."@,
        Screen::Events => "Live event log with filtering and a real-time tail (SSE)."@,
        Screen::Sessions =>
            "Call sessions with per-call timelines, outcomes, digits, and duration."@,
        Screen::Stats =>
            "Aggregate statistics: calls, messages, uploads, top questions, busiest hours."@,
        Screen::LiveSystem =>
            "Operator-reported readouts: CPU, memory, disk, network, and uptime."@,
        Screen::SystemHealth =>
            "btm-style live charts scraped from the booth's Prometheus /metrics endpoint."@,
        Screen::Debug =>
            "On-device debug panel: state, GPIO, audio meters, logs, config, and simulate."@,
        Screen::Tokens => "API tokens: list, create (shown once), revoke, and usage."@,
        Screen::Settings => "Operator URL, OIDC issuer, configured booths, theme, and identity."@,
        Screen::About => "About tb-operator: what it is, where its data comes from, and how to get help."@,
    }
}

/// Whether a screen is open to administrators only.
pub open spec fn admin_only(s: Screen) -> bool {
    s == Screen::Debug || s == Screen::Tokens
}

/// The palette key that jumps to a screen: the digits `1`–`9` for the first
/// nine screens in tab order, `0` for the tenth, `s` for Settings and `a` for
/// About.
pub open spec fn nav_char(s: Screen) -> char {
    match s {
        Screen::Status => '1',
        Screen::Messages => '2',
        Screen::Questions => '3',
        Screen::Events => '4',
        Screen::Sessions => '5',
        Screen::Stats => '6',
        Screen::LiveSystem => '7',
        Screen::SystemHealth => '8',
        Screen::Debug => '9',
        Screen::Tokens => '0',
        Screen::Settings => 's',
        Screen::About => 'a',
    }
}

impl Screen {
    /// All screens in tab order.
    pub fn all() -> (r: &'static [Screen])
        ensures
            r@ == tab_order(),
    {
        let a: &'static [Screen] = &ALL;
        assert(a@ =~= tab_order());
        a
    }

    /// The position of this screen in tab order.
    pub fn index(self) -> (r: usize)
        ensures
            r == position(self),
    {
        let all = Screen::all();
        let mut i: usize = 0;
        while i < all.len()
            invariant
                all@ == tab_order(),
                i <= all@.len(),
                forall|j: int| 0 <= j < i ==> all@[j] != self,
            decreases all@.len() - i,
        {
            if all[i] == self {
                return i;
            }
            i = i + 1;
        }
        0
    }

    /// The screen at `index`, if any.
    pub fn from_index(index: usize) -> (r: Option<Screen>)
        ensures
            r == (if index < screen_count() { Some(tab_order()[index as int]) } else { None }),
    {
        let all = Screen::all();
        if index < all.len() {
            Some(all[index])
        } else {
            None
        }
    }

    /// The next screen, wrapping around.
    pub fn next(self) -> (r: Screen)
        ensures
            r == following(self),
    {
        let all = Screen::all();
        let index = (self.index() + 1) % all.len();
        all[index]
    }

    /// The previous screen, wrapping around.
    pub fn prev(self) -> (r: Screen)
        ensures
            r == preceding(self),
    {
        let all = Screen::all();
        let index = (self.index() + all.len() - 1) % all.len();
        all[index]
    }

    /// The number of screens.
    pub fn count() -> (r: usize)
        ensures
            r == screen_count(),
    {
        Screen::all().len()
    }

    /// Whether the screen is open to administrators only.
    pub fn is_admin_only(self) -> (r: bool)
        ensures
            r == admin_only(self),
    {
        matches!(self, Screen::Debug | Screen::Tokens)
    }

    /// The palette key that jumps to this screen.
    pub fn nav_key(self) -> (r: char)
        ensures
            r == nav_char(self),
    {
        match self {
            Screen::Status => '1',
            Screen::Messages => '2',
            Screen::Questions => '3',
            Screen::Events => '4',
            Screen::Sessions => '5',
            Screen::Stats => '6',
            Screen::LiveSystem => '7',
            Screen::SystemHealth => '8',
            Screen::Debug => '9',
            Screen::Tokens => '0',
            Screen::Settings => 's',
            Screen::About => 'a',
        }
    }

    /// The screen a palette key jumps to, if any.
    pub fn from_nav_key(key: char) -> (r: Option<Screen>)
        ensures
            match r {
                Some(s) => nav_char(s) == key,
                None => forall|s: Screen| nav_char(s) != key,
            },
    {
        let all = Screen::all();
        let mut i: usize = 0;
        while i < all.len()
            invariant
                all@ == tab_order(),
                i <= all@.len(),
                forall|j: int| 0 <= j < i ==> nav_char(#[trigger] all@[j]) != key,
            decreases all@.len() - i,
        {
            if all[i].nav_key() == key {
                return Some(all[i]);
            }
            i = i + 1;
        }
        proof {
            assert forall|s: Screen| nav_char(s) != key by {
                lemma_tab_order_positions(s, s);
                assert(all@[position(s) as int] == s);
            }
        }
        None
    }

    /// Full screen title.
    pub fn title(self) -> (r: &'static str)
        ensures
            r@ == title_text(self),
    {
        match self {
            Screen::Status => "Status",
            Screen::Messages => "Messages",
            Screen::Questions => "Questions",
            Screen::Events => "Events",
            Screen::Sessions => "Sessions",
            Screen::Stats => "Statistics",
            Screen::LiveSystem => "Live System",
            Screen::SystemHealth => "System Health",
            Screen::Debug => "Debug",
            Screen::Tokens => "API Tokens",
            Screen::Settings => "Settings",
            Screen::About => "About",
        }
    }

    /// Short label used in the tab bar.
    pub fn short(self) -> (r: &'static str)
        ensures
            r@ == short_text(self),
    {
        match self {
            Screen::Status => "Status",
            Screen::Messages => "Messages",
            Screen::Questions => "Questions",
            Screen::Events => "Events",
            Screen::Sessions => "Sessions",
            Screen::Stats => "Stats",
            Screen::LiveSystem => "LiveSys",
            Screen::SystemHealth => "Health",
            Screen::Debug => "Debug",
            Screen::Tokens => "Tokens",
            Screen::Settings => "Settings",
            Screen::About => "About",
        }
    }

    /// A one-line description of the screen's contents.
    pub fn description(self) -> (r: &'static str)
        ensures
            r@ == description_text(self),
    {
        match self {
            Screen::Status => "Booth state, runtime mode, last error, and state-transition history.",
            Screen::Messages =>
                "Voicemail messages: transcription, moderation, translation, and playback.",
            Screen::Questions =>
                "Question prompts: activate/deactivate, archive, create, and playback.",
            Screen::Events => "Live event log with filtering and a real-time tail (SSE).",
            Screen::Sessions =>
                "Call sessions with per-call timelines, outcomes, digits, and duration.",
            Screen::Stats =>
                "Aggregate statistics: calls, messages, uploads, top questions, busiest hours.",
            Screen::LiveSystem =>
                "Operator-reported readouts: CPU, memory, disk, network, and uptime.",
            Screen::SystemHealth =>
                "btm-style live charts scraped from the booth's Prometheus /metrics endpoint.",
            Screen::Debug =>
                "On-device debug panel: state, GPIO, audio meters, logs, config, and simulate.",
            Screen::Tokens => "API tokens: list, create (shown once), revoke, and usage.",
            Screen::Settings => "Operator URL, OIDC issuer, configured booths, theme, and identity.",
            Screen::About => "About tb-operator: what it is, where its data comes from, and how to get help.",
        }
    }
}

/// Every screen sits at its own position in tab order, and the tab order
/// holds each screen exactly once.
pub proof fn lemma_tab_order_positions(s: Screen, t: Screen)
    ensures
        tab_order().len() == screen_count(),
        position(s) < screen_count(),
        tab_order()[position(s) as int] == s,
        position(s) == position(t) ==> s == t,
{
}

/// Stepping forward and then back (or back and then forward) returns to the
/// starting screen.
pub proof fn lemma_next_prev_inverse(s: Screen)
    ensures
        preceding(following(s)) == s,
        following(preceding(s)) == s,
{
}

/// Stepping forward `k` times from `s` lands `k` places further on in tab
/// order (modulo the number of screens).
pub proof fn lemma_next_steps(s: Screen, k: nat)
    ensures
        iterate_next(s, k) == tab_order()[((position(s) + k) % screen_count()) as int],
    decreases k,
{
    if k > 0 {
        lemma_next_steps(s, (k - 1) as nat);
        let p = position(s);
        let q = ((p + (k - 1)) % 12) as int;
        assert(position(tab_order()[q]) == q);
        assert((q + 1) % 12 == (p + k) % 12) by (nonlinear_arith)
            requires
                q == (p + (k - 1)) % 12,
                k > 0,
        ;
    }
}

/// Stepping forward once per screen wraps back to the starting screen.
pub proof fn lemma_next_cycles(s: Screen)
    ensures
        iterate_next(s, screen_count()) == s,
{
    lemma_next_steps(s, screen_count());
}

/// Every screen is reached from every other by stepping forward fewer times
/// than there are screens.
#[verifier::rlimit(40)]
#[verifier::spinoff_prover]
pub proof fn lemma_next_reaches(s: Screen, t: Screen)
    ensures
        distance(s, t) < screen_count(),
        iterate_next(s, distance(s, t)) == t,
{
    lemma_next_steps(s, distance(s, t));
}

/// How many forward steps lead from `s` to `t`.
pub open spec fn distance(s: Screen, t: Screen) -> nat {
    ((position(t) + screen_count() - position(s)) % (screen_count() as int)) as nat
}

/// The screen reached from `s` by stepping forward `k` times.
pub open spec fn iterate_next(s: Screen, k: nat) -> Screen
    decreases k,
{
    if k == 0 {
        s
    } else {
        following(iterate_next(s, (k - 1) as nat))
    }
}

/// Every label of every screen is non-empty.
pub proof fn lemma_labels_non_empty(s: Screen)
    ensures
        title_text(s).len() > 0,
        short_text(s).len() > 0,
        description_text(s).len() > 0,
{
    match s {
        Screen::Status => {
            reveal_strlit("Status");
            reveal_strlit("Status");
            reveal_strlit("Booth state, runtime mode, last error, and state-transition history.");
        },
        Screen::Messages => {
            reveal_strlit("Messages");
            reveal_strlit("Messages");
            reveal_strlit("Voicemail messages: transcription, moderation, translation, and playback.");
        },
        Screen::Questions => {
            reveal_strlit("Questions");
            reveal_strlit("Questions");
            reveal_strlit("Question prompts: activate/deactivate, archive, create, and playback.");
        },
        Screen::Events => {
            reveal_strlit("Events");
            reveal_strlit("Events");
            reveal_strlit("Live event log with filtering and a real-time tail (SSE).");
        },
        Screen::Sessions => {
            reveal_strlit("Sessions");
            reveal_strlit("Sessions");
            reveal_strlit("Call sessions with per-call timelines, outcomes, digits, and duration.");
        },
        Screen::Stats => {
            reveal_strlit("Statistics");
            reveal_strlit("Stats");
            reveal_strlit("Aggregate statistics: calls, messages, uploads, top questions, busiest hours.");
        },
        Screen::LiveSystem => {
            reveal_strlit("Live System");
            reveal_strlit("LiveSys");
            reveal_strlit("Operator-reported readouts: CPU, memory, disk, network, and uptime.");
        },
        Screen::SystemHealth => {
            reveal_strlit("System Health");
            reveal_strlit("Health");
            reveal_strlit("btm-style live charts scraped from the booth's Prometheus /metrics endpoint.");
        },
        Screen::Debug => {
            reveal_strlit("Debug");
            reveal_strlit("Debug");
            reveal_strlit("On-device debug panel: state, GPIO, audio meters, logs, config, and simulate.");
        },
        Screen::Tokens => {
            reveal_strlit("API Tokens");
            reveal_strlit("Tokens");
            reveal_strlit("API tokens: list, create (shown once), revoke, and usage.");
        },
        Screen::Settings => {
            reveal_strlit("Settings");
            reveal_strlit("Settings");
            reveal_strlit("Operator URL, OIDC issuer, configured booths, theme, and identity.");
        },
        Screen::About => {
            reveal_strlit("About");
            reveal_strlit("About");
            reveal_strlit("About tb-operator: what it is, where its data comes from, and how to get help.");
        },
    }
}

/// Each screen has its own palette key, and the key leads back to it.
pub proof fn lemma_nav_keys_round_trip(s: Screen, t: Screen)
    ensures
        nav_char(s) == nav_char(t) ==> s == t,
{
}

} // verus!

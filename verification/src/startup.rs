//! The notices the application greets the operator with.

use vstd::prelude::*;
use crate::auth::Notice;
use crate::text::push_str;
use crate::toast::Level;

verus! {

/// What was found while the application started.
pub struct StartupReport<'a> {
    /// Whether any booth is configured.
    pub has_booth: bool,
    /// Why the session had to be kept in memory, if it had to.
    pub session_warning: Option<&'a str>,
    /// Whether a stored session was found.
    pub signed_in: bool,
    /// The first booth's id, and why its System Health dashboard could not
    /// be set up, if it could not.
    pub health_error: Option<(&'a str, &'a str)>,
    /// The first booth's id, and why its Debug panel could not be set up, if
    /// it could not.
    pub debug_error: Option<(&'a str, &'a str)>,
    /// Why audio playback is unavailable, if it is.
    pub playback_unavailable: Option<&'a str>,
}

/// A notice as plain values.
pub open spec fn notice_model(n: Notice) -> (Level, Seq<char>) {
    (n.level, n.text@)
}

/// `entry` appended to `s` when `present`.
pub open spec fn push_if(
    s: Seq<(Level, Seq<char>)>,
    present: bool,
    entry: (Level, Seq<char>),
) -> Seq<(Level, Seq<char>)> {
    if present {
        s.push(entry)
    } else {
        s
    }
}

/// The startup notices, in order: the welcome; a warning when no booth is
/// configured; the session-store warning; whether a session was found; why
/// the booth panels or audio playback are unavailable.
pub open spec fn startup_model(r: StartupReport) -> Seq<(Level, Seq<char>)> {
    let s0 = seq![(Level::Info, "Welcome to tb-operator. Press q to quit."@)];
    let s1 = push_if(
        s0,
        !r.has_booth,
        (Level::Warn, "No booths configured; add one in Settings to use System Health."@),
    );
    let s2 = push_if(
        s1,
        r.session_warning is Some,
        (Level::Warn, r.session_warning->Some_0@),
    );
    let s3 = if r.signed_in {
        s2.push((Level::Info, "Signed in to the operator API."@))
    } else {
        s2.push((Level::Warn, "Not signed in. Open Settings and press L to log in."@))
    };
    let s4 = push_if(
        s3,
        r.health_error is Some,
        (
            Level::Warn,
            "System Health unavailable for booth "@ + r.health_error->Some_0.0@ + ": "@
                + r.health_error->Some_0.1@,
        ),
    );
    let s5 = push_if(
        s4,
        r.debug_error is Some,
        (
            Level::Warn,
            "Debug panel unavailable for booth "@ + r.debug_error->Some_0.0@ + ": "@
                + r.debug_error->Some_0.1@,
        ),
    );
    push_if(
        s5,
        r.playback_unavailable is Some,
        (Level::Warn, "Audio playback unavailable: "@ + r.playback_unavailable->Some_0@),
    )
}

fn notice(level: Level, a: &str, b: &str, c: &str, d: &str) -> (r: Notice)
    ensures
        r.level == level,
        r.text@ == a@ + b@ + c@ + d@,
{
    let mut text = String::new();
    push_str(&mut text, a);
    push_str(&mut text, b);
    push_str(&mut text, c);
    push_str(&mut text, d);
    Notice { level, text }
}

fn push_notice(out: &mut Vec<Notice>, n: Notice)
    ensures
        final(out)@.map_values(|m: Notice| notice_model(m)) == old(out)@.map_values(
            |m: Notice| notice_model(m),
        ).push(notice_model(n)),
{
    let ghost before = out@;
    let ghost g = n;
    out.push(n);
    assert(out@.map_values(|m: Notice| notice_model(m)) =~= before.map_values(
        |m: Notice| notice_model(m),
    ).push(notice_model(g)));
}

/// The notices to greet the operator with, given what startup found.
pub fn startup_notices(report: &StartupReport) -> (r: Vec<Notice>)
    ensures
        r@.map_values(|m: Notice| notice_model(m)) == startup_model(*report),
{
    proof {
        reveal_strlit("");
    }
    let mut out: Vec<Notice> = Vec::new();
    let ghost g0 = out@.map_values(|m: Notice| notice_model(m));
    push_notice(&mut out, notice(Level::Info, "Welcome to tb-operator. Press q to quit.", "", "", ""));
    assert(g0 =~= Seq::empty());
    if !report.has_booth {
        push_notice(
            &mut out,
            notice(
                Level::Warn,
                "No booths configured; add one in Settings to use System Health.",
                "",
                "",
                "",
            ),
        );
    }
    match report.session_warning {
        Some(w) => push_notice(&mut out, notice(Level::Warn, w, "", "", "")),
        None => {},
    }
    if report.signed_in {
        push_notice(&mut out, notice(Level::Info, "Signed in to the operator API.", "", "", ""));
    } else {
        push_notice(
            &mut out,
            notice(Level::Warn, "Not signed in. Open Settings and press L to log in.", "", "", ""),
        );
    }
    match report.health_error {
        Some((id, err)) => push_notice(
            &mut out,
            notice(Level::Warn, "System Health unavailable for booth ", id, ": ", err),
        ),
        None => {},
    }
    match report.debug_error {
        Some((id, err)) => push_notice(
            &mut out,
            notice(Level::Warn, "Debug panel unavailable for booth ", id, ": ", err),
        ),
        None => {},
    }
    match report.playback_unavailable {
        Some(reason) => push_notice(
            &mut out,
            notice(Level::Warn, "Audio playback unavailable: ", reason, "", ""),
        ),
        None => {},
    }
    out
}

} // verus!

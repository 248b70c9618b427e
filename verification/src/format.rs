//! Human-readable formatting of counts, sizes, durations, labels, and
//! timestamps for the screen bodies.

use vstd::prelude::*;
use vstd::string::StringSliceAdditionalSpecFns;

use crate::clock::{duration_millis, duration_secs, elapsed, whole_millis_of};
use crate::text::{
    chars_of, decimal, push_char, push_decimal, push_decimal_padded,
    push_str, string_from_chars, zero_padded,
};

verus! {

broadcast use vstd::string::group_string_axioms;

/// `t` cut to at most `max` characters: when it is longer, its first
/// `max - 1` characters (none when `max` is zero) followed by an ellipsis.
pub open spec fn truncated(t: Seq<char>, max: nat) -> Seq<char> {
    if t.len() > max {
        t.take(if max == 0 { 0 } else { max - 1 }).push('…')
    } else {
        t
    }
}

/// Truncate `text` to at most `max` characters, appending an ellipsis when cut.
pub fn truncate(text: &str, max: usize) -> (r: String)
    ensures
        r@ == truncated(text@, max as nat),
{
    let cs = chars_of(text);
    if cs.len() > max {
        let keep = max.saturating_sub(1);
        let mut out = String::new();
        let mut i: usize = 0;
        while i < keep
            invariant
                keep < cs@.len(),
                i <= keep,
                out@ == cs@.take(i as int),
            decreases keep - i,
        {
            push_char(&mut out, cs[i]);
            assert(cs@.take(i + 1) =~= cs@.take(i as int).push(cs@[i as int]));
            i = i + 1;
        }
        push_char(&mut out, '…');
        out
    } else {
        string_from_chars(cs.as_slice())
    }
}

/// An audio duration given in milliseconds: `—` when negative, `Mm Ss` from
/// one minute on, and `S.mmms` below a minute.
pub open spec fn duration_text(ms: int) -> Seq<char> {
    if ms < 0 {
        "—"@
    } else {
        let total = ms / 1000;
        let millis = ms % 1000;
        let minutes = total / 60;
        let seconds = total % 60;
        if minutes > 0 {
            decimal(minutes as nat) + "m "@ + decimal(seconds as nat) + "s"@
        } else {
            decimal(seconds as nat) + "."@ + zero_padded(decimal(millis as nat), 3) + "s"@
        }
    }
}

/// Format an audio duration in milliseconds as a human-readable string.
pub fn format_duration(duration_ms: i64) -> (r: String)
    ensures
        r@ == duration_text(duration_ms as int),
{
    let mut out = String::new();
    if duration_ms < 0 {
        push_str(&mut out, "—");
        return out;
    }
    let total_secs = (duration_ms / 1000) as u64;
    let millis = (duration_ms % 1000) as u64;
    let minutes = total_secs / 60;
    let seconds = total_secs % 60;
    if minutes > 0 {
        push_decimal(&mut out, minutes);
        push_str(&mut out, "m ");
        push_decimal(&mut out, seconds);
        push_str(&mut out, "s");
    } else {
        push_decimal(&mut out, seconds);
        push_str(&mut out, ".");
        push_decimal_padded(&mut out, millis, 3);
        push_str(&mut out, "s");
    }
    out
}

/// A millisecond count narrowed to `i64`, saturating at `i64::MAX`.
pub fn millis_to_i64(ms: u128) -> (r: i64)
    ensures
        r as int == (if ms <= i64::MAX as u128 { ms as int } else { i64::MAX as int }),
{
    if ms <= i64::MAX as u128 {
        ms as i64
    } else {
        i64::MAX
    }
}

/// Convert a `Duration` to whole milliseconds as an `i64`, saturating rather
/// than wrapping for absurdly long inputs.
pub fn duration_to_ms(duration: std::time::Duration) -> (r: i64)
    ensures
        r as int == (if whole_millis_of(duration) <= i64::MAX as u128 {
            whole_millis_of(duration) as int
        } else {
            i64::MAX as int
        }),
        r >= 0,
{
    millis_to_i64(duration_millis(duration))
}

/// Name of a day-of-week index (`0` = Sunday).
pub open spec fn day_name(day: u8) -> Seq<char> {
    if day == 0 {
        "Sunday"@
    } else if day == 1 {
        "Monday"@
    } else if day == 2 {
        "Tuesday"@
    } else if day == 3 {
        "Wednesday"@
    } else if day == 4 {
        "Thursday"@
    } else if day == 5 {
        "Friday"@
    } else if day == 6 {
        "Saturday"@
    } else {
        "—"@
    }
}

/// Name of a day-of-week index (`0` = Sunday); `—` past Saturday.
pub fn day_of_week_label(day: u8) -> (r: &'static str)
    ensures
        r@ == day_name(day),
{
    match day {
        0 => "Sunday",
        1 => "Monday",
        2 => "Tuesday",
        3 => "Wednesday",
        4 => "Thursday",
        5 => "Friday",
        6 => "Saturday",
        _ => "—",
    }
}

/// `c` with the enum-key separators `_` and `-` shown as a space.
pub open spec fn humanized_char(c: char) -> char {
    if c == '_' || c == '-' {
        ' '
    } else {
        c
    }
}

/// Replace separators in an enum-style key with spaces for display.
pub fn humanize_key(key: &str) -> (r: String)
    ensures
        r@ == key@.map_values(|c: char| humanized_char(c)),
{
    let cs = chars_of(key);
    let mut out = String::new();
    let mut i: usize = 0;
    while i < cs.len()
        invariant
            i <= cs@.len(),
            cs@ == key@,
            out@ == cs@.take(i as int).map_values(|c: char| humanized_char(c)),
        decreases cs@.len() - i,
    {
        let c = cs[i];
        let shown = if c == '_' || c == '-' {
            ' '
        } else {
            c
        };
        push_char(&mut out, shown);
        assert(cs@.take(i + 1).map_values(|c: char| humanized_char(c)) =~= cs@.take(
            i as int,
        ).map_values(|c: char| humanized_char(c)).push(humanized_char(cs@[i as int])));
        i = i + 1;
    }
    assert(cs@.take(cs@.len() as int) =~= cs@);
    out
}

/// `a * b`, saturating at `u64::MAX`.
pub open spec fn saturating_product(a: nat, b: nat) -> nat {
    if a * b > u64::MAX {
        u64::MAX as nat
    } else {
        a * b
    }
}

/// `value * factor`, saturating at `u64::MAX`.
pub fn saturating_times(value: u64, factor: u64) -> (r: u64)
    requires
        factor > 0,
    ensures
        r == saturating_product(value as nat, factor as nat),
{
    if value > u64::MAX / factor {
        proof {
            assert(value * factor > u64::MAX) by (nonlinear_arith)
                requires
                    value > u64::MAX / factor,
                    factor > 0,
            ;
        }
        u64::MAX
    } else {
        proof {
            assert(value * factor <= u64::MAX) by (nonlinear_arith)
                requires
                    value <= u64::MAX / factor,
                    factor > 0,
            ;
        }
        value * factor
    }
}

/// An integer percentage of `part` out of `whole`, `0%` for an empty whole.
pub open spec fn percent_text(part: u64, whole: u64) -> Seq<char> {
    if whole == 0 {
        "0%"@
    } else {
        decimal(saturating_product(part as nat, 100) / (whole as nat)) + "%"@
    }
}

/// An integer percentage of `part` out of `whole` (e.g. `75%`).
pub fn percent(part: u64, whole: u64) -> (r: String)
    ensures
        r@ == percent_text(part, whole),
{
    let mut out = String::new();
    if whole == 0 {
        push_str(&mut out, "0%");
        return out;
    }
    push_decimal(&mut out, saturating_times(part, 100) / whole);
    push_str(&mut out, "%");
    out
}

/// The eight block heights of a sparkline, lowest first.
pub open spec fn bar_char(level: nat) -> char {
    if level == 0 {
        '▁'
    } else if level == 1 {
        '▂'
    } else if level == 2 {
        '▃'
    } else if level == 3 {
        '▄'
    } else if level == 4 {
        '▅'
    } else if level == 5 {
        '▆'
    } else if level == 6 {
        '▇'
    } else {
        '█'
    }
}

/// The largest value in `values` (`0` when empty).
pub open spec fn seq_max(values: Seq<u64>) -> nat
    decreases values.len(),
{
    if values.len() == 0 {
        0
    } else {
        let rest = seq_max(values.drop_last());
        if values.last() > rest {
            values.last() as nat
        } else {
            rest
        }
    }
}

/// The bar level of `value` in a sparkline whose tallest value is `max`.
pub open spec fn bar_level(value: u64, max: nat) -> nat {
    let level = saturating_product(value as nat, 7) / max;
    if level > 7 {
        7
    } else {
        level
    }
}

/// The sparkline of `values`: one bar per value, scaled so the largest value
/// is the tallest bar; all lowest bars when every value is zero.
pub open spec fn sparkline_text(values: Seq<u64>) -> Seq<char> {
    let max = seq_max(values);
    if max == 0 {
        Seq::new(values.len(), |i: int| '▁')
    } else {
        Seq::new(values.len(), |i: int| bar_char(bar_level(values[i], max)))
    }
}

proof fn lemma_seq_max_bounds(values: Seq<u64>)
    ensures
        forall|i: int| 0 <= i < values.len() ==> values[i] <= seq_max(values),
        values.len() > 0 ==> exists|i: int| 0 <= i < values.len() && values[i] == seq_max(values),
        seq_max(values) <= u64::MAX,
    decreases values.len(),
{
    if values.len() > 0 {
        lemma_seq_max_bounds(values.drop_last());
        let rest = values.drop_last();
        assert forall|i: int| 0 <= i < values.len() implies values[i] <= seq_max(values) by {
            if i < values.len() - 1 {
                assert(values[i] == rest[i]);
            }
        }
        if values.last() <= seq_max(rest) && rest.len() > 0 {
            let j = choose|j: int| 0 <= j < rest.len() && rest[j] == seq_max(rest);
            assert(values[j] == rest[j]);
        }
    }
}

/// The bar character for one sparkline level.
fn bar(level: u64) -> (c: char)
    ensures
        c == bar_char(level as nat),
{
    match level {
        0 => '▁',
        1 => '▂',
        2 => '▃',
        3 => '▄',
        4 => '▅',
        5 => '▆',
        6 => '▇',
        _ => '█',
    }
}

/// Render a slice of counts as a compact Unicode bar sparkline.
pub fn sparkline(values: &[u64]) -> (r: String)
    ensures
        r@ == sparkline_text(values@),
        r@.len() == values@.len(),
{
    let mut max: u64 = 0;
    let mut i: usize = 0;
    while i < values.len()
        invariant
            i <= values@.len(),
            max == seq_max(values@.take(i as int)),
        decreases values@.len() - i,
    {
        assert(values@.take(i + 1).drop_last() =~= values@.take(i as int));
        if values[i] > max {
            max = values[i];
        }
        i = i + 1;
    }
    assert(values@.take(values@.len() as int) =~= values@);
    let mut out = String::new();
    let mut j: usize = 0;
    while j < values.len()
        invariant
            j <= values@.len(),
            max == seq_max(values@),
            out@ == sparkline_text(values@).take(j as int),
        decreases values@.len() - j,
    {
        let c = if max == 0 {
            '▁'
        } else {
            let level = saturating_times(values[j], 7) / max;
            bar(if level > 7 {
                7
            } else {
                level
            })
        };
        push_char(&mut out, c);
        assert(sparkline_text(values@).take(j + 1) =~= sparkline_text(values@).take(
            j as int,
        ).push(sparkline_text(values@)[j as int]));
        j = j + 1;
    }
    assert(sparkline_text(values@).take(values@.len() as int) =~= sparkline_text(values@));
    out
}

/// In a sparkline, a zero count is the lowest bar; when the largest count is
/// nonzero (and seven times it still fits in a `u64`), it is the tallest bar.
pub proof fn lemma_sparkline_extremes(values: Seq<u64>, i: int)
    requires
        0 <= i < values.len(),
        seq_max(values) * 7 <= u64::MAX,
    ensures
        values[i] == 0 ==> sparkline_text(values)[i] == '▁',
        values[i] as nat == seq_max(values) && seq_max(values) > 0 ==> sparkline_text(values)[i]
            == '█',
{
    lemma_seq_max_bounds(values);
    let max = seq_max(values);
    if max > 0 && values[i] as nat == max {
        assert(saturating_product(values[i] as nat, 7) == max * 7);
        assert((max * 7) / max == 7) by (nonlinear_arith)
            requires
                max > 0,
        ;
    }
}


/// The byte range `from..to` of `s` (`str` range indexing).
#[verifier::external_body]
fn str_byte_range(s: &str, from: usize, to: usize) -> (r: &str)
    requires
        from <= to <= s.spec_bytes().len(),
        vstd::utf8::is_char_boundary(s.spec_bytes(), from as int),
        vstd::utf8::is_char_boundary(s.spec_bytes(), to as int),
    ensures
        r.spec_bytes() == s.spec_bytes().subrange(from as int, to as int),
{
    &s[from..to]
}

/// The text of `ts` between bytes `from` and `to`, when both fall on
/// character boundaries of it (which puts them within it).
pub open spec fn byte_range_text(ts: Seq<char>, from: int, to: int) -> Option<Seq<char>> {
    let b = vstd::utf8::encode_utf8(ts);
    if vstd::utf8::is_char_boundary(b, from) && vstd::utf8::is_char_boundary(b, to) {
        Some(vstd::utf8::decode_utf8(b.subrange(from, to)))
    } else {
        None
    }
}

/// The text of `ts` between bytes `from` and `to`, when both fall on
/// character boundaries of it.
pub fn byte_range(ts: &str, from: usize, to: usize) -> (r: Option<String>)
    requires
        from <= to,
    ensures
        match r {
            Some(s) => byte_range_text(ts@, from as int, to as int) == Some(s@),
            None => byte_range_text(ts@, from as int, to as int) is None,
        },
{
    proof {
        vstd::utf8::encode_utf8_valid_utf8(ts@);
    }
    if ts.is_char_boundary(from) && ts.is_char_boundary(to) {
        assert(to <= ts.spec_bytes().len());
        let part = str_byte_range(ts, from, to);
        let r = part.to_owned();
        proof {
            vstd::utf8::encode_utf8_decode_utf8(part@);
            assert(part.spec_bytes() == vstd::utf8::encode_utf8(part@));
            assert(ts.spec_bytes() == vstd::utf8::encode_utf8(ts@));
            assert(vstd::utf8::decode_utf8(ts.spec_bytes().subrange(from as int, to as int)) == part@);
        }
        assert(r@ == part@);
        assert(byte_range_text(ts@, from as int, to as int) == Some(part@));
        Some(r)
    } else {
        assert(ts.spec_bytes() == vstd::utf8::encode_utf8(ts@));
        assert(byte_range_text(ts@, from as int, to as int) is None);
        None
    }
}

/// The `HH:MM:SS` of a timestamp's text: its bytes 11 to 19 when both fall
/// on character boundaries, the whole text otherwise.
pub open spec fn clock_text(ts: Seq<char>) -> Seq<char> {
    match byte_range_text(ts, 11, 19) {
        Some(c) => c,
        None => ts,
    }
}

/// Extract the `HH:MM:SS` time portion (bytes 11 to 19) from an RFC3339
/// timestamp string, or the whole string when it is shorter or those bytes do
/// not fall on character boundaries.
pub fn short_ts_str(ts: &str) -> (r: String)
    ensures
        r@ == clock_text(ts@),
{
    match byte_range(ts, 11, 19) {
        Some(c) => c,
        None => ts.to_owned(),
    }
}

/// `on` or `off` for a boolean flag.
pub open spec fn flag_text(value: bool) -> Seq<char> {
    if value {
        "on"@
    } else {
        "off"@
    }
}

/// Render `on`/`off` for a boolean flag.
pub fn bool_label(value: bool) -> (r: &'static str)
    ensures
        r@ == flag_text(value),
{
    if value {
        "on"
    } else {
        "off"
    }
}

/// The binary unit names, smallest first.
pub open spec fn unit_name(unit: nat) -> Seq<char> {
    if unit == 0 {
        "B"@
    } else if unit == 1 {
        "KiB"@
    } else if unit == 2 {
        "MiB"@
    } else if unit == 3 {
        "GiB"@
    } else if unit == 4 {
        "TiB"@
    } else {
        "PiB"@
    }
}

/// Divide `whole` by 1024 while it is at least 1024 and a larger unit
/// remains, keeping the tenths of the last division: `(whole, tenths, unit)`.
pub open spec fn scaled_bytes(whole: nat, tenths: nat, unit: nat) -> (nat, nat, nat)
    decreases 5 - unit,
{
    if whole >= 1024 && unit < 5 {
        scaled_bytes(whole / 1024, (whole % 1024) * 10 / 1024, unit + 1)
    } else {
        (whole, tenths, unit)
    }
}

/// A byte count in binary units: whole bytes as `N B`, larger sizes with one
/// truncated decimal, e.g. `1.5 KiB`.
pub open spec fn bytes_text(bytes: nat) -> Seq<char> {
    let (whole, tenths, unit) = scaled_bytes(bytes, 0, 0);
    if unit == 0 {
        decimal(whole) + " "@ + unit_name(unit)
    } else {
        decimal(whole) + "."@ + decimal(tenths) + " "@ + unit_name(unit)
    }
}

/// The name of a binary unit.
fn unit_label(unit: u64) -> (r: &'static str)
    requires
        unit <= 5,
    ensures
        r@ == unit_name(unit as nat),
{
    match unit {
        0 => "B",
        1 => "KiB",
        2 => "MiB",
        3 => "GiB",
        4 => "TiB",
        _ => "PiB",
    }
}

/// Human-readable byte size with one decimal (e.g. `1.5 GiB`).
pub fn format_bytes(bytes: u64) -> (r: String)
    ensures
        r@ == bytes_text(bytes as nat),
{
    let mut whole = bytes;
    let mut frac_tenths: u64 = 0;
    let mut unit: u64 = 0;
    while whole >= 1024 && unit < 5
        invariant
            unit <= 5,
            frac_tenths < 10,
            scaled_bytes(whole as nat, frac_tenths as nat, unit as nat) == scaled_bytes(
                bytes as nat,
                0,
                0,
            ),
        decreases 5 - unit,
    {
        frac_tenths = (whole % 1024) * 10 / 1024;
        whole = whole / 1024;
        unit = unit + 1;
    }
    let mut out = String::new();
    push_decimal(&mut out, whole);
    if unit == 0 {
        push_str(&mut out, " ");
    } else {
        push_str(&mut out, ".");
        push_decimal(&mut out, frac_tenths);
        push_str(&mut out, " ");
    }
    push_str(&mut out, unit_label(unit));
    out
}

/// A relative-age phrase for an age in whole seconds: `just now`, `Ns ago`
/// under a minute, `Mm Ss ago` from a minute on.
pub open spec fn age_text(secs: nat) -> Seq<char> {
    if secs == 0 {
        "just now"@
    } else if secs < 60 {
        decimal(secs) + "s ago"@
    } else {
        decimal(secs / 60) + "m "@ + decimal(secs % 60) + "s ago"@
    }
}

/// A relative-age phrase for an age of `secs` whole seconds.
pub fn ago_secs(secs: u64) -> (r: String)
    ensures
        r@ == age_text(secs as nat),
{
    let mut out = String::new();
    if secs == 0 {
        push_str(&mut out, "just now");
    } else if secs < 60 {
        push_decimal(&mut out, secs);
        push_str(&mut out, "s ago");
    } else {
        push_decimal(&mut out, secs / 60);
        push_str(&mut out, "m ");
        push_decimal(&mut out, secs % 60);
        push_str(&mut out, "s ago");
    }
    out
}

/// A relative-age phrase for a monotonic instant (e.g. `3s ago`).
pub fn ago(at: std::time::Instant) -> (r: String)
    ensures
        exists|secs: nat| r@ == age_text(secs),
{
    let secs = duration_secs(elapsed(at));
    ago_secs(secs)
}

/// A countdown in whole seconds as `Ns` under a minute and `Mm SSs` from a
/// minute on (seconds padded to two digits).
pub open spec fn countdown_text(seconds: nat) -> Seq<char> {
    if seconds < 60 {
        decimal(seconds) + "s"@
    } else {
        decimal(seconds / 60) + "m "@ + zero_padded(decimal(seconds % 60), 2) + "s"@
    }
}

/// Append the countdown text of `seconds`.
fn push_countdown(out: &mut String, seconds: u64)
    ensures
        final(out)@ == old(out)@ + countdown_text(seconds as nat),
{
    if seconds < 60 {
        push_decimal(out, seconds);
        push_str(out, "s");
    } else {
        push_decimal(out, seconds / 60);
        push_str(out, "m ");
        push_decimal_padded(out, seconds % 60, 2);
        push_str(out, "s");
    }
}

/// The provider-reported device-code lifetime, negative values counting as
/// zero.
pub open spec fn lifetime_text(seconds: int) -> Seq<char> {
    countdown_text(if seconds < 0 { 0 } else { seconds as nat })
}

/// Format the provider-reported device-code lifetime for setup output.
pub fn format_device_code_lifetime(seconds: i64) -> (r: String)
    ensures
        r@ == lifetime_text(seconds as int),
{
    let secs: u64 = if seconds < 0 {
        0
    } else {
        seconds as u64
    };
    let mut out = String::new();
    push_countdown(&mut out, secs);
    out
}

/// A login-code expiry `seconds` from now: `expired` once it has passed,
/// otherwise the countdown.
pub open spec fn expiry_text(seconds: int) -> Seq<char> {
    if seconds <= 0 {
        "expired"@
    } else {
        countdown_text(seconds as nat)
    }
}

/// Format the whole seconds left on a device code.
pub fn format_expiry_seconds(seconds: i64) -> (r: String)
    ensures
        r@ == expiry_text(seconds as int),
{
    let mut out = String::new();
    if seconds <= 0 {
        push_str(&mut out, "expired");
    } else {
        push_countdown(&mut out, seconds as u64);
    }
    out
}

/// Whether `value` starts with `http://` or `https://`.
pub open spec fn is_http_url_text(value: Seq<char>) -> bool {
    "http://"@.is_prefix_of(value) || "https://"@.is_prefix_of(value)
}

/// Whether the characters `prefix` open `cs`.
fn has_prefix(cs: &Vec<char>, prefix: &str) -> (r: bool)
    ensures
        r == prefix@.is_prefix_of(cs@),
{
    let p = chars_of(prefix);
    if p.len() > cs.len() {
        return false;
    }
    let mut i: usize = 0;
    while i < p.len()
        invariant
            p@ == prefix@,
            p@.len() <= cs@.len(),
            i <= p@.len(),
            forall|j: int| 0 <= j < i ==> p@[j] == cs@[j],
        decreases p@.len() - i,
    {
        if p[i] != cs[i] {
            return false;
        }
        i = i + 1;
    }
    true
}

/// Minimal URL guard for editable config fields.
pub fn is_http_url(value: &str) -> (r: bool)
    ensures
        r == is_http_url_text(value@),
{
    let cs = chars_of(value);
    has_prefix(&cs, "http://") || has_prefix(&cs, "https://")
}

/// `time::OffsetDateTime`, a calendar instant with a UTC offset; carried as
/// is.
#[verifier::external_type_specification]
#[verifier::external_body]
pub struct ExOffsetDateTime(time::OffsetDateTime);

/// `time::SignedDuration`, the difference of two `OffsetDateTime`s.
#[verifier::external_type_specification]
#[verifier::external_body]
pub struct ExSignedDuration(time::SignedDuration);

/// What `later - earlier` gives (`<OffsetDateTime as Sub>::sub`): the signed
/// duration between the two instants.
pub uninterp spec fn time_difference(
    later: time::OffsetDateTime,
    earlier: time::OffsetDateTime,
) -> time::SignedDuration;

/// What `SignedDuration::whole_seconds` gives: the duration's whole seconds,
/// truncated toward zero.
pub uninterp spec fn duration_whole_seconds(d: time::SignedDuration) -> i64;

/// What formatting an instant as RFC 3339 gives
/// (`OffsetDateTime::format(&Rfc3339)`): the text, or `None` where the
/// instant has no RFC 3339 form (a year beyond 9999, an offset with seconds).
pub uninterp spec fn rfc3339_of(at: time::OffsetDateTime) -> Option<Seq<char>>;

/// `later - earlier` (`<OffsetDateTime as Sub>::sub`); the result is named by
/// [`time_difference`]. The subtraction cannot overflow for the instants
/// `time` represents.
#[verifier::external_body]
fn time_between(later: time::OffsetDateTime, earlier: time::OffsetDateTime) -> (r:
    time::SignedDuration)
    ensures
        r == time_difference(later, earlier),
{
    later - earlier
}

/// The whole seconds of `d`, truncated toward zero
/// (`SignedDuration::whole_seconds`); the result is named by
/// [`duration_whole_seconds`].
#[verifier::external_body]
fn whole_seconds(d: time::SignedDuration) -> (r: i64)
    ensures
        r == duration_whole_seconds(d),
{
    d.whole_seconds()
}

/// `at` formatted as RFC 3339 (`OffsetDateTime::format` with
/// `well_known::Rfc3339`), or `None` when the crate reports an error; the
/// result is named by [`rfc3339_of`].
#[verifier::external_body]
fn format_rfc3339(at: time::OffsetDateTime) -> (r: Option<String>)
    ensures
        match r {
            Some(s) => rfc3339_of(at) == Some(s@),
            None => rfc3339_of(at) is None,
        },
{
    at.format(&time::format_description::well_known::Rfc3339).ok()
}

/// Format a device-code expiry relative to `now`.
pub fn format_login_expiry(expires_at: time::OffsetDateTime, now: time::OffsetDateTime) -> (r: String)
    ensures
        r@ == expiry_text(duration_whole_seconds(time_difference(expires_at, now)) as int),
{
    let seconds = whole_seconds(time_between(expires_at, now));
    format_expiry_seconds(seconds)
}

/// A timestamp as RFC 3339 text, or `unknown` where it has none.
pub open spec fn timestamp_text(at: time::OffsetDateTime) -> Seq<char> {
    match rfc3339_of(at) {
        Some(t) => t,
        None => "unknown"@,
    }
}

/// Format a timestamp for display, falling back to `unknown`.
pub fn format_ts(at: time::OffsetDateTime) -> (r: String)
    ensures
        r@ == timestamp_text(at),
{
    match format_rfc3339(at) {
        Some(text) => text,
        None => "unknown".to_owned(),
    }
}

/// An access-token expiry for display: its timestamp, or `unknown` when it is
/// not known or has no RFC 3339 form.
pub open spec fn expiry_stamp_text(expires_at: Option<time::OffsetDateTime>) -> Seq<char> {
    match expires_at {
        Some(at) => timestamp_text(at),
        None => "unknown"@,
    }
}

/// Format an access-token expiry for display, falling back to `unknown`.
pub fn format_expiry(expires_at: Option<time::OffsetDateTime>) -> (r: String)
    ensures
        r@ == expiry_stamp_text(expires_at),
{
    match expires_at {
        Some(at) => format_ts(at),
        None => "unknown".to_owned(),
    }
}

} // verus!

//! The Live System screen: each booth's system readout, with the figures
//! measured in floating point (CPU load and usage, temperature) already
//! formatted, and the rest (memory, disks, network counters, uptime, audio
//! devices, Tailscale and throttling) laid out from integers and text.

use vstd::prelude::*;
use crate::bodies::{hint, kv, mode_label, mode_name, owned, push_line, styled, text_line, two_spans, RuntimeMode};
use crate::chrome::{blank, line_model, lines_model, one, Emphasis, Line, Span, Tone};
use crate::details::push_kv;
use crate::remote::Remote;
use crate::screens::{title_text, Screen};
use crate::format::{
    age_text, ago, bytes_text, format_bytes, format_ts, percent, percent_text, saturating_product,
    saturating_times, timestamp_text, truncate, truncated,
};
use crate::stats::{pad_right, padded_right};
use crate::text::{decimal, decimal_string, push_char, push_decimal, push_str};

verus! {

/// Uptime in whole seconds as `Dd Hh Mm`, leaving out leading zero units
/// (minutes are always shown).
pub open spec fn uptime_text(total: nat) -> Seq<char> {
    let days = total / 86_400;
    let hours = (total % 86_400) / 3_600;
    let minutes = (total % 3_600) / 60;
    if days > 0 {
        decimal(days) + "d "@ + decimal(hours) + "h "@ + decimal(minutes) + "m"@
    } else if hours > 0 {
        decimal(hours) + "h "@ + decimal(minutes) + "m"@
    } else {
        decimal(minutes) + "m"@
    }
}

/// Format an uptime given in whole seconds.
pub fn format_uptime(total: u64) -> (r: String)
    ensures
        r@ == uptime_text(total as nat),
{
    let days = total / 86_400;
    let hours = (total % 86_400) / 3_600;
    let minutes = (total % 3_600) / 60;
    let mut out = String::new();
    if days > 0 {
        push_decimal(&mut out, days);
        push_str(&mut out, "d ");
        push_decimal(&mut out, hours);
        push_str(&mut out, "h ");
    } else if hours > 0 {
        push_decimal(&mut out, hours);
        push_str(&mut out, "h ");
    }
    push_decimal(&mut out, minutes);
    push_str(&mut out, "m");
    out
}

/// One network interface's counters.
pub struct NetView {
    /// The interface's name.
    pub interface: String,
    /// Bytes received since boot.
    pub receive_bytes_total: u64,
    /// Bytes sent since boot.
    pub transmit_bytes_total: u64,
}

/// The throttling flags a Raspberry Pi reports.
pub struct ThrottleView {
    /// Under-voltage detected.
    pub undervoltage: Option<bool>,
    /// Currently throttled.
    pub throttled: Option<bool>,
    /// ARM frequency capped.
    pub arm_freq_capped: Option<bool>,
    /// Soft temperature limit active.
    pub soft_temp_limit: Option<bool>,
}

/// The host part of a booth's readout.
pub struct HostView {
    /// The uptime, already formatted, if reported.
    pub uptime: Option<String>,
    /// The audio input and output devices, if reported.
    pub audio: Option<(Option<String>, Option<String>)>,
    /// Whether Tailscale is connected and its host name, if reported.
    pub tailscale: Option<(Option<bool>, Option<String>)>,
    /// The throttling flags, if reported.
    pub throttling: Option<ThrottleView>,
}

/// A network row: the interface (cut to seven characters and padded), then
/// the bytes received and sent.
pub open spec fn net_row(n: NetView) -> Seq<(Seq<char>, Tone, Emphasis)> {
    seq![
        ("Net "@ + pad_right(truncated(n.interface@, 7), 7) + " "@, Tone::Dim, Emphasis::Normal),
        (
            "↓ "@ + bytes_text(n.receive_bytes_total as nat) + "  ↑ "@ + bytes_text(
                n.transmit_bytes_total as nat,
            ),
            Tone::Plain,
            Emphasis::Normal,
        ),
    ]
}

/// A network row for each interface, when any were reported.
pub open spec fn network_model(nets: Option<Vec<NetView>>) -> Seq<Seq<(Seq<char>, Tone, Emphasis)>> {
    match nets {
        Some(v) => v@.map_values(|n: NetView| net_row(n)),
        None => Seq::empty(),
    }
}

/// The text of a device, or `—` when none is reported.
pub open spec fn device_text(d: Option<String>) -> Seq<char> {
    match d {
        Some(t) => t@,
        None => "—"@,
    }
}

/// The Tailscale value: `connected`, `offline` or `unknown`, with the host
/// name in brackets when reported.
pub open spec fn tailscale_text(connected: Option<bool>, host: Option<String>) -> Seq<char> {
    let state = match connected {
        Some(true) => "connected"@,
        Some(false) => "offline"@,
        None => "unknown"@,
    };
    match host {
        Some(h) => state + " ("@ + h@ + ")"@,
        None => state,
    }
}

/// `name` when `flag` is set.
pub open spec fn flag_if(flag: Option<bool>, name: Seq<char>) -> Seq<Seq<char>> {
    if flag == Some(true) {
        seq![name]
    } else {
        Seq::empty()
    }
}

/// The throttling flags that are set, in a fixed order.
pub open spec fn throttle_flags(t: ThrottleView) -> Seq<Seq<char>> {
    flag_if(t.undervoltage, "under-voltage"@) + flag_if(t.throttled, "throttled"@) + flag_if(
        t.arm_freq_capped,
        "freq-capped"@,
    ) + flag_if(t.soft_temp_limit, "soft-temp-limit"@)
}

/// Entries joined with `", "`.
pub open spec fn joined_with_commas(entries: Seq<Seq<char>>) -> Seq<char>
    decreases entries.len(),
{
    if entries.len() == 0 {
        Seq::empty()
    } else if entries.len() == 1 {
        entries[0]
    } else {
        joined_with_commas(entries.drop_last()) + ", "@ + entries.last()
    }
}

/// The host rows: uptime; audio in and out; Tailscale; and the throttling
/// flags that are set, as a warning.
pub open spec fn host_model(h: HostView) -> Seq<Seq<(Seq<char>, Tone, Emphasis)>> {
    let uptime = match h.uptime {
        Some(u) => seq![kv("Uptime:    "@, u@)],
        None => Seq::empty(),
    };
    let audio = match h.audio {
        Some((input, output)) => seq![
            kv("Audio in:  "@, device_text(input)),
            kv("Audio out: "@, device_text(output)),
        ],
        None => Seq::empty(),
    };
    let tailscale = match h.tailscale {
        Some((connected, host)) => seq![kv("Tailscale: "@, tailscale_text(connected, host))],
        None => Seq::empty(),
    };
    let throttling = match h.throttling {
        Some(t) => if throttle_flags(t).len() > 0 {
            seq![
                seq![
                    ("Throttling:"@, Tone::Dim, Emphasis::Normal),
                    (" "@ + joined_with_commas(throttle_flags(t)), Tone::Warn, Emphasis::Normal),
                ],
            ]
        } else {
            Seq::empty()
        },
        None => Seq::empty(),
    };
    uptime + audio + tailscale + throttling
}

/// Append a row per network interface.
pub fn push_network_lines(lines: &mut Vec<Line>, nets: &Option<Vec<NetView>>)
    ensures
        lines_model(final(lines)@) == lines_model(old(lines)@) + network_model(*nets),
{
    let ghost start = lines_model(lines@);
    match nets {
        None => {},
        Some(v) => {
            let mut i: usize = 0;
            while i < v.len()
                invariant
                    i <= v@.len(),
                    lines_model(lines@) == start + v@.take(i as int).map_values(|n: NetView| net_row(n)),
                decreases v@.len() - i,
            {
                let mut name = String::new();
                push_str(&mut name, "Net ");
                push_str(&mut name, padded_right(truncate(v[i].interface.as_str(), 7).as_str(), 7).as_str());
                push_str(&mut name, " ");
                let mut counts = String::new();
                push_str(&mut counts, "↓ ");
                push_str(&mut counts, format_bytes(v[i].receive_bytes_total).as_str());
                push_str(&mut counts, "  ↑ ");
                push_str(&mut counts, format_bytes(v[i].transmit_bytes_total).as_str());
                push_line(
                    lines,
                    two_spans(name.as_str(), Tone::Dim, Emphasis::Normal, counts.as_str(), Tone::Plain, Emphasis::Normal),
                );
                assert(v@.take(i + 1) =~= v@.take(i as int).push(v@[i as int]));
                assert(v@.take(i + 1).map_values(|n: NetView| net_row(n)) =~= v@.take(
                    i as int,
                ).map_values(|n: NetView| net_row(n)).push(net_row(v@[i as int])));
                i = i + 1;
            }
            assert(v@.take(v@.len() as int) =~= v@);
        },
    }
    assert(lines_model(lines@) =~= start + network_model(*nets));
}

fn add_flag(out: &mut String, count: &mut usize, flag: Option<bool>, name: &str, Ghost(done): Ghost<
    Seq<Seq<char>>,
>)
    requires
        old(out)@ == joined_with_commas(done),
        *old(count) == done.len(),
        *old(count) < 4,
    ensures
        final(out)@ == joined_with_commas(done + flag_if(flag, name@)),
        *final(count) == (done + flag_if(flag, name@)).len(),
{
    if flag == Some(true) {
        if *count > 0 {
            push_str(out, ", ");
        }
        push_str(out, name);
        let ghost all = done.push(name@);
        assert(done + flag_if(flag, name@) =~= all);
        assert(all.drop_last() =~= done);
        *count = *count + 1;
    } else {
        assert(done + flag_if(flag, name@) =~= done);
    }
}

/// Append the uptime, audio, Tailscale and throttling rows.
pub fn push_host_lines(lines: &mut Vec<Line>, host: &HostView)
    ensures
        lines_model(final(lines)@) == lines_model(old(lines)@) + host_model(*host),
{
    let ghost start = lines_model(lines@);
    match &host.uptime {
        Some(u) => push_kv(lines, "Uptime:    ", u.as_str()),
        None => {},
    }
    let ghost a = lines_model(lines@);
    match &host.audio {
        Some((input, output)) => {
            let i = match input {
                Some(t) => t.as_str(),
                None => "—",
            };
            let o = match output {
                Some(t) => t.as_str(),
                None => "—",
            };
            push_kv(lines, "Audio in:  ", i);
            push_kv(lines, "Audio out: ", o);
        },
        None => {},
    }
    let ghost b = lines_model(lines@);
    match &host.tailscale {
        Some((connected, name)) => {
            let state = match connected {
                Some(true) => "connected",
                Some(false) => "offline",
                None => "unknown",
            };
            let mut value = String::new();
            push_str(&mut value, state);
            match name {
                Some(h) => {
                    push_str(&mut value, " (");
                    push_str(&mut value, h.as_str());
                    push_str(&mut value, ")");
                },
                None => {},
            }
            push_kv(lines, "Tailscale: ", value.as_str());
        },
        None => {},
    }
    let ghost c = lines_model(lines@);
    match &host.throttling {
        Some(t) => {
            let mut flags = String::new();
            let mut count: usize = 0;
            let ghost e0: Seq<Seq<char>> = Seq::empty();
            add_flag(&mut flags, &mut count, t.undervoltage, "under-voltage", Ghost(e0));
            let ghost e1 = e0 + flag_if(t.undervoltage, "under-voltage"@);
            add_flag(&mut flags, &mut count, t.throttled, "throttled", Ghost(e1));
            let ghost e2 = e1 + flag_if(t.throttled, "throttled"@);
            add_flag(&mut flags, &mut count, t.arm_freq_capped, "freq-capped", Ghost(e2));
            let ghost e3 = e2 + flag_if(t.arm_freq_capped, "freq-capped"@);
            add_flag(&mut flags, &mut count, t.soft_temp_limit, "soft-temp-limit", Ghost(e3));
            assert(e3 + flag_if(t.soft_temp_limit, "soft-temp-limit"@) =~= throttle_flags(*t));
            if count > 0 {
                let mut shown = String::new();
                push_str(&mut shown, " ");
                push_str(&mut shown, flags.as_str());
                push_line(
                    lines,
                    two_spans("Throttling:", Tone::Dim, Emphasis::Normal, shown.as_str(), Tone::Warn, Emphasis::Normal),
                );
            }
        },
        None => {},
    }
    assert(lines_model(lines@) =~= start + host_model(*host));
}


/// `part` of `whole` in thousandths, at most a thousand; `0` for an empty
/// whole.
pub open spec fn permille(part: u64, whole: u64) -> nat {
    if whole == 0 {
        0
    } else {
        let scaled = saturating_product(part as nat, 1000) / (whole as nat);
        if scaled > 1000 {
            1000
        } else {
            scaled
        }
    }
}

/// A ten-cell gauge: cell `i` is filled when the share exceeds `i` tenths.
pub open spec fn gauge(pm: nat) -> Seq<char> {
    Seq::new(10, |i: int| if pm > 100 * i { '█' } else { '░' })
}

/// `part` of `whole` in thousandths, at most a thousand.
pub fn permille_of(part: u64, whole: u64) -> (r: u64)
    ensures
        r == permille(part, whole),
{
    if whole == 0 {
        0
    } else {
        let scaled = saturating_times(part, 1000) / whole;
        if scaled > 1000 {
            1000
        } else {
            scaled
        }
    }
}

/// The ten-cell gauge of a share in thousandths.
pub fn gauge_bar(pm: u64) -> (r: String)
    ensures
        r@ == gauge(pm as nat),
{
    let mut out = String::new();
    let mut i: u64 = 0;
    while i < 10
        invariant
            i <= 10,
            out@ == gauge(pm as nat).take(i as int),
        decreases 10 - i,
    {
        let c = if pm > 100 * i {
            '█'
        } else {
            '░'
        };
        push_char(&mut out, c);
        assert(gauge(pm as nat).take(i + 1) =~= gauge(pm as nat).take(i as int).push(c));
        i = i + 1;
    }
    assert(gauge(pm as nat).take(10) =~= gauge(pm as nat));
    out
}

/// A booth's CPU figures, formatted where they are fractional.
pub struct CpuView {
    /// The usage gauge and percentage, if reported.
    pub usage: Option<(String, String)>,
    /// The 1, 5 and 15 minute load averages, each if reported.
    pub load: (Option<String>, Option<String>, Option<String>),
    /// The number of physical cores, if reported.
    pub cores: Option<u64>,
    /// One block glyph per core, following its usage, if reported.
    pub per_core: Option<Vec<char>>,
}

/// A booth's memory figures.
pub struct MemoryView {
    /// Memory in use, in bytes.
    pub used: Option<u64>,
    /// Memory in all, in bytes.
    pub total: Option<u64>,
    /// Swap in use, in bytes.
    pub swap_used: Option<u64>,
    /// Swap in all, in bytes.
    pub swap_total: Option<u64>,
}

/// One mounted disk.
pub struct DiskView {
    /// Where it is mounted.
    pub mount: String,
    /// Its size, in bytes.
    pub total: u64,
    /// What is free, in bytes.
    pub available: u64,
}

/// One booth's system readout.
pub struct SystemView {
    /// The booth's id.
    pub booth_id: String,
    /// The booth software version, if known.
    pub version: Option<String>,
    /// When the operator service received the readout.
    pub received_at: time::OffsetDateTime,
    /// The temperature, formatted, if reported.
    pub temperature: Option<String>,
    /// Which hardware the booth runs on, if reported.
    pub mode: Option<RuntimeMode>,
    /// The CPU figures, if reported.
    pub cpu: Option<CpuView>,
    /// The memory figures, if reported.
    pub memory: Option<MemoryView>,
    /// The disks, if reported.
    pub disks: Option<Vec<DiskView>>,
    /// The network interfaces, if reported.
    pub networks: Option<Vec<NetView>>,
    /// The host rows.
    pub host: HostView,
}

/// A load average's text, or `—`.
pub open spec fn load_text(o: Option<String>) -> Seq<char> {
    match o {
        Some(t) => t@,
        None => "—"@,
    }
}

/// The load averages' row text.
pub open spec fn loads_text(l1: Option<String>, l5: Option<String>, l15: Option<String>) -> Seq<char> {
    load_text(l1) + " / "@ + load_text(l5) + " / "@ + load_text(l15) + "  (1m/5m/15m)"@
}

/// The CPU rows: usage, load averages (when any is reported), cores, and
/// the per-core glyphs (when there are any).
pub open spec fn cpu_rows(c: CpuView) -> Seq<Seq<(Seq<char>, Tone, Emphasis)>> {
    let usage = match c.usage {
        Some((bar, pct)) => seq![kv("CPU:       "@, bar@ + " "@ + pct@)],
        None => Seq::empty(),
    };
    let load = if c.load.0 is Some || c.load.1 is Some || c.load.2 is Some {
        seq![kv("Load:      "@, loads_text(c.load.0, c.load.1, c.load.2))]
    } else {
        Seq::empty()
    };
    let cores = match c.cores {
        Some(n) => seq![kv("Cores:     "@, decimal(n as nat))],
        None => Seq::empty(),
    };
    let per_core = match c.per_core {
        Some(v) => if v@.len() > 0 {
            seq![kv("Per-core:  "@, v@)]
        } else {
            Seq::empty()
        },
        None => Seq::empty(),
    };
    usage + load + cores + per_core
}

/// The temperature, mode and CPU rows.
pub open spec fn cpu_model(s: SystemView) -> Seq<Seq<(Seq<char>, Tone, Emphasis)>> {
    let temp = match s.temperature {
        Some(t) => seq![kv("Temp:      "@, t@)],
        None => Seq::empty(),
    };
    let mode = match s.mode {
        Some(m) => seq![kv("Mode:      "@, mode_name(m))],
        None => Seq::empty(),
    };
    let cpu = match s.cpu {
        None => Seq::empty(),
        Some(c) => cpu_rows(c),
    };
    temp + mode + cpu
}

/// The memory and swap rows, each when both figures are reported and the
/// total is not zero.
pub open spec fn memory_model(m: Option<MemoryView>) -> Seq<Seq<(Seq<char>, Tone, Emphasis)>> {
    match m {
        None => Seq::empty(),
        Some(m) => {
            let mem = match (m.used, m.total) {
                (Some(used), Some(total)) => if total > 0 {
                    seq![
                        kv(
                            "Memory:    "@,
                            gauge(permille(used, total)) + " "@ + bytes_text(used as nat) + " / "@
                                + bytes_text(total as nat) + " ("@ + percent_text(used, total) + ")"@,
                        ),
                    ]
                } else {
                    Seq::empty()
                },
                _ => Seq::empty(),
            };
            let swap = match (m.swap_used, m.swap_total) {
                (Some(used), Some(total)) => if total > 0 {
                    seq![
                        kv(
                            "Swap:      "@,
                            bytes_text(used as nat) + " / "@ + bytes_text(total as nat) + " ("@
                                + percent_text(used, total) + ")"@,
                        ),
                    ]
                } else {
                    Seq::empty()
                },
                _ => Seq::empty(),
            };
            mem + swap
        },
    }
}

/// What of a disk is in use: its size less what is free, at least zero.
pub open spec fn disk_used(d: DiskView) -> u64 {
    if d.available > d.total {
        0
    } else {
        (d.total - d.available) as u64
    }
}

/// A disk row: the mount point (cut to six characters and padded), then the
/// gauge, what is used of the size, and what is free.
pub open spec fn disk_row(d: DiskView) -> Seq<(Seq<char>, Tone, Emphasis)> {
    seq![
        ("Disk "@ + pad_right(truncated(d.mount@, 6), 6) + " "@, Tone::Dim, Emphasis::Normal),
        (
            gauge(permille(disk_used(d), d.total)) + " "@ + bytes_text(disk_used(d) as nat) + " / "@
                + bytes_text(d.total as nat) + " ("@ + bytes_text(d.available as nat) + " free)"@,
            Tone::Plain,
            Emphasis::Normal,
        ),
    ]
}

/// A disk row for each disk, when any were reported.
pub open spec fn disks_model(disks: Option<Vec<DiskView>>) -> Seq<Seq<(Seq<char>, Tone, Emphasis)>> {
    match disks {
        Some(v) => v@.map_values(|d: DiskView| disk_row(d)),
        None => Seq::empty(),
    }
}

/// One booth's section: its id (and version) as a heading, when the
/// readout arrived, then the CPU, memory, disk, network and host rows.
pub open spec fn envelope_model(s: SystemView) -> Seq<Seq<(Seq<char>, Tone, Emphasis)>> {
    envelope_head(s) + cpu_model(s) + memory_model(s.memory) + disks_model(s.disks) + network_model(
        s.networks,
    ) + host_model(s.host)
}

/// A booth section's heading and its `Updated` note.
pub open spec fn envelope_head(s: SystemView) -> Seq<Seq<(Seq<char>, Tone, Emphasis)>> {
    let head = seq![("Booth "@ + s.booth_id@, Tone::Accent, Emphasis::Bold)] + match s.version {
        Some(v) => seq![("  v"@ + v@, Tone::Dim, Emphasis::Normal)],
        None => Seq::empty(),
    };
    seq![head, hint("Updated "@ + timestamp_text(s.received_at))]
}

/// Each booth's section followed by a blank line.
pub open spec fn envelopes_model(items: Seq<SystemView>) -> Seq<Seq<(Seq<char>, Tone, Emphasis)>>
    decreases items.len(),
{
    if items.len() == 0 {
        Seq::empty()
    } else {
        envelopes_model(items.drop_last()) + envelope_model(items.last()) + seq![blank()]
    }
}

/// The Live System body for its load state, given how long ago the shown
/// readouts were polled or the failure happened (in whole seconds).
pub open spec fn live_system_model(state: Remote<Vec<SystemView>>, refreshing: bool, secs: nat) -> Seq<
    Seq<(Seq<char>, Tone, Emphasis)>,
> {
    let head = seq![one(title_text(Screen::LiveSystem), Tone::Accent, Emphasis::Bold), blank()];
    match state {
        Remote::Ready { value, .. } => if value@.len() > 0 {
            head + envelopes_model(value@) + seq![
                if refreshing {
                    hint("Refreshing…"@)
                } else {
                    hint("Polled "@ + age_text(secs) + " · auto-refreshes every 5s."@)
                },
            ]
        } else {
            head + seq![hint("No booths have reported a system snapshot yet."@)]
        },
        Remote::Failed { error, .. } => head + seq![
            one("Failed to load system snapshot: "@ + error@, Tone::Error, Emphasis::Normal),
            hint("Last attempt "@ + age_text(secs) + "."@),
            hint("Press r to retry."@),
        ],
        _ => head + seq![hint("Loading system snapshot…"@)],
    }
}

fn load_or_dash(o: &Option<String>) -> (r: &str)
    ensures
        r@ == load_text(*o),
{
    match o {
        Some(t) => t.as_str(),
        None => "—",
    }
}

fn loads_string(l1: &Option<String>, l5: &Option<String>, l15: &Option<String>) -> (r: String)
    ensures
        r@ == loads_text(*l1, *l5, *l15),
{
    let mut value = String::new();
    push_str(&mut value, load_or_dash(l1));
    push_str(&mut value, " / ");
    push_str(&mut value, load_or_dash(l5));
    push_str(&mut value, " / ");
    push_str(&mut value, load_or_dash(l15));
    push_str(&mut value, "  (1m/5m/15m)");
    value
}

fn chars_string(v: &Vec<char>) -> (r: String)
    ensures
        r@ == v@,
{
    let mut out = String::new();
    let mut i: usize = 0;
    while i < v.len()
        invariant
            i <= v@.len(),
            out@ == v@.take(i as int),
        decreases v@.len() - i,
    {
        push_char(&mut out, v[i]);
        assert(v@.take(i + 1) =~= v@.take(i as int).push(v@[i as int]));
        i = i + 1;
    }
    assert(v@.take(v@.len() as int) =~= v@);
    out
}

fn push_cpu_rows(lines: &mut Vec<Line>, c: &CpuView)
    ensures
        lines_model(final(lines)@) == lines_model(old(lines)@) + cpu_rows(*c),
{
    let ghost start = lines_model(lines@);
    match &c.usage {
        Some((bar, pct)) => {
            let mut value = String::new();
            push_str(&mut value, bar.as_str());
            push_str(&mut value, " ");
            push_str(&mut value, pct.as_str());
            push_kv(lines, "CPU:       ", value.as_str());
        },
        None => {},
    }
    let ghost c1 = lines_model(lines@);
    if c.load.0.is_some() || c.load.1.is_some() || c.load.2.is_some() {
        push_kv(lines, "Load:      ", loads_string(&c.load.0, &c.load.1, &c.load.2).as_str());
    }
    let ghost c2 = lines_model(lines@);
    match c.cores {
        Some(n) => push_kv(lines, "Cores:     ", decimal_string(n).as_str()),
        None => {},
    }
    let ghost c3 = lines_model(lines@);
    match &c.per_core {
        Some(v) => {
            if v.len() > 0 {
                push_kv(lines, "Per-core:  ", chars_string(v).as_str());
            }
        },
        None => {},
    }
    assert(lines_model(lines@) =~= start + cpu_rows(*c));
}

fn push_cpu_lines(lines: &mut Vec<Line>, s: &SystemView)
    ensures
        lines_model(final(lines)@) == lines_model(old(lines)@) + cpu_model(*s),
{
    let ghost start = lines_model(lines@);
    match &s.temperature {
        Some(t) => push_kv(lines, "Temp:      ", t.as_str()),
        None => {},
    }
    let ghost a = lines_model(lines@);
    match s.mode {
        Some(m) => push_kv(lines, "Mode:      ", mode_label(m)),
        None => {},
    }
    let ghost b = lines_model(lines@);
    match &s.cpu {
        None => {},
        Some(c) => push_cpu_rows(lines, c),
    }
    assert(lines_model(lines@) =~= start + cpu_model(*s));
}

fn share_text(used: u64, total: u64, gauge_first: bool) -> (r: String)
    requires
        total > 0,
    ensures
        r@ == (if gauge_first {
            gauge(permille(used, total)) + " "@
        } else {
            Seq::empty()
        }) + bytes_text(used as nat) + " / "@ + bytes_text(total as nat) + " ("@ + percent_text(
            used,
            total,
        ) + ")"@,
{
    let mut out = String::new();
    if gauge_first {
        push_str(&mut out, gauge_bar(permille_of(used, total)).as_str());
        push_str(&mut out, " ");
    }
    push_str(&mut out, format_bytes(used).as_str());
    push_str(&mut out, " / ");
    push_str(&mut out, format_bytes(total).as_str());
    push_str(&mut out, " (");
    push_str(&mut out, percent(used, total).as_str());
    push_str(&mut out, ")");
    out
}

fn push_memory_lines(lines: &mut Vec<Line>, m: &Option<MemoryView>)
    ensures
        lines_model(final(lines)@) == lines_model(old(lines)@) + memory_model(*m),
{
    let ghost start = lines_model(lines@);
    match m {
        None => {},
        Some(m) => {
            match (m.used, m.total) {
                (Some(used), Some(total)) => {
                    if total > 0 {
                        push_kv(lines, "Memory:    ", share_text(used, total, true).as_str());
                    }
                },
                _ => {},
            }
            let ghost a = lines_model(lines@);
            match (m.swap_used, m.swap_total) {
                (Some(used), Some(total)) => {
                    if total > 0 {
                        push_kv(lines, "Swap:      ", share_text(used, total, false).as_str());
                    }
                },
                _ => {},
            }
        },
    }
    assert(lines_model(lines@) =~= start + memory_model(*m));
}

fn push_disk_lines(lines: &mut Vec<Line>, disks: &Option<Vec<DiskView>>)
    ensures
        lines_model(final(lines)@) == lines_model(old(lines)@) + disks_model(*disks),
{
    let ghost start = lines_model(lines@);
    match disks {
        None => {},
        Some(v) => {
            let mut i: usize = 0;
            while i < v.len()
                invariant
                    i <= v@.len(),
                    lines_model(lines@) == start + v@.take(i as int).map_values(|d: DiskView| disk_row(d)),
                decreases v@.len() - i,
            {
                let d = &v[i];
                let used = if d.available > d.total {
                    0
                } else {
                    d.total - d.available
                };
                let mut name = owned("Disk ");
                push_str(&mut name, padded_right(truncate(d.mount.as_str(), 6).as_str(), 6).as_str());
                push_str(&mut name, " ");
                let mut value = gauge_bar(permille_of(used, d.total));
                push_str(&mut value, " ");
                push_str(&mut value, format_bytes(used).as_str());
                push_str(&mut value, " / ");
                push_str(&mut value, format_bytes(d.total).as_str());
                push_str(&mut value, " (");
                push_str(&mut value, format_bytes(d.available).as_str());
                push_str(&mut value, " free)");
                push_line(
                    lines,
                    two_spans(name.as_str(), Tone::Dim, Emphasis::Normal, value.as_str(), Tone::Plain, Emphasis::Normal),
                );
                assert(v@.take(i + 1) =~= v@.take(i as int).push(v@[i as int]));
                assert(v@.take(i + 1).map_values(|d: DiskView| disk_row(d)) =~= v@.take(
                    i as int,
                ).map_values(|d: DiskView| disk_row(d)).push(disk_row(v@[i as int])));
                i = i + 1;
            }
            assert(v@.take(v@.len() as int) =~= v@);
        },
    }
    assert(lines_model(lines@) =~= start + disks_model(*disks));
}

#[verifier::rlimit(40)]
fn push_envelope(lines: &mut Vec<Line>, s: &SystemView)
    ensures
        lines_model(final(lines)@) == lines_model(old(lines)@) + envelope_model(*s),
{
    let ghost start = lines_model(lines@);
    let mut heading = owned("Booth ");
    push_str(&mut heading, s.booth_id.as_str());
    let mut spans: Vec<Span> = Vec::new();
    spans.push(Span { text: heading, tone: Tone::Accent, emphasis: Emphasis::Bold });
    match &s.version {
        Some(v) => {
            let mut t = owned("  v");
            push_str(&mut t, v.as_str());
            spans.push(Span { text: t, tone: Tone::Dim, emphasis: Emphasis::Normal });
        },
        None => {},
    }
    let head = Line { spans };
    assert(line_model(head) =~= envelope_head(*s)[0]);
    push_line(lines, head);
    let mut updated = owned("Updated ");
    push_str(&mut updated, format_ts(s.received_at).as_str());
    push_line(lines, styled(updated, Tone::Dim, Emphasis::Italic));
    assert(lines_model(lines@) =~= start + envelope_head(*s));
    let ghost s1 = lines_model(lines@);
    push_cpu_lines(lines, s);
    let ghost s2 = lines_model(lines@);
    push_memory_lines(lines, &s.memory);
    let ghost s3 = lines_model(lines@);
    push_disk_lines(lines, &s.disks);
    let ghost s4 = lines_model(lines@);
    push_network_lines(lines, &s.networks);
    let ghost s5 = lines_model(lines@);
    push_host_lines(lines, &s.host);
    assert(lines_model(lines@) =~= start + envelope_head(*s) + cpu_model(*s) + memory_model(s.memory)
        + disks_model(s.disks) + network_model(s.networks) + host_model(s.host));
}

/// The Live System body: each booth's readout and when it was polled, or
/// the loading, empty or failed note. How long ago is read from the clock,
/// so the contract holds for some number of seconds.
pub fn live_system_lines(state: &Remote<Vec<SystemView>>, refreshing: bool) -> (r: Vec<Line>)
    ensures
        exists|secs: nat| lines_model(r@) == #[trigger] live_system_model(*state, refreshing, secs),
{
    let mut lines: Vec<Line> = Vec::new();
    let ghost g0 = lines_model(lines@);
    assert(g0 =~= Seq::empty());
    push_line(&mut lines, text_line(Screen::LiveSystem.title(), Tone::Accent, Emphasis::Bold));
    push_line(&mut lines, styled(String::new(), Tone::Plain, Emphasis::Normal));
    let ghost head = lines_model(lines@);
    let ghost mut secs: nat = 0;
    match state {
        Remote::Ready { value, fetched_at } => {
            if value.len() > 0 {
                let mut i: usize = 0;
                while i < value.len()
                    invariant
                        i <= value@.len(),
                        lines_model(lines@) == head + envelopes_model(value@.take(i as int)),
                    decreases value@.len() - i,
                {
                    assert(value@.take(i + 1).drop_last() =~= value@.take(i as int));
                    push_envelope(&mut lines, &value[i]);
                    push_line(&mut lines, styled(String::new(), Tone::Plain, Emphasis::Normal));
                    i = i + 1;
                }
                assert(value@.take(value@.len() as int) =~= value@);
                if refreshing {
                    push_line(&mut lines, text_line("Refreshing…", Tone::Dim, Emphasis::Italic));
                } else {
                    let age = ago(*fetched_at);
                    proof {
                        secs = choose|s: nat| age@ == age_text(s);
                    }
                    let mut note = owned("Polled ");
                    push_str(&mut note, age.as_str());
                    push_str(&mut note, " · auto-refreshes every 5s.");
                    push_line(&mut lines, styled(note, Tone::Dim, Emphasis::Italic));
                }
            } else {
                push_line(
                    &mut lines,
                    text_line("No booths have reported a system snapshot yet.", Tone::Dim, Emphasis::Italic),
                );
            }
        },
        Remote::Failed { error, at } => {
            let mut first = owned("Failed to load system snapshot: ");
            push_str(&mut first, error.as_str());
            push_line(&mut lines, styled(first, Tone::Error, Emphasis::Normal));
            let age = ago(*at);
            proof {
                secs = choose|s: nat| age@ == age_text(s);
            }
            let mut note = owned("Last attempt ");
            push_str(&mut note, age.as_str());
            push_str(&mut note, ".");
            push_line(&mut lines, styled(note, Tone::Dim, Emphasis::Italic));
            push_line(&mut lines, text_line("Press r to retry.", Tone::Dim, Emphasis::Italic));
        },
        _ => {
            push_line(&mut lines, text_line("Loading system snapshot…", Tone::Dim, Emphasis::Italic));
        },
    }
    assert(lines_model(lines@) =~= live_system_model(*state, refreshing, secs));
    lines
}


/// What the System Health screen says when no booth is configured.
pub open spec fn health_unconfigured_model() -> Seq<Seq<(Seq<char>, Tone, Emphasis)>> {
    seq![
        one("System Health"@, Tone::Accent, Emphasis::Bold),
        blank(),
        one("No booth is configured, so there is no /metrics endpoint to scrape."@, Tone::Plain, Emphasis::Normal),
        blank(),
        hint("Add a [[booths]] entry (id + debug-base-url, optional debug-token) to config.toml."@),
    ]
}

/// Guidance shown on the System Health screen when no booth is configured.
pub fn system_health_unconfigured_lines() -> (r: Vec<Line>)
    ensures
        lines_model(r@) == health_unconfigured_model(),
{
    let mut lines: Vec<Line> = Vec::new();
    let ghost g0 = lines_model(lines@);
    assert(g0 =~= Seq::empty());
    push_line(&mut lines, text_line("System Health", Tone::Accent, Emphasis::Bold));
    push_line(&mut lines, styled(String::new(), Tone::Plain, Emphasis::Normal));
    push_line(
        &mut lines,
        text_line("No booth is configured, so there is no /metrics endpoint to scrape.", Tone::Plain, Emphasis::Normal),
    );
    push_line(&mut lines, styled(String::new(), Tone::Plain, Emphasis::Normal));
    push_line(
        &mut lines,
        text_line(
            "Add a [[booths]] entry (id + debug-base-url, optional debug-token) to config.toml.",
            Tone::Dim,
            Emphasis::Italic,
        ),
    );
    assert(lines_model(lines@) =~= health_unconfigured_model());
    lines
}

/// The System Health screen before a first successful scrape, given how
/// long ago a failure happened (in whole seconds).
pub open spec fn health_pending_model(label: Seq<char>, failed: Option<Seq<char>>, secs: nat) -> Seq<
    Seq<(Seq<char>, Tone, Emphasis)>,
> {
    seq![one("System Health"@, Tone::Accent, Emphasis::Bold), blank()] + match failed {
        Some(e) => seq![
            one("Failed to scrape booth /metrics: "@ + e, Tone::Error, Emphasis::Normal),
            hint("Last attempt "@ + age_text(secs) + "."@),
            hint("Press r to retry. Check the booth URL/token and Tailscale reachability."@),
        ],
        None => seq![hint("Scraping "@ + label + " for /metrics…"@)],
    }
}

/// The System Health screen before a first successful scrape. How long ago
/// is read from the clock, so the contract holds for some number of seconds.
pub fn system_health_pending_lines(label: &str, last_error: &Option<(String, std::time::Instant)>) -> (r:
    Vec<Line>)
    ensures
        exists|secs: nat| lines_model(r@) == #[trigger] health_pending_model(
            label@,
            crate::debug_panes::error_of(*last_error),
            secs,
        ),
{
    let mut lines: Vec<Line> = Vec::new();
    let ghost g0 = lines_model(lines@);
    assert(g0 =~= Seq::empty());
    push_line(&mut lines, text_line("System Health", Tone::Accent, Emphasis::Bold));
    push_line(&mut lines, styled(String::new(), Tone::Plain, Emphasis::Normal));
    let ghost mut secs: nat = 0;
    match last_error {
        Some((error, at)) => {
            let mut first = owned("Failed to scrape booth /metrics: ");
            push_str(&mut first, error.as_str());
            push_line(&mut lines, styled(first, Tone::Error, Emphasis::Normal));
            let age = ago(*at);
            proof {
                secs = choose|s: nat| age@ == age_text(s);
            }
            let mut note = owned("Last attempt ");
            push_str(&mut note, age.as_str());
            push_str(&mut note, ".");
            push_line(&mut lines, styled(note, Tone::Dim, Emphasis::Italic));
            push_line(
                &mut lines,
                text_line(
                    "Press r to retry. Check the booth URL/token and Tailscale reachability.",
                    Tone::Dim,
                    Emphasis::Italic,
                ),
            );
        },
        None => {
            let mut note = owned("Scraping ");
            push_str(&mut note, label);
            push_str(&mut note, " for /metrics…");
            push_line(&mut lines, styled(note, Tone::Dim, Emphasis::Italic));
        },
    }
    assert(lines_model(lines@) =~= health_pending_model(label@, crate::debug_panes::error_of(*last_error), secs));
    lines
}

/// The System Health footer, given how long ago the last good scrape was
/// (when there was one): the sample count, when it was scraped, that a
/// scrape is under way or the refresh keys, and the last error.
pub open spec fn health_status_model(
    samples: u64,
    scraped: Option<nat>,
    refreshing: bool,
    last_error: Option<Seq<char>>,
) -> Seq<(Seq<char>, Tone, Emphasis)> {
    let scraped_part = match scraped {
        Some(secs) => seq![(" · scraped "@ + age_text(secs), Tone::Dim, Emphasis::Normal)],
        None => Seq::empty(),
    };
    let refresh_part = if refreshing {
        seq![(" · refreshing…"@, Tone::Warn, Emphasis::Normal)]
    } else {
        seq![(" · auto every 2s · r to refresh"@, Tone::Dim, Emphasis::Normal)]
    };
    let error_part = match last_error {
        Some(e) => seq![(" · last error: "@ + e, Tone::Error, Emphasis::Normal)],
        None => Seq::empty(),
    };
    seq![(decimal(samples as nat) + " samples"@, Tone::Dim, Emphasis::Normal)] + scraped_part + refresh_part
        + error_part
}

/// The System Health footer when the last good scrape, if any, was `secs`
/// seconds ago.
pub open spec fn health_status_at(
    samples: u64,
    last_ok: Option<std::time::Instant>,
    refreshing: bool,
    last_error: Option<(String, std::time::Instant)>,
    secs: nat,
) -> Seq<(Seq<char>, Tone, Emphasis)> {
    health_status_model(
        samples,
        if last_ok is Some { Some(secs) } else { None },
        refreshing,
        crate::debug_panes::error_of(last_error),
    )
}

/// The System Health footer line. How long ago the last good scrape was is
/// read from the clock, so the contract holds for some number of seconds.
pub fn health_status_line(
    samples: u64,
    last_ok: Option<std::time::Instant>,
    refreshing: bool,
    last_error: &Option<(String, std::time::Instant)>,
) -> (r: Line)
    ensures
        exists|secs: nat| line_model(r) == #[trigger] health_status_at(samples, last_ok, refreshing, *last_error, secs),
{
    let mut spans: Vec<Span> = Vec::new();
    let mut count = decimal_string(samples);
    push_str(&mut count, " samples");
    spans.push(Span { text: count, tone: Tone::Dim, emphasis: Emphasis::Normal });
    let ghost mut secs: nat = 0;
    match last_ok {
        Some(at) => {
            let age = ago(at);
            proof {
                secs = choose|s: nat| age@ == age_text(s);
            }
            let mut t = owned(" · scraped ");
            push_str(&mut t, age.as_str());
            spans.push(Span { text: t, tone: Tone::Dim, emphasis: Emphasis::Normal });
        },
        None => {},
    }
    if refreshing {
        spans.push(Span { text: owned(" · refreshing…"), tone: Tone::Warn, emphasis: Emphasis::Normal });
    } else {
        spans.push(Span { text: owned(" · auto every 2s · r to refresh"), tone: Tone::Dim, emphasis: Emphasis::Normal });
    }
    match last_error {
        Some((e, _)) => {
            let mut t = owned(" · last error: ");
            push_str(&mut t, e.as_str());
            spans.push(Span { text: t, tone: Tone::Error, emphasis: Emphasis::Normal });
        },
        None => {},
    }
    let r = Line { spans };
    assert(line_model(r) =~= health_status_at(samples, last_ok, refreshing, *last_error, secs));
    r
}


/// The memory rows report the figures they are given: the Memory row shows
/// the gauge of what is used, the bytes used, the total and the share used;
/// the Swap row the swap used, the swap total and the share used, each when
/// both figures are reported and the total is not zero.
pub proof fn lemma_memory_rows_report_usage(m: MemoryView)
    ensures
        m.used is Some && m.total is Some && m.total->0 > 0 ==> memory_model(Some(m))[0] == kv(
            "Memory:    "@,
            gauge(permille(m.used->0, m.total->0)) + " "@ + bytes_text(m.used->0 as nat) + " / "@
                + bytes_text(m.total->0 as nat) + " ("@ + percent_text(m.used->0, m.total->0) + ")"@,
        ),
        m.swap_used is Some && m.swap_total is Some && m.swap_total->0 > 0 ==> memory_model(
            Some(m),
        ).last() == kv(
            "Swap:      "@,
            bytes_text(m.swap_used->0 as nat) + " / "@ + bytes_text(m.swap_total->0 as nat) + " ("@
                + percent_text(m.swap_used->0, m.swap_total->0) + ")"@,
        ),
{
}


/// A disk row reports what the disk holds: what is used is its size less
/// what is free (so used and free add up to the size when the figures agree),
/// and the row shows the gauge of the used share, the bytes used, the size
/// and the bytes free, in that order.
pub proof fn lemma_disk_row_reports_usage(d: DiskView)
    ensures
        d.available <= d.total ==> disk_used(d) + d.available == d.total,
        d.available > d.total ==> disk_used(d) == 0,
        disk_row(d)[1].0 == gauge(permille(disk_used(d), d.total)) + " "@ + bytes_text(disk_used(d) as nat)
            + " / "@ + bytes_text(d.total as nat) + " ("@ + bytes_text(d.available as nat) + " free)"@,
{
}

/// A network row shows the bytes received, then the bytes sent.
pub proof fn lemma_net_row_order(n: NetView)
    ensures
        net_row(n)[1].0 == "↓ "@ + bytes_text(n.receive_bytes_total as nat) + "  ↑ "@ + bytes_text(
            n.transmit_bytes_total as nat,
        ),
{
}

} // verus!

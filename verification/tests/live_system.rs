use tb_operator::bodies::RuntimeMode;
use tb_operator::chrome::{Line, Tone};
use tb_operator::health::{
    gauge_bar, health_status_line, live_system_lines, permille_of, system_health_pending_lines,
    system_health_unconfigured_lines, CpuView, DiskView, HostView, MemoryView, NetView,
    SystemView,
};
use tb_operator::remote::{ListCore, Remote};
use time::OffsetDateTime;

fn texts(lines: &[Line]) -> Vec<String> {
    lines
        .iter()
        .map(|l| l.spans.iter().map(|s| s.text.as_str()).collect::<String>())
        .collect()
}

fn quiet_host() -> HostView {
    HostView { uptime: None, audio: None, tailscale: None, throttling: None }
}

fn readout() -> SystemView {
    SystemView {
        booth_id: "booth-1".to_owned(),
        version: Some("0.4.0".to_owned()),
        received_at: OffsetDateTime::UNIX_EPOCH,
        temperature: Some("48.2 °C".to_owned()),
        mode: Some(RuntimeMode::Real),
        cpu: Some(CpuView {
            usage: Some(("███░░░░░░░".to_owned(), "25%".to_owned())),
            load: (Some("0.50".to_owned()), None, Some("0.10".to_owned())),
            cores: Some(4),
            per_core: Some(vec!['▁', '█']),
        }),
        memory: Some(MemoryView {
            used: Some(512),
            total: Some(2048),
            swap_used: Some(0),
            swap_total: Some(0),
        }),
        disks: Some(vec![DiskView { mount: "/".to_owned(), total: 1024, available: 256 }]),
        networks: Some(vec![NetView {
            interface: "eth0".to_owned(),
            receive_bytes_total: 1,
            transmit_bytes_total: 2,
        }]),
        host: HostView { uptime: Some("5m".to_owned()), audio: None, tailscale: None, throttling: None },
    }
}

#[test]
fn gauges_fill_a_cell_per_tenth_exceeded() {
    assert_eq!(permille_of(1, 2), 500);
    assert_eq!(permille_of(5, 4), 1000);
    assert_eq!(permille_of(3, 0), 0);
    assert_eq!(permille_of(u64::MAX, u64::MAX), 1);
    assert_eq!(gauge_bar(250), "███░░░░░░░");
    assert_eq!(gauge_bar(300), "███░░░░░░░");
    assert_eq!(gauge_bar(0), "░░░░░░░░░░");
    assert_eq!(gauge_bar(1000), "██████████");
}

#[test]
fn live_system_lists_each_booth() {
    let mut core: ListCore<SystemView> = ListCore::new();
    core.begin();
    core.apply(Ok(vec![readout()]));
    let lines = live_system_lines(core.state(), false);
    assert_eq!(
        texts(&lines),
        vec![
            "Live System",
            "",
            "Booth booth-1  v0.4.0",
            "Updated 1970-01-01T00:00:00Z",
            "Temp:      48.2 °C",
            "Mode:      Real hardware",
            "CPU:       ███░░░░░░░ 25%",
            "Load:      0.50 / — / 0.10  (1m/5m/15m)",
            "Cores:     4",
            "Per-core:  ▁█",
            "Memory:    ███░░░░░░░ 512 B / 2.0 KiB (25%)",
            "Disk /      ████████░░ 768 B / 1.0 KiB (256 B free)",
            "Net eth0    ↓ 1 B  ↑ 2 B",
            "Uptime:    5m",
            "",
            "Polled just now · auto-refreshes every 5s.",
        ]
    );
    assert_eq!(lines[2].spans[0].tone, Tone::Accent);
    assert_eq!(lines[2].spans[1].tone, Tone::Dim);
}

#[test]
fn live_system_notes_loading_empty_and_failure() {
    let loading: Remote<Vec<SystemView>> = Remote::Loading;
    assert_eq!(
        texts(&live_system_lines(&loading, false)),
        vec!["Live System", "", "Loading system snapshot…"]
    );
    let mut core: ListCore<SystemView> = ListCore::new();
    core.begin();
    core.apply(Ok(Vec::new()));
    assert_eq!(
        texts(&live_system_lines(core.state(), false)),
        vec!["Live System", "", "No booths have reported a system snapshot yet."]
    );
    core.begin();
    core.apply(Err("502".to_owned()));
    assert_eq!(
        texts(&live_system_lines(core.state(), false)),
        vec![
            "Live System",
            "",
            "Failed to load system snapshot: 502",
            "Last attempt just now.",
            "Press r to retry.",
        ]
    );
    let mut bare = readout();
    bare.version = None;
    bare.cpu = None;
    bare.memory = None;
    bare.disks = None;
    bare.networks = None;
    bare.temperature = None;
    bare.mode = None;
    bare.host = quiet_host();
    let mut core: ListCore<SystemView> = ListCore::new();
    core.begin();
    core.apply(Ok(vec![bare]));
    assert_eq!(
        texts(&live_system_lines(core.state(), true)),
        vec!["Live System", "", "Booth booth-1", "Updated 1970-01-01T00:00:00Z", "", "Refreshing…"]
    );
}

#[test]
fn system_health_notes_and_footer() {
    assert_eq!(texts(&system_health_unconfigured_lines())[0], "System Health");
    assert_eq!(
        texts(&system_health_pending_lines("Lobby", &None)),
        vec!["System Health", "", "Scraping Lobby for /metrics…"]
    );
    let failed = texts(&system_health_pending_lines(
        "Lobby",
        &Some(("timeout".to_owned(), std::time::Instant::now())),
    ));
    assert_eq!(failed[2], "Failed to scrape booth /metrics: timeout");
    assert_eq!(failed[3], "Last attempt just now.");
    let line = health_status_line(12, Some(std::time::Instant::now()), false, &Some(("503".to_owned(), std::time::Instant::now())));
    let text: String = line.spans.iter().map(|s| s.text.as_str()).collect();
    assert_eq!(text, "12 samples · scraped just now · auto every 2s · r to refresh · last error: 503");
    let busy = health_status_line(0, None, true, &None);
    let text: String = busy.spans.iter().map(|s| s.text.as_str()).collect();
    assert_eq!(text, "0 samples · refreshing…");
    assert_eq!(busy.spans[1].tone, Tone::Warn);
}

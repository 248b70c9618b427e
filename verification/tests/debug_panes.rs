use tb_operator::bodies::RuntimeMode;
use tb_operator::booth::GpioPin;
use tb_operator::chrome::{Emphasis, Line, Tone};
use tb_operator::debug_panes::{
    debug_config_lines, debug_footer_line, debug_gpio_lines, debug_logs_lines,
    debug_pending_lines, debug_state_color, debug_state_lines, debug_unconfigured_lines,
    log_level_color, DebugConfigView, DebugFooter, DebugStateView, LogView,
};

fn texts(lines: &[Line]) -> Vec<String> {
    lines
        .iter()
        .map(|l| l.spans.iter().map(|s| s.text.as_str()).collect::<String>())
        .collect()
}

fn text(line: &Line) -> String {
    line.spans.iter().map(|s| s.text.as_str()).collect()
}

#[test]
fn unconfigured_and_pending() {
    assert_eq!(texts(&debug_unconfigured_lines())[2], "No booth is configured, so there is no debug server to reach.");
    assert_eq!(
        texts(&debug_pending_lines("Lobby", &None)),
        vec!["Debug", "", "Polling Lobby for debug snapshots…"]
    );
    let failed = texts(&debug_pending_lines("Lobby", &Some(("refused".to_owned(), std::time::Instant::now()))));
    assert_eq!(failed[2], "Failed to reach booth debug server: refused");
    assert_eq!(failed[3], "Last attempt just now.");
}

#[test]
fn state_panel() {
    assert_eq!(debug_state_color("error"), Tone::Error);
    assert_eq!(debug_state_color("idle"), Tone::Dim);
    assert_eq!(debug_state_color("recording"), Tone::Good);
    let state = DebugStateView {
        state: "recording".to_owned(),
        updated_at: "2024-01-01T00:00:00Z".to_owned(),
        question: Some("q-1".to_owned()),
        message: None,
        error: Some("mic".to_owned()),
    };
    let lines = debug_state_lines(Some(&state));
    assert_eq!(
        texts(&lines),
        vec!["State:    recording", "Updated:  2024-01-01T00:00:00Z", "Question: q-1", "Error:    mic"]
    );
    assert_eq!(lines[0].spans[1].emphasis, Emphasis::Bold);
    assert_eq!(texts(&debug_state_lines(None)), vec!["No state reported."]);
}

#[test]
fn gpio_panel() {
    let pins = vec![GpioPin {
        role: "hook-switch-input".to_owned(),
        level: true,
        debounced_state: true,
        last_edge_monotonic_ns: 5,
        last_event_id: 42,
    }];
    let lines = debug_gpio_lines(Some(&pins));
    assert_eq!(texts(&lines), vec!["hook-switch-… HIGH  #42"]);
    assert_eq!(lines[0].spans[1].tone, Tone::Good);
    assert_eq!(texts(&debug_gpio_lines(Some(&Vec::new()))), vec!["No GPIO pins reported."]);
    assert_eq!(texts(&debug_gpio_lines(None)), vec!["No GPIO snapshot."]);
}

#[test]
fn logs_panel_shows_oldest_first() {
    assert_eq!(log_level_color("warn"), Tone::Warn);
    assert_eq!(log_level_color("trace"), Tone::Dim);
    assert_eq!(log_level_color("info"), Tone::Good);
    let logs = vec![
        LogView { ts: "2024-01-01T10:00:02Z".to_owned(), level: "warn".to_owned(), message: "second".to_owned() },
        LogView { ts: "2024-01-01T10:00:01Z".to_owned(), level: "info".to_owned(), message: "first".to_owned() },
    ];
    assert_eq!(
        texts(&debug_logs_lines(&logs)),
        vec!["10:00:01 INFO  first", "10:00:02 WARN  second"]
    );
    assert_eq!(texts(&debug_logs_lines(&Vec::new())), vec!["No log lines."]);
}

#[test]
fn config_panel() {
    let config = DebugConfigView {
        runtime_mode: RuntimeMode::Mock,
        allow_controls: true,
        tailscale_enabled: true,
        lan_enabled: false,
        ring_buffer_capacity: 512,
        operator_base_url: None,
        operator_token: "***".to_owned(),
    };
    assert_eq!(
        texts(&debug_config_lines(Some(&config), Some("ab:cd"))),
        vec![
            "Mode: Mock   Controls: allowed",
            "Listeners: tailscale on · lan off · ring 512",
            "Op token: ***",
            "Cert fp:  ab:cd",
        ]
    );
    assert_eq!(
        texts(&debug_config_lines(None, None)),
        vec!["No config reported.", "Cert fp:  not pinned"]
    );
}

#[test]
fn footer_line() {
    let mut footer = DebugFooter {
        log_level: "info".to_owned(),
        live: false,
        last_ok: Some(std::time::Instant::now()),
        refreshing: false,
        controls_allowed: true,
        last_error: Some("gpio: down".to_owned()),
        live_error: None,
    };
    assert_eq!(
        text(&debug_footer_line(&footer)),
        "level info · polled just now · auto every 2s · r refresh · f live · v level · controls allowed · last error: gpio: down"
    );
    footer.live = true;
    footer.last_error = None;
    footer.controls_allowed = false;
    footer.live_error = Some("closed".to_owned());
    assert_eq!(
        text(&debug_footer_line(&footer)),
        "level info · ● LIVE · f stop · v level · live: closed"
    );
}

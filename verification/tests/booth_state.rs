use tb_operator::booth::{
    apply_gpio_edge, next_log_level, poll_error_summary, prepend_capped, replay_from, GpioPin,
    PollPart, StatsWindow, LOG_LIMIT,
};
use tb_operator::live::{Identity, IdentityFetch, Stamped, StatusView};
use tb_operator::polling::{
    debug_should_poll, next_backoff, poll_due, Poller, BOOTH_POLL_MS, IDENTITY_REVALIDATE_MS,
    RECONNECT_MAX_MS, STATUS_POLL_MS,
};
use tb_operator::remote::Remote;

fn is_due_respects(interval: u128) {
    assert!(poll_due(false, None, interval));
    assert!(!poll_due(false, Some(0), interval));
    assert!(poll_due(false, Some(interval), interval));
    assert!(!poll_due(true, Some(interval), interval));
}

#[test]
fn debug_is_due_respects_interval_and_in_flight() {
    is_due_respects(BOOTH_POLL_MS);
}

#[test]
fn status_is_due_respects_interval_and_in_flight() {
    is_due_respects(STATUS_POLL_MS);
}

#[test]
fn system_health_is_due_respects_interval_and_in_flight() {
    is_due_respects(BOOTH_POLL_MS);
}

#[test]
fn identity_is_due_respects_interval_and_in_flight() {
    is_due_respects(IDENTITY_REVALIDATE_MS);
}

#[test]
fn a_poller_is_due_before_its_first_poll_and_never_while_busy() {
    let mut poll = Poller::new();
    assert!(poll.is_due(STATUS_POLL_MS));
    assert!(poll.begin());
    assert!(!poll.is_due(STATUS_POLL_MS));
    assert!(!poll.begin());
    poll.finish();
    assert!(poll.is_seeded());
    assert!(!poll.is_due(STATUS_POLL_MS), "just polled");
    poll.forget();
    assert!(poll.is_due(STATUS_POLL_MS));
}

#[test]
fn reconnect_backoff_doubles_up_to_the_ceiling() {
    assert_eq!(next_backoff(1000), 2000);
    assert_eq!(next_backoff(16000), 30000);
    assert_eq!(next_backoff(30000), 30000);
    assert_eq!(next_backoff(u64::MAX), RECONNECT_MAX_MS);
}

#[test]
fn debug_seeds_once_then_polls_only_while_not_live() {
    assert!(debug_should_poll(true, false, false, true, false));
    assert!(!debug_should_poll(true, false, true, false, true));
    assert!(debug_should_poll(true, true, false, false, true));
    assert!(!debug_should_poll(true, true, false, true, true));
    assert!(!debug_should_poll(false, false, false, false, true));
}

#[test]
fn live_status_applies_immediately() {
    let mut view: StatusView<&str> = StatusView::new();
    view.apply_status(Stamped { stamp: 1, value: "recording" });
    assert!(matches!(view.state(), Remote::Ready { value, .. } if value.value == "recording"));
}

#[test]
fn stale_poll_does_not_replace_newer_live_status() {
    let mut view: StatusView<&str> = StatusView::new();
    view.apply_status(Stamped { stamp: 2, value: "recording" });
    view.begin();
    view.apply(Ok(Stamped { stamp: 1, value: "idle" }));
    assert!(matches!(view.state(), Remote::Ready { value, .. } if value.value == "recording"));
    assert!(!view.is_refreshing());
    view.apply(Err("boom".to_owned()));
    assert!(matches!(view.state(), Remote::Ready { .. }), "an error never hides a good value");
    view.apply_status(Stamped { stamp: 2, value: "idle" });
    assert!(matches!(view.state(), Remote::Ready { value, .. } if value.value == "idle"));
}

#[test]
fn a_failed_first_poll_is_shown() {
    let mut view: StatusView<u8> = StatusView::new();
    assert!(view.begin());
    assert!(matches!(view.state(), Remote::Loading));
    view.apply(Err("boom".to_owned()));
    assert!(matches!(view.state(), Remote::Failed { error, .. } if error == "boom"));
}

#[test]
fn identity_marks_admins_and_takes_revocations_once() {
    let mut id: Identity<&str> = Identity::new();
    assert!(!id.is_admin());
    assert!(!id.is_known());
    assert!(id.tick(true));
    id.apply(IdentityFetch::Profile { profile: "admin", is_admin: true });
    assert!(id.is_admin());
    assert_eq!(id.profile(), Some(&"admin"));
    id.apply(IdentityFetch::Transient);
    assert!(id.is_admin(), "a passing failure keeps the cached identity");
    id.apply(IdentityFetch::Revoked);
    assert!(!id.is_known());
    assert!(id.take_revoked());
    assert!(!id.take_revoked());
    id.apply(IdentityFetch::Profile { profile: "op", is_admin: false });
    assert!(id.is_known() && !id.is_admin());
    assert!(!id.tick(false));
    assert!(!id.is_known(), "signing out drops the cached identity");
}

#[test]
fn log_levels_cycle_and_unknown_levels_restart() {
    assert_eq!(next_log_level("error"), "warn");
    assert_eq!(next_log_level("debug"), "trace");
    assert_eq!(next_log_level("trace"), "error");
    assert_eq!(next_log_level("verbose"), "error");
}

#[test]
fn poll_failures_are_summarised_in_order() {
    let parts = vec![
        PollPart { name: "state", error: None },
        PollPart { name: "gpio", error: Some("timeout".to_owned()) },
        PollPart { name: "logs", error: Some("500".to_owned()) },
    ];
    assert_eq!(poll_error_summary(&parts), Some("gpio: timeout; logs: 500".to_owned()));
    let fine = vec![PollPart { name: "state", error: None }];
    assert_eq!(poll_error_summary(&fine), None);
}

#[test]
fn live_log_event_prepends_to_logs() {
    let mut logs = vec!["old".to_owned()];
    prepend_capped(&mut logs, "hi".to_owned(), LOG_LIMIT);
    assert_eq!(logs.first().map(String::as_str), Some("hi"));
    let mut full: Vec<u32> = (0..LOG_LIMIT as u32).collect();
    prepend_capped(&mut full, 999, LOG_LIMIT);
    assert_eq!(full.len(), LOG_LIMIT);
    assert_eq!(full[0], 999);
    assert_eq!(full[LOG_LIMIT - 1], LOG_LIMIT as u32 - 2);
}

#[test]
fn live_gpio_edge_inserts_then_updates_pin() {
    let mut pins: Vec<GpioPin<bool>> = Vec::new();
    apply_gpio_edge(&mut pins, "hook", true, 5, 1);
    assert_eq!(pins.len(), 1);
    assert!(pins[0].level);
    apply_gpio_edge(&mut pins, "hook", false, 9, 2);
    assert_eq!(pins.len(), 1, "same role updates in place");
    assert!(!pins[0].level);
    assert!(!pins[0].debounced_state);
    assert_eq!(pins[0].last_edge_monotonic_ns, 9);
    assert_eq!(pins[0].last_event_id, 2);
    apply_gpio_edge(&mut pins, "pulse", true, 11, 3);
    assert_eq!(pins.len(), 2);
    assert_eq!(pins[1].role, "pulse");
}

#[test]
fn telemetry_resumes_after_the_last_record() {
    assert_eq!(replay_from(None), None);
    assert_eq!(replay_from(Some(41)), Some(42));
    assert_eq!(replay_from(Some(u64::MAX)), Some(u64::MAX));
}

#[test]
fn stats_windows_cycle_from_the_week() {
    let w = StatsWindow::initial();
    assert_eq!(w, StatsWindow::Week);
    assert_eq!(w.label(), "Last 7 days");
    assert_eq!(w.next(), StatsWindow::Month);
    assert_eq!(w.next().next().next().next(), w);
    assert_eq!(StatsWindow::All.next(), StatsWindow::Day);
    assert_eq!(StatsWindow::Day.label(), "Last 24 hours");
}

use tb_operator::booth::StatsWindow;
use tb_operator::chrome::{Line, Tone};
use tb_operator::remote::Remote;
use tb_operator::stats::{stats_lines, stats_pending_lines, StatsView};

fn texts(lines: &[Line]) -> Vec<String> {
    lines
        .iter()
        .map(|l| l.spans.iter().map(|s| s.text.as_str()).collect::<String>())
        .collect()
}

fn sample() -> StatsView {
    StatsView {
        window: StatsWindow::Week,
        range: "01-02 03:04 → 01-09 03:04".to_owned(),
        activity: Some("2024-01-09T03:04:05Z".to_owned()),
        calls_total: 4,
        calls_completed: 3,
        calls_in_progress: 1,
        average_call: Some("1m 00s".to_owned()),
        longest_call: None,
        outcomes: vec![("hung_up".to_owned(), 2), ("no-answer".to_owned(), 1)],
        messages_total: 2,
        average_message: None,
        messages_by_status: vec![("new".to_owned(), 2)],
        playbacks: 5,
        pickups: 6,
        hangups: 7,
        digits: vec![("1".to_owned(), 3), ("2".to_owned(), 1)],
        uploads_succeeded: 2,
        uploads_failed: 1,
        failure_rate: Some("33.3%".to_owned()),
        busiest_hour: Some(9),
        busiest_day: Some(1),
        hourly: vec![(0, 7), (12, 14), (30, 5)],
        top_questions: (1..=6).map(|n| (n, format!("Question {n}"))).collect(),
        booths: vec![("booth-a".to_owned(), 3, Some(2)), ("booth-b".to_owned(), 1, None)],
        fetched: "5s ago".to_owned(),
        generated: "2024-01-09T03:05:00Z".to_owned(),
    }
}

fn bare() -> StatsView {
    StatsView {
        window: StatsWindow::Day,
        range: "up to 01-09 03:04".to_owned(),
        activity: None,
        calls_total: 0,
        calls_completed: 0,
        calls_in_progress: 0,
        average_call: None,
        longest_call: None,
        outcomes: Vec::new(),
        messages_total: 0,
        average_message: None,
        messages_by_status: Vec::new(),
        playbacks: 0,
        pickups: 0,
        hangups: 0,
        digits: Vec::new(),
        uploads_succeeded: 0,
        uploads_failed: 0,
        failure_rate: None,
        busiest_hour: None,
        busiest_day: None,
        hourly: Vec::new(),
        top_questions: Vec::new(),
        booths: Vec::new(),
        fetched: "just now".to_owned(),
        generated: "2024-01-09T03:05:00Z".to_owned(),
    }
}

#[test]
fn dashboard_lists_every_section() {
    let spark = format!("▄{}█{}", "▁".repeat(11), "▁".repeat(11));
    let expected: Vec<String> = vec![
        "Statistics".to_owned(),
        "".to_owned(),
        "Window:    Last 7 days".to_owned(),
        "Range:     01-02 03:04 → 01-09 03:04".to_owned(),
        "Activity:  2024-01-09T03:04:05Z".to_owned(),
        "".to_owned(),
        "Calls".to_owned(),
        "Total:     4".to_owned(),
        "Completed: 3 (75%)".to_owned(),
        "In flight: 1".to_owned(),
        "Avg call:  1m 00s".to_owned(),
        "  hung up    2".to_owned(),
        "  no answer  1".to_owned(),
        "".to_owned(),
        "Messages".to_owned(),
        "Total:     2".to_owned(),
        "  new        2".to_owned(),
        "".to_owned(),
        "Activity".to_owned(),
        "Playbacks: 5".to_owned(),
        "Pickups:   6".to_owned(),
        "Hangups:   7".to_owned(),
        "Digits:    1:3  2:1".to_owned(),
        "".to_owned(),
        "Uploads".to_owned(),
        "Succeeded: 2".to_owned(),
        "Failed:    1".to_owned(),
        "Fail rate: 33.3%".to_owned(),
        "".to_owned(),
        "When".to_owned(),
        "Busy hour: 09:00 UTC".to_owned(),
        "Busy day:  Monday".to_owned(),
        format!("Calls/hr:  {spark}"),
        "(per hour, 00–23 UTC; leftmost = midnight)".to_owned(),
        "".to_owned(),
        "Top questions".to_owned(),
        "   1  Question 1".to_owned(),
        "   2  Question 2".to_owned(),
        "   3  Question 3".to_owned(),
        "   4  Question 4".to_owned(),
        "   5  Question 5".to_owned(),
        "".to_owned(),
        "Booths".to_owned(),
        "booth-a  3 calls, 2 msgs".to_owned(),
        "booth-b  1 calls".to_owned(),
        "".to_owned(),
        "Fetched 5s ago · generated 2024-01-09T03:05:00Z.".to_owned(),
    ];
    assert_eq!(texts(&stats_lines(&sample(), false)), expected);
}

#[test]
fn dashboard_leaves_out_empty_sections() {
    assert_eq!(
        texts(&stats_lines(&bare(), false)),
        vec![
            "Statistics",
            "",
            "Window:    Last 24 hours",
            "Range:     up to 01-09 03:04",
            "",
            "Calls",
            "Total:     0",
            "Completed: 0 (0%)",
            "",
            "Messages",
            "Total:     0",
            "",
            "Activity",
            "Playbacks: 0",
            "Pickups:   0",
            "Hangups:   0",
            "",
            "Uploads",
            "Succeeded: 0",
            "Failed:    0",
            "",
            "When",
            "Busy hour: —",
            "Busy day:  —",
            "",
            "Fetched just now · generated 2024-01-09T03:05:00Z.",
        ]
    );
}

#[test]
fn dashboard_says_when_a_reload_is_under_way() {
    let lines = stats_lines(&bare(), true);
    assert_eq!(texts(&lines).last().map(String::as_str), Some("Refreshing…"));
}

#[test]
fn long_prompts_are_cut_to_sixty_characters() {
    let mut view = bare();
    view.top_questions = vec![(12345, "x".repeat(70))];
    let lines = texts(&stats_lines(&view, false));
    let expected = format!("12345  {}…", "x".repeat(59));
    assert!(lines.contains(&expected));
}

#[test]
fn pending_dashboard_says_loading_or_failed() {
    let loading: Remote<u8> = Remote::Loading;
    assert_eq!(
        texts(&stats_pending_lines(StatsWindow::Month, &loading)),
        vec!["Statistics", "", "Window:    Last 30 days", "", "Loading statistics…"]
    );
    let mut core: tb_operator::remote::ListCore<u8> = tb_operator::remote::ListCore::new();
    core.begin();
    core.apply(Err("timeout".to_owned()));
    let failed = stats_pending_lines(StatsWindow::All, core.state());
    let text = texts(&failed);
    assert_eq!(text[2], "Window:    All time");
    assert_eq!(text[4], "Failed to load statistics: timeout");
    assert_eq!(failed[4].spans[0].tone, Tone::Error);
    assert_eq!(text[5], "Last attempt just now.");
    assert_eq!(text[6], "Press r to retry.");
}

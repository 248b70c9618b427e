use tb_operator::cli::{export_report, import_report, Cli, Command, DataCommand};
use tb_operator::edits::{
    booth_token_input, dial_digit_input, operator_url_input, parse_bounded, poll_interval_input,
    poll_interval_saved,
};
use tb_operator::startup::{startup_notices, StartupReport};
use tb_operator::toast::Level;

fn chars(s: &str) -> Vec<char> {
    s.chars().collect()
}

#[test]
fn urls_are_trimmed_and_checked() {
    assert_eq!(operator_url_input("  https://api.example  ").unwrap(), "https://api.example");
    let err = operator_url_input("ftp://x").unwrap_err();
    assert_eq!(err.level, Level::Warn);
    assert_eq!(err.text, "Enter an http:// or https:// URL.");
}

#[test]
fn tokens_must_not_be_blank() {
    assert_eq!(booth_token_input(" secret\n").unwrap(), "secret");
    assert_eq!(booth_token_input("   ").unwrap_err().text, "Paste a non-empty debug token.");
}

#[test]
fn poll_intervals_are_whole_and_large_enough() {
    assert_eq!(poll_interval_input(" 250 ").unwrap(), 250);
    assert_eq!(poll_interval_input("+1000").unwrap(), 1000);
    assert_eq!(poll_interval_input("249").unwrap_err().text, "Poll interval must be at least 250 ms.");
    assert_eq!(poll_interval_input("1.5").unwrap_err().text, "Enter a whole number of milliseconds.");
    assert_eq!(poll_interval_input("").unwrap_err().text, "Enter a whole number of milliseconds.");
    assert_eq!(
        poll_interval_input("18446744073709551616").unwrap_err().text,
        "Enter a whole number of milliseconds."
    );
    assert_eq!(poll_interval_saved(500), "Poll interval saved: 500 ms.");
}

#[test]
fn dial_digits_are_single_digits() {
    assert_eq!(dial_digit_input("7").unwrap(), 7);
    assert_eq!(dial_digit_input(" 0 ").unwrap(), 0);
    assert_eq!(dial_digit_input("10").unwrap_err().text, "Enter a single digit 0-9.");
    assert_eq!(dial_digit_input("x").unwrap_err().text, "Enter a single digit 0-9.");
}

#[test]
fn bounded_parsing_matches_std() {
    for s in ["0", "42", "+7", "255", "256", "", "+", "-1", "007"] {
        assert_eq!(parse_bounded(&chars(s), 255), s.parse::<u8>().ok().map(u64::from), "{s}");
    }
    assert_eq!(parse_bounded(&chars("18446744073709551615"), u64::MAX), Some(u64::MAX));
}

#[test]
fn setup_runs_when_asked_or_on_a_first_interactive_run() {
    let plain = Cli { config: None, setup: false, command: None };
    assert!(!plain.should_run_setup(false, true));
    assert!(plain.should_run_setup(true, true));
    assert!(!plain.should_run_setup(true, false));
    let asked = Cli { config: None, setup: true, command: None };
    assert!(asked.should_run_setup(false, false));
    let export = Cli {
        config: Some("c.toml".to_owned()),
        setup: true,
        command: Some(Command::Data(DataCommand::Export { output: "out.tar".to_owned() })),
    };
    assert!(!export.should_run_setup(true, true));
}

#[test]
fn data_command_reports() {
    assert_eq!(export_report(1024, "out.tar"), "Wrote 1024 bytes to out.tar.");
    assert_eq!(
        import_report(3, 1, &Vec::new()),
        vec![
            "Import complete.".to_owned(),
            "  audio blobs: 3 uploaded, 1 skipped (already present)".to_owned(),
            "  rows restored: none".to_owned(),
        ]
    );
    let rows = vec![("messages".to_owned(), 12u64), ("questions".to_owned(), 2u64)];
    assert_eq!(
        import_report(0, 0, &rows),
        vec![
            "Import complete.".to_owned(),
            "  audio blobs: 0 uploaded, 0 skipped (already present)".to_owned(),
            "  rows restored:".to_owned(),
            "    messages: 12".to_owned(),
            "    questions: 2".to_owned(),
        ]
    );
}

#[test]
fn startup_greets_and_warns_in_order() {
    let report = StartupReport {
        has_booth: false,
        session_warning: Some("keychain locked"),
        signed_in: false,
        health_error: None,
        debug_error: Some(("booth-1", "bad url")),
        playback_unavailable: Some("no device"),
    };
    let notices: Vec<(Level, String)> =
        startup_notices(&report).into_iter().map(|n| (n.level, n.text)).collect();
    assert_eq!(
        notices,
        vec![
            (Level::Info, "Welcome to tb-operator. Press q to quit.".to_owned()),
            (Level::Warn, "No booths configured; add one in Settings to use System Health.".to_owned()),
            (Level::Warn, "keychain locked".to_owned()),
            (Level::Warn, "Not signed in. Open Settings and press L to log in.".to_owned()),
            (Level::Warn, "Debug panel unavailable for booth booth-1: bad url".to_owned()),
            (Level::Warn, "Audio playback unavailable: no device".to_owned()),
        ]
    );
    let quiet = StartupReport {
        has_booth: true,
        session_warning: None,
        signed_in: true,
        health_error: None,
        debug_error: None,
        playback_unavailable: None,
    };
    assert_eq!(startup_notices(&quiet).len(), 2);
}

use tb_operator::screens::Screen;

#[test]
fn index_round_trips_for_every_screen() {
    for (index, screen) in Screen::all().iter().enumerate() {
        assert_eq!(screen.index(), index);
        assert_eq!(Screen::from_index(index), Some(*screen));
    }
    assert_eq!(Screen::from_index(Screen::all().len()), None);
}

#[test]
fn next_and_prev_wrap_around() {
    let first = Screen::all()[0];
    let last = Screen::all()[Screen::all().len() - 1];
    assert_eq!(first.prev(), last);
    assert_eq!(last.next(), first);
    assert_eq!(first.next().prev(), first);
}

#[test]
fn labels_are_non_empty() {
    for screen in Screen::all() {
        assert!(!screen.title().is_empty());
        assert!(!screen.short().is_empty());
        assert!(!screen.description().is_empty());
    }
}

#[test]
fn stepping_forward_visits_every_screen_once_per_lap() {
    let mut seen = Vec::new();
    let mut current = Screen::Status;
    for _ in 0..Screen::all().len() {
        assert!(!seen.contains(&current));
        seen.push(current);
        current = current.next();
    }
    assert_eq!(current, Screen::Status);
    assert_eq!(seen.as_slice(), Screen::all());
}

#[test]
fn titles_and_short_labels_differ_where_abbreviated() {
    assert_eq!(Screen::Stats.title(), "Statistics");
    assert_eq!(Screen::Stats.short(), "Stats");
    assert_eq!(Screen::LiveSystem.short(), "LiveSys");
    assert_eq!(Screen::Tokens.title(), "API Tokens");
    assert_eq!(Screen::Settings.index(), 10);
    assert_eq!(Screen::Messages.prev(), Screen::Status);
}

#[test]
fn all_screens_in_tab_order_end_with_about() {
    let titles: Vec<&str> = Screen::all().iter().map(|s| s.title()).collect();
    assert_eq!(
        titles,
        vec![
            "Status",
            "Messages",
            "Questions",
            "Events",
            "Sessions",
            "Statistics",
            "Live System",
            "System Health",
            "Debug",
            "API Tokens",
            "Settings",
            "About",
        ]
    );
    assert_eq!(Screen::About.nav_key(), 'a');
    assert_eq!(Screen::About.next(), Screen::Status);
}

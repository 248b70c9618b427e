use tb_operator::toast::{Level, Toasts};

#[test]
fn push_records_level_and_text() {
    let mut toasts = Toasts::default();
    assert!(toasts.is_empty());
    toasts.info("hello");
    toasts.warn("careful");
    toasts.error("boom");

    let collected: Vec<(Level, &str)> =
        toasts.iter().map(|t| (t.level, t.text.as_str())).collect();
    assert_eq!(
        collected,
        vec![
            (Level::Info, "hello"),
            (Level::Warn, "careful"),
            (Level::Error, "boom"),
        ]
    );
}

#[test]
fn prune_keeps_unexpired() {
    let mut toasts = Toasts::default();
    toasts.info("still here");
    toasts.prune();
    assert!(!toasts.is_empty());
    assert_eq!(toasts.iter().count(), 1);
}

#[test]
fn prune_at_drops_exactly_the_expired() {
    let mut toasts = Toasts::default();
    toasts.push_at(Level::Info, "first", 0);
    toasts.push_at(Level::Warn, "second", 1_000);
    toasts.push_at(Level::Error, "third", 2_000);
    toasts.prune_at(3_999);
    assert_eq!(toasts.iter().count(), 3);
    toasts.prune_at(4_000);
    let left: Vec<&str> = toasts.iter().map(|t| t.text.as_str()).collect();
    assert_eq!(left, vec!["second", "third"]);
    toasts.prune_at(u64::MAX);
    assert!(toasts.is_empty());
}

use tb_operator::audit::{AuditPager, AUDIT_PAGE_LIMIT};
use tb_operator::remote::{Follower, Keyed, ListCore, Remote, MAX_LIVE_ROWS};

fn ready(list: &ListCore<u32>) -> Vec<u32> {
    match list.state() {
        Remote::Ready { value, .. } => value.clone(),
        _ => panic!("expected a list on show"),
    }
}

fn keyed(key: &str, item: u32) -> Keyed<u32> {
    Keyed { key: key.to_owned(), item }
}

fn keys(list: &ListCore<Keyed<u32>>) -> Vec<String> {
    match list.state() {
        Remote::Ready { value, .. } => value.iter().map(|k| k.key.clone()).collect(),
        _ => panic!("expected a list on show"),
    }
}

#[test]
fn a_first_load_shows_loading_then_the_list() {
    let mut list: ListCore<u32> = ListCore::new();
    assert!(matches!(list.state(), Remote::Idle));
    assert!(list.wants_first_load(true));
    assert!(!list.wants_first_load(false));
    assert!(list.begin());
    assert!(matches!(list.state(), Remote::Loading));
    assert!(!list.begin(), "a second request waits for the first");
    list.apply(Ok(vec![10, 20]));
    assert_eq!(ready(&list), vec![10, 20]);
    assert!(!list.is_refreshing());
    assert!(!list.wants_first_load(true));
    assert_eq!(list.selected_item(), Some(&10));
}

#[test]
fn list_selection_moves_and_clamps() {
    let mut list: ListCore<u32> = ListCore::new();
    list.begin();
    list.apply(Ok(vec![1, 2]));
    list.select_prev();
    assert_eq!(list.selected_index(), 0);
    list.select_next();
    assert_eq!(list.selected_index(), 1);
    list.select_next();
    assert_eq!(list.selected_index(), 1);
    list.apply(Ok(Vec::new()));
    assert_eq!(list.selected_index(), 0);
    assert_eq!(list.selected_item(), None);
}

#[test]
fn a_reload_keeps_the_list_on_show_and_a_failure_replaces_it() {
    let mut list: ListCore<u32> = ListCore::new();
    list.begin();
    list.apply(Ok(vec![1, 2, 3]));
    list.select_next();
    list.select_next();
    assert!(list.begin());
    assert_eq!(ready(&list), vec![1, 2, 3], "a reload does not blank the list");
    list.apply(Err("boom".to_owned()));
    assert!(matches!(list.state(), Remote::Failed { error, .. } if error == "boom"));
    assert_eq!(list.selected_index(), 2);
    assert!(list.begin());
    assert!(matches!(list.state(), Remote::Loading));
    list.abandon();
    assert!(!list.is_refreshing());
}

#[test]
fn live_rows_go_on_top_without_duplicates() {
    let mut list: ListCore<Keyed<u32>> = ListCore::new();
    list.begin();
    list.apply(Ok(vec![keyed("a", 1)]));
    list.merge_live(keyed("live-1", 2));
    assert_eq!(keys(&list), vec!["live-1".to_owned(), "a".to_owned()]);
    list.merge_live(keyed("a", 3));
    assert_eq!(keys(&list), vec!["live-1".to_owned(), "a".to_owned()]);
    assert!(list.is_refreshing() == false);
}

#[test]
fn a_live_row_keeps_a_lower_selection_on_its_row() {
    let mut list: ListCore<Keyed<u32>> = ListCore::new();
    list.begin();
    list.apply(Ok(vec![keyed("a", 1), keyed("b", 2)]));
    list.select_next();
    list.merge_live(keyed("c", 3));
    assert_eq!(list.selected_index(), 2);
    assert_eq!(list.selected_item().map(|k| k.key.as_str()), Some("b"));
    list.select_prev();
    list.select_prev();
    list.merge_live(keyed("d", 4));
    assert_eq!(list.selected_index(), 0, "the top selection rides the newest row");
}

#[test]
fn a_live_row_without_a_list_becomes_the_list() {
    let mut list: ListCore<Keyed<u32>> = ListCore::new();
    list.merge_live(keyed("x", 1));
    assert_eq!(keys(&list), vec!["x".to_owned()]);
    assert!(list.is_loaded());
}

#[test]
fn live_rows_are_capped() {
    let mut list: ListCore<Keyed<u32>> = ListCore::new();
    list.begin();
    let rows: Vec<Keyed<u32>> = (0..MAX_LIVE_ROWS).map(|i| keyed(&format!("r{i}"), 0)).collect();
    list.apply(Ok(rows));
    list.merge_live(keyed("new", 1));
    let k = keys(&list);
    assert_eq!(k.len(), MAX_LIVE_ROWS);
    assert_eq!(k[0], "new");
    assert_eq!(k[MAX_LIVE_ROWS - 1], format!("r{}", MAX_LIVE_ROWS - 2));
}

#[test]
fn a_follower_fetches_once_per_selection() {
    let mut detail: Follower<u32> = Follower::new();
    assert_eq!(detail.follow(None), None);
    assert_eq!(detail.follow(Some("a")), Some("a".to_owned()));
    assert!(detail.is_loading());
    assert_eq!(detail.follow(Some("b")), None, "nothing while a fetch is in flight");
    detail.apply(Ok(7));
    assert_eq!(detail.follow(Some("a")), None, "the same selection is not fetched again");
    assert!(matches!(detail.state_for(Some("a")), Some(Remote::Ready { value: 7, .. })));
    assert!(detail.state_for(Some("b")).is_none());
    assert_eq!(detail.follow(Some("b")), Some("b".to_owned()));
    detail.abandon_with("timeline fetch was cancelled");
    assert!(matches!(detail.state(), Remote::Failed { error, .. } if error == "timeline fetch was cancelled"));
}

#[test]
fn usage_lookups_wait_for_the_one_in_flight() {
    let mut usage: Follower<Vec<u32>> = Follower::new();
    assert!(usage.begin_for("t1"));
    assert!(!usage.begin_for("t2"));
    usage.apply(Err("nope".to_owned()));
    assert!(matches!(usage.state_for(Some("t1")), Some(Remote::Failed { .. })));
    assert!(usage.begin_for("t2"));
    usage.abandon();
    assert!(!usage.is_loading());
}

#[test]
fn audit_filter_cycles_and_resets_paging() {
    let mut pager: AuditPager<u32> = AuditPager::new();
    assert_eq!(pager.filter_label(), "all actions");
    let first = pager.refresh().expect("a first load is requested");
    assert_eq!(first.action, None);
    assert_eq!(first.cursor, None);
    assert_eq!(first.limit, AUDIT_PAGE_LIMIT);
    pager.apply(Ok((vec![1, 2], Some("c1".to_owned()))));
    assert!(pager.has_more());
    let req = pager.cycle_filter().expect("cycling reloads");
    assert_eq!(req.action, Some("message."));
    assert_eq!(pager.filter_label(), "messages");
    assert!(!pager.has_more());
    assert_eq!(pager.list().selected_index(), 0);
    pager.apply(Ok((vec![3], None)));
    for _ in 0..6 {
        let _ = pager.cycle_filter();
        pager.apply(Ok((Vec::new(), None)));
    }
    assert_eq!(pager.filter_label(), "all actions");
}

#[test]
fn audit_load_more_appends_with_the_cursor() {
    let mut pager: AuditPager<u32> = AuditPager::new();
    assert!(pager.load_more().is_none(), "no cursor, no further page");
    pager.refresh();
    pager.apply(Ok((vec![1, 2], Some("next".to_owned()))));
    let more = pager.load_more().expect("a further page");
    assert_eq!(more.cursor.as_deref(), Some("next"));
    assert!(pager.load_more().is_none(), "one request at a time");
    pager.apply(Ok((vec![3], None)));
    match pager.list().state() {
        Remote::Ready { value, .. } => assert_eq!(value, &vec![1, 2, 3]),
        _ => panic!("expected a list on show"),
    }
    assert!(!pager.has_more());
    pager.refresh();
    pager.apply(Err("forbidden".to_owned()));
    assert!(matches!(pager.list().state(), Remote::Failed { .. }));
}

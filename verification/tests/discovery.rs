use scjail_crawler_service::crawl::{
    fetch_records, fetch_records_filtered, get_relative_listings_urls_for_last_two_days,
    inmate_sysids, inmate_sysids_old_to_new, last_two_days_of_links, listing_url, route,
    sysids_of_links, Route, WalkAction, WalkEvent, Walker,
};
use scjail_crawler_service::filter::{Blacklist, RecentRow, Updatelist};
use scjail_crawler_service::inmate::{
    BondInformation, ChargeInformation, InmateProfile, Record,
};
use scjail_crawler_service::utils::get_blacklist_and_updatelist;
use scjail_crawler_service::Error;

fn row(id: i32, sys_id: Option<&str>, img_url: Option<&str>) -> RecentRow {
    RecentRow {
        id,
        scil_sysid: sys_id.map(|s| s.to_string()),
        img_url: img_url.map(|s| s.to_string()),
    }
}

fn record(sys_id: &str) -> Record {
    let mut profile = InmateProfile::default();
    profile.scil_sys_id = Some(sys_id.to_string());
    Record {
        url: Record::request_url(sys_id),
        profile,
        bond: BondInformation { bonds: Vec::new() },
        charges: ChargeInformation { charges: Vec::new() },
    }
}

fn keys(items: &[&str]) -> Vec<String> {
    items.iter().map(|s| s.to_string()).collect()
}

fn lists(rows: Vec<RecentRow>) -> (Blacklist, Updatelist) {
    get_blacklist_and_updatelist(&rows)
}

fn walk(
    sys_ids: &[&str],
    rows: Vec<RecentRow>,
    stop_early: bool,
    failing: &[&str],
) -> (Vec<String>, usize, Vec<Record>, Vec<(i32, Record)>) {
    let (blacklist, updatelist) = lists(rows);
    let (mut walker, mut action) = Walker::new(keys(sys_ids), blacklist, updatelist, stop_early);
    let mut fetched = Vec::new();
    let mut pauses = 0;
    let mut steps = 0;
    loop {
        assert!(steps < 1000);
        steps += 1;
        action = match action {
            WalkAction::Done => break,
            WalkAction::Pause => {
                pauses += 1;
                walker.advance(WalkEvent::Paused)
            }
            WalkAction::Fetch { sys_id, route } => {
                fetched.push(format!("{} {:?}", sys_id, route));
                let outcome = if failing.contains(&sys_id.as_str()) {
                    Err(Error::ParseError)
                } else {
                    Ok(record(&sys_id))
                };
                walker.advance(WalkEvent::Fetched(outcome))
            }
        };
    }
    assert!(walker.is_done());
    let (new_records, update_records) = walker.into_records();
    (fetched, pauses, new_records, update_records)
}

const LISTING: &str = r#"<html><body><table class="inmates-table">
<tr><th>Name</th></tr>
<tr><td><a href="?sysid=30">Newest</a></td><td>x</td></tr>
<tr><td><a name="anchor">No link</a></td></tr>
<tr><td><a href="?sysid=20">Middle</a></td></tr>
<tr><td><a href="?sysid=10">Oldest</a></td></tr>
</table><a href="?sysid=99">outside the table</a></body></html>"#;

#[test]
fn a_listing_names_its_records_newest_first() {
    assert_eq!(
        inmate_sysids(LISTING).unwrap(),
        vec!["?sysid=30", "?sysid=20", "?sysid=10"]
    );
    assert!(inmate_sysids("<html></html>").unwrap().is_empty());
}

#[test]
fn candidates_are_met_oldest_first() {
    assert_eq!(
        inmate_sysids_old_to_new(LISTING).unwrap(),
        vec!["?sysid=10", "?sysid=20", "?sysid=30"]
    );
    assert!(inmate_sysids_old_to_new("").unwrap().is_empty());
}

#[test]
fn links_without_target_name_no_record() {
    let links = vec![Some("a".to_string()), None, Some("b".to_string()), None];
    assert_eq!(sysids_of_links(&links), vec!["a", "b"]);
    assert!(sysids_of_links(&vec![None]).is_empty());
}

#[test]
fn the_last_two_days_are_listed_older_day_first() {
    let front = r#"<ul><li class="dayselection"><a href="?comdate=today">Today</a></li>
<li class="dayselection"><a href="?comdate=yesterday">Yesterday</a></li>
<li class="dayselection"><a href="?comdate=earlier">Earlier</a></li>
<li class="other"><a href="?comdate=never">Other</a></li></ul>"#;
    let urls = get_relative_listings_urls_for_last_two_days(front).unwrap();
    assert_eq!(urls, vec!["?comdate=yesterday", "?comdate=today"]);
    assert!(urls.len() > 0);
    for url in urls.iter() {
        assert!(url.contains("comdate"));
    }
    assert_eq!(
        listing_url(&urls[0]),
        "https://www.scottcountyiowa.us/sheriff/inmates.php?comdate=yesterday"
    );
}

#[test]
fn only_the_first_two_day_links_count() {
    let day = |s: &str| Some(s.to_string());
    assert_eq!(
        last_two_days_of_links(&vec![day("t"), day("y"), day("e")]),
        vec!["y", "t"]
    );
    assert_eq!(last_two_days_of_links(&vec![day("t"), None, day("e")]), vec!["t"]);
    assert_eq!(last_two_days_of_links(&vec![None, day("y")]), vec!["y"]);
    assert_eq!(last_two_days_of_links(&vec![day("t")]), vec!["t"]);
    assert!(last_two_days_of_links(&Vec::new()).is_empty());
    let front = "<ul><li class=\"dayselection\"><a href=\"?comdate=only\">x</a></li></ul>";
    assert_eq!(
        get_relative_listings_urls_for_last_two_days(front).unwrap(),
        vec!["?comdate=only"]
    );
}

#[test]
fn recent_rows_are_parted_by_their_photo() {
    let (blacklist, updatelist) = lists(vec![
        row(9, Some("k9"), Some("mugshots/9")),
        row(8, Some("k8"), Some("")),
        row(7, Some("k7"), None),
        row(6, None, Some("mugshots/6")),
        row(5, None, None),
        row(4, Some("k4"), Some("x")),
    ]);
    assert!(blacklist.contains("k9"));
    assert!(blacklist.contains("k4"));
    assert!(!blacklist.contains("k8"));
    assert!(!blacklist.contains("k7"));
    assert!(!blacklist.contains(""));
    assert_eq!(blacklist.count(), 2);
    assert_eq!(updatelist.get("k8"), Some(8));
    assert_eq!(updatelist.get("k7"), Some(7));
    assert_eq!(updatelist.get("k9"), None);
    assert_eq!(updatelist.get("k4"), None);
    assert_eq!(updatelist.get(""), None);
    assert!(!updatelist.is_empty());
}

#[test]
fn no_recent_rows_give_empty_lists() {
    let (blacklist, updatelist) = lists(Vec::new());
    assert_eq!(blacklist.count(), 0);
    assert!(updatelist.is_empty());
    assert!(!blacklist.contains("k"));
    assert_eq!(updatelist.get("k"), None);
}

#[test]
fn of_two_rows_with_one_identifier_the_later_gives_the_row() {
    let (blacklist, updatelist) = lists(vec![
        row(9, Some("k"), None),
        row(8, Some("k"), Some("")),
        row(7, Some("j"), Some("x")),
        row(6, Some("j"), Some("y")),
    ]);
    assert_eq!(updatelist.get("k"), Some(8));
    assert!(blacklist.contains("j"));
    assert_eq!(blacklist.count(), 1);
}

#[test]
fn the_lists_hold_each_identifier_once() {
    let list = Blacklist::new().insert("a".to_string()).insert("a".to_string());
    assert_eq!(list.count(), 1);
    assert!(list.contains("a"));
    let list = Updatelist::new()
        .insert("a".to_string(), 1)
        .insert("b".to_string(), 2)
        .insert("a".to_string(), 3);
    assert_eq!(list.get("a"), Some(3));
    assert_eq!(list.get("b"), Some(2));
    assert_eq!(list.get("c"), None);
}

#[test]
fn a_candidate_is_routed_by_the_lists() {
    let (blacklist, updatelist) = lists(vec![
        row(3, Some("done"), Some("url")),
        row(2, Some("half"), None),
        row(1, Some("both"), Some("url")),
        row(0, Some("both"), None),
    ]);
    assert_eq!(route("done", &blacklist, &updatelist), Route::Skip);
    assert_eq!(route("half", &blacklist, &updatelist), Route::Backfill(2));
    assert_eq!(route("new", &blacklist, &updatelist), Route::Harvest);
    assert_eq!(route("both", &blacklist, &updatelist), Route::Skip);
}

#[test]
fn a_walk_skips_what_is_stored_and_routes_the_rest() {
    let rows = vec![row(5, Some("b"), Some("url")), row(4, Some("d"), None)];
    let (fetched, pauses, new_records, update_records) =
        walk(&["a", "b", "c", "d", "e"], rows, false, &[]);
    assert_eq!(
        fetched,
        vec!["a Harvest", "c Harvest", "d Backfill(4)", "e Harvest"]
    );
    assert_eq!(pauses, 4);
    let new_keys: Vec<_> = new_records.iter().map(|r| r.profile.scil_sys_id.clone().unwrap()).collect();
    assert_eq!(new_keys, vec!["a", "c", "e"]);
    assert_eq!(update_records.len(), 1);
    assert_eq!(update_records[0].0, 4);
    assert_eq!(update_records[0].1.profile.scil_sys_id, Some("d".to_string()));
}

#[test]
fn a_failing_record_does_not_stop_the_walk() {
    let sys_ids = ["1", "2", "3", "4", "5", "6", "7", "8", "9", "10"];
    let (fetched, pauses, new_records, update_records) = walk(&sys_ids, Vec::new(), false, &["5"]);
    let expected: Vec<String> = sys_ids.iter().map(|k| format!("{} Harvest", k)).collect();
    assert_eq!(fetched, expected);
    assert_eq!(pauses, 10);
    let new_keys: Vec<_> = new_records.iter().map(|r| r.profile.scil_sys_id.clone().unwrap()).collect();
    assert_eq!(new_keys, vec!["1", "2", "3", "4", "6", "7", "8", "9", "10"]);
    assert!(update_records.is_empty());
}

#[test]
fn a_walk_where_every_record_fails_still_tries_them_all() {
    let (fetched, _, new_records, update_records) =
        walk(&["a", "b", "c"], vec![row(1, Some("b"), None)], false, &["a", "b", "c"]);
    assert_eq!(fetched, vec!["a Harvest", "b Backfill(1)", "c Harvest"]);
    assert!(new_records.is_empty());
    assert!(update_records.is_empty());
}

#[test]
fn a_walk_that_stops_early_tries_one_candidate() {
    let rows = vec![row(5, Some("a"), Some("url"))];
    let (fetched, pauses, new_records, _) = walk(&["a", "b", "c"], rows, true, &[]);
    assert_eq!(fetched, vec!["b Harvest"]);
    assert_eq!(pauses, 0);
    assert_eq!(new_records.len(), 1);
    let (fetched, pauses, new_records, _) = walk(&["a", "b"], Vec::new(), true, &["a"]);
    assert_eq!(fetched, vec!["a Harvest"]);
    assert_eq!(pauses, 0);
    assert!(new_records.is_empty());
}

#[test]
fn a_walk_over_nothing_is_over_at_once() {
    let (fetched, pauses, new_records, update_records) = walk(&[], Vec::new(), false, &[]);
    assert!(fetched.is_empty());
    assert_eq!(pauses, 0);
    assert!(new_records.is_empty());
    assert!(update_records.is_empty());
    let rows = vec![row(1, Some("a"), Some("u")), row(2, Some("b"), Some("u"))];
    let (fetched, _, _, _) = walk(&["a", "b", "a"], rows, false, &[]);
    assert!(fetched.is_empty());
}

#[test]
fn an_event_that_was_not_awaited_changes_nothing() {
    let (blacklist, updatelist) = lists(Vec::new());
    let (mut walker, action) = Walker::new(keys(&["a", "b"]), blacklist, updatelist, false);
    assert!(matches!(action, WalkAction::Fetch { .. }));
    match walker.advance(WalkEvent::Paused) {
        WalkAction::Fetch { sys_id, route } => {
            assert_eq!(sys_id, "a");
            assert_eq!(route, Route::Harvest);
        }
        _ => panic!("the fetch is asked for again"),
    }
    assert!(matches!(walker.advance(WalkEvent::Fetched(Ok(record("a")))), WalkAction::Pause));
    assert!(matches!(
        walker.advance(WalkEvent::Fetched(Ok(record("stray")))),
        WalkAction::Pause
    ));
    assert!(matches!(walker.advance(WalkEvent::Paused), WalkAction::Fetch { .. }));
    assert!(matches!(walker.advance(WalkEvent::Fetched(Err(Error::NetworkError))), WalkAction::Pause));
    assert!(matches!(walker.advance(WalkEvent::Paused), WalkAction::Done));
    assert!(matches!(walker.advance(WalkEvent::Paused), WalkAction::Done));
    let (new_records, _) = walker.into_records();
    assert_eq!(new_records.len(), 1);
}

#[test]
fn a_walk_starts_from_a_listing() {
    let (blacklist, updatelist) = lists(vec![row(1, Some("?sysid=10"), Some("url"))]);
    let (walker, action) = Walker::from_listing(LISTING, blacklist, updatelist, false).unwrap();
    match action {
        WalkAction::Fetch { sys_id, route } => {
            assert_eq!(sys_id, "?sysid=20");
            assert_eq!(route, Route::Harvest);
        }
        _ => panic!("the oldest candidate that is not stored comes first"),
    }
    assert!(!walker.is_done());
}

#[test]
fn a_harvest_without_lists_skips_nothing() {
    let (mut walker, action) = fetch_records(LISTING, false).unwrap();
    let mut fetched = Vec::new();
    let mut action = action;
    loop {
        action = match action {
            WalkAction::Done => break,
            WalkAction::Pause => walker.advance(WalkEvent::Paused),
            WalkAction::Fetch { sys_id, route } => {
                assert_eq!(route, Route::Harvest);
                fetched.push(sys_id);
                walker.advance(WalkEvent::Fetched(Err(Error::NetworkError)))
            }
        };
    }
    assert_eq!(fetched, vec!["?sysid=10", "?sysid=20", "?sysid=30"]);
}

#[test]
fn a_harvest_with_lists_follows_them() {
    let (blacklist, updatelist) = lists(vec![
        row(2, Some("?sysid=20"), Some("url")),
        row(1, Some("?sysid=10"), None),
    ]);
    let (mut walker, action) =
        fetch_records_filtered(LISTING, blacklist, updatelist, false).unwrap();
    let mut fetched = Vec::new();
    let mut action = action;
    loop {
        action = match action {
            WalkAction::Done => break,
            WalkAction::Pause => walker.advance(WalkEvent::Paused),
            WalkAction::Fetch { sys_id, route } => {
                fetched.push((sys_id.clone(), route));
                walker.advance(WalkEvent::Fetched(Ok(record(&sys_id))))
            }
        };
    }
    assert_eq!(
        fetched,
        vec![
            ("?sysid=10".to_string(), Route::Backfill(1)),
            ("?sysid=30".to_string(), Route::Harvest)
        ]
    );
    let (new_records, update_records) = walker.into_records();
    assert_eq!(new_records.len(), 1);
    assert_eq!(update_records.len(), 1);
    assert_eq!(update_records[0].0, 1);
}

use squad_browser::filter::FilterCriteria;
use squad_browser::record::RawRecord;
use squad_browser::scan::FetchFailure;
use squad_browser::scan::RawPage;
use squad_browser::scan::ScanRun;

fn criteria() -> FilterCriteria {
    FilterCriteria {
        min_players: 10,
        max_players: 90,
        banned_countries: vec!["RU".to_string()],
        filter_name: String::new(),
        filter_map: String::new(),
        filter_mode: String::new(),
    }
}

fn raw(name: &str, country: &str) -> RawRecord {
    RawRecord {
        name: Some(name.to_string()),
        players: Some(30),
        max_players: Some(100),
        map: Some("Narva".to_string()),
        mode: Some("RAAS".to_string()),
        country: Some(country.to_string()),
    }
}

fn page(names: Vec<&str>, next: Option<&str>) -> RawPage {
    RawPage {
        records: names.into_iter().map(|n| raw(n, "DE")).collect(),
        next: next.map(|s| s.to_string()),
    }
}

#[test]
fn fresh_run_fetches_at_most_three_pages() {
    let mut run = ScanRun::new(criteria(), String::new());
    let mut fetched = 0;
    while let Some(req) = run.pending_request() {
        assert!(!req.url.is_empty());
        run.apply_page(&page(vec!["a"], Some("https://example.test/page-next")));
        fetched += 1;
        assert!(fetched <= 3);
    }
    assert_eq!(fetched, 3);
    let batch = run.into_batch();
    assert_eq!(batch.servers.len(), 3);
    assert_eq!(batch.next_url, "https://example.test/page-next");
}

#[test]
fn fresh_run_stops_at_first_empty_continuation() {
    let mut run = ScanRun::new(criteria(), String::new());
    let mut fetched = 0;
    while let Some(_req) = run.pending_request() {
        run.apply_page(&page(vec!["a"], None));
        fetched += 1;
    }
    assert_eq!(fetched, 1);
    let batch = run.into_batch();
    assert_eq!(batch.next_url, "");
}

#[test]
fn continuation_run_fetches_exactly_one_page() {
    let mut run = ScanRun::new(criteria(), "https://example.test/stored".to_string());
    let req = run.pending_request().expect("first page owed");
    assert_eq!(req.url, "https://example.test/stored");
    assert!(!req.apply_bounds);
    run.apply_page(&page(vec!["a"], Some("https://example.test/even-more")));
    assert!(run.pending_request().is_none());
    let batch = run.into_batch();
    assert_eq!(batch.servers.len(), 1);
    assert_eq!(batch.next_url, "https://example.test/even-more");
}

#[test]
fn fresh_run_applies_player_bounds() {
    let run = ScanRun::new(criteria(), String::new());
    let req = run.pending_request().expect("first page owed");
    assert!(req.apply_bounds);
    assert_eq!(req.min_players, 10);
    assert_eq!(req.max_players, 90);
    assert!(req.url.starts_with("https://api.battlemetrics.com/servers?"));
}

#[test]
fn empty_string_continuation_link_ends_run() {
    let mut run = ScanRun::new(criteria(), String::new());
    run.apply_page(&page(vec!["a"], Some("")));
    assert!(run.pending_request().is_none());
    assert_eq!(run.into_batch().next_url, "");
}

#[test]
fn failure_degrades_to_partial_batch() {
    let mut run = ScanRun::new(criteria(), String::new());
    run.apply_page(&page(vec!["a", "b"], Some("https://example.test/next")));
    run.apply_failure(FetchFailure::Transport);
    assert!(run.pending_request().is_none());
    let batch = run.into_batch();
    assert_eq!(batch.servers.len(), 2);
    assert_eq!(batch.next_url, "");
}

#[test]
fn parse_failure_degrades_like_transport_failure() {
    let mut run = ScanRun::new(criteria(), String::new());
    run.apply_failure(FetchFailure::Parse);
    assert!(run.pending_request().is_none());
    let batch = run.into_batch();
    assert!(batch.servers.is_empty());
    assert_eq!(batch.next_url, "");
}

#[test]
fn scenario_record_without_players_is_skipped() {
    let mut run = ScanRun::new(criteria(), String::new());
    let mut records = vec![raw("first", "DE")];
    let mut broken = raw("broken", "DE");
    broken.players = None;
    records.push(broken);
    records.push(raw("last", "DE"));
    let p = RawPage { records, next: None };
    run.apply_page(&p);
    let batch = run.into_batch();
    let names: Vec<&str> = batch.servers.iter().map(|s| s.name.as_str()).collect();
    assert_eq!(names, vec!["first", "last"]);
}

#[test]
fn filtered_records_preserve_page_order() {
    let mut run = ScanRun::new(criteria(), String::new());
    let p = RawPage {
        records: vec![raw("one", "DE"), raw("two", "RU"), raw("three", "FR")],
        next: None,
    };
    run.apply_page(&p);
    let batch = run.into_batch();
    let names: Vec<&str> = batch.servers.iter().map(|s| s.name.as_str()).collect();
    assert_eq!(names, vec!["one", "three"]);
}

#[test]
fn run_follows_continuation_links_between_pages() {
    let mut run = ScanRun::new(criteria(), String::new());
    run.apply_page(&page(vec!["a"], Some("https://example.test/p2")));
    let req = run.pending_request().expect("second page owed");
    assert_eq!(req.url, "https://example.test/p2");
}

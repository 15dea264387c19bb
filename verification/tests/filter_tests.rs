use squad_browser::filter::FilterCriteria;
use squad_browser::filter::keep;
use squad_browser::filter::keep_folded;
use squad_browser::record::ServerRecord;
use squad_browser::text::contains_str;
use squad_browser::text::str_eq;

fn criteria(banned: Vec<&str>) -> FilterCriteria {
    FilterCriteria {
        min_players: 0,
        max_players: 100,
        banned_countries: banned.into_iter().map(|s| s.to_string()).collect(),
        filter_name: String::new(),
        filter_map: String::new(),
        filter_mode: String::new(),
    }
}

fn record(country: &str, name: &str) -> ServerRecord {
    ServerRecord {
        name: name.to_string(),
        players: 50,
        max_players: 100,
        map: "Narva".to_string(),
        mode: "RAAS".to_string(),
        country: country.to_string(),
    }
}

#[test]
fn scenario_banned_country_dropped() {
    let c = criteria(vec!["RU"]);
    let r = record("RU", "Normal Server");
    assert!(!keep(&r, &c));
}

#[test]
fn scenario_name_heuristic_fires_for_other_country() {
    let c = criteria(vec!["CN"]);
    let r = record("DE", "ASIA FARM #1");
    assert!(!keep(&r, &c));
}

#[test]
fn scenario_home_country_exempt() {
    let c = criteria(vec!["RU"]);
    let r = record("UA", "MOSCOW ROLEPLAY");
    assert!(keep(&r, &c));
}

#[test]
fn unbanned_country_kept() {
    let c = criteria(vec!["RU"]);
    let r = record("DE", "Plain European Server");
    assert!(keep(&r, &c));
}

#[test]
fn ru_heuristic_case_insensitive() {
    let c = criteria(vec!["RU"]);
    let r = record("DE", "wagner fan club");
    assert!(!keep(&r, &c));
}

#[test]
fn heuristic_silent_when_country_not_banned() {
    let c = criteria(vec!["BR"]);
    let r = record("DE", "MOSCOW ROLEPLAY");
    assert!(keep(&r, &c));
}

#[test]
fn map_filter_matches_case_insensitively() {
    let mut c = criteria(vec![]);
    c.filter_map = "narva".to_string();
    let r = record("DE", "Some Server");
    assert!(keep(&r, &c));
    c.filter_map = "fallujah".to_string();
    assert!(!keep(&r, &c));
}

#[test]
fn mode_filter_matches_case_insensitively() {
    let mut c = criteria(vec![]);
    c.filter_mode = "raas".to_string();
    let r = record("DE", "Some Server");
    assert!(keep(&r, &c));
    c.filter_mode = "invasion".to_string();
    assert!(!keep(&r, &c));
}

#[test]
fn name_filter_matches_case_insensitively() {
    let mut c = criteria(vec![]);
    c.filter_name = "european".to_string();
    let r = record("DE", "Plain European Server");
    assert!(keep(&r, &c));
    c.filter_name = "asian".to_string();
    assert!(!keep(&r, &c));
}

#[test]
fn empty_filters_keep_everything() {
    let c = criteria(vec![]);
    let r = record("DE", "Anything");
    assert!(keep(&r, &c));
}

#[test]
fn keep_folded_drops_on_banned_country() {
    let banned = vec!["RU".to_string()];
    assert!(!keep_folded(
        &banned,
        "RU",
        "NORMAL SERVER",
        "normal server",
        "narva",
        "raas",
        "",
        "",
        ""
    ));
}

#[test]
fn keep_folded_home_country_wins() {
    let banned = vec!["RU".to_string()];
    assert!(keep_folded(
        &banned,
        "UA",
        "MOSCOW ROLEPLAY",
        "moscow roleplay",
        "narva",
        "raas",
        "",
        "",
        ""
    ));
}

#[test]
fn keep_folded_applies_lowered_filters() {
    let banned: Vec<String> = Vec::new();
    assert!(keep_folded(
        &banned,
        "DE",
        "SOME SERVER",
        "some server",
        "narva",
        "raas",
        "server",
        "nar",
        "ra"
    ));
    assert!(!keep_folded(
        &banned,
        "DE",
        "SOME SERVER",
        "some server",
        "narva",
        "raas",
        "missing",
        "",
        ""
    ));
}

#[test]
fn ban_and_unban_round_trip() {
    let mut c = criteria(vec!["RU"]);
    assert!(c.is_banned("RU"));
    assert!(!c.is_banned("SG"));
    c.ban_country("SG");
    assert!(c.is_banned("SG"));
    c.ban_country("SG");
    assert_eq!(c.banned_countries.len(), 2);
    c.unban_country("SG");
    assert!(!c.is_banned("SG"));
    assert!(c.is_banned("RU"));
}

#[test]
fn str_eq_compares_characters() {
    assert!(str_eq("abc", "abc"));
    assert!(!str_eq("abc", "abd"));
    assert!(!str_eq("abc", "ab"));
    assert!(str_eq("", ""));
}

#[test]
fn contains_str_finds_substrings() {
    assert!(contains_str("ASIA FARM #1", "ASIA"));
    assert!(contains_str("ASIA FARM #1", "FARM"));
    assert!(contains_str("ASIA FARM #1", "#1"));
    assert!(!contains_str("ASIA FARM #1", "EUROPE"));
    assert!(contains_str("anything", ""));
    assert!(!contains_str("", "x"));
}

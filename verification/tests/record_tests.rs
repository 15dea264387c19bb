use squad_browser::record::MalformedRecord;
use squad_browser::record::RawRecord;
use squad_browser::record::normalize;
use squad_browser::text::truncate_name;

fn full_raw(name: &str) -> RawRecord {
    RawRecord {
        name: Some(name.to_string()),
        players: Some(42),
        max_players: Some(100),
        map: Some("Narva".to_string()),
        mode: Some("RAAS".to_string()),
        country: Some("DE".to_string()),
    }
}

#[test]
fn normalize_keeps_all_fields() {
    let rec = normalize(&full_raw("My Server")).unwrap();
    assert_eq!(rec.name, "My Server");
    assert_eq!(rec.players, 42);
    assert_eq!(rec.max_players, 100);
    assert_eq!(rec.map, "Narva");
    assert_eq!(rec.mode, "RAAS");
    assert_eq!(rec.country, "DE");
}

#[test]
fn normalize_defaults_optional_fields() {
    let mut raw = full_raw("My Server");
    raw.map = None;
    raw.mode = None;
    raw.country = None;
    let rec = normalize(&raw).unwrap();
    assert_eq!(rec.map, "Unknown");
    assert_eq!(rec.mode, "Unknown");
    assert_eq!(rec.country, "??");
}

#[test]
fn normalize_fails_on_missing_name() {
    let mut raw = full_raw("My Server");
    raw.name = None;
    assert_eq!(normalize(&raw).unwrap_err(), MalformedRecord::MissingName);
}

#[test]
fn normalize_fails_on_missing_players() {
    let mut raw = full_raw("My Server");
    raw.players = None;
    assert_eq!(normalize(&raw).unwrap_err(), MalformedRecord::MissingPlayers);
}

#[test]
fn normalize_fails_on_missing_capacity() {
    let mut raw = full_raw("My Server");
    raw.max_players = None;
    assert_eq!(normalize(&raw).unwrap_err(), MalformedRecord::MissingCapacity);
}

#[test]
fn scenario_forty_nine_a_name_truncated() {
    let name = "A".repeat(49);
    assert_eq!(name.len(), 49);
    let raw = full_raw(&name);
    let rec = normalize(&raw).unwrap();
    let expected = format!("{}...", "A".repeat(45));
    assert_eq!(rec.name, expected);
    assert_eq!(rec.name.chars().count(), 48);
}

#[test]
fn short_names_kept_verbatim() {
    let name = "A".repeat(48);
    let rec = normalize(&full_raw(&name)).unwrap();
    assert_eq!(rec.name, name);
}

#[test]
fn truncation_is_idempotent() {
    let name = "B".repeat(120);
    let once = truncate_name(&name);
    let twice = truncate_name(&once);
    assert_eq!(once, twice);
    assert_eq!(once, format!("{}...", "B".repeat(45)));
}

#[test]
fn truncation_counts_characters_not_bytes() {
    let name = "\u{0413}".repeat(60);
    let cut = truncate_name(&name);
    assert_eq!(cut.chars().count(), 48);
    assert_eq!(cut, format!("{}...", "\u{0413}".repeat(45)));
}

use iso_catalog::assembly::assemble_source;
use iso_catalog::assembly::retained_records;
use iso_catalog::assembly::validate_and_assemble;
use iso_catalog::assembly::validate_records;
use iso_catalog::store_data::Arch;
use iso_catalog::store_data::Config;
use iso_catalog::store_data::Source;
use iso_catalog::store_data::SourceMeta;
use iso_catalog::store_data::WebSource;
use iso_catalog::validate::ProbeOutcome;
use iso_catalog::validate::ProbeTable;

fn meta() -> SourceMeta {
    SourceMeta {
        name: "example".to_string(),
        pretty_name: "Example".to_string(),
        homepage: Some("https://example.org/".to_string()),
        description: None,
    }
}

fn record(release: &str, url: &str) -> Config {
    Config {
        release: release.to_string(),
        edition: None,
        arch: Arch::x86_64,
        iso: Some(vec![Source::Web(WebSource::new(url.to_string(), None, None, None))]),
        img: None,
        fixed_iso: None,
        floppy: None,
        disk_images: None,
    }
}

#[test]
fn generator_returning_none_emits_no_entry() {
    let table = ProbeTable::new();
    assert_eq!(validate_and_assemble(meta(), None, &table), None);
}

#[test]
fn generator_returning_empty_list_emits_no_entry() {
    let table = ProbeTable::new();
    assert_eq!(validate_and_assemble(meta(), Some(vec![]), &table), None);
}

#[test]
fn source_with_no_surviving_record_emits_no_entry() {
    let mut table = ProbeTable::new();
    table.push("https://dead.example/a".to_string(), ProbeOutcome::Status(404));
    table.push("https://dead.example/b".to_string(), ProbeOutcome::Transport);
    let generated = vec![
        record("1.0", "https://dead.example/a"),
        record("2.0", "https://dead.example/b"),
    ];
    assert_eq!(validate_and_assemble(meta(), Some(generated), &table), None);
}

#[test]
fn only_validated_records_are_retained_in_generator_order() {
    let mut table = ProbeTable::new();
    table.push("https://live.example/a".to_string(), ProbeOutcome::Status(200));
    table.push("https://dead.example/b".to_string(), ProbeOutcome::Status(404));
    table.push("https://slow.example/c".to_string(), ProbeOutcome::Status(429));
    let generated = vec![
        record("1.0", "https://live.example/a"),
        record("2.0", "https://dead.example/b"),
        record("3.0", "https://slow.example/c"),
    ];
    let entry = validate_and_assemble(meta(), Some(generated), &table).unwrap();
    assert_eq!(entry.name, "example".to_string());
    assert_eq!(entry.pretty_name, "Example".to_string());
    assert_eq!(entry.homepage, Some("https://example.org/".to_string()));
    assert_eq!(entry.releases.len(), 2);
    assert_eq!(entry.releases[0].release, "1.0".to_string());
    assert_eq!(entry.releases[1].release, "3.0".to_string());
}

#[test]
fn replaying_the_same_fixed_responses_yields_an_identical_entry() {
    let mut table = ProbeTable::new();
    table.push("https://live.example/a".to_string(), ProbeOutcome::Status(200));
    table.push("https://dead.example/b".to_string(), ProbeOutcome::Status(500));
    let generated = || {
        vec![
            record("1.0", "https://live.example/a"),
            record("2.0", "https://dead.example/b"),
        ]
    };
    let first = validate_and_assemble(meta(), Some(generated()), &table);
    let second = validate_and_assemble(meta(), Some(generated()), &table);
    assert_eq!(first, second);
    let verdicts_first = validate_records(&generated(), &table);
    let verdicts_second = validate_records(&generated(), &table);
    assert_eq!(verdicts_first, verdicts_second);
    assert_eq!(verdicts_first, vec![true, false]);
}

#[test]
fn retained_records_follow_the_verdicts() {
    let records = vec![
        record("1.0", "https://a.example/"),
        record("2.0", "https://b.example/"),
        record("3.0", "https://c.example/"),
    ];
    let verdicts = vec![false, true, true];
    let kept = retained_records(records, &verdicts);
    assert_eq!(kept.len(), 2);
    assert_eq!(kept[0].release, "2.0".to_string());
    assert_eq!(kept[1].release, "3.0".to_string());
}

#[test]
fn assemble_source_refuses_an_empty_survivor_set() {
    let records = vec![record("1.0", "https://a.example/")];
    let verdicts = vec![false];
    assert_eq!(assemble_source(meta(), Some(records), &verdicts), None);
}

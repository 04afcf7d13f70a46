use iso_catalog::store_data::Config;
use iso_catalog::store_data::Disk;
use iso_catalog::store_data::Source;
use iso_catalog::store_data::WebSource;
use iso_catalog::store_data::Arch;
use iso_catalog::store_data::extract_disk_urls;
use iso_catalog::store_data::filter_web_sources;
use iso_catalog::validate::ProbeOutcome;
use iso_catalog::validate::ProbeTable;
use iso_catalog::validate::all_valid;
use iso_catalog::validate::probe_ok;
use iso_catalog::validate::record_urls;
use iso_catalog::validate::record_valid;

fn web(url: &str) -> Source {
    Source::Web(WebSource::new(url.to_string(), None, None, None))
}

fn record_with_iso(urls: &[&str]) -> Config {
    Config {
        release: "1.0".to_string(),
        edition: None,
        arch: Arch::x86_64,
        iso: Some(urls.iter().map(|u| web(u)).collect()),
        img: None,
        fixed_iso: None,
        floppy: None,
        disk_images: None,
    }
}

#[test]
fn probe_classification_accepts_success_and_throttling_only() {
    assert!(probe_ok(&ProbeOutcome::Status(200)));
    assert!(probe_ok(&ProbeOutcome::Status(204)));
    assert!(probe_ok(&ProbeOutcome::Status(429)));
    assert!(!probe_ok(&ProbeOutcome::Status(301)));
    assert!(!probe_ok(&ProbeOutcome::Status(404)));
    assert!(!probe_ok(&ProbeOutcome::Status(500)));
    assert!(!probe_ok(&ProbeOutcome::Transport));
}

#[test]
fn record_with_one_dead_url_is_invalid() {
    let mut table = ProbeTable::new();
    table.push("https://a.example/iso".to_string(), ProbeOutcome::Status(200));
    table.push("https://b.example/iso".to_string(), ProbeOutcome::Status(429));
    table.push("https://c.example/iso".to_string(), ProbeOutcome::Status(404));
    let record = record_with_iso(&[
        "https://a.example/iso",
        "https://b.example/iso",
        "https://c.example/iso",
    ]);
    assert!(!record_valid(&record, &table));
}

#[test]
fn record_with_live_and_throttled_urls_is_valid() {
    let mut table = ProbeTable::new();
    table.push("https://a.example/iso".to_string(), ProbeOutcome::Status(200));
    table.push("https://b.example/iso".to_string(), ProbeOutcome::Status(429));
    let record = record_with_iso(&["https://a.example/iso", "https://b.example/iso"]);
    assert!(record_valid(&record, &table));
}

#[test]
fn record_with_no_network_urls_is_trivially_valid() {
    let table = ProbeTable::new();
    let record = record_with_iso(&[]);
    assert!(record_valid(&record, &table));
    let docker_only = Config {
        iso: Some(vec![Source::Docker("registry.example/image:1".to_string())]),
        ..record_with_iso(&[])
    };
    assert!(record_valid(&docker_only, &table));
}

#[test]
fn transport_error_fails_validation() {
    let mut table = ProbeTable::new();
    table.push("https://a.example/iso".to_string(), ProbeOutcome::Transport);
    let record = record_with_iso(&["https://a.example/iso"]);
    assert!(!record_valid(&record, &table));
}

#[test]
fn malformed_url_fails_validation() {
    let mut table = ProbeTable::new();
    table.push("no scheme here".to_string(), ProbeOutcome::Status(200));
    let urls = vec!["no scheme here".to_string()];
    assert!(!all_valid(&urls, &table));
}

#[test]
fn empty_url_list_is_valid() {
    let table = ProbeTable::new();
    assert!(all_valid(&vec![], &table));
}

#[test]
fn first_table_answer_wins() {
    let mut table = ProbeTable::new();
    table.push("https://a.example/".to_string(), ProbeOutcome::Status(404));
    table.push("https://a.example/".to_string(), ProbeOutcome::Status(200));
    let urls = vec!["https://a.example/".to_string()];
    assert!(!all_valid(&urls, &table));
}

#[test]
fn web_sources_are_filtered_in_order() {
    let sources = vec![
        web("https://a.example/1"),
        Source::Docker("registry.example/img:2".to_string()),
        web("https://c.example/3"),
    ];
    let urls = filter_web_sources(&sources);
    assert_eq!(urls, vec!["https://a.example/1".to_string(), "https://c.example/3".to_string()]);
}

#[test]
fn disk_urls_are_extracted_and_docker_disks_are_exempt() {
    let disks = vec![
        Disk { source: web("https://disk.example/root.qcow2"), size: Some(4096) },
        Disk { source: Source::Docker("registry.example/disk:1".to_string()), size: None },
    ];
    let urls = extract_disk_urls(Some(&disks));
    assert_eq!(urls, vec!["https://disk.example/root.qcow2".to_string()]);
    assert_eq!(extract_disk_urls(None), Vec::<String>::new());
}

#[test]
fn record_urls_walk_every_resource_variant() {
    let record = Config {
        release: "2.0".to_string(),
        edition: Some("plus".to_string()),
        arch: Arch::aarch64,
        iso: Some(vec![web("https://a.example/iso")]),
        img: Some(vec![web("https://b.example/img")]),
        fixed_iso: Some(vec![web("https://c.example/fixed")]),
        floppy: Some(vec![web("https://d.example/floppy")]),
        disk_images: Some(vec![Disk { source: web("https://e.example/disk"), size: None }]),
    };
    let urls = record_urls(&record);
    assert_eq!(
        urls,
        vec![
            "https://a.example/iso".to_string(),
            "https://b.example/img".to_string(),
            "https://c.example/fixed".to_string(),
            "https://d.example/floppy".to_string(),
            "https://e.example/disk".to_string(),
        ]
    );
}

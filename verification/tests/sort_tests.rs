use iso_catalog::sort::Cmp;
use iso_catalog::sort::distro_sort;
use iso_catalog::sort::parse_u64;
use iso_catalog::sort::release_cmp;
use iso_catalog::sort::sort_releases;
use iso_catalog::sort::str_cmp;
use iso_catalog::store_data::Arch;
use iso_catalog::store_data::Config;
use iso_catalog::store_data::OS;

fn record(release: &str, edition: Option<&str>) -> Config {
    Config {
        release: release.to_string(),
        edition: edition.map(|e| e.to_string()),
        arch: Arch::x86_64,
        iso: None,
        img: None,
        fixed_iso: None,
        floppy: None,
        disk_images: None,
    }
}

fn entry(name: &str, releases: Vec<Config>) -> OS {
    OS {
        name: name.to_string(),
        pretty_name: name.to_string(),
        homepage: None,
        description: None,
        releases,
    }
}

#[test]
fn str_cmp_is_lexicographic() {
    assert_eq!(str_cmp("alpha", "beta"), Cmp::Less);
    assert_eq!(str_cmp("beta", "alpha"), Cmp::Greater);
    assert_eq!(str_cmp("same", "same"), Cmp::Equal);
    assert_eq!(str_cmp("ab", "abc"), Cmp::Less);
}

#[test]
fn parse_u64_handles_signs_digits_and_overflow() {
    assert_eq!(parse_u64("42"), Some(42));
    assert_eq!(parse_u64("+42"), Some(42));
    assert_eq!(parse_u64("0"), Some(0));
    assert_eq!(parse_u64(""), None);
    assert_eq!(parse_u64("+"), None);
    assert_eq!(parse_u64("4a"), None);
    assert_eq!(parse_u64("18446744073709551615"), Some(u64::MAX));
    assert_eq!(parse_u64("18446744073709551616"), None);
}

#[test]
fn newer_numeric_release_comes_first() {
    // Numerically 1.10 is newer than 1.2, although it sorts later as text.
    assert_eq!(release_cmp(&record("1.10", None), &record("1.2", None)), Cmp::Less);
    assert_eq!(release_cmp(&record("1.2", None), &record("1.10", None)), Cmp::Greater);
    assert_eq!(release_cmp(&record("v2.0", None), &record("1.9", None)), Cmp::Less);
}

#[test]
fn equal_releases_fall_back_to_edition_ascending() {
    assert_eq!(
        release_cmp(&record("1.0", Some("kde")), &record("1.0", Some("xfce"))),
        Cmp::Less
    );
    assert_eq!(release_cmp(&record("1.0", None), &record("1.0", Some("kde"))), Cmp::Less);
    assert_eq!(release_cmp(&record("1.0", Some("kde")), &record("1.0", Some("kde"))), Cmp::Equal);
}

#[test]
fn non_numeric_releases_compare_as_text_descending() {
    assert_eq!(release_cmp(&record("beta", None), &record("alpha", None)), Cmp::Less);
    assert_eq!(release_cmp(&record("alpha", None), &record("beta", None)), Cmp::Greater);
}

#[test]
fn sort_releases_orders_newest_first() {
    let sorted = sort_releases(vec![
        record("1.2", None),
        record("1.10", None),
        record("0.9", None),
        record("2.0", None),
    ]);
    let names: Vec<String> = sorted.iter().map(|c| c.release.clone()).collect();
    assert_eq!(
        names,
        vec!["2.0".to_string(), "1.10".to_string(), "1.2".to_string(), "0.9".to_string()]
    );
}

#[test]
fn distro_sort_orders_entries_by_name_and_their_releases() {
    let catalog = vec![
        entry("fedora", vec![record("39", None), record("40", None)]),
        entry("alpine", vec![record("3.18", None), record("3.20", None)]),
    ];
    let sorted = distro_sort(catalog);
    assert_eq!(sorted.len(), 2);
    assert_eq!(sorted[0].name, "alpine".to_string());
    assert_eq!(sorted[1].name, "fedora".to_string());
    assert_eq!(sorted[0].releases[0].release, "3.20".to_string());
    assert_eq!(sorted[0].releases[1].release, "3.18".to_string());
    assert_eq!(sorted[1].releases[0].release, "40".to_string());
    assert_eq!(sorted[1].releases[1].release, "39".to_string());
}

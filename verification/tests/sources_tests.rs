use iso_catalog::bsd::FreeBSD;
use iso_catalog::linux::debian::Debian;
use iso_catalog::registry::registered_sources;
use iso_catalog::store_data::Arch;
use iso_catalog::store_data::Distro;
use iso_catalog::store_data::source_meta;
use iso_catalog::utils::arch_from_str;
use iso_catalog::utils::str_eq;
use iso_catalog::windows::Windows;

#[test]
fn arch_names_and_aliases_are_recognised() {
    assert_eq!(arch_from_str("x86_64"), Some(Arch::x86_64));
    assert_eq!(arch_from_str("amd64"), Some(Arch::x86_64));
    assert_eq!(arch_from_str("aarch64"), Some(Arch::aarch64));
    assert_eq!(arch_from_str("arm64"), Some(Arch::aarch64));
    assert_eq!(arch_from_str("riscv64"), Some(Arch::riscv64));
    assert_eq!(arch_from_str("riscv"), Some(Arch::riscv64));
    assert_eq!(arch_from_str("sparc"), None);
    assert_eq!(arch_from_str(""), None);
}

#[test]
fn string_equality_is_exact() {
    assert!(str_eq("amd64", "amd64"));
    assert!(!str_eq("amd64", "amd65"));
    assert!(!str_eq("amd64", "amd6"));
    assert!(str_eq("", ""));
}

#[test]
fn source_metadata_carries_the_registered_identity() {
    let m = FreeBSD::metadata();
    assert_eq!(m.name, "freebsd".to_string());
    assert_eq!(m.pretty_name, "FreeBSD".to_string());
    assert_eq!(m.homepage, Some("https://www.freebsd.org/".to_string()));
    assert!(m.description.is_some());
    let d = Debian::metadata();
    assert_eq!(d.name, "debian".to_string());
    let w = Windows::metadata();
    assert_eq!(w.pretty_name, "Windows".to_string());
}

#[test]
fn source_meta_copies_all_fields() {
    let m = source_meta("x", "X", None, Some("about x"));
    assert_eq!(m.name, "x".to_string());
    assert_eq!(m.pretty_name, "X".to_string());
    assert_eq!(m.homepage, None);
    assert_eq!(m.description, Some("about x".to_string()));
}

#[test]
fn every_source_is_registered_once() {
    let sources = registered_sources();
    assert_eq!(sources.len(), 36);
    assert_eq!(sources[0].name, "freebsd".to_string());
    assert_eq!(sources[35].name, "windows".to_string());
    let mut names: Vec<String> = sources.iter().map(|s| s.name.clone()).collect();
    names.sort();
    names.dedup();
    assert_eq!(names.len(), 36);
}

use iso_catalog::checksum::ChecksumSeparation;
use iso_catalog::checksum::checksum_for;
use iso_catalog::checksum::whitespace_pairs;

#[test]
fn whitespace_document_pairs_digest_then_name() {
    let data = "abc123 disc1.iso\ndef456 dvd1.iso\n";
    let pairs = whitespace_pairs(data);
    assert_eq!(
        pairs,
        vec![
            ("disc1.iso".to_string(), "abc123".to_string()),
            ("dvd1.iso".to_string(), "def456".to_string()),
        ]
    );
}

#[test]
fn whitespace_document_trims_and_skips_lines_without_a_space() {
    let data = "abc123  disc1.iso \r\nnospaceline\n\ndef456 dvd1.iso";
    let pairs = ChecksumSeparation::Whitespace.build_with_data(data);
    assert_eq!(
        pairs,
        vec![
            ("disc1.iso".to_string(), "abc123".to_string()),
            ("dvd1.iso".to_string(), "def456".to_string()),
        ]
    );
}

#[test]
fn sha256_pattern_extracts_name_and_digest() {
    let data = "SHA256 (FreeBSD-14.0-disc1.iso) = 0a1b2c\nnoise\nSHA256 (other.iso) = 3d4e5f\n";
    let pairs = ChecksumSeparation::Sha256Regex.build_with_data(data);
    assert_eq!(
        pairs,
        vec![
            ("FreeBSD-14.0-disc1.iso".to_string(), "0a1b2c".to_string()),
            ("other.iso".to_string(), "3d4e5f".to_string()),
        ]
    );
}

#[test]
fn md5_pattern_extracts_name_and_digest() {
    let data = "MD5 (dfly-x86_64-6.4.0_REL.iso.bz2) = aa11bb22\n";
    let pairs = ChecksumSeparation::Md5Regex.build_with_data(data);
    assert_eq!(pairs, vec![("dfly-x86_64-6.4.0_REL.iso.bz2".to_string(), "aa11bb22".to_string())]);
}

#[test]
fn custom_pattern_uses_the_given_capture_groups() {
    let sep = ChecksumSeparation::CustomRegex(r"(\w+)=(\w+)".to_string(), 1, 2);
    let pairs = sep.build_with_data("alpha=1 beta=2");
    assert_eq!(
        pairs,
        vec![("alpha".to_string(), "1".to_string()), ("beta".to_string(), "2".to_string())]
    );
}

#[test]
fn refused_custom_pattern_yields_no_pairs() {
    let sep = ChecksumSeparation::CustomRegex("(unclosed".to_string(), 1, 2);
    assert_eq!(sep.build_with_data("anything"), Vec::<(String, String)>::new());
}

#[test]
fn checksum_lookup_finds_the_last_entry_for_a_name() {
    let pairs = vec![
        ("disc1.iso".to_string(), "old".to_string()),
        ("dvd1.iso".to_string(), "bbb".to_string()),
        ("disc1.iso".to_string(), "new".to_string()),
    ];
    assert_eq!(checksum_for(&pairs, "disc1.iso"), Some("new".to_string()));
    assert_eq!(checksum_for(&pairs, "dvd1.iso"), Some("bbb".to_string()));
    assert_eq!(checksum_for(&pairs, "absent.iso"), None);
}

use rund::backup::{
    backup_file_name, backup_needed, content_hash, hex_digit_of, initial_hash, monitor_verdict,
    to_hex, SETTLE_DELAY_MS,
};
use sha2::{Digest, Sha256};

const EMPTY: &str = "e3b0c44298fc1c149afbf4c8996fb92427ae41e4649b934ca495991b7852b855";
const ABC: &str = "ba7816bf8f01cfea414140de5dae2223b00361a396177a9cb410ff61f20015ad";

#[test]
fn hex_digits() {
    let digits: String = (0u8..16).map(hex_digit_of).collect();
    assert_eq!(digits, "0123456789abcdef");
}

#[test]
fn bytes_in_hexadecimal() {
    assert_eq!(to_hex(&[]), "");
    assert_eq!(to_hex(&[0]), "00");
    assert_eq!(to_hex(&[10, 20, 30]), "0a141e");
    assert_eq!(to_hex(&[0xff, 0x00, 0xab, 0x09, 0x90]), "ff00ab0990");
    let all: Vec<u8> = (0u8..=255).collect();
    let expected: String = all.iter().map(|b| format!("{:02x}", b)).collect();
    assert_eq!(to_hex(&all), expected);
}

#[test]
fn content_hashes_are_sha256_in_hexadecimal() {
    assert_eq!(content_hash(b""), EMPTY);
    assert_eq!(content_hash(b"abc"), ABC);
    assert_eq!(
        content_hash(b"hello world"),
        "b94d27b9934d3e08a52e52d7da7dabfac484efe37a5380ee9088f7ace2efcde9"
    );
    assert_eq!(content_hash(b"abc").len(), 64);
}

#[test]
fn the_hash_is_that_of_a_hasher_fed_in_pieces() {
    let data: Vec<u8> = (0..20000u32).map(|i| (i % 251) as u8).collect();
    let mut hasher = Sha256::new();
    for chunk in data.chunks(8192) {
        hasher.update(chunk);
    }
    assert_eq!(content_hash(&data), format!("{:x}", hasher.finalize()));
}

#[test]
fn the_initial_hash_is_empty_without_a_file() {
    assert_eq!(initial_hash(None), "");
    assert_eq!(initial_hash(Some(b"")), EMPTY);
    assert_eq!(initial_hash(Some(b"abc")), ABC);
}

#[test]
fn a_backup_is_due_where_the_hash_changed() {
    assert!(backup_needed(ABC, Some(EMPTY)));
    assert!(!backup_needed(ABC, Some(ABC)));
    assert!(!backup_needed(ABC, None));
    assert!(!backup_needed("", Some(ABC)));
    assert!(!backup_needed("", Some("")));
    assert!(!backup_needed("", None));
}

#[test]
fn backup_names() {
    assert_eq!(backup_file_name(Some("notes"), Some("txt"), 1700000000), "notes_1700000000.txt");
    assert_eq!(backup_file_name(Some("notes"), None, 1700000000), "notes_1700000000");
    assert_eq!(backup_file_name(None, Some("txt"), 12), "file_12.txt");
    assert_eq!(backup_file_name(None, None, 0), "file_0");
    assert_eq!(backup_file_name(Some("a.tar"), Some("gz"), 7), "a.tar_7.gz");
    assert_eq!(backup_file_name(Some(".bashrc"), None, 7), ".bashrc_7");
}

#[test]
fn identical_content_triggers_no_backup() {
    let start = initial_hash(Some(b"some text\n"));
    assert_eq!(start, content_hash(b"some text\n"));
    assert_eq!(monitor_verdict(&start, Some(b"some text\n"), Some("a"), Some("txt"), 5), None);
}

#[test]
fn changed_content_triggers_one_backup_named_after_the_time() {
    let start = initial_hash(Some(b"some text\n"));
    assert_ne!(start, content_hash(b"some text!\n"));
    assert_eq!(
        monitor_verdict(&start, Some(b"some text!\n"), Some("a"), Some("txt"), 1700000123),
        Some("a_1700000123.txt".to_string())
    );
}

#[test]
fn a_vanished_or_untracked_file_triggers_no_backup() {
    let start = initial_hash(Some(b"x"));
    assert_eq!(monitor_verdict(&start, None, Some("a"), Some("txt"), 5), None);
    assert_eq!(monitor_verdict("", Some(b"y"), Some("a"), Some("txt"), 5), None);
    assert_eq!(monitor_verdict("", None, None, None, 5), None);
}

#[test]
fn the_settle_delay() {
    assert_eq!(SETTLE_DELAY_MS, 500);
}

use yaesandbox_launcher::error::LauncherError;
use yaesandbox_launcher::integrity::{check_digest, hashes_match, verify_payload, Download};

const ABC_SHA256: &str = "ba7816bf8f01cfea414140de5dae2223b00361a396177a9cb410ff61f20015ad";
const EMPTY_SHA256: &str = "e3b0c44298fc1c149afbf4c8996fb92427ae41e4649b934ca495991b7852b855";

#[test]
fn payload_with_pinned_hash_verifies() {
    assert!(verify_payload(b"abc", ABC_SHA256).is_ok());
    assert!(verify_payload(b"", EMPTY_SHA256).is_ok());
}

#[test]
fn hash_comparison_ignores_case() {
    assert!(verify_payload(b"abc", &ABC_SHA256.to_uppercase()).is_ok());
    assert!(hashes_match("AbC0", "aBc0"));
    assert!(!hashes_match("abc", "abd"));
    assert!(!hashes_match("abc", "abcd"));
}

#[test]
fn corrupted_payload_fails_integrity() {
    let mut payload = b"abc".to_vec();
    payload[1] ^= 0x01;
    match verify_payload(&payload, ABC_SHA256) {
        Err(LauncherError::Integrity { expected, actual }) => {
            assert_eq!(expected, ABC_SHA256);
            assert_ne!(actual, ABC_SHA256);
            assert_eq!(actual.len(), 64);
        }
        other => panic!("corrupted payload accepted: {:?}", other),
    }
}

#[test]
fn digest_is_written_as_lower_hex() {
    match check_digest(&[0x00, 0xab, 0x0f, 0xf0], "nope") {
        Err(LauncherError::Integrity { actual, .. }) => assert_eq!(actual, "00ab0ff0"),
        other => panic!("unexpected {:?}", other),
    }
    assert!(check_digest(&[0xde, 0xad], "DEAD").is_ok());
}

#[test]
fn download_accumulates_chunks_and_reports_progress() {
    let mut d = Download::new("frontend".to_string(), Some(3));
    let p1 = d.receive_chunk(b"a");
    assert_eq!(p1.id, "frontend");
    assert_eq!(p1.downloaded, 1);
    assert_eq!(p1.total, Some(3));
    let p2 = d.receive_chunk(b"bc");
    assert_eq!(p2.downloaded, 3);
    assert_eq!(d.payload(), &b"abc".to_vec());
    assert!(d.finish(ABC_SHA256).is_ok());
    assert!(matches!(d.finish(EMPTY_SHA256), Err(LauncherError::Integrity { .. })));
}

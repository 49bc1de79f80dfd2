use agneax_store::checksum::{checksum_matches, sha256_hex};

const HELLO_DIGEST: &str = "b94d27b9934d3e08a52e52d7da7dabfac484efe37a5380ee9088f7ace2efcde9";

#[test]
fn digest_of_known_text() {
    assert_eq!(sha256_hex(b"hello world"), HELLO_DIGEST);
    assert_eq!(
        sha256_hex(b""),
        "e3b0c44298fc1c149afbf4c8996fb92427ae41e4649b934ca495991b7852b855"
    );
}

#[test]
fn checksum_ignores_letter_case() {
    assert!(checksum_matches(b"hello world", HELLO_DIGEST));
    assert!(checksum_matches(b"hello world", &HELLO_DIGEST.to_uppercase()));
}

#[test]
fn checksum_rejects_other_data() {
    assert!(!checksum_matches(b"hello world!", HELLO_DIGEST));
    assert!(!checksum_matches(b"hello world", ""));
    assert!(!checksum_matches(b"hello world", &HELLO_DIGEST[..63]));
}

use saorsa_cli::checksum::{digest, verify};

const ABC_SHA256: &str = "ba7816bf8f01cfea414140de5dae2223b00361a396177a9cb410ff61f20015ad";

#[test]
fn digest_is_lowercase_hex_sha256() {
    assert_eq!(digest(b"abc"), ABC_SHA256);
    assert_eq!(
        digest(b""),
        "e3b0c44298fc1c149afbf4c8996fb92427ae41e4649b934ca495991b7852b855"
    );
}

#[test]
fn verify_accepts_own_digest_in_any_case() {
    assert!(verify(b"abc", ABC_SHA256));
    assert!(verify(b"abc", &ABC_SHA256.to_uppercase()));
}

#[test]
fn verify_rejects_other_digests() {
    let other = "ca7816bf8f01cfea414140de5dae2223b00361a396177a9cb410ff61f20015ad";
    assert!(!verify(b"abc", other));
    assert!(!verify(b"abd", ABC_SHA256));
    assert!(!verify(b"abc", &ABC_SHA256[..63]));
    assert!(!verify(b"abc", ""));
}

use deployer::signature::verify;
use hmac::{Hmac, KeyInit, Mac};
use sha2::Sha256;

fn sign(secret: &str, body: &[u8]) -> String {
    let mut mac =
        Hmac::<Sha256>::new_from_slice(secret.as_bytes()).expect("HMAC accepts any key length");
    mac.update(body);
    format!("sha256={}", hex::encode(mac.finalize().into_bytes()))
}

#[test]
fn correct_signature_verifies() {
    let secret = "s3cret";
    let body = b"{\"ref\":\"refs/tags/v1.0.0\"}";
    let header = sign(secret, body);
    assert!(verify(secret, body, &header));
}

#[test]
fn correct_signature_verifies_empty_body_and_secret() {
    let header = sign("", b"");
    assert!(verify("", b"", &header));
}

#[test]
fn flipping_any_hex_character_fails() {
    let secret = "s3cret";
    let body = b"payload bytes";
    let header = sign(secret, body);
    let bytes = header.as_bytes();
    for i in 7..header.len() {
        for replacement in b"0123456789abcdef" {
            if *replacement == bytes[i] {
                continue;
            }
            let mut flipped = bytes.to_vec();
            flipped[i] = *replacement;
            let flipped = String::from_utf8(flipped).unwrap();
            assert!(!verify(secret, body, &flipped), "flip at {i} still verified");
        }
    }
}

#[test]
fn uppercase_hex_still_verifies() {
    // hex digits are read case-insensitively, as hex::decode reads them
    let secret = "s3cret";
    let body = b"payload bytes";
    let header = sign(secret, body).to_uppercase();
    let header = format!("sha256={}", &header["SHA256=".len()..]);
    assert!(verify(secret, body, &header));
}

#[test]
fn missing_prefix_fails() {
    let secret = "s3cret";
    let body = b"body";
    let header = sign(secret, body);
    let without_prefix = header["sha256=".len()..].to_string();
    assert!(!verify(secret, body, &without_prefix));
    let wrong_prefix = format!("sha512={}", &header["sha256=".len()..]);
    assert!(!verify(secret, body, &wrong_prefix));
    assert!(!verify(secret, body, ""));
}

#[test]
fn wrong_hex_length_fails() {
    let secret = "s3cret";
    let body = b"body";
    let header = sign(secret, body);
    let truncated = header[..header.len() - 1].to_string();
    assert!(!verify(secret, body, &truncated));
    let extended = format!("{header}00");
    assert!(!verify(secret, body, &extended));
    assert!(!verify(secret, body, "sha256="));
}

#[test]
fn non_hex_characters_fail() {
    let secret = "s3cret";
    let body = b"body";
    let header = format!("sha256={}", "g".repeat(64));
    assert!(!verify(secret, body, &header));
}

#[test]
fn wrong_secret_or_body_fails() {
    let secret = "s3cret";
    let body = b"body";
    let header = sign(secret, body);
    assert!(!verify("other", body, &header));
    assert!(!verify(secret, b"other body", &header));
}

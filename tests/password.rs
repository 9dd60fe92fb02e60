use gaia::error::AuthError;
use gaia::password::{check, hash, hex_to_bytes, login_check, HASH_LEN};

const SALT_HEX: &str = "00112233445566778899aabbccddeeff";

fn salt() -> Vec<u8> {
    hex_to_bytes(SALT_HEX).unwrap()
}

#[test]
fn hex_to_bytes_decodes_pairs() {
    assert_eq!(hex_to_bytes("00ff10Ab"), Some(vec![0x00, 0xff, 0x10, 0xab]));
    assert_eq!(hex_to_bytes(""), Some(vec![]));
}

#[test]
fn hex_to_bytes_rejects_bad_input() {
    assert_eq!(hex_to_bytes("abc"), None);
    assert_eq!(hex_to_bytes("zz"), None);
    assert_eq!(hex_to_bytes("0g"), None);
    assert_eq!(hex_to_bytes("é0"), None);
}

#[test]
fn hash_then_check_accepts_same_password() {
    let s = salt();
    let h = hash("correct horse", &s).unwrap();
    assert_eq!(h.len(), HASH_LEN);
    assert_eq!(check(&h, "correct horse", &s), Ok(true));
}

#[test]
fn check_rejects_other_password() {
    let s = salt();
    let h = hash("correct horse", &s).unwrap();
    assert_eq!(check(&h, "correct horsf", &s), Ok(false));
}

#[test]
fn hash_is_deterministic() {
    let s = salt();
    let h1 = hash("root", &s).unwrap();
    let h2 = hash("root", &s).unwrap();
    assert_eq!(h1, h2);
    assert_ne!(h1, b"root".to_vec());
}

#[test]
fn hash_depends_on_salt() {
    let h1 = hash("root", &salt()).unwrap();
    let h2 = hash("root", &hex_to_bytes("ffeeddccbbaa99887766554433221100").unwrap()).unwrap();
    assert_ne!(h1, h2);
}

#[test]
fn hash_rejects_short_salt() {
    assert_eq!(hash("root", &[1, 2, 3, 4, 5, 6, 7]), Err(AuthError::Hashing));
}

#[test]
fn check_rejects_malformed_hash() {
    assert_eq!(check(&[1, 2, 3], "root", &salt()), Err(AuthError::Hashing));
    assert_eq!(check(&[0; 32], "root", &[1, 2, 3]), Err(AuthError::Hashing));
}

#[test]
fn login_check_outcomes() {
    let s = salt();
    let h = hash("alice-secret", &s).unwrap();
    assert_eq!(login_check(Some(&h), "alice-secret", &s), Ok(()));
    assert_eq!(login_check(Some(&h), "wrong", &s), Err(AuthError::Unauthenticated));
    assert_eq!(login_check(None, "alice-secret", &s), Err(AuthError::Unauthenticated));
    assert_eq!(login_check(Some(&vec![1, 2]), "alice-secret", &s), Err(AuthError::Hashing));
}

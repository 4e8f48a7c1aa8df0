use clipboard::codec::pad;
use clipboard::errors::Error;
use clipboard::keycmp::{compare, Outcome};
use clipboard::service::ClipboardService;

#[test]
fn one_time_pad() {
    let pt = String::from("0123456789abcdef").into_bytes();
    let key = String::from("supersecreptkey!").into_bytes();
    let ct = pad(&key, &pt).unwrap();
    assert_eq!(pt, pad(&key, &ct).unwrap());
}

#[test]
fn pad_involution_empty() {
    let ct = pad(b"", b"").unwrap();
    assert_eq!(ct, Vec::<u8>::new());
    assert_eq!(pad(b"", &ct).unwrap(), Vec::<u8>::new());
}

#[test]
fn pad_exact_value() {
    // 0x68 ^ 0x77 = 0x1f, 0x69 ^ 0x69 = 0x00
    let ct = pad(b"wi", b"hi").unwrap();
    assert_eq!(ct, vec![0x1f, 0x00]);
    assert_eq!(pad(b"wi", &ct).unwrap(), b"hi".to_vec());
}

#[test]
fn pad_length_mismatch_iff() {
    assert_eq!(
        pad(b"toolongkey", b"hi"),
        Err(Error::LengthMismatch { expected: 2, actual: 10 })
    );
    assert_eq!(
        pad(b"", b"x"),
        Err(Error::LengthMismatch { expected: 1, actual: 0 })
    );
    assert_eq!(
        pad(b"x", b""),
        Err(Error::LengthMismatch { expected: 0, actual: 1 })
    );
    assert!(pad(b"abc", b"xyz").is_ok());
}

#[test]
fn compare_equal_keys_match() {
    assert_eq!(compare(b"supersecret", b"supersecret"), Outcome::Match);
    assert_eq!(compare(b"", b""), Outcome::Match);
}

#[test]
fn compare_mismatch_any_position() {
    // A difference at the first and at the last position both yield a bare
    // mismatch, with no indication of where.
    assert_eq!(compare(b"Xupersecret", b"supersecret"), Outcome::Mismatch);
    assert_eq!(compare(b"supersecreX", b"supersecret"), Outcome::Mismatch);
    assert_eq!(compare(b"short", b"supersecret"), Outcome::Mismatch);
    assert_eq!(compare(b"supersecret", b""), Outcome::Mismatch);
}

#[test]
fn scenario_plain_write_and_read() {
    let mut svc = ClipboardService::new();
    assert_eq!(svc.write("a", b"hello", None), Ok(()));
    let p = svc.read_plain("a").unwrap();
    assert_eq!(p.id, "a");
    assert_eq!(p.content, Some(b"hello".to_vec()));
    assert!(!p.protected);
}

#[test]
fn scenario_protected_write_read_reveal() {
    let mut svc = ClipboardService::new();
    assert_eq!(svc.write("b", b"hello", Some(b"world")), Ok(()));
    let p = svc.read_plain("b").unwrap();
    assert_eq!(p.id, "b");
    assert_eq!(p.content, None);
    assert!(p.protected);
    assert_eq!(svc.decrypt("b", b"world"), Ok(b"hello".to_vec()));
    assert_eq!(svc.decrypt("b", b"wrong"), Err(Error::InvalidKey));
}

#[test]
fn scenario_duplicate_write() {
    let mut svc = ClipboardService::new();
    assert_eq!(svc.write("a", b"hello", None), Ok(()));
    assert_eq!(svc.write("a", b"other", None), Err(Error::Duplicate));
    assert_eq!(svc.write("a", b"12345", Some(b"67890")), Err(Error::Duplicate));
    // The store is as the first write left it.
    let p = svc.read_plain("a").unwrap();
    assert_eq!(p.content, Some(b"hello".to_vec()));
    assert!(!p.protected);
}

#[test]
fn scenario_reveal_missing() {
    let svc = ClipboardService::new();
    assert_eq!(svc.decrypt("missing", b"x"), Err(Error::NotFound));
    assert!(svc.read_plain("missing").is_err());
}

#[test]
fn scenario_key_length_mismatch() {
    let mut svc = ClipboardService::new();
    assert_eq!(
        svc.write("c", b"hi", Some(b"toolongkey")),
        Err(Error::LengthMismatch { expected: 2, actual: 10 })
    );
    // The failed write stored nothing.
    assert_eq!(svc.read_plain("c").unwrap_err(), Error::NotFound);
}

#[test]
fn reveal_unprotected_entry() {
    let mut svc = ClipboardService::new();
    assert_eq!(svc.write("a", b"hello", None), Ok(()));
    assert_eq!(svc.decrypt("a", b"hello"), Err(Error::NotEncrypted));
    assert_eq!(svc.decrypt_hex("a", "68656c6c6f"), Err(Error::NotEncrypted));
}

#[test]
fn reveal_wrong_key_same_length() {
    let mut svc = ClipboardService::new();
    assert_eq!(svc.write("b", b"hello", Some(b"world")), Ok(()));
    assert_eq!(svc.decrypt("b", b"worlD"), Err(Error::InvalidKey));
    assert_eq!(svc.decrypt("b", b"World"), Err(Error::InvalidKey));
}

#[test]
fn reveal_empty_content() {
    let mut svc = ClipboardService::new();
    assert_eq!(svc.write("e", b"", Some(b"")), Ok(()));
    assert_eq!(svc.decrypt("e", b""), Ok(Vec::new()));
}

#[test]
fn hex_reveal_round_trip() {
    let mut svc = ClipboardService::new();
    assert_eq!(svc.write("b", b"hello", Some(b"world")), Ok(()));
    // "776f726c64" is hex for "world"; the plaintext comes back hex-encoded.
    assert_eq!(svc.decrypt_hex("b", "776f726c64"), Ok(String::from("68656c6c6f")));
}

#[test]
fn hex_reveal_uppercase_key() {
    let mut svc = ClipboardService::new();
    assert_eq!(svc.write("b", b"hello", Some(b"world")), Ok(()));
    assert_eq!(svc.decrypt_hex("b", "776F726C64"), Ok(String::from("68656c6c6f")));
}

#[test]
fn hex_reveal_rejects_bad_hex() {
    let mut svc = ClipboardService::new();
    assert_eq!(svc.write("b", b"hello", Some(b"world")), Ok(()));
    // Not hex digits.
    assert_eq!(svc.decrypt_hex("b", "zz6f726c64"), Err(Error::InvalidKey));
    // Odd length.
    assert_eq!(svc.decrypt_hex("b", "776f726c6"), Err(Error::InvalidKey));
    // Valid hex of the wrong key.
    assert_eq!(svc.decrypt_hex("b", "776f726c65"), Err(Error::InvalidKey));
    // Missing id keeps precedence over the bad key.
    assert_eq!(svc.decrypt_hex("missing", "zz"), Err(Error::NotFound));
}

#[test]
fn multiple_entries_coexist() {
    let mut svc = ClipboardService::new();
    assert_eq!(svc.write("one", b"first", None), Ok(()));
    assert_eq!(svc.write("two", b"second", Some(b"abcdef")), Ok(()));
    assert_eq!(svc.write("", b"empty id", None), Ok(()));
    assert_eq!(svc.read_plain("one").unwrap().content, Some(b"first".to_vec()));
    assert_eq!(svc.read_plain("two").unwrap().content, None);
    assert_eq!(svc.read_plain("").unwrap().content, Some(b"empty id".to_vec()));
    assert_eq!(svc.decrypt("two", b"abcdef"), Ok(b"second".to_vec()));
}

#[test]
fn non_ascii_content_round_trips() {
    let mut svc = ClipboardService::new();
    let content = "héllo wörld".as_bytes();
    let key: Vec<u8> = (0..content.len() as u8).collect();
    assert_eq!(svc.write("u", content, Some(&key)), Ok(()));
    assert_eq!(svc.decrypt("u", &key), Ok(content.to_vec()));
    assert_eq!(svc.read_plain("u").unwrap().content, None);
}

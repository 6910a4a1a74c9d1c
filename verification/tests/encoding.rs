use nazo_postgres::digest::{base64url_nopad, blake3_hex, key_id_for_public_key, lower_hex, sha256_hex};
use nazo_postgres::encoding::{push_be_u128, push_be_u64, uuid_bytes, uuid_text};
use nazo_postgres::text::{concat_text, contains_control, text_equals, trimmed_chars, valid_identifier};

#[test]
fn big_endian_encodings() {
    let mut out = Vec::new();
    push_be_u64(&mut out, 0x0102030405060708);
    assert_eq!(out, vec![1, 2, 3, 4, 5, 6, 7, 8]);
    let mut out = vec![9];
    push_be_u128(&mut out, 1);
    assert_eq!(out.len(), 17);
    assert_eq!(out[16], 1);
    assert_eq!(uuid_bytes(u128::MAX), vec![0xff; 16]);
}

#[test]
fn uuid_text_is_hyphenated_lowercase() {
    let id = 0x67e55044_10b1_426f_9247_bb680e5fe0c8u128;
    assert_eq!(uuid_text(id), "67e55044-10b1-426f-9247-bb680e5fe0c8");
    assert_eq!(uuid_text(id), uuid::Uuid::from_u128(id).to_string());
}

#[test]
fn digests() {
    assert_eq!(lower_hex(&[0x00, 0xab, 0x7f]), "00ab7f");
    assert_eq!(
        sha256_hex(""),
        "e3b0c44298fc1c149afbf4c8996fb92427ae41e4649b934ca495991b7852b855"
    );
    assert_eq!(
        blake3_hex("abc"),
        "6437b3ac38465133ffb63b75273a8db548c558465d79db03fd359c6cd5bd9d85"
    );
    assert_eq!(base64url_nopad(&[0xfb, 0xff]), "-_8");
    assert_eq!(key_id_for_public_key(&[0u8; 32]), "Zmh6rfhivXdsj8GLjp-OIAiXFIVu4jOzkCpZHQ1fKSU");
}

#[test]
fn text_helpers() {
    assert_eq!(trimmed_chars("  a b \n"), vec!['a', ' ', 'b']);
    assert!(text_equals("x", "x"));
    assert!(!text_equals("x", "y"));
    assert!(contains_control("a\u{0}"));
    assert!(!contains_control("abc"));
    assert_eq!(concat_text("ab", "cd"), "abcd");
    assert!(valid_identifier("security_audit_1"));
    assert!(!valid_identifier("Security"));
    assert!(!valid_identifier("a.b"));
    assert!(!valid_identifier(""));
    assert!(!valid_identifier(&"a".repeat(65)));
}

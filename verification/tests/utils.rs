use nitro_share::utils::base64_utils::encode;
use nitro_share::utils::sha256::{encode_to_string, hash_token};
use nitro_share::utils::text::{ascii_string, str_equals};
use nitro_share::utils::token::generate_token;

#[test]
fn base64_of_known_inputs() {
    assert_eq!(encode(b""), "");
    assert_eq!(encode(b"f"), "Zg==");
    assert_eq!(encode(b"fo"), "Zm8=");
    assert_eq!(encode(b"foo"), "Zm9v");
    assert_eq!(encode(b"hello world~"), "aGVsbG8gd29ybGR+");
    assert_eq!(encode(&[0xfb, 0xff]), "+/8=");
}

#[test]
fn sha256_of_known_inputs() {
    assert_eq!(encode_to_string(b""), "47DEQpj8HBSa+/TImW+5JCeuQeRkm5NMpJWZG3hSuFU=");
    assert_eq!(encode_to_string(b"abc"), "ungWv48Bz+pBQUDeXa4iI7ADYaOWF3qctBD/YfIAFa0=");
    assert_eq!(hash_token("abc"), "ungWv48Bz+pBQUDeXa4iI7ADYaOWF3qctBD/YfIAFa0=");
    assert_eq!(hash_token("abc123"), "bKE9UspwyIPg8LsQHkJaiehiTeUdstI5JZOvaoQRgJA=");
}

#[test]
fn hash_depends_on_every_character() {
    assert_ne!(hash_token("abc123"), hash_token("abc124"));
    assert_ne!(hash_token("abc123"), "abc123");
    assert_eq!(hash_token("abc123").len(), 44);
}

#[test]
fn token_has_thirty_two_letters_or_digits() {
    for _ in 0..50 {
        let token = generate_token().unwrap();
        assert_eq!(token.len(), 32);
        assert!(token.bytes().all(|b| b.is_ascii_alphanumeric()), "{}", token);
    }
    assert_ne!(generate_token(), generate_token());
}

#[test]
fn ascii_bytes_spell_text() {
    assert_eq!(ascii_string(b"Bearer abc", 0, 6), "Bearer");
    assert_eq!(ascii_string(b"Bearer abc", 7, 10), "abc");
    assert_eq!(ascii_string(b"Bearer abc", 3, 3), "");
    assert_eq!(ascii_string(&[0, 9, 127], 0, 3), "\u{0}\t\u{7f}");
}

#[test]
fn texts_compare_by_their_characters() {
    assert!(str_equals("", ""));
    assert!(str_equals("session", "session"));
    assert!(!str_equals("session", "Session"));
    assert!(!str_equals("session", "sessio"));
    assert!(!str_equals("", "a"));
    assert!(str_equals("h\u{e9}llo \u{1f600}", "h\u{e9}llo \u{1f600}"));
    assert!(!str_equals("h\u{e9}llo", "hello"));
}

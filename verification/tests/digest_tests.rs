use blockchain_sim::digest::{canonical_text, digest};
use blockchain_sim::encoding::{digit_str, push_decimal, to_hex};

#[test]
fn canonical_text_concatenates_without_delimiters() {
    assert_eq!(
        canonical_text("0", 1700000000, 0, "Genesis Block", 0),
        "017000000000Genesis Block0"
    );
    assert_eq!(canonical_text("", 0, 0, "", 0), "000");
    assert_eq!(canonical_text("ab", 5, 7, "café → ü", 42), "ab57café → ü42");
}

#[test]
fn digest_of_empty_fields() {
    assert_eq!(
        digest("", 0, 0, "", 0),
        "2ac9a6746aca543af8dff39894cfe8173afba21eb01c6fae33d52947222855ef"
    );
}

#[test]
fn digest_of_genesis_fields() {
    assert_eq!(
        digest("0", 1700000000, 0, "Genesis Block", 0),
        "98d13b7831ea6fa6d67b3ad6883283272e42de17b79b817215051a63a2375ec8"
    );
}

#[test]
fn digest_hashes_the_utf8_encoding() {
    assert_eq!(
        digest("ab", 5, 7, "café → ü", 42),
        "cf52752f02120774a049d3c39323e95c071d13fae2107cf6c4ce73fbda8b6d59"
    );
}

#[test]
fn digest_is_deterministic_and_64_lowercase_hex() {
    let a = digest("prev", 123, 4, "payload", 99);
    let b = digest("prev", 123, 4, "payload", 99);
    assert_eq!(a, b);
    assert_eq!(a.len(), 64);
    assert!(a.chars().all(|c| c.is_ascii_digit() || ('a'..='f').contains(&c)));
}

#[test]
fn digest_changes_with_the_nonce() {
    assert_ne!(digest("prev", 123, 4, "payload", 0), digest("prev", 123, 4, "payload", 1));
}

#[test]
fn digest_is_not_its_input() {
    let text = canonical_text("prev", 123, 4, "payload", 0);
    assert_ne!(digest("prev", 123, 4, "payload", 0), text);
    assert_ne!(digest("prev", 123, 4, "payload", 0), to_hex(text.as_bytes()));
}

#[test]
fn to_hex_writes_two_lowercase_digits_per_byte() {
    assert_eq!(to_hex(&[]), "");
    assert_eq!(to_hex(&[0x00, 0x0a, 0xab, 0xff, 0x10]), "000aabff10");
    assert_eq!(to_hex(&[10, 20, 30]), "0a141e");
}

#[test]
fn digit_str_covers_all_sixteen_digits() {
    let mut all = String::new();
    let mut d: u8 = 0;
    while d < 16 {
        all.push_str(digit_str(d));
        d += 1;
    }
    assert_eq!(all, "0123456789abcdef");
}

#[test]
fn push_decimal_appends_the_numeral() {
    let mut s = String::from("n=");
    push_decimal(&mut s, 0);
    assert_eq!(s, "n=0");
    push_decimal(&mut s, 10);
    assert_eq!(s, "n=010");
    let mut t = String::new();
    push_decimal(&mut t, u64::MAX);
    assert_eq!(t, "18446744073709551615");
    let mut u = String::new();
    push_decimal(&mut u, 9);
    push_decimal(&mut u, 1000);
    assert_eq!(u, "91000");
}

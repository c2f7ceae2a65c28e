use harview::text::{blank, decimal_text, eq_ignore_ascii_case, pad_left, pad_right};

#[test]
fn decimal_numerals() {
    assert_eq!(decimal_text(0), "0");
    assert_eq!(decimal_text(7), "7");
    assert_eq!(decimal_text(10), "10");
    assert_eq!(decimal_text(200), "200");
    assert_eq!(decimal_text(404), "404");
    assert_eq!(decimal_text(1009), "1009");
    assert_eq!(decimal_text(65535), "65535");
}

#[test]
fn decimal_numerals_agree_with_the_standard_library() {
    for n in (0..=u16::MAX).step_by(37) {
        assert_eq!(decimal_text(n), n.to_string());
    }
}

#[test]
fn blanks() {
    assert_eq!(blank(0), "");
    assert_eq!(blank(3), "   ");
}

#[test]
fn padding_on_the_left() {
    assert_eq!(pad_left("1.50", 8), "    1.50");
    assert_eq!(pad_left("12345678", 8), "12345678");
    assert_eq!(pad_left("123456789", 8), "123456789");
    assert_eq!(pad_left("", 2), "  ");
    assert_eq!(pad_left("abc", 0), "abc");
}

#[test]
fn padding_on_the_right() {
    assert_eq!(pad_right("B", 2), "B ");
    assert_eq!(pad_right("KB", 2), "KB");
    assert_eq!(pad_right("KiB", 2), "KiB");
    assert_eq!(pad_right("", 3), "   ");
}

#[test]
fn padding_counts_characters_not_bytes() {
    assert_eq!(pad_left("é", 3), "  é");
    assert_eq!(pad_right("日本", 3), "日本 ");
}

#[test]
fn comparison_ignores_ascii_case_only() {
    assert!(eq_ignore_ascii_case("Referrer-Policy", "referrer-policy"));
    assert!(eq_ignore_ascii_case("REFERRER-POLICY", "Referrer-Policy"));
    assert!(eq_ignore_ascii_case("", ""));
    assert!(eq_ignore_ascii_case("a-1_z", "A-1_Z"));
    assert!(!eq_ignore_ascii_case("Referrer-Policy", "Referrer-Polic"));
    assert!(!eq_ignore_ascii_case("Referrer-Policy", "Referrer_Policy"));
    assert!(!eq_ignore_ascii_case("", "a"));
    assert!(!eq_ignore_ascii_case("@", "`"));
    assert!(!eq_ignore_ascii_case("[", "{"));
    assert!(eq_ignore_ascii_case("Straße", "strasse") == "Straße".eq_ignore_ascii_case("strasse"));
    assert!(eq_ignore_ascii_case("É", "É"));
    assert!(!eq_ignore_ascii_case("É", "é"));
}

#[test]
fn comparison_agrees_with_the_standard_library() {
    let samples = ["", "a", "A", "z", "Z", "@", "[", "`", "{", "abc", "ABC", "aBc", "ab", "é", "É", "k", "K"];
    for a in samples {
        for b in samples {
            assert_eq!(eq_ignore_ascii_case(a, b), a.eq_ignore_ascii_case(b));
        }
    }
}

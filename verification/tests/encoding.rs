use unsplash_mcp::encode::{enc, topic_slug};
use unsplash_mcp::number::{parse_digits_u64, parse_u64, push_decimal};
use unsplash_mcp::text::{contains_chars, is_blank, replace_char_chars, trim_chars};

fn chars(s: &str) -> Vec<char> {
    s.chars().collect()
}

#[test]
fn encodes_query_values() {
    assert_eq!(enc("mountain landscape"), "mountain%20landscape");
    assert_eq!(enc("black & white"), "black%20%26%20white");
}

#[test]
fn slugifies_categories() {
    assert_eq!(topic_slug("Nature"), "nature");
    assert_eq!(topic_slug("Black & White"), "black-%26-white");
}

#[test]
fn enc_keeps_unreserved_and_escapes_the_rest() {
    assert_eq!(enc("aZ09*-._"), "aZ09*-._");
    assert_eq!(enc("a+b"), "a%2Bb");
    assert_eq!(enc("100%"), "100%25");
    assert_eq!(enc("é"), "%C3%A9");
    assert_eq!(enc(""), "");
    assert_eq!(enc("/?&="), "%2F%3F%26%3D");
}

#[test]
fn enc_never_writes_plus_or_space() {
    let e = enc("  a b+c  ");
    assert!(!e.contains('+'));
    assert!(!e.contains(' '));
    assert_eq!(e, "%20%20a%20b%2Bc%20%20");
}

#[test]
fn topic_slug_trims_lowercases_and_dashes() {
    assert_eq!(topic_slug("  Street Photography \n"), "street-photography");
    assert_eq!(topic_slug("ÉTÉ"), "%C3%A9t%C3%A9");
    assert_eq!(topic_slug("   "), "");
}

#[test]
fn trim_removes_white_space_at_both_ends() {
    assert_eq!(trim_chars(&chars("\t a b \n")), chars("a b"));
    assert_eq!(trim_chars(&chars("   ")), Vec::<char>::new());
    assert_eq!(trim_chars(&chars("x")), chars("x"));
    let once = trim_chars(&chars("  q  "));
    assert_eq!(trim_chars(&once), once);
}

#[test]
fn blank_means_only_white_space() {
    assert!(is_blank(""));
    assert!(is_blank(" \t\n"));
    assert!(!is_blank(" a "));
}

#[test]
fn replace_and_contains() {
    assert_eq!(replace_char_chars(&chars("a b c"), ' ', &chars("-")), chars("a-b-c"));
    assert_eq!(replace_char_chars(&chars("+x+"), '+', &chars("%20")), chars("%20x%20"));
    assert!(contains_chars(&chars("I am not a bot"), &chars("not a bot")));
    assert!(!contains_chars(&chars("not a bo"), &chars("not a bot")));
    assert!(contains_chars(&chars("abc"), &chars("")));
}

#[test]
fn decimal_rendering_and_parsing() {
    let mut out = Vec::new();
    push_decimal(&mut out, 0);
    assert_eq!(out, chars("0"));
    let mut out = Vec::new();
    push_decimal(&mut out, 18446744073709551615);
    assert_eq!(out, chars("18446744073709551615"));
    assert_eq!(parse_u64(&chars("45")), Some(45));
    assert_eq!(parse_u64(&chars("+7")), Some(7));
    assert_eq!(parse_u64(&chars("+")), None);
    assert_eq!(parse_u64(&chars("")), None);
    assert_eq!(parse_u64(&chars(" 5")), None);
    assert_eq!(parse_u64(&chars("-5")), None);
    assert_eq!(parse_u64(&chars("18446744073709551615")), Some(u64::MAX));
    assert_eq!(parse_u64(&chars("18446744073709551616")), None);
    assert_eq!(parse_digits_u64(&chars("+7")), None);
    assert_eq!(parse_digits_u64(&chars("200.0")), None);
    assert_eq!(parse_digits_u64(&chars("200")), Some(200));
}

#[test]
fn decimal_round_trip() {
    for n in [0u64, 9, 10, 99, 100, 123456789, u64::MAX] {
        let mut out = Vec::new();
        push_decimal(&mut out, n);
        assert_eq!(parse_u64(&out), Some(n));
        assert_eq!(out.iter().collect::<String>(), n.to_string());
    }
}

fn listed_white_space(c: char) -> bool {
    let u = c as u32;
    (0x09..=0x0D).contains(&u)
        || u == 0x20
        || u == 0x85
        || u == 0xA0
        || u == 0x1680
        || (0x2000..=0x200A).contains(&u)
        || u == 0x2028
        || u == 0x2029
        || u == 0x202F
        || u == 0x205F
        || u == 0x3000
}

#[test]
fn trim_uses_the_white_space_property() {
    for c in (0u32..=0x10FFFF).filter_map(char::from_u32) {
        assert_eq!(trim_chars(&[c]).is_empty(), listed_white_space(c), "char {:x}", c as u32);
    }
}

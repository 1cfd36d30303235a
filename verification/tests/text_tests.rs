use begin_wallet::text::{
    count_words, format_lovelace, format_u64, hex_encode, lowercase_string, parse_quantity,
    starts_with, str_eq, to_ascii_lowercase,
};

fn chars_to_string(v: Vec<char>) -> String {
    v.into_iter().collect()
}

#[test]
fn test_lowercase() {
    assert_eq!(lowercase_string("CaRdAnO"), "cardano");
    assert_eq!(lowercase_string("ada"), "ada");
    assert_eq!(lowercase_string("BTC-42!"), "btc-42!");
    let chars = to_ascii_lowercase("AbC");
    assert_eq!(chars, vec!['a', 'b', 'c']);
}

#[test]
fn test_str_eq_and_starts_with() {
    assert!(str_eq("lovelace", "lovelace"));
    assert!(!str_eq("lovelace", "lovelacE"));
    assert!(!str_eq("love", "lovelace"));
    assert!(starts_with("addr1xyz", "addr1"));
    assert!(!starts_with("addr1", "addr1xyz"));
    assert!(!starts_with("adXr1xyz", "addr1"));
}

#[test]
fn test_parse_quantity() {
    assert_eq!(parse_quantity("1500000"), 1500000);
    assert_eq!(parse_quantity("0"), 0);
    assert_eq!(parse_quantity("18446744073709551615"), u64::MAX);
    // Malformed and overflowing quantities read as zero.
    assert_eq!(parse_quantity(""), 0);
    assert_eq!(parse_quantity("12x"), 0);
    assert_eq!(parse_quantity("-5"), 0);
    assert_eq!(parse_quantity("18446744073709551616"), 0);
    assert_eq!(parse_quantity("99999999999999999999999"), 0);
}

#[test]
fn test_format_u64_and_lovelace() {
    assert_eq!(chars_to_string(format_u64(0)), "0");
    assert_eq!(chars_to_string(format_u64(7)), "7");
    assert_eq!(chars_to_string(format_u64(1234567890)), "1234567890");
    assert_eq!(chars_to_string(format_lovelace(1500000)), "1.500000");
    assert_eq!(chars_to_string(format_lovelace(0)), "0.000000");
    assert_eq!(chars_to_string(format_lovelace(1)), "0.000001");
    assert_eq!(chars_to_string(format_lovelace(123456789)), "123.456789");
}

#[test]
fn test_hex_encode() {
    assert_eq!(chars_to_string(hex_encode(&[])), "");
    assert_eq!(chars_to_string(hex_encode(&[0x00, 0xff, 0x1a])), "00ff1a");
    assert_eq!(chars_to_string(hex_encode(&[0xde, 0xad, 0xbe, 0xef])), "deadbeef");
}

#[test]
fn test_count_words() {
    assert_eq!(count_words(""), 0);
    assert_eq!(count_words("   "), 0);
    assert_eq!(count_words("one"), 1);
    assert_eq!(count_words("one two three"), 3);
    assert_eq!(count_words("  padded   out \t with\nwhitespace "), 4);
}

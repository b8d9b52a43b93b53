use blobstore_s3_provider::text::{find_char, parse_i64, str_eq};

#[test]
fn str_eq_agrees_with_std() {
    let samples = ["", "a", "ab", "ba", "Blobstore", "blobstore", "Blobstore ", "héllo", "hello"];
    for a in samples.iter() {
        for b in samples.iter() {
            assert_eq!(str_eq(a, b), a == b, "{:?} vs {:?}", a, b);
        }
    }
}

#[test]
fn find_char_returns_first_occurrence() {
    assert_eq!(find_char("", '.'), None);
    assert_eq!(find_char("abc", '.'), None);
    assert_eq!(find_char(".", '.'), Some(0));
    assert_eq!(find_char("a.b.c", '.'), Some(1));
    assert_eq!(find_char("Blobstore.create_container", '.'), Some(9));
    assert_eq!(find_char("abc.", '.'), Some(3));
}

#[test]
fn find_char_counts_characters_not_bytes() {
    assert_eq!(find_char("éé.x", '.'), Some(2));
    assert_eq!("éé.x".find('.'), Some(4));
}

#[test]
fn parse_i64_reads_plain_numbers() {
    assert_eq!(parse_i64("0"), Some(0));
    assert_eq!(parse_i64("7"), Some(7));
    assert_eq!(parse_i64("12"), Some(12));
    assert_eq!(parse_i64("3600"), Some(3600));
    assert_eq!(parse_i64("0003600"), Some(3600));
}

#[test]
fn parse_i64_reads_signs() {
    assert_eq!(parse_i64("+5"), Some(5));
    assert_eq!(parse_i64("-5"), Some(-5));
    assert_eq!(parse_i64("-0"), Some(0));
    assert_eq!(parse_i64("+0"), Some(0));
}

#[test]
fn parse_i64_reads_the_extremes() {
    assert_eq!(parse_i64("9223372036854775807"), Some(i64::MAX));
    assert_eq!(parse_i64("-9223372036854775808"), Some(i64::MIN));
    assert_eq!(parse_i64("+9223372036854775807"), Some(i64::MAX));
    assert_eq!(parse_i64("-9223372036854775807"), Some(i64::MIN + 1));
}

#[test]
fn parse_i64_refuses_values_out_of_range() {
    assert_eq!(parse_i64("9223372036854775808"), None);
    assert_eq!(parse_i64("-9223372036854775809"), None);
    assert_eq!(parse_i64("99999999999999999999999999999999999999999999"), None);
    assert_eq!(parse_i64("-99999999999999999999999999999999999999999999"), None);
    assert_eq!(parse_i64("18446744073709551616"), None);
    assert_eq!(parse_i64("340282366920938463463374607431768211456"), None);
}

#[test]
fn parse_i64_refuses_what_is_no_number() {
    for text in ["", "+", "-", "abc", "12a", "a12", " 12", "12 ", "1_000", "1.5", "--1", "+-1", "٣", "1e3", "0x10"] {
        assert_eq!(parse_i64(text), None, "{:?}", text);
    }
}

#[test]
fn parse_i64_agrees_with_std() {
    let samples = [
        "", "+", "-", "0", "-0", "+0", "00", "1", "-1", "+1", "10", "0010", "12345678901234567890",
        "9223372036854775807", "9223372036854775808", "-9223372036854775808",
        "-9223372036854775809", "92233720368547758070", "abc", "1a", "a1", " 1", "1 ", "1_0",
        "+-1", "-+1", "++1", "1-", "0.0", "٣٤", "１２", "000000000000000000000000000000000001",
        "-000000000000000000000000000000000001", "4611686018427387904", "9223372036854775800",
    ];
    for text in samples.iter() {
        assert_eq!(parse_i64(text), text.parse::<i64>().ok(), "{:?}", text);
    }
}

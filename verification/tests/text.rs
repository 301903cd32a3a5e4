use pet_focus::text::{
    decimal_string, is_blank, parse_i32, parse_u32, replace_char, signed_decimal_string, text_eq,
    trim,
};

#[test]
fn text_eq_compares_characters() {
    assert!(text_eq("", ""));
    assert!(text_eq("type", "type"));
    assert!(!text_eq("type", "Type"));
    assert!(!text_eq("type", "typ"));
    assert!(!text_eq("", " "));
    assert!(text_eq("待办", "待办"));
}

#[test]
fn decimal_string_writes_numbers() {
    assert_eq!(decimal_string(0), "0");
    assert_eq!(decimal_string(7), "7");
    assert_eq!(decimal_string(10), "10");
    assert_eq!(decimal_string(1234567890), "1234567890");
    assert_eq!(decimal_string(u64::MAX), "18446744073709551615");
    for n in 0..1000u64 {
        assert_eq!(decimal_string(n), n.to_string());
    }
}

#[test]
fn signed_decimal_string_writes_the_sign() {
    assert_eq!(signed_decimal_string(0), "0");
    assert_eq!(signed_decimal_string(-1), "-1");
    assert_eq!(signed_decimal_string(42), "42");
    assert_eq!(signed_decimal_string(i64::MIN), "-9223372036854775808");
    assert_eq!(signed_decimal_string(i64::MAX), "9223372036854775807");
    assert_eq!(signed_decimal_string(i32::MIN as i64), "-2147483648");
}

#[test]
fn trim_agrees_with_std() {
    let samples = [
        "",
        " ",
        "a",
        "  a",
        "a  ",
        "  a b  ",
        "\t\n title \r\n",
        "\u{a0}non-breaking\u{a0}",
        "\u{3000}wide\u{3000}",
        "\u{2003}em\u{2028}",
        "\u{85}next line\u{85}",
        " \u{200b}zero width is no whitespace ",
        "内 容",
        "  待办  ",
        " \t\n",
        "x",
    ];
    for sample in samples {
        assert_eq!(trim(sample), sample.trim(), "sample {:?}", sample);
        assert_eq!(is_blank(sample), sample.trim().is_empty(), "sample {:?}", sample);
    }
}

#[test]
fn trim_keeps_inner_whitespace() {
    assert_eq!(trim("  buy   milk  "), "buy   milk");
    assert_eq!(trim("\n"), "");
    assert!(is_blank(""));
    assert!(is_blank(" \t\r\n"));
    assert!(!is_blank(" . "));
}

#[test]
fn parse_u32_agrees_with_std() {
    let samples = [
        "", "0", "7", "25", "007", "+5", "+", "-5", "-0", "++5", "+-5", " 5", "5 ", "5a", "a5",
        "4294967295", "4294967296", "+4294967295", "99999999999999999999999", "0000000000000000000001",
        "１２", "1_000", "0x10", "1.5", "١٢",
    ];
    for sample in samples {
        assert_eq!(parse_u32(sample), sample.parse::<u32>().ok(), "sample {:?}", sample);
    }
    assert_eq!(parse_u32("25"), Some(25));
    assert_eq!(parse_u32("4294967295"), Some(u32::MAX));
    assert_eq!(parse_u32("4294967296"), None);
    assert_eq!(parse_u32("abc"), None);
}

#[test]
fn parse_i32_agrees_with_std() {
    let samples = [
        "", "0", "-0", "+0", "7", "-7", "+7", "-", "+", "--7", "-+7", "+-7", " 7", "7 ", "-7x",
        "2147483647", "2147483648", "-2147483648", "-2147483649", "+2147483647", "+2147483648",
        "000000000000000000000012", "-000000000000000000000012", "99999999999999999999",
        "-99999999999999999999", "3.0", "１",
    ];
    for sample in samples {
        assert_eq!(parse_i32(sample), sample.parse::<i32>().ok(), "sample {:?}", sample);
    }
    assert_eq!(parse_i32("-2147483648"), Some(i32::MIN));
    assert_eq!(parse_i32("2147483647"), Some(i32::MAX));
    assert_eq!(parse_i32("2147483648"), None);
}

#[test]
fn replace_char_replaces_every_occurrence() {
    assert_eq!(replace_char("", 'a', 'b'), "");
    assert_eq!(replace_char("banana", 'a', 'o'), "bonono");
    assert_eq!(replace_char("C:\\Users\\me", '\\', '/'), "C:/Users/me");
    assert_eq!(replace_char("no match", 'x', 'y'), "no match");
    assert_eq!(replace_char("数据\\库", '\\', '/'), "数据/库");
}

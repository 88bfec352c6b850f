use appconfiguration::decimal::{parse_bool, parse_i64, parse_u64};
use appconfiguration::text::{chars_of, contains, ends_with, starts_with, str_eq};

const TEXTS: [&str; 34] = [
    "",
    "0",
    "7",
    "42",
    "+42",
    "-42",
    "-0",
    "+0",
    "+",
    "-",
    "--1",
    "+-1",
    "007",
    "-007",
    " 1",
    "1 ",
    "1_000",
    "1.5",
    "1e3",
    "abc",
    "12a",
    "٣",
    "9223372036854775807",
    "9223372036854775808",
    "-9223372036854775808",
    "-9223372036854775809",
    "18446744073709551615",
    "18446744073709551616",
    "000000000000000000000000018446744073709551615",
    "99999999999999999999999999",
    "true",
    "false",
    "True",
    "truee",
];

#[test]
fn unsigned_integers_are_read_as_std_reads_them() {
    for text in TEXTS {
        assert_eq!(parse_u64(text), text.parse::<u64>().ok(), "{text:?}");
    }
    assert_eq!(parse_u64("18446744073709551615"), Some(u64::MAX));
    assert_eq!(parse_u64("-1"), None);
}

#[test]
fn signed_integers_are_read_as_std_reads_them() {
    for text in TEXTS {
        assert_eq!(parse_i64(text), text.parse::<i64>().ok(), "{text:?}");
    }
    assert_eq!(parse_i64("-9223372036854775808"), Some(i64::MIN));
    assert_eq!(parse_i64("9223372036854775807"), Some(i64::MAX));
    assert_eq!(parse_i64("9223372036854775808"), None);
}

#[test]
fn booleans_are_read_as_std_reads_them() {
    for text in TEXTS {
        assert_eq!(parse_bool(text), text.parse::<bool>().ok(), "{text:?}");
    }
    assert_eq!(parse_bool("true"), Some(true));
    assert_eq!(parse_bool("false"), Some(false));
}

#[test]
fn text_tests_agree_with_std() {
    let texts = ["", "a", "ab", "abc", "abcabc", "bca", "äöü", "aä", "ä", "日本語", "本"];
    for text in texts {
        assert_eq!(chars_of(text), text.chars().collect::<Vec<char>>());
        for pattern in texts {
            assert_eq!(str_eq(text, pattern), text == pattern, "{text:?} {pattern:?}");
            assert_eq!(starts_with(text, pattern), text.starts_with(pattern));
            assert_eq!(ends_with(text, pattern), text.ends_with(pattern));
            assert_eq!(contains(text, pattern), text.contains(pattern), "{text:?} {pattern:?}");
        }
    }
}

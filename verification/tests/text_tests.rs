use nextrmm_agent::paths::{absolute, join, parent, separator};
use nextrmm_agent::settings::{parse_flag, parse_number, parse_setting, split_lines, trim};
use nextrmm_agent::text::{
    chain, chain3, chars_of, first_index_of, format_i64, format_u64, same_text, split_words,
};

#[test]
fn same_text_compares_characters() {
    assert!(same_text("python", "python"));
    assert!(!same_text("python", "Python"));
    assert!(!same_text("python", "pytho"));
    assert!(same_text("", ""));
}

#[test]
fn chars_of_keeps_every_character_in_order() {
    assert_eq!(chars_of("a=ü"), vec!['a', '=', 'ü']);
    assert_eq!(chars_of(""), Vec::<char>::new());
}

#[test]
fn concat_puts_texts_in_a_row() {
    assert_eq!(chain("ab", "cd"), "abcd");
    assert_eq!(chain3("a", "", "c"), "ac");
}

#[test]
fn numbers_are_written_in_decimal() {
    assert_eq!(format_u64(0), "0");
    assert_eq!(format_u64(9), "9");
    assert_eq!(format_u64(10), "10");
    assert_eq!(format_u64(1883), "1883");
    assert_eq!(format_u64(u64::MAX), "18446744073709551615");
    assert_eq!(format_i64(0), "0");
    assert_eq!(format_i64(-1), "-1");
    assert_eq!(format_i64(98), "98");
    assert_eq!(format_i64(i64::MIN), "-9223372036854775808");
    assert_eq!(format_i64(i64::MAX), "9223372036854775807");
}

#[test]
fn split_words_drops_the_spaces() {
    assert_eq!(split_words("--allow-read --allow-net"), vec!["--allow-read", "--allow-net"]);
    assert_eq!(split_words("  a   b "), vec!["a", "b"]);
    assert_eq!(split_words(""), Vec::<String>::new());
    assert_eq!(split_words("   "), Vec::<String>::new());
    assert_eq!(split_words("one"), vec!["one"]);
}

#[test]
fn join_adds_one_backslash_where_it_is_needed() {
    assert_eq!(join("C:\\agent", "temp"), "C:\\agent\\temp");
    assert_eq!(join("C:\\agent\\", "temp"), "C:\\agent\\temp");
    assert_eq!(join("C:/agent/", "temp"), "C:/agent/temp");
    assert_eq!(join("", "temp"), "temp");
    assert_eq!(join("C:\\", "Program Files\\nextrmm-agent"), "C:\\Program Files\\nextrmm-agent");
    assert_eq!(join("C:", "x"), "C:\\x");
}

#[test]
fn parent_drops_the_last_component() {
    assert_eq!(
        parent("C:\\agent\\runtime\\python\\python.exe"),
        Some("C:\\agent\\runtime\\python".to_string())
    );
    assert_eq!(parent("C:\\agent\\runtime\\python"), Some("C:\\agent\\runtime".to_string()));
    assert_eq!(parent("C:\\agent\\runtime\\python\\"), Some("C:\\agent\\runtime".to_string()));
    assert_eq!(parent("a/b"), Some("a".to_string()));
    assert_eq!(parent("a//b"), Some("a".to_string()));
    assert_eq!(parent("C:\\agent/py/"), Some("C:\\agent".to_string()));
}

#[test]
fn parent_keeps_the_separator_of_a_root() {
    assert_eq!(parent("C:\\python.exe"), Some("C:\\".to_string()));
    assert_eq!(parent("/usr"), Some("/".to_string()));
}

#[test]
fn a_root_or_a_single_component_has_no_parent() {
    assert_eq!(parent("C:\\"), None);
    assert_eq!(parent("/"), None);
    assert_eq!(parent("python.exe"), None);
    assert_eq!(parent(""), None);
}

#[test]
fn trim_drops_white_space_at_both_ends() {
    assert_eq!(trim("  a b \t\r\n"), "a b");
    assert_eq!(trim("\u{a0}x\u{3000}"), "x");
    assert_eq!(trim("   "), "");
    assert_eq!(trim(""), "");
    assert_eq!(trim("x"), "x");
}

#[test]
fn split_lines_splits_at_line_feeds() {
    assert_eq!(split_lines("a\nb"), vec!["a", "b"]);
    assert_eq!(split_lines("a\n"), vec!["a", ""]);
    assert_eq!(split_lines(""), vec![""]);
    assert_eq!(split_lines("\n\n"), vec!["", "", ""]);
    assert_eq!(split_lines("a\r\nb"), vec!["a\r", "b"]);
}

#[test]
fn parse_setting_reads_key_and_value() {
    assert_eq!(
        parse_setting("  broker_port = 1883 \r"),
        Some(("broker_port".to_string(), "1883".to_string()))
    );
    assert_eq!(parse_setting("a=b=c"), Some(("a".to_string(), "b=c".to_string())));
    assert_eq!(parse_setting("key ="), Some(("key".to_string(), "".to_string())));
}

#[test]
fn parse_setting_skips_what_says_nothing() {
    assert_eq!(parse_setting(""), None);
    assert_eq!(parse_setting("   "), None);
    assert_eq!(parse_setting("# broker_port = 1"), None);
    assert_eq!(parse_setting("  #x=y"), None);
    assert_eq!(parse_setting("no assignment here"), None);
}

#[test]
fn parse_number_reads_digits_up_to_the_limit() {
    assert_eq!(parse_number("0", 65535), Some(0));
    assert_eq!(parse_number("1883", 65535), Some(1883));
    assert_eq!(parse_number("+60", 65535), Some(60));
    assert_eq!(parse_number("65535", 65535), Some(65535));
    assert_eq!(parse_number("0000000000000000000000005", 65535), Some(5));
    assert_eq!(parse_number("18446744073709551615", u64::MAX), Some(u64::MAX));
}

#[test]
fn parse_number_refuses_everything_else() {
    assert_eq!(parse_number("65536", 65535), None);
    assert_eq!(parse_number("18446744073709551616", u64::MAX), None);
    assert_eq!(parse_number("", 65535), None);
    assert_eq!(parse_number("+", 65535), None);
    assert_eq!(parse_number("-1", 65535), None);
    assert_eq!(parse_number("12a", 65535), None);
    assert_eq!(parse_number("1 2", 65535), None);
    assert_eq!(parse_number("++1", 65535), None);
    assert_eq!(parse_number("999999999999999999999999999999999999999999x", u64::MAX), None);
}

#[test]
fn parse_flag_reads_true_and_false_only() {
    assert_eq!(parse_flag("true"), Some(true));
    assert_eq!(parse_flag("false"), Some(false));
    assert_eq!(parse_flag("True"), None);
    assert_eq!(parse_flag("1"), None);
    assert_eq!(parse_flag(""), None);
}

#[test]
fn first_index_of_finds_the_first_occurrence() {
    assert_eq!(first_index_of(&vec!['a', '=', 'b', '='], '='), Some(1));
    assert_eq!(first_index_of(&vec!['='], '='), Some(0));
    assert_eq!(first_index_of(&vec!['a', 'b'], '='), None);
    assert_eq!(first_index_of(&vec![], '='), None);
}

#[test]
fn absolute_paths_begin_at_a_root() {
    assert!(absolute("C:\\agent"));
    assert!(absolute("C:/agent"));
    assert!(absolute("C:\\"));
    assert!(absolute("/usr/bin"));
    assert!(absolute("\\\\server\\share"));
    assert!(!absolute("C:"));
    assert!(!absolute("C:agent"));
    assert!(!absolute("agent\\temp"));
    assert!(!absolute(""));
    assert!(absolute(&join("C:\\agent", "temp")));
}

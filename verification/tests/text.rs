use labtool::text::{chars_of, contains_text, decimal_text, same_text, signed_decimal_text,
    split_lines, trim_text};

#[test]
fn chars_of_gives_each_character() {
    assert_eq!(chars_of("a✅b"), vec!['a', '✅', 'b']);
    assert_eq!(chars_of(""), Vec::<char>::new());
}

#[test]
fn same_text_compares_all_characters() {
    assert!(same_text("", ""));
    assert!(same_text("success", "success"));
    assert!(!same_text("success", "succesS"));
    assert!(!same_text("success", "success "));
    assert!(!same_text("a", ""));
}

#[test]
fn contains_text_finds_a_part_anywhere() {
    assert!(contains_text("an ERROR here", "ERROR"));
    assert!(contains_text("ERROR", "ERROR"));
    assert!(contains_text("xxERROR", "ERROR"));
    assert!(contains_text("ERRERROR", "ERROR"));
    assert!(!contains_text("ERRO R", "ERROR"));
    assert!(!contains_text("error", "ERROR"));
    assert!(!contains_text("ERRO", "ERROR"));
    assert!(!contains_text("", "ERROR"));
    assert!(contains_text("abc", ""));
    assert!(contains_text("", ""));
    assert!(contains_text("é✅WARNING", "✅W"));
}

#[test]
fn contains_text_agrees_with_str_contains() {
    let hays = ["", "a", "ab", "aab", "abab", "bbbab", "ERROR WARNING", "WARNERROR"];
    let needles = ["", "a", "b", "ab", "ba", "aba", "ERROR", "WARNING"];
    for hay in hays {
        for needle in needles {
            assert_eq!(contains_text(hay, needle), hay.contains(needle));
        }
    }
}

#[test]
fn decimal_text_writes_digits() {
    assert_eq!(decimal_text(0), "0");
    assert_eq!(decimal_text(7), "7");
    assert_eq!(decimal_text(10), "10");
    assert_eq!(decimal_text(66653699), "66653699");
    assert_eq!(decimal_text(u64::MAX), "18446744073709551615");
}

#[test]
fn signed_decimal_text_writes_the_sign() {
    assert_eq!(signed_decimal_text(0), "0");
    assert_eq!(signed_decimal_text(-1), "-1");
    assert_eq!(signed_decimal_text(2924792047), "2924792047");
    assert_eq!(signed_decimal_text(i64::MAX), "9223372036854775807");
    assert_eq!(signed_decimal_text(i64::MIN), "-9223372036854775808");
}

#[test]
fn split_lines_drops_no_line() {
    assert_eq!(split_lines("a\nb\nc"), vec!["a", "b", "c"]);
    assert_eq!(split_lines("a\n\nb"), vec!["a", "", "b"]);
    assert_eq!(split_lines("\n\n"), vec!["", ""]);
    assert_eq!(split_lines("one"), vec!["one"]);
    assert_eq!(split_lines(""), Vec::<String>::new());
}

#[test]
fn split_lines_ends_lines_as_the_standard_library_does() {
    let traces = [
        "",
        "\n",
        "a",
        "a\n",
        "a\r\n",
        "a\r\nb",
        "a\rb\n",
        "a\r",
        "a\r\r\n",
        "\r\n\r\n",
        "\r",
        "a\n\rb",
        "x\ny\r\nz\r",
        "ERROR one\nWARNING two\r\n\nthree",
    ];
    for trace in traces {
        let expected: Vec<String> = trace.lines().map(|line| line.to_string()).collect();
        assert_eq!(split_lines(trace), expected);
    }
}

#[test]
fn trim_text_takes_white_space_from_both_ends() {
    assert_eq!(trim_text("  token \n"), "token");
    assert_eq!(trim_text("token"), "token");
    assert_eq!(trim_text("a b"), "a b");
    assert_eq!(trim_text(" \t\r\n"), "");
    assert_eq!(trim_text(""), "");
}

#[test]
fn trim_text_agrees_with_str_trim() {
    let texts = [
        "\u{0009}x\u{000D}",
        "\u{000B}\u{000C}x y\u{0085}",
        "\u{00A0}x\u{1680}",
        "\u{2000}\u{200A}x\u{2028}\u{2029}",
        "\u{202F}x\u{205F}\u{3000}",
        "\u{200B}x\u{200B}",
        "\u{001F}x\u{000E}",
        "\u{FEFF}x",
        " \u{180E} ",
    ];
    for text in texts {
        assert_eq!(trim_text(text), text.trim());
    }
}

#[test]
fn split_lines_takes_a_long_log() {
    let mut trace = String::new();
    for i in 0..60_000 {
        trace.push_str("line ");
        trace.push_str(&i.to_string());
        trace.push_str(if i % 3 == 0 { " é ERROR\r\n" } else { " of the log, as long as lines are\n" });
    }
    let lines = split_lines(&trace);
    assert_eq!(lines.len(), 60_000);
    assert_eq!(lines[0], "line 0 é ERROR");
    assert_eq!(lines[59_997], "line 59997 é ERROR");
    let expected: Vec<String> = trace.lines().map(|line| line.to_string()).collect();
    assert_eq!(lines, expected);
}

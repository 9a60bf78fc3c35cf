use sapphire_launcher::scan::package_on;
use sapphire_launcher::text::{
    chars_of, contains, escape, first_lines, head_line, is_letter, is_white, join, join_from,
    keep_after_last, last_chars, lines_of, parse_count, peel, push_line, push_lines,
    replace, same, show, show_signed, split_once, starts_with, strip_prefix, text_of, trim,
    trim_end, value_of, words,
};

fn list(items: &[&str]) -> Vec<String> {
    items.iter().map(|s| s.to_string()).collect()
}

#[test]
fn white_space_is_that_of_the_standard_library() {
    for n in 0..=0x10ffffu32 {
        if let Some(c) = char::from_u32(n) {
            assert_eq!(is_white(c), c.is_whitespace(), "{n:x}");
        }
    }
}

#[test]
fn letters_are_ascii_letters() {
    for n in 0..0x300u32 {
        if let Some(c) = char::from_u32(n) {
            assert_eq!(is_letter(c), c.is_ascii_alphabetic(), "{n:x}");
        }
    }
}

#[test]
fn trimming_agrees_with_the_standard_library() {
    for s in ["", " ", "a", " a b \n", "\u{3000}x\u{2003}", "\t\r\n", "é ", "x\u{200b}"] {
        assert_eq!(trim(s), s.trim());
        assert_eq!(trim_end(s), s.trim_end());
    }
}

#[test]
fn peeling_takes_every_quote_at_the_ends() {
    for s in ["\"ubuntu\"", "\"\"x\"y\"\"", "plain", "\"", "\"\"", ""] {
        assert_eq!(peel(s, '"'), s.trim_matches('"'));
    }
}

#[test]
fn lines_agree_with_the_standard_library() {
    for s in ["", "a", "a\n", "a\nb", "a\r\nb\r\n", "\n\n", "a\rb\nc", "a\r", "\r\n", "x\n\r"] {
        let expected: Vec<String> = s.lines().map(|l| l.to_string()).collect();
        assert_eq!(lines_of(s), expected, "{s:?}");
    }
}

#[test]
fn the_first_line_is_the_whole_text_where_there_is_none() {
    assert_eq!(head_line("Already up to date.\nmore"), "Already up to date.");
    assert_eq!(head_line(""), "");
}

#[test]
fn the_first_lines_are_joined_again() {
    assert_eq!(first_lines("1\n2\n3\n4\n5\n6\n7", 5), "1\n2\n3\n4\n5");
    assert_eq!(first_lines("1\r\n2", 5), "1\n2");
}

#[test]
fn searching_agrees_with_the_standard_library() {
    for (s, p) in [("abcabd", "abd"), ("abc", ""), ("", "a"), ("aaa", "aaaa"), ("é✓x", "✓")] {
        assert_eq!(contains(s, p), s.contains(p));
        assert_eq!(starts_with(s, p), s.starts_with(p));
    }
    assert!(starts_with("sapphire env", "sapphire "));
    assert_eq!(strip_prefix("ID=arch", "ID="), Some("arch".to_string()));
    assert_eq!(strip_prefix("ID_LIKE=x", "ID="), None);
}

#[test]
fn replacing_agrees_with_the_standard_library() {
    for (s, p, by) in [
        ("a\\b\\\\c", "\\", "\\\\"),
        ("a\\\\\\b", "\\\\", "\\"),
        ("it's 'so'", "'", "''"),
        ("aaa", "aa", "b"),
    ] {
        assert_eq!(replace(s, p, by), s.replace(p, by));
    }
}

#[test]
fn the_last_part_follows_the_last_mark() {
    assert_eq!(keep_after_last("10%\r50%\r100%", '\r'), "100%");
    assert_eq!(keep_after_last("plain", '\r'), "plain");
    assert_eq!(keep_after_last("gone\r", '\r'), "");
}

#[test]
fn a_package_name_ends_where_its_version_begins() {
    assert_eq!(package_on("numpy>=1.2"), "numpy");
    assert_eq!(package_on("uvicorn[standard]"), "uvicorn");
    assert_eq!(package_on("plain"), "plain");
    assert_eq!(package_on("torch~=2.0"), "torch");
    assert_eq!(package_on("zope.interface_2-x@ file:///x"), "zope.interface_2-x");
    assert_eq!(package_on("a\t==1"), "a");
    assert_eq!(package_on("~=1"), "");
    assert_eq!(package_on("git+https://example.org/x"), "git+https://example.org/x");
    assert_eq!(package_on("a @ file:///x"), "a");
    assert_eq!(package_on("x; python_version > '3'"), "x");
    assert_eq!(package_on("(a),b"), "(a)");
}

#[test]
fn backslashes_and_quotes_are_escaped() {
    assert_eq!(escape("C:\\a \"b\""), "C:\\\\a \\\"b\\\"");
    assert_eq!(escape("plain"), "plain");
}

#[test]
fn splitting_once_takes_the_first_mark() {
    assert_eq!(
        split_once("NVIDIA RTX, 8192, x", ','),
        Some(("NVIDIA RTX".to_string(), " 8192, x".to_string()))
    );
    assert_eq!(split_once("none", ','), None);
}

#[test]
fn the_last_characters_are_characters_not_bytes() {
    assert_eq!(last_chars("xx200", 3), "200");
    assert_eq!(last_chars("é✓", 3), "é✓");
}

#[test]
fn numbers_are_written_in_decimal() {
    for n in [0u64, 7, 10, 42, 999, 1000, u64::MAX] {
        assert_eq!(show(n), n.to_string());
    }
    for n in [0i32, -1, 42, i32::MAX, i32::MIN] {
        assert_eq!(show_signed(n), n.to_string());
    }
}

#[test]
fn counting_agrees_with_the_standard_library() {
    for s in ["0", "17", "4294967295", "4294967296", "", "-1", "+5", "+", "1x", " 1", "007", "٣"] {
        assert_eq!(parse_count(s), s.parse::<u32>().ok(), "{s:?}");
    }
}

#[test]
fn joining_puts_the_separator_between() {
    let l = list(&["a", "b", "c"]);
    assert_eq!(join(&l, ", "), "a, b, c");
    assert_eq!(join_from(&l, 1, "\n"), "b\nc");
    assert_eq!(join(&list(&[]), ", "), "");
}

#[test]
fn the_last_line_with_a_key_counts() {
    let l = list(&["ID=a", "X=1", "ID=b"]);
    assert_eq!(value_of(&l, "ID="), "b");
    assert_eq!(value_of(&l, "Y="), "");
}

#[test]
fn lists_of_lines_grow_at_the_end() {
    let mut l = words(&["a"]);
    push_line(&mut l, "b".to_string());
    push_lines(&mut l, list(&["c", "d"]));
    assert_eq!(l, list(&["a", "b", "c", "d"]));
    assert!(same("x", "x") && !same("x", "y"));
    let chars = chars_of("héy");
    assert_eq!(text_of(&chars, 1, 3), "éy");
}

use sapphire_launcher::output::{
    brief_of, cap_lines, full_of, install_line_from, journal_line_from, output_from, report,
    sapphire_line_from, shape_install_line, shape_journal_line, shape_sapphire_line, show_code,
    strip_ansi,
};

#[test]
fn escape_sequences_are_stripped() {
    assert_eq!(strip_ansi("\x1b[31mred\x1b[0m text"), "red text");
    assert_eq!(strip_ansi("plain"), "plain");
    assert_eq!(strip_ansi("cut \x1b[12;3"), "cut ");
    assert_eq!(strip_ansi("\x1bMx"), "x");
    assert_eq!(strip_ansi("\x1b[3~ok"), "ok");
    assert_eq!(strip_ansi("\x1b[200~paste\x1b[201~"), "paste");
    assert_eq!(strip_ansi("\x1b[3\x1b[31mred"), "red");
    assert_eq!(strip_ansi("\x1b(Bok"), "ok");
}

#[test]
fn stripping_a_second_time_changes_nothing() {
    for s in ["\x1b[1mA\x1b[0m", "x\x1b[2K\ry", "\x1b\x1b[m["] {
        let once = strip_ansi(s);
        assert!(!once.contains('\x1b'));
        assert!(once.chars().count() <= s.chars().count());
        assert_eq!(strip_ansi(&once), once);
    }
}

#[test]
fn an_install_line_is_indented_and_keeps_the_last_progress() {
    assert_eq!(shape_install_line("1%\r\x1b[32m99%"), "  99%");
    assert_eq!(install_line_from(b"Collecting torch\r\n".to_vec()), "  Collecting torch");
    assert_eq!(install_line_from(b"10%\r90%\n".to_vec()), "  90%");
}

#[test]
fn a_line_of_sapphire_is_decoded_leniently() {
    assert_eq!(shape_sapphire_line("a\rb"), "b");
    assert_eq!(sapphire_line_from(b"ok \xff\n".to_vec()), "ok \u{fffd}");
    assert_eq!(sapphire_line_from("✓ bereit\r\n".as_bytes().to_vec()), "✓ bereit");
}

#[test]
fn a_line_of_the_journal_is_shaped_alike() {
    assert_eq!(shape_journal_line("x\r\x1b[1my\r\n"), "y");
    assert_eq!(journal_line_from(b"started\n".to_vec()), "started");
}

#[test]
fn a_report_drops_blank_lines() {
    assert_eq!(report("one\n\n  \n\x1b[1mtwo\x1b[0m  \n5%\r100%\n"), vec!["  one", "  two", "  100%"]);
    assert!(report("").is_empty());
}

#[test]
fn a_log_keeps_its_last_lines() {
    let mut l: Vec<String> = (0..5).map(|i| i.to_string()).collect();
    cap_lines(&mut l, 3);
    assert_eq!(l, vec!["2", "3", "4"]);
    cap_lines(&mut l, 3);
    assert_eq!(l.len(), 3);
}

#[test]
fn a_brief_answer_is_stdout_or_the_reason() {
    assert_eq!(brief_of(&output_from(true, Some(0), b" git version 2 \n", b"x")), Ok("git version 2".into()));
    assert_eq!(brief_of(&output_from(false, Some(3), b"out", b" bad \n")), Err("bad".into()));
    assert_eq!(brief_of(&output_from(false, Some(3), b"out", b" \n")), Err("Exit code 3".into()));
    assert_eq!(brief_of(&output_from(false, None, b"", b"")), Err("Exit code -1".into()));
}

#[test]
fn a_full_answer_has_both_streams() {
    assert_eq!(full_of(&output_from(true, Some(0), b"a\n", b"b\n")), Ok("a\nb".into()));
    assert_eq!(full_of(&output_from(false, Some(1), b"", b"why\n")), Err("why".into()));
}

#[test]
fn a_missing_exit_code_is_shown_as_minus_one() {
    assert_eq!(show_code(None), "-1");
    assert_eq!(show_code(Some(-7)), "-7");
}

#[test]
fn a_text_can_be_stripped_in_pieces() {
    for (a, b) in [("x\x1b[31m", "red"), ("\x1b[3~", "ok"), ("a", "\x1b[0mb"), ("\x1bM", "x")] {
        assert_eq!(strip_ansi(&format!("{a}{b}")), strip_ansi(a) + &strip_ansi(b));
    }
    assert_eq!(strip_ansi("\x1b[3") + &strip_ansi("1mred"), "1mred");
}

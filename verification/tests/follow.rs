use sapphire_launcher::message::{browse_result, Message};
use sapphire_launcher::parts::named_cmd;
use sapphire_launcher::stream::{
    end_notice, journal_command, journal_failure, python_notice, start_failure, wait_failure, After,
    Batch, SpawnItem,
};

fn line(n: usize) -> SpawnItem {
    SpawnItem::Line(n.to_string())
}

#[test]
fn lines_come_before_the_end() {
    let mut b = Batch::new();
    assert!(b.take(line(1)));
    assert!(b.take(line(2)));
    assert!(!b.take(SpawnItem::Exited("over".into())));
    let (m, after) = b.hand_on();
    assert_eq!(format!("{m:?}"), "SapphireLines([\"1\", \"2\"])");
    assert!(matches!(after, After::Exit(s) if s == "over"));
}

#[test]
fn an_end_alone_is_told_at_once() {
    let mut b = Batch::new();
    assert!(!b.take(SpawnItem::Exited("over".into())));
    let (m, after) = b.hand_on();
    assert!(matches!(m, Message::SapphireExited(s) if s == "over"));
    assert!(matches!(after, After::Over));
}

#[test]
fn a_batch_holds_all_lines() {
    let mut b = Batch::new();
    for n in 0..2001 {
        assert!(b.take(line(n)));
    }
    let (m, after) = b.hand_on();
    match m {
        Message::SapphireLines(lines) => {
            assert_eq!(lines.len(), 2001);
            assert_eq!(lines[2000], "2000");
        }
        other => panic!("{other:?}"),
    }
    assert!(matches!(after, After::More));
}

#[test]
fn endings_are_told() {
    assert_eq!(end_notice(true, Some(0)), "Sapphire exited.");
    assert_eq!(end_notice(false, Some(42)), "Sapphire is restarting...");
    assert_eq!(end_notice(false, Some(1)), "Sapphire exited (code 1).");
    assert_eq!(end_notice(false, None), "Sapphire exited (code -1).");
    assert_eq!(start_failure("x"), "Failed to start: x");
    assert_eq!(wait_failure("x"), "Error: x");
    assert_eq!(journal_failure("x"), "Couldn't read service logs: x");
}

#[test]
fn a_direct_python_is_named() {
    assert_eq!(python_notice(&named_cmd("/py", &[])), Some("Using /py".into()));
    assert_eq!(python_notice(&named_cmd("conda", &["run"])), None);
}

#[test]
fn the_journal_is_followed_from_its_last_lines() {
    let c = journal_command();
    assert!(format!("{:?}", c.program).contains("journalctl"));
    assert_eq!(c.args.join(" "), "--user -u sapphire -f -n 200 -o cat");
}

#[test]
fn a_choice_of_a_folder_is_told() {
    assert_eq!(format!("{:?}", browse_result(Some("/x".into()))), "PathChanged(\"/x\")");
    assert_eq!(format!("{:?}", browse_result(None)), "Log(\"Browse cancelled.\")");
}

use kern_interrupts::{edit_line, Command, Edit, Outcome, ParseError, Reply, Shell};

#[test]
fn parse_splits_on_spaces() {
    let c = Command::parse("  echo  hello world ").ok().unwrap();
    assert_eq!(c.path(), "echo");
    assert!(matches!(Command::parse("   "), Err(ParseError::Empty)));
    assert!(matches!(Command::parse(""), Err(ParseError::Empty)));
}

#[test]
fn echo_replies_with_remaining_words() {
    let s = Shell::new();
    let c = Command::parse("echo a  bc").ok().unwrap();
    match s.process_command(&c) {
        Ok(Reply::Echo(v)) => assert_eq!(v, vec![String::from("a"), String::from("bc")]),
        _ => panic!("expected an echo"),
    }
}

#[test]
fn unknown_command_is_refused() {
    let s = Shell::new();
    let c = Command::parse("ls -l").ok().unwrap();
    assert!(s.process_command(&c).is_err());
    let c = Command::parse("exit").ok().unwrap();
    assert!(matches!(s.process_command(&c), Ok(Reply::Exit)));
}

#[test]
fn history_keeps_ten_newest_oldest_first() {
    let mut s = Shell::new();
    for i in 0..12 {
        let line = format!("cmd{}", i);
        s.record(&line);
    }
    let c = Command::parse("history").ok().unwrap();
    match s.process_command(&c) {
        Ok(Reply::History(v)) => {
            assert_eq!(v.len(), 10);
            assert_eq!(v[0], "cmd2");
            assert_eq!(v[9], "cmd11");
        }
        _ => panic!("expected the history"),
    }
}

#[test]
fn submit_line_records_then_runs() {
    let mut s = Shell::new();
    assert!(matches!(s.submit_line("   "), Outcome::Blank));
    match s.submit_line("frob x") {
        Outcome::Unknown(p) => assert_eq!(p, "frob"),
        _ => panic!("expected an unknown command"),
    }
    match s.submit_line("history") {
        Outcome::Done(Reply::History(v)) => {
            assert_eq!(v, vec![String::from("   "), String::from("frob x"), String::from("history")])
        }
        _ => panic!("expected the history"),
    }
}

#[test]
fn line_editor_answers() {
    let mut line: Vec<u8> = Vec::new();
    assert_eq!(edit_line(&mut line, 8), Edit::Bell);
    assert_eq!(edit_line(&mut line, b'h'), Edit::Echo(b'h'));
    assert_eq!(edit_line(&mut line, b'i'), Edit::Echo(b'i'));
    assert_eq!(edit_line(&mut line, 127), Edit::Erase);
    assert_eq!(line, b"h".to_vec());
    assert_eq!(edit_line(&mut line, 7), Edit::Bell);
    assert_eq!(edit_line(&mut line, 3), Edit::Interrupt);
    assert_eq!(edit_line(&mut line, b'\r'), Edit::Submit);
    assert_eq!(line, b"h".to_vec());
}

use smteepee::text::{has_prefix, is_exactly};
use smteepee::{Action, Config, Message, Smtp, State};

fn session() -> Smtp {
    Smtp::new(Config {
        domain: "groove.com".to_string(),
    })
}

fn lines(v: &[&str]) -> Vec<String> {
    v.iter().map(|s| s.to_string()).collect()
}

fn send_of(a: Action) -> String {
    match a {
        Action::Send(s) => s,
        _ => panic!("expected a reply to send"),
    }
}

/// Brings a fresh session to the Accept state with no flush outstanding.
fn accepted() -> Smtp {
    let mut s = session();
    send_of(s.next_action());
    s.flushed();
    assert!(s.receive(Some("HELO x".to_string())).is_none());
    send_of(s.next_action());
    s.flushed();
    assert_eq!(s.state, State::Accept);
    s
}

#[test]
fn greeting_is_first_reply() {
    let mut s = session();
    assert_eq!(send_of(s.next_action()), "220 local ESMTP smteepee");
    let replies = session().run(&lines(&["garbage"]));
    assert_eq!(replies[0], "220 local ESMTP smteepee");
    let replies = session().run(&Vec::new());
    assert_eq!(replies[0], "220 local ESMTP smteepee");
}

#[test]
fn reply_is_not_repeated_before_flush() {
    let mut s = session();
    send_of(s.next_action());
    assert!(matches!(s.next_action(), Action::Flush));
    assert!(matches!(s.next_action(), Action::Flush));
    s.flushed();
    assert!(matches!(s.next_action(), Action::Read));
    assert!(matches!(s.next_action(), Action::Read));
}

#[test]
fn non_helo_first_line_is_rejected() {
    for first in ["EHLO x", "helo x", "MAIL FROM:<a@example.com>", ""] {
        let mut s = session();
        let replies = s.run(&lines(&[first, "HELO y"]));
        assert_eq!(replies, lines(&["220 local ESMTP smteepee", "Error"]));
        assert_eq!(s.state, State::End);
        assert!(s.take_message().is_none());
    }
}

#[test]
fn closed_before_greeting_is_rejected() {
    let mut s = session();
    let replies = s.run(&Vec::new());
    assert_eq!(replies, lines(&["220 local ESMTP smteepee", "Error"]));
    assert!(s.take_message().is_none());
}

#[test]
fn helo_is_a_prefix_match() {
    let mut s = session();
    let replies = s.run(&lines(&["HELOworld", "QUIT"]));
    assert_eq!(replies[1], "250 groove.com, I hope this day finds you well.");
    assert_eq!(replies[2], "221 Bye");
}

#[test]
fn happy_path() {
    let mut s = session();
    let replies = s.run(&lines(&[
        "HELO x",
        "MAIL FROM:<a@example.com>",
        "RCPT TO:<b@example.com>",
        "DATA",
        "hello world",
        ".",
        "QUIT",
    ]));
    assert_eq!(
        replies,
        lines(&[
            "220 local ESMTP smteepee",
            "250 groove.com, I hope this day finds you well.",
            "250 OK",
            "250 OK",
            "354 End data with <CR><LF>.<CR><LF>",
            "250 Ok: queued as plork",
            "221 Bye",
        ])
    );
    assert_eq!(s.state, State::End);
    let m = s.take_message().unwrap();
    assert_eq!(m.from, Some("MAIL FROM:<a@example.com>".to_string()));
    assert_eq!(m.to, lines(&["RCPT TO:<b@example.com>"]));
    assert_eq!(m.data, lines(&["hello world"]));
    assert!(s.take_message().is_none());
}

#[test]
fn happy_path_step_by_step() {
    let mut s = session();
    let mut sent: Vec<String> = Vec::new();
    let mut input = lines(&[
        "HELO x",
        "MAIL FROM:<a@example.com>",
        "RCPT TO:<b@example.com>",
        "DATA",
        "hello world",
        ".",
        "QUIT",
    ])
    .into_iter();
    loop {
        match s.next_action() {
            Action::Send(r) => sent.push(r),
            Action::Flush => s.flushed(),
            Action::Read => {
                if let Some(r) = s.receive(input.next()) {
                    sent.push(r);
                }
            }
            Action::Done => break,
        }
    }
    assert_eq!(sent.len(), 7);
    assert_eq!(sent[6], "221 Bye");
    let m = s.take_message().unwrap();
    assert_eq!(m.data, lines(&["hello world"]));
}

#[test]
fn recipients_accumulate_in_order() {
    let mut s = accepted();
    assert_eq!(s.receive(Some("RCPT TO:<b1>".to_string())), Some("250 OK".to_string()));
    s.flushed();
    assert_eq!(s.receive(Some("RCPT TO:<b2>".to_string())), Some("250 OK".to_string()));
    s.flushed();
    assert_eq!(s.receive(Some("RCPT TO:<b1>".to_string())), Some("250 OK".to_string()));
    let m = s.take_message().unwrap();
    assert_eq!(m.to, lines(&["RCPT TO:<b1>", "RCPT TO:<b2>", "RCPT TO:<b1>"]));
    assert_eq!(m.from, None);
}

#[test]
fn sender_is_overwritten() {
    let mut s = session();
    s.run(&lines(&["HELO x", "MAIL FROM:<a>", "MAIL FROM:<c>", "QUIT"]));
    let m = s.take_message().unwrap();
    assert_eq!(m.from, Some("MAIL FROM:<c>".to_string()));
    assert!(m.to.is_empty());
}

#[test]
fn unknown_command_is_rejected() {
    let mut s = session();
    let replies = s.run(&lines(&["HELO x", "MAIL FROM:<a>", "NOOP", "QUIT"]));
    assert_eq!(
        replies,
        lines(&[
            "220 local ESMTP smteepee",
            "250 groove.com, I hope this day finds you well.",
            "250 OK",
            "Error",
        ])
    );
    assert_eq!(s.state, State::End);
    let m = s.take_message().unwrap();
    assert_eq!(m.from, Some("MAIL FROM:<a>".to_string()));
}

#[test]
fn lowercase_command_is_rejected() {
    let mut s = accepted();
    assert!(s.receive(Some("quit".to_string())).is_none());
    assert_eq!(s.state, State::Rejected);
    assert_eq!(send_of(s.next_action()), "Error");
}

#[test]
fn closed_in_accept_is_rejected() {
    let mut s = accepted();
    assert!(s.receive(None).is_none());
    assert_eq!(s.state, State::Rejected);
}

#[test]
fn data_terminator_is_exact() {
    let mut s = session();
    let replies = s.run(&lines(&[
        "HELO x", "DATA", ".hidden", ". ", "..", "", "line", ".", "QUIT",
    ]));
    assert_eq!(replies[3], "250 Ok: queued as plork");
    assert_eq!(replies[4], "221 Bye");
    let m = s.take_message().unwrap();
    assert_eq!(m.data, lines(&[".hidden", ". ", "..", "", "line"]));
}

#[test]
fn commands_inside_data_are_body() {
    let mut s = session();
    s.run(&lines(&["HELO x", "DATA", "QUIT", "RCPT TO:<z>", ".", "QUIT"]));
    let m = s.take_message().unwrap();
    assert_eq!(m.data, lines(&["QUIT", "RCPT TO:<z>"]));
    assert!(m.to.is_empty());
}

#[test]
fn closed_during_data_keeps_record() {
    let mut s = session();
    let replies = s.run(&lines(&["HELO x", "DATA", "partial"]));
    assert_eq!(replies.len(), 3);
    assert_eq!(s.state, State::End);
    let m = s.take_message().unwrap();
    assert_eq!(m.data, lines(&["partial"]));
}

#[test]
fn empty_session_gives_no_message() {
    let mut s = session();
    let replies = s.run(&lines(&["HELO x", "QUIT"]));
    assert_eq!(
        replies,
        lines(&[
            "220 local ESMTP smteepee",
            "250 groove.com, I hope this day finds you well.",
            "221 Bye",
        ])
    );
    assert_eq!(s.state, State::End);
    assert!(s.take_message().is_none());
}

#[test]
fn end_state_is_idempotent() {
    let mut s = session();
    s.run(&lines(&["HELO x", "QUIT"]));
    assert!(matches!(s.next_action(), Action::Done));
    assert!(matches!(s.next_action(), Action::Done));
    assert!(s.receive(Some("HELO again".to_string())).is_none());
    assert!(matches!(s.next_action(), Action::Done));
    assert!(s.run(&lines(&["HELO", "QUIT"])).is_empty());
    assert_eq!(s.state, State::End);
    assert!(!s.pending_flush);
}

#[test]
fn welcome_names_the_domain() {
    let mut s = Smtp::new(Config {
        domain: "example.org".to_string(),
    });
    let replies = s.run(&lines(&["HELO x"]));
    assert_eq!(replies[1], "250 example.org, I hope this day finds you well.");
}

#[test]
fn new_message_is_empty_and_mutators_append() {
    let mut m = Message::new();
    assert!(m.from.is_none() && m.to.is_empty() && m.data.is_empty());
    m.set_from("MAIL FROM:<a>".to_string());
    m.add_rcpt("RCPT TO:<b>".to_string());
    m.add_rcpt("RCPT TO:<b>".to_string());
    m.add_body("x".to_string());
    assert_eq!(m.from, Some("MAIL FROM:<a>".to_string()));
    assert_eq!(m.to.len(), 2);
    assert_eq!(m.data, lines(&["x"]));
}

#[test]
fn prefix_and_exact_matching() {
    assert!(has_prefix("MAIL FROM:<a>", "MAIL FROM:"));
    assert!(has_prefix("DATA", "DATA"));
    assert!(!has_prefix("DAT", "DATA"));
    assert!(!has_prefix("data", "DATA"));
    assert!(has_prefix("é x", "é"));
    assert!(is_exactly(".", "."));
    assert!(!is_exactly(".x", "."));
    assert!(!is_exactly("", "."));
}

use mop3::smtp::{
    parse_smtp_command, smtp_greeting, SmtpCommand, SmtpLineError, SmtpNext, SmtpPhase,
    SmtpSession,
};
use mop3::submit::{draft_from_message, finish_status};

fn reply(s: &mut SmtpSession, line: &str) -> String {
    let a = s.on_line(line);
    assert!(matches!(a.next, SmtpNext::Continue), "{:?}", a.next);
    a.reply
}

#[test]
fn smtp_banner() {
    assert_eq!(smtp_greeting(), "220 hi welcome to chilis\r\n");
}

#[test]
fn addresses_stand_between_brackets() {
    assert!(matches!(parse_smtp_command("MAIL FROM:<a@b>\r\n"), Ok(SmtpCommand::Mailfrom(a)) if a == "a@b"));
    assert!(matches!(parse_smtp_command("MAIL FROM:<>\r\n"), Ok(SmtpCommand::Mailfrom(a)) if a.is_empty()));
    assert!(matches!(parse_smtp_command("MAIL FROM: <a@b> SIZE=10\r\n"), Ok(SmtpCommand::Mailfrom(a)) if a == "a@b"));
    assert!(matches!(parse_smtp_command("MAIL FROM:<a@b> <c@d>\r\n"), Ok(SmtpCommand::Mailfrom(a)) if a == "a@b"));
    assert!(matches!(parse_smtp_command("MAIL FROM:<<a@b>>\r\n"), Ok(SmtpCommand::Mailfrom(a)) if a == "<a@b"));
    assert!(matches!(parse_smtp_command("MAIL FROM:<a\n<b>"), Ok(SmtpCommand::Mailfrom(a)) if a == "b"));
    assert!(matches!(parse_smtp_command("RCPT TO:<x@y>\r\n"), Ok(SmtpCommand::RcptTo(a)) if a == "x@y"));
}

#[test]
fn addresses_without_brackets_are_refused() {
    assert_eq!(parse_smtp_command("MAIL FROM: a@b\r\n").unwrap_err(), SmtpLineError::BadAddress);
    assert_eq!(parse_smtp_command("MAIL FROM:<a@b\r\n").unwrap_err(), SmtpLineError::BadAddress);
    assert_eq!(parse_smtp_command("MAIL FROM:a@b>\r\n").unwrap_err(), SmtpLineError::BadAddress);
    assert_eq!(parse_smtp_command("RCPT TO:\r\n").unwrap_err(), SmtpLineError::BadAddress);
}

#[test]
fn verbs_in_any_case() {
    assert!(matches!(parse_smtp_command("mail from:<a@b>\r\n"), Ok(SmtpCommand::Mailfrom(a)) if a == "a@b"));
    assert!(matches!(parse_smtp_command("Rcpt To:<a@b>\r\n"), Ok(SmtpCommand::RcptTo(_))));
    assert!(matches!(parse_smtp_command("DATA\r\n"), Ok(SmtpCommand::Data)));
    assert!(matches!(parse_smtp_command("data\r\n"), Ok(SmtpCommand::Data)));
    assert!(matches!(parse_smtp_command("HELO there\r\n"), Ok(SmtpCommand::Helo)));
    assert!(matches!(parse_smtp_command("ehlo there\r\n"), Ok(SmtpCommand::Ehlo)));
    assert!(matches!(parse_smtp_command("NoOp\r\n"), Ok(SmtpCommand::Noop)));
    assert!(matches!(parse_smtp_command("quit\r\n"), Ok(SmtpCommand::Quit)));
    assert!(matches!(parse_smtp_command("RSET\r\n"), Ok(SmtpCommand::Rset)));
}

#[test]
fn unknown_lines() {
    assert_eq!(parse_smtp_command("").unwrap_err(), SmtpLineError::Unknown);
    assert_eq!(parse_smtp_command("\r\n").unwrap_err(), SmtpLineError::Unknown);
    assert_eq!(parse_smtp_command(" DATA\r\n").unwrap_err(), SmtpLineError::Unknown);
    assert_eq!(parse_smtp_command("VRFY a\r\n").unwrap_err(), SmtpLineError::Unknown);
    assert_eq!(parse_smtp_command("MAIL\r\n").unwrap_err(), SmtpLineError::Unknown);
}

#[test]
fn replies_of_the_dialog() {
    let mut s = SmtpSession::new();
    assert_eq!(s.phase(), SmtpPhase::Command);
    assert_eq!(reply(&mut s, "HELO x\r\n"), "250 mop3 whats poppin\r\n");
    assert_eq!(
        reply(&mut s, "EHLO x\r\n"),
        "250-mop3 whats poppin\r\n250-SIZE 5000000\r\n250 OK\r\n"
    );
    assert_eq!(reply(&mut s, "NOOP\r\n"), "250 OK\r\n");
    assert_eq!(reply(&mut s, "RSET\r\n"), "250 OK\r\n");
    assert_eq!(reply(&mut s, "RCPT TO:<a@b>\r\n"), "250 OK\r\n");
    assert_eq!(reply(&mut s, "MAIL FROM:<a@b>\r\n"), "250 OK\r\n");
    assert_eq!(reply(&mut s, "MAIL FROM:a@b\r\n"), "501 Syntax error in parameters or arguments\r\n");
    assert_eq!(reply(&mut s, "BOGUS\r\n"), "500 Syntax error, command unrecognized\r\n");
    let a = s.on_line("QUIT\r\n");
    assert_eq!(a.reply, "221 good bye\r\n");
    assert!(matches!(a.next, SmtpNext::Close));
    assert_eq!(s.phase(), SmtpPhase::Closed);
    let a = s.on_line("NOOP\r\n");
    assert_eq!(a.reply, "");
    assert!(matches!(a.next, SmtpNext::Close));
}

#[test]
fn data_needs_a_transaction() {
    let mut s = SmtpSession::new();
    assert_eq!(reply(&mut s, "DATA\r\n"), "503 Bad sequence of commands\r\n");
    assert_eq!(s.phase(), SmtpPhase::Command);
    assert_eq!(reply(&mut s, "MAIL FROM:<a@b>\r\n"), "250 OK\r\n");
    assert_eq!(reply(&mut s, "RSET\r\n"), "250 OK\r\n");
    assert_eq!(reply(&mut s, "DATA\r\n"), "503 Bad sequence of commands\r\n");
    assert_eq!(reply(&mut s, "MAIL FROM:a@b\r\n"), "501 Syntax error in parameters or arguments\r\n");
    assert_eq!(reply(&mut s, "DATA\r\n"), "503 Bad sequence of commands\r\n");
    assert_eq!(reply(&mut s, "MAIL FROM:<a@b>\r\n"), "250 OK\r\n");
    assert_eq!(reply(&mut s, "DATA\r\n"), "354 Send message content\r\n");
    assert_eq!(s.phase(), SmtpPhase::Data);
}

#[test]
fn an_empty_reverse_path_opens_a_transaction() {
    let mut s = SmtpSession::new();
    assert_eq!(reply(&mut s, "MAIL FROM:<>\r\n"), "250 OK\r\n");
    assert_eq!(reply(&mut s, "DATA\r\n"), "354 Send message content\r\n");
    assert_eq!(reply(&mut s, "hi\r\n"), "");
    let a = s.on_line(".\r\n");
    assert_eq!(a.reply, "250 OK\r\n");
    match a.next {
        SmtpNext::Submit { reverse_path, message } => {
            assert_eq!(reverse_path, "");
            assert_eq!(message, "hi\r\n");
        }
        other => panic!("{:?}", other),
    }
    assert_eq!(reply(&mut s, "DATA\r\n"), "503 Bad sequence of commands\r\n");
}

#[test]
fn data_is_collected_until_the_dot() {
    let mut s = SmtpSession::new();
    reply(&mut s, "MAIL FROM:<a@b>\r\n");
    reply(&mut s, "DATA\r\n");
    assert_eq!(reply(&mut s, "Subject: x\r\n"), "");
    assert_eq!(reply(&mut s, "\r\n"), "");
    assert_eq!(reply(&mut s, "QUIT\r\n"), "");
    assert_eq!(reply(&mut s, "..leading dot\r\n"), "");
    assert_eq!(reply(&mut s, ".\n"), "");
    assert_eq!(reply(&mut s, "..\r\n"), "");
    let a = s.on_line(".\r\n");
    assert_eq!(a.reply, "250 OK\r\n");
    match a.next {
        SmtpNext::Submit { reverse_path, message } => {
            assert_eq!(reverse_path, "a@b");
            assert_eq!(message, "Subject: x\r\n\r\nQUIT\r\n.leading dot\r\n\n.\r\n");
        }
        other => panic!("{:?}", other),
    }
    assert_eq!(s.phase(), SmtpPhase::Command);
    assert_eq!(reply(&mut s, "DATA\r\n"), "503 Bad sequence of commands\r\n");
}

#[test]
fn smtp_reply() {
    let mut s = SmtpSession::new();
    assert_eq!(reply(&mut s, "MAIL FROM:<a@b>\r\n"), "250 OK\r\n");
    assert_eq!(reply(&mut s, "RCPT TO:<a@b>\r\n"), "250 OK\r\n");
    assert_eq!(reply(&mut s, "DATA\r\n"), "354 Send message content\r\n");
    for line in ["From: a@b\r\n", "To: a@b\r\n", "In-Reply-To: <42@b>\r\n", "\r\n", "hello\r\n"] {
        assert_eq!(reply(&mut s, line), "");
    }
    let a = s.on_line(".\r\n");
    assert_eq!(a.reply, "250 OK\r\n");
    let message = match a.next {
        SmtpNext::Submit { message, .. } => message,
        other => panic!("{:?}", other),
    };
    let status = finish_status(draft_from_message(&message).unwrap(), vec![]);
    assert_eq!(status.status, "hello");
    assert_eq!(status.in_reply_to_id, Some("42".to_string()));
    assert!(status.media_ids.is_empty());
}

#[test]
fn addresses_agree_with_the_pattern() {
    let pattern = onig::Regex::new(r"(?<=\<)(.*?)(?=\>)").unwrap();
    for rest in [
        "<a@b>", "<>", " <a@b> SIZE=1", "<<a@b>>", "<a\n<b>", "a@b", "<a@b", "a@b>", "<é@b>",
        "><x>", "<a><b>", "<a\r\n", "<a\r>\n", "", "<", ">", "<\n>", "<<>", "<a> <b\n>",
    ] {
        let line = format!("MAIL FROM:{}", rest);
        let expected = pattern.captures(&line).and_then(|c| c.at(0)).map(|s| s.to_string());
        let found = match parse_smtp_command(&line) {
            Ok(SmtpCommand::Mailfrom(a)) => Some(a),
            Err(SmtpLineError::BadAddress) => None,
            other => panic!("{:?}", other),
        };
        assert_eq!(found, expected, "{:?}", line);
    }
}

#[test]
fn smtp_lines_as_octets() {
    let mut s = SmtpSession::new();
    assert_eq!(s.on_octets(b"MAIL FROM:<a@b>\r\n").reply, "250 OK\r\n");
    assert_eq!(s.on_octets(b"DATA\r\n").reply, "354 Send message content\r\n");
    assert_eq!(s.on_octets("Subject: caf\u{e9}\r\n".as_bytes()).reply, "");
    assert_eq!(s.on_octets(b"\r\n").reply, "");
    assert_eq!(s.on_octets(b"bad \xff octet\r\n").reply, "");
    let a = s.on_octets(b".\r\n");
    assert_eq!(a.reply, "250 OK\r\n");
    match a.next {
        SmtpNext::Submit { reverse_path, message } => {
            assert_eq!(reverse_path, "a@b");
            assert_eq!(message, "Subject: caf\u{e9}\r\n\r\nbad \u{FFFD} octet\r\n");
        }
        other => panic!("{:?}", other),
    }
}

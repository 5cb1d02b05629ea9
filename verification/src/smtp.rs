//! The SMTP server: a permissive command dialog that collects one message
//! per transaction and hands it on for submission.

use vstd::prelude::*;
use vstd::string::*;
use crate::text::{chars_of, decode_lossy, lossy_text, push_range, substring, text_eq};

verus! {

/// The code point of `c`, with the letters `a` to `z` counted as `A` to `Z`.
pub open spec fn upper_code(c: char) -> u32 {
    if 'a' <= c <= 'z' {
        (c as u32 - 32) as u32
    } else {
        c as u32
    }
}

/// Whether `line` starts with `prefix`, which is in upper case, whatever
/// the case of the line's letters.
pub open spec fn has_verb(line: Seq<char>, prefix: Seq<char>) -> bool {
    &&& prefix.len() <= line.len()
    &&& forall|i: int| 0 <= i < prefix.len() ==> upper_code(#[trigger] line[i]) == prefix[i] as u32
}

fn starts_with_verb(v: &Vec<char>, prefix: &str) -> (r: bool)
    ensures
        r == has_verb(v@, prefix@),
{
    let p = chars_of(prefix);
    if p.len() > v.len() {
        return false;
    }
    let mut i: usize = 0;
    while i < p.len()
        invariant
            i <= p.len() <= v.len(),
            p@ == prefix@,
            forall|j: int| 0 <= j < i ==> upper_code(#[trigger] v@[j]) == p@[j] as u32,
        decreases p.len() - i,
    {
        let c: char = v[i];
        let code: u32 = if 'a' <= c && c <= 'z' {
            c as u32 - 32
        } else {
            c as u32
        };
        if code != p[i] as u32 {
            assert(upper_code(v@[i as int]) != p@[i as int] as u32);
            return false;
        }
        i = i + 1;
    }
    true
}

/// The first position at or after `from` that holds `>` or a line feed, or
/// the end of `s`.
pub open spec fn scan_close(s: Seq<char>, from: int) -> int
    decreases s.len() - from,
{
    if 0 <= from < s.len() && s[from] != '>' && s[from] != '\n' {
        scan_close(s, from + 1)
    } else {
        from
    }
}

/// Whether a `<` stands just before `i` and a `>` follows on the same line.
pub open spec fn opens_at(s: Seq<char>, i: int) -> bool {
    let j = scan_close(s, i);
    1 <= i <= s.len() && s[i - 1] == '<' && j < s.len() && s[j] == '>'
}

/// The first position at or after `from` where a bracketed token starts;
/// beyond the end of `s` where none does.
pub open spec fn first_open(s: Seq<char>, from: int) -> int
    decreases s.len() + 1 - from,
{
    if from > s.len() || opens_at(s, from) {
        from
    } else {
        first_open(s, from + 1)
    }
}

/// The first token of `s` that stands between `<` and `>` on one line,
/// without the brackets.
pub open spec fn bracketed(s: Seq<char>) -> Option<Seq<char>> {
    let i = first_open(s, 1);
    if i <= s.len() {
        Some(s.subrange(i, scan_close(s, i)))
    } else {
        None
    }
}

/// What `bracketed` finds: the token starts behind a `<`, ends before a
/// `>`, holds neither `>` nor a line feed, and no earlier `<` opens a token.
pub proof fn lemma_bracketed(s: Seq<char>)
    ensures
        match bracketed(s) {
            Some(token) => {
                let i = first_open(s, 1);
                &&& 1 <= i && i + token.len() < s.len()
                &&& s[i - 1] == '<'
                &&& s[i + token.len()] == '>'
                &&& token == s.subrange(i, i + token.len())
                &&& forall|k: int| 0 <= k < token.len() ==> token[k] != '>' && token[k] != '\n'
                &&& forall|k: int| 1 <= k < i ==> !opens_at(s, k)
            },
            None => forall|k: int| 1 <= k <= s.len() ==> !opens_at(s, k),
        },
{
    lemma_first_open(s, 1);
    let i = first_open(s, 1);
    if i <= s.len() {
        lemma_scan_close(s, i);
    }
}

proof fn lemma_first_open(s: Seq<char>, from: int)
    requires
        1 <= from,
    ensures
        from <= first_open(s, from),
        first_open(s, from) <= s.len() ==> opens_at(s, first_open(s, from)),
        forall|k: int| from <= k < first_open(s, from) && k <= s.len() ==> !opens_at(s, k),
    decreases s.len() + 1 - from,
{
    if !(from > s.len() || opens_at(s, from)) {
        lemma_first_open(s, from + 1);
    }
}

proof fn lemma_scan_close(s: Seq<char>, from: int)
    requires
        0 <= from <= s.len(),
    ensures
        from <= scan_close(s, from) <= s.len(),
        forall|k: int| from <= k < scan_close(s, from) ==> s[k] != '>' && s[k] != '\n',
    decreases s.len() - from,
{
    if from < s.len() && s[from] != '>' && s[from] != '\n' {
        lemma_scan_close(s, from + 1);
    }
}

fn find_bracketed(v: &Vec<char>) -> (r: Option<String>)
    ensures
        match r {
            Some(t) => bracketed(v@) == Some(t@),
            None => bracketed(v@) is None,
        },
{
    let mut i: usize = 1;
    while i <= v.len()
        invariant
            1 <= i <= v.len() + 1,
            first_open(v@, 1) == first_open(v@, i as int),
        decreases v.len() + 1 - i,
    {
        if v[i - 1] == '<' {
            let mut j: usize = i;
            while j < v.len() && v[j] != '>' && v[j] != '\n'
                invariant
                    i <= j <= v.len(),
                    scan_close(v@, i as int) == scan_close(v@, j as int),
                decreases v.len() - j,
            {
                j = j + 1;
            }
            if j < v.len() && v[j] == '>' {
                return Some(substring(v, i, j));
            }
        }
        if i == v.len() {
            assert(first_open(v@, (i + 1) as int) == i + 1);
            return None;
        }
        i = i + 1;
    }
    None
}

/// A command of an SMTP client.
#[derive(Debug)]
pub enum SmtpCommand {
    Mailfrom(String),
    RcptTo(String),
    Data,
    Rset,
    Noop,
    Quit,
    Helo,
    Ehlo,
}

/// What a line asks for, as mathematical values.
pub enum SmtpRequest {
    Mailfrom(Seq<char>),
    RcptTo(Seq<char>),
    Data,
    Rset,
    Noop,
    Quit,
    Helo,
    Ehlo,
    /// `MAIL FROM:` or `RCPT TO:` without a bracketed address.
    BadAddress,
    /// Any other line.
    Unknown,
}

/// What a line asks for. A line is told by how it starts, whatever the
/// case of its letters.
pub open spec fn smtp_request(line: Seq<char>) -> SmtpRequest {
    if has_verb(line, "MAIL FROM:"@) {
        match bracketed(line) {
            Some(a) => SmtpRequest::Mailfrom(a),
            None => SmtpRequest::BadAddress,
        }
    } else if has_verb(line, "RCPT TO:"@) {
        match bracketed(line) {
            Some(a) => SmtpRequest::RcptTo(a),
            None => SmtpRequest::BadAddress,
        }
    } else if has_verb(line, "DATA"@) {
        SmtpRequest::Data
    } else if has_verb(line, "HELO"@) {
        SmtpRequest::Helo
    } else if has_verb(line, "EHLO"@) {
        SmtpRequest::Ehlo
    } else if has_verb(line, "NOOP"@) {
        SmtpRequest::Noop
    } else if has_verb(line, "QUIT"@) {
        SmtpRequest::Quit
    } else if has_verb(line, "RSET"@) {
        SmtpRequest::Rset
    } else {
        SmtpRequest::Unknown
    }
}

/// Why a line is no command.
#[derive(Clone, Copy, Debug, PartialEq, Eq, Structural)]
pub enum SmtpLineError {
    /// `MAIL FROM:` or `RCPT TO:` without a bracketed address.
    BadAddress,
    /// The line starts with no known verb.
    Unknown,
}

/// The request that a parsed line stands for.
pub open spec fn request_of(r: Result<SmtpCommand, SmtpLineError>) -> SmtpRequest {
    match r {
        Ok(SmtpCommand::Mailfrom(a)) => SmtpRequest::Mailfrom(a@),
        Ok(SmtpCommand::RcptTo(a)) => SmtpRequest::RcptTo(a@),
        Ok(SmtpCommand::Data) => SmtpRequest::Data,
        Ok(SmtpCommand::Rset) => SmtpRequest::Rset,
        Ok(SmtpCommand::Noop) => SmtpRequest::Noop,
        Ok(SmtpCommand::Quit) => SmtpRequest::Quit,
        Ok(SmtpCommand::Helo) => SmtpRequest::Helo,
        Ok(SmtpCommand::Ehlo) => SmtpRequest::Ehlo,
        Err(SmtpLineError::BadAddress) => SmtpRequest::BadAddress,
        Err(SmtpLineError::Unknown) => SmtpRequest::Unknown,
    }
}

/// Reads one line of a client as a command.
pub fn parse_smtp_command(line: &str) -> (r: Result<SmtpCommand, SmtpLineError>)
    ensures
        request_of(r) == smtp_request(line@),
{
    let v = chars_of(line);
    if starts_with_verb(&v, "MAIL FROM:") {
        match find_bracketed(&v) {
            Some(a) => Ok(SmtpCommand::Mailfrom(a)),
            None => Err(SmtpLineError::BadAddress),
        }
    } else if starts_with_verb(&v, "RCPT TO:") {
        match find_bracketed(&v) {
            Some(a) => Ok(SmtpCommand::RcptTo(a)),
            None => Err(SmtpLineError::BadAddress),
        }
    } else if starts_with_verb(&v, "DATA") {
        Ok(SmtpCommand::Data)
    } else if starts_with_verb(&v, "HELO") {
        Ok(SmtpCommand::Helo)
    } else if starts_with_verb(&v, "EHLO") {
        Ok(SmtpCommand::Ehlo)
    } else if starts_with_verb(&v, "NOOP") {
        Ok(SmtpCommand::Noop)
    } else if starts_with_verb(&v, "QUIT") {
        Ok(SmtpCommand::Quit)
    } else if starts_with_verb(&v, "RSET") {
        Ok(SmtpCommand::Rset)
    } else {
        Err(SmtpLineError::Unknown)
    }
}

/// The greeting sent when a client connects.
pub open spec fn smtp_greeting_spec() -> Seq<char> {
    "220 hi welcome to chilis\r\n"@
}

/// The greeting sent when a client connects.
pub fn smtp_greeting() -> (r: String)
    ensures
        r@ == smtp_greeting_spec(),
{
    "220 hi welcome to chilis\r\n".to_owned()
}

/// Where a session stands.
#[derive(Clone, Copy, Debug, PartialEq, Eq, Structural)]
pub enum SmtpPhase {
    /// The next line is a command.
    Command,
    /// The next line belongs to the message that `DATA` announced.
    Data,
    /// The client has quit.
    Closed,
}

/// A session, as mathematical values.
pub struct SmtpState {
    pub phase: SmtpPhase,
    /// Whether a `MAIL FROM` has opened a transaction that is not over.
    pub in_transaction: bool,
    /// The reverse-path of the transaction; empty where there is none,
    /// and where the client gave an empty one.
    pub reverse_path: Seq<char>,
    /// What has come of the message so far.
    pub data: Seq<char>,
}

/// What the server does after a line, besides sending the reply.
pub enum SmtpEffect {
    /// Read the next line.
    Continue,
    /// The message is complete: submit it.
    Submit { reverse_path: Seq<char>, message: Seq<char> },
    /// End the session.
    Close,
}

/// A line of a message with the dot that a client put in front of a
/// leading dot taken off.
pub open spec fn unstuffed(line: Seq<char>) -> Seq<char> {
    if line.len() > 0 && line[0] == '.' {
        line.skip(1)
    } else {
        line
    }
}

/// The line that ends a message.
pub open spec fn is_end_of_data(line: Seq<char>) -> bool {
    line == ".\r\n"@
}

/// The session after a line.
pub open spec fn smtp_next_state(s: SmtpState, line: Seq<char>) -> SmtpState {
    match s.phase {
        SmtpPhase::Closed => s,
        SmtpPhase::Data => if is_end_of_data(line) {
            SmtpState {
                phase: SmtpPhase::Command,
                in_transaction: false,
                reverse_path: Seq::empty(),
                data: Seq::empty(),
            }
        } else {
            SmtpState { data: s.data + unstuffed(line), ..s }
        },
        SmtpPhase::Command => match smtp_request(line) {
            SmtpRequest::Mailfrom(a) => SmtpState { in_transaction: true, reverse_path: a, ..s },
            SmtpRequest::Data => if s.in_transaction {
                SmtpState { phase: SmtpPhase::Data, data: Seq::empty(), ..s }
            } else {
                s
            },
            SmtpRequest::Rset => SmtpState {
                in_transaction: false,
                reverse_path: Seq::empty(),
                ..s
            },
            SmtpRequest::Quit => SmtpState { phase: SmtpPhase::Closed, ..s },
            _ => s,
        },
    }
}

/// What is sent back for a line.
pub open spec fn smtp_reply(s: SmtpState, line: Seq<char>) -> Seq<char> {
    match s.phase {
        SmtpPhase::Closed => Seq::empty(),
        SmtpPhase::Data => if is_end_of_data(line) {
            "250 OK\r\n"@
        } else {
            Seq::empty()
        },
        SmtpPhase::Command => match smtp_request(line) {
            SmtpRequest::Mailfrom(_) => "250 OK\r\n"@,
            SmtpRequest::RcptTo(_) => "250 OK\r\n"@,
            SmtpRequest::Data => if s.in_transaction {
                "354 Send message content\r\n"@
            } else {
                "503 Bad sequence of commands\r\n"@
            },
            SmtpRequest::Helo => "250 mop3 whats poppin\r\n"@,
            SmtpRequest::Ehlo => "250-mop3 whats poppin\r\n250-SIZE 5000000\r\n250 OK\r\n"@,
            SmtpRequest::Noop => "250 OK\r\n"@,
            SmtpRequest::Rset => "250 OK\r\n"@,
            SmtpRequest::Quit => "221 good bye\r\n"@,
            SmtpRequest::BadAddress => "501 Syntax error in parameters or arguments\r\n"@,
            SmtpRequest::Unknown => "500 Syntax error, command unrecognized\r\n"@,
        },
    }
}

/// What follows a line.
pub open spec fn smtp_effect(s: SmtpState, line: Seq<char>) -> SmtpEffect {
    match s.phase {
        SmtpPhase::Closed => SmtpEffect::Close,
        SmtpPhase::Data => if is_end_of_data(line) {
            SmtpEffect::Submit { reverse_path: s.reverse_path, message: s.data }
        } else {
            SmtpEffect::Continue
        },
        SmtpPhase::Command => match smtp_request(line) {
            SmtpRequest::Quit => SmtpEffect::Close,
            _ => SmtpEffect::Continue,
        },
    }
}

/// What the server does after a line, besides sending the reply.
#[derive(Debug)]
pub enum SmtpNext {
    /// Read the next line.
    Continue,
    /// The message is complete: submit it.
    Submit { reverse_path: String, message: String },
    /// End the session.
    Close,
}

impl View for SmtpNext {
    type V = SmtpEffect;

    open spec fn view(&self) -> SmtpEffect {
        match self {
            SmtpNext::Continue => SmtpEffect::Continue,
            SmtpNext::Submit { reverse_path, message } => SmtpEffect::Submit {
                reverse_path: reverse_path@,
                message: message@,
            },
            SmtpNext::Close => SmtpEffect::Close,
        }
    }
}

/// The outcome of one line: what is sent back, and what follows.
pub struct SmtpAction {
    pub reply: String,
    pub next: SmtpNext,
}

/// One SMTP session.
pub struct SmtpSession {
    phase: SmtpPhase,
    in_transaction: bool,
    reverse_path: String,
    data: String,
}

impl View for SmtpSession {
    type V = SmtpState;

    closed spec fn view(&self) -> SmtpState {
        SmtpState {
            phase: self.phase,
            in_transaction: self.in_transaction,
            reverse_path: self.reverse_path@,
            data: self.data@,
        }
    }
}

/// In every state that a session reaches from its start, a message is
/// being collected only within a transaction: `DATA` is taken only after
/// a `MAIL FROM`.
pub open spec fn data_follows_mail_from(s: SmtpState) -> bool {
    s.phase == SmtpPhase::Data ==> s.in_transaction
}

/// The state of a session that has just started.
pub open spec fn smtp_start() -> SmtpState {
    SmtpState {
        phase: SmtpPhase::Command,
        in_transaction: false,
        reverse_path: Seq::empty(),
        data: Seq::empty(),
    }
}

/// The start has that property, no line leads from a state with it to one
/// without it, a message is submitted only from such a transaction, and
/// `DATA` outside a transaction is refused.
pub proof fn lemma_data_only_after_mail_from(s: SmtpState, line: Seq<char>)
    requires
        data_follows_mail_from(s),
    ensures
        data_follows_mail_from(smtp_start()),
        data_follows_mail_from(smtp_next_state(s, line)),
        smtp_effect(s, line) is Submit ==> s.in_transaction,
        s.phase == SmtpPhase::Command && !s.in_transaction && smtp_request(line) is Data ==> {
            &&& smtp_next_state(s, line) == s
            &&& smtp_reply(s, line) == "503 Bad sequence of commands\r\n"@
        },
{
}

impl SmtpSession {
    /// A session for a client that has just connected.
    pub fn new() -> (s: SmtpSession)
        ensures
            s@ == smtp_start(),
    {
        SmtpSession {
            phase: SmtpPhase::Command,
            in_transaction: false,
            reverse_path: String::new(),
            data: String::new(),
        }
    }

    /// Where the session stands.
    pub fn phase(&self) -> (p: SmtpPhase)
        ensures
            p == self@.phase,
    {
        self.phase
    }

    /// Handles one line of the client, its line ending included.
    pub fn on_line(&mut self, line: &str) -> (action: SmtpAction)
        ensures
            final(self)@ == smtp_next_state(old(self)@, line@),
            action.reply@ == smtp_reply(old(self)@, line@),
            action.next@ == smtp_effect(old(self)@, line@),
    {
        match self.phase {
            SmtpPhase::Closed => SmtpAction { reply: String::new(), next: SmtpNext::Close },
            SmtpPhase::Data => {
                if text_eq(line, ".\r\n") {
                    let mut reverse_path = String::new();
                    let mut message = String::new();
                    std::mem::swap(&mut self.reverse_path, &mut reverse_path);
                    std::mem::swap(&mut self.data, &mut message);
                    self.in_transaction = false;
                    self.phase = SmtpPhase::Command;
                    SmtpAction {
                        reply: "250 OK\r\n".to_owned(),
                        next: SmtpNext::Submit { reverse_path, message },
                    }
                } else {
                    let v = chars_of(line);
                    let from: usize = if v.len() > 0 && v[0] == '.' {
                        1
                    } else {
                        0
                    };
                    assert(v@.subrange(from as int, v.len() as int) =~= unstuffed(line@));
                    push_range(&mut self.data, &v, from, v.len());
                    SmtpAction { reply: String::new(), next: SmtpNext::Continue }
                }
            },
            SmtpPhase::Command => match parse_smtp_command(line) {
                Ok(SmtpCommand::Mailfrom(a)) => {
                    self.reverse_path = a;
                    self.in_transaction = true;
                    SmtpAction { reply: "250 OK\r\n".to_owned(), next: SmtpNext::Continue }
                },
                Ok(SmtpCommand::RcptTo(_)) => SmtpAction {
                    reply: "250 OK\r\n".to_owned(),
                    next: SmtpNext::Continue,
                },
                Ok(SmtpCommand::Data) => {
                    if !self.in_transaction {
                        SmtpAction {
                            reply: "503 Bad sequence of commands\r\n".to_owned(),
                            next: SmtpNext::Continue,
                        }
                    } else {
                        self.data = String::new();
                        self.phase = SmtpPhase::Data;
                        SmtpAction {
                            reply: "354 Send message content\r\n".to_owned(),
                            next: SmtpNext::Continue,
                        }
                    }
                },
                Ok(SmtpCommand::Helo) => SmtpAction {
                    reply: "250 mop3 whats poppin\r\n".to_owned(),
                    next: SmtpNext::Continue,
                },
                Ok(SmtpCommand::Ehlo) => SmtpAction {
                    reply: "250-mop3 whats poppin\r\n250-SIZE 5000000\r\n250 OK\r\n".to_owned(),
                    next: SmtpNext::Continue,
                },
                Ok(SmtpCommand::Noop) => SmtpAction {
                    reply: "250 OK\r\n".to_owned(),
                    next: SmtpNext::Continue,
                },
                Ok(SmtpCommand::Rset) => {
                    self.reverse_path = String::new();
                    self.in_transaction = false;
                    SmtpAction { reply: "250 OK\r\n".to_owned(), next: SmtpNext::Continue }
                },
                Ok(SmtpCommand::Quit) => {
                    self.phase = SmtpPhase::Closed;
                    SmtpAction { reply: "221 good bye\r\n".to_owned(), next: SmtpNext::Close }
                },
                Err(SmtpLineError::BadAddress) => SmtpAction {
                    reply: "501 Syntax error in parameters or arguments\r\n".to_owned(),
                    next: SmtpNext::Continue,
                },
                Err(SmtpLineError::Unknown) => SmtpAction {
                    reply: "500 Syntax error, command unrecognized\r\n".to_owned(),
                    next: SmtpNext::Continue,
                },
            },
        }
    }

    /// Handles one line of the client as it came from the connection: the
    /// octets are read as UTF-8, with U+FFFD for what is none, and the
    /// text is handled as `on_line` handles it.
    pub fn on_octets(&mut self, line: &[u8]) -> (action: SmtpAction)
        ensures
            final(self)@ == smtp_next_state(old(self)@, lossy_text(line@)),
            action.reply@ == smtp_reply(old(self)@, lossy_text(line@)),
            action.next@ == smtp_effect(old(self)@, lossy_text(line@)),
    {
        let text = decode_lossy(line);
        self.on_line(text.as_str())
    }
}

} // verus!

//! The POP3 server: what a command line means, and the session that moves
//! from AUTHORIZATION through TRANSACTION to UPDATE.

use vstd::prelude::*;
use vstd::string::*;
use crate::instance::{effective_cred, effective_cred_spec, Cred};
use crate::mailbox::{
    in_range, list_reply, no_such_message, retr_reply, scan_lines, stat_reply, top_reply,
    total_octets, uidl_reply, Mailbox, MailboxView,
};
use crate::text::{
    chars_of, chars_eq, decimal, decode_lossy, lossy_text, digits_value, number_arg, parse_number, scan_spaces, scan_word,
    substring, word, word_start,
};

verus! {

/// A command of a POP3 client.
#[derive(Debug)]
pub enum PopCommand {
    Quit,
    Stat,
    List(u32),
    Retr(u32),
    Dele(u32),
    Noop,
    Rset,
    Top { msg: u32, n: u32 },
    Uidl(u32),
    User(String),
    Pass(String),
    Apop,
    Capa,
    Auth,
}

/// A command, as mathematical values.
pub enum PopRequest {
    Quit,
    Stat,
    List(u32),
    Retr(u32),
    Dele(u32),
    Noop,
    Rset,
    Top { msg: u32, n: u32 },
    Uidl(u32),
    User(Seq<char>),
    Pass(Seq<char>),
    Apop,
    Capa,
    Auth,
}

impl View for PopCommand {
    type V = PopRequest;

    open spec fn view(&self) -> PopRequest {
        match self {
            PopCommand::Quit => PopRequest::Quit,
            PopCommand::Stat => PopRequest::Stat,
            PopCommand::List(n) => PopRequest::List(*n),
            PopCommand::Retr(n) => PopRequest::Retr(*n),
            PopCommand::Dele(n) => PopRequest::Dele(*n),
            PopCommand::Noop => PopRequest::Noop,
            PopCommand::Rset => PopRequest::Rset,
            PopCommand::Top { msg, n } => PopRequest::Top { msg: *msg, n: *n },
            PopCommand::Uidl(n) => PopRequest::Uidl(*n),
            PopCommand::User(s) => PopRequest::User(s@),
            PopCommand::Pass(s) => PopRequest::Pass(s@),
            PopCommand::Apop => PopRequest::Apop,
            PopCommand::Capa => PopRequest::Capa,
            PopCommand::Auth => PopRequest::Auth,
        }
    }
}

/// The `k`-th word of a line, or the empty text where the line has fewer.
pub open spec fn arg(line: Seq<char>, k: nat) -> Seq<char> {
    match word(line, k) {
        Some(w) => w,
        None => Seq::empty(),
    }
}

/// The `k`-th word of a line as a message number; 0 where it is missing
/// or no number.
pub open spec fn number(line: Seq<char>, k: nat) -> u32 {
    number_arg(arg(line, k))
}

/// What a line asks for. The verb is the first word, in upper case; a line
/// with another first word, or with none, asks for nothing.
pub open spec fn pop_request(line: Seq<char>) -> Option<PopRequest> {
    let verb = word(line, 0);
    if verb == Some("USER"@) {
        Some(PopRequest::User(arg(line, 1)))
    } else if verb == Some("PASS"@) {
        Some(PopRequest::Pass(arg(line, 1)))
    } else if verb == Some("CAPA"@) {
        Some(PopRequest::Capa)
    } else if verb == Some("QUIT"@) {
        Some(PopRequest::Quit)
    } else if verb == Some("STAT"@) {
        Some(PopRequest::Stat)
    } else if verb == Some("NOOP"@) {
        Some(PopRequest::Noop)
    } else if verb == Some("RSET"@) {
        Some(PopRequest::Rset)
    } else if verb == Some("APOP"@) {
        Some(PopRequest::Apop)
    } else if verb == Some("LIST"@) {
        Some(PopRequest::List(number(line, 1)))
    } else if verb == Some("RETR"@) {
        Some(PopRequest::Retr(number(line, 1)))
    } else if verb == Some("DELE"@) {
        Some(PopRequest::Dele(number(line, 1)))
    } else if verb == Some("UIDL"@) {
        Some(PopRequest::Uidl(number(line, 1)))
    } else if verb == Some("TOP"@) {
        Some(PopRequest::Top { msg: number(line, 1), n: number(line, 2) })
    } else if verb == Some("AUTH"@) {
        Some(PopRequest::Auth)
    } else {
        None
    }
}

fn is_verb(v: &Vec<char>, from: usize, to: usize, verb: &str) -> (r: bool)
    requires
        from <= to <= v.len(),
    ensures
        r == (v@.subrange(from as int, to as int) == verb@),
{
    let w = chars_of(verb);
    chars_eq(v, from, to, &w)
}

/// Reads one line of a client as a command.
pub fn parse_pop_command(line: &str) -> (r: Option<PopCommand>)
    ensures
        match r {
            Some(c) => pop_request(line@) == Some(c@),
            None => pop_request(line@) is None,
        },
{
    let v = chars_of(line);
    proof {
        reveal_with_fuel(word_start, 3);
    }
    let a0 = scan_spaces(&v, 0);
    let e0 = scan_word(&v, a0);
    let a1 = scan_spaces(&v, e0);
    let e1 = scan_word(&v, a1);
    let a2 = scan_spaces(&v, e1);
    let e2 = scan_word(&v, a2);
    assert(a0 == word_start(v@, 0));
    assert(a1 == word_start(v@, 1));
    assert(a2 == word_start(v@, 2));
    if a0 >= v.len() {
        return None;
    }
    assert(word(v@, 0) == Some(v@.subrange(a0 as int, e0 as int)));
    assert(v@.subrange(a1 as int, e1 as int) =~= arg(v@, 1));
    assert(v@.subrange(a2 as int, e2 as int) =~= arg(v@, 2));
    if is_verb(&v, a0, e0, "USER") {
        Some(PopCommand::User(substring(&v, a1, e1)))
    } else if is_verb(&v, a0, e0, "PASS") {
        Some(PopCommand::Pass(substring(&v, a1, e1)))
    } else if is_verb(&v, a0, e0, "CAPA") {
        Some(PopCommand::Capa)
    } else if is_verb(&v, a0, e0, "QUIT") {
        Some(PopCommand::Quit)
    } else if is_verb(&v, a0, e0, "STAT") {
        Some(PopCommand::Stat)
    } else if is_verb(&v, a0, e0, "NOOP") {
        Some(PopCommand::Noop)
    } else if is_verb(&v, a0, e0, "RSET") {
        Some(PopCommand::Rset)
    } else if is_verb(&v, a0, e0, "APOP") {
        Some(PopCommand::Apop)
    } else if is_verb(&v, a0, e0, "LIST") {
        Some(PopCommand::List(parse_number(&v, a1, e1)))
    } else if is_verb(&v, a0, e0, "RETR") {
        Some(PopCommand::Retr(parse_number(&v, a1, e1)))
    } else if is_verb(&v, a0, e0, "DELE") {
        Some(PopCommand::Dele(parse_number(&v, a1, e1)))
    } else if is_verb(&v, a0, e0, "UIDL") {
        Some(PopCommand::Uidl(parse_number(&v, a1, e1)))
    } else if is_verb(&v, a0, e0, "TOP") {
        Some(PopCommand::Top { msg: parse_number(&v, a1, e1), n: parse_number(&v, a2, e2) })
    } else if is_verb(&v, a0, e0, "AUTH") {
        Some(PopCommand::Auth)
    } else {
        None
    }
}

/// The greeting sent when a client connects.
pub open spec fn pop_greeting_spec() -> Seq<char> {
    "+OK MOP3 ready\r\n"@
}

/// The greeting sent when a client connects.
pub fn pop_greeting() -> (r: String)
    ensures
        r@ == pop_greeting_spec(),
{
    "+OK MOP3 ready\r\n".to_owned()
}

/// The reply that a command gets in every state, whatever the session
/// holds; empty where the command has none.
pub open spec fn direct_reply(c: PopRequest) -> Seq<char> {
    match c {
        PopRequest::User(_) => "+OK send PASS\r\n"@,
        PopRequest::Capa => "+OK Capability list follows\r\nUSER\r\nTOP\r\nUIDL\r\n.\r\n"@,
        PopRequest::Noop => "+OK\r\n"@,
        PopRequest::Rset => "+OK\r\n"@,
        PopRequest::Dele(_) => "+OK\r\n"@,
        PopRequest::Apop => "-ERR Server does not support APOP\r\n"@,
        PopRequest::Auth => "-ERR Server does not support AUTH\r\n"@,
        _ => Seq::empty(),
    }
}

fn direct(c: &PopCommand) -> (r: String)
    ensures
        r@ == direct_reply(c@),
{
    match c {
        PopCommand::User(_) => "+OK send PASS\r\n".to_owned(),
        PopCommand::Capa => "+OK Capability list follows\r\nUSER\r\nTOP\r\nUIDL\r\n.\r\n".to_owned(),
        PopCommand::Noop => "+OK\r\n".to_owned(),
        PopCommand::Rset => "+OK\r\n".to_owned(),
        PopCommand::Dele(_) => "+OK\r\n".to_owned(),
        PopCommand::Apop => "-ERR Server does not support APOP\r\n".to_owned(),
        PopCommand::Auth => "-ERR Server does not support AUTH\r\n".to_owned(),
        _ => String::new(),
    }
}

/// Where a session stands.
#[derive(Clone, Copy, Debug, PartialEq, Eq, Structural)]
pub enum PopPhase {
    /// The client has not logged in.
    Authorization,
    /// The client has logged in and the snapshot is served.
    Transaction,
    /// The client has quit.
    Update,
}

/// What the server does after a line, besides sending the reply.
#[derive(Clone, Copy, Debug, PartialEq, Eq, Structural)]
pub enum PopNext {
    /// Read the next line.
    Continue,
    /// User name and password are known: verify them upstream, fetch and
    /// render the timeline, and `open` the session with the mailbox.
    Login,
    /// End the session.
    Close,
}

/// The outcome of one line: what is sent back, and what follows.
pub struct PopAction {
    pub reply: String,
    pub next: PopNext,
}

/// A session, as mathematical values.
pub struct PopState {
    pub phase: PopPhase,
    pub username: Seq<char>,
    pub password: Seq<char>,
    /// The snapshot; meaningful in TRANSACTION only.
    pub mailbox: MailboxView,
    /// The newest post id that a client has retrieved, in this session or
    /// an earlier one; empty where none was.
    pub recent: Seq<char>,
}

/// The reply that a command gets in TRANSACTION.
pub open spec fn transaction_reply(mb: MailboxView, c: PopRequest) -> Seq<char> {
    match c {
        PopRequest::Stat => stat_reply(mb),
        PopRequest::List(n) => list_reply(mb, n as nat),
        PopRequest::Uidl(n) => uidl_reply(mb, n as nat),
        PopRequest::Retr(n) => retr_reply(mb, n as nat),
        PopRequest::Top { msg, n } => top_reply(mb, msg as nat, n as nat),
        _ => direct_reply(c),
    }
}

/// The session after a command.
pub open spec fn pop_next_state(s: PopState, c: PopRequest) -> PopState {
    match s.phase {
        PopPhase::Update => s,
        PopPhase::Authorization => match c {
            PopRequest::User(name) => PopState { username: name, ..s },
            PopRequest::Pass(token) => PopState { password: token, ..s },
            PopRequest::Quit => PopState { phase: PopPhase::Update, ..s },
            _ => s,
        },
        PopPhase::Transaction => match c {
            PopRequest::Retr(n) => if in_range(s.mailbox, n as nat) {
                PopState { recent: s.mailbox.ids[0], ..s }
            } else {
                s
            },
            PopRequest::Quit => PopState { phase: PopPhase::Update, ..s },
            _ => s,
        },
    }
}

/// What is sent back for a command.
pub open spec fn pop_reply(s: PopState, c: PopRequest) -> Seq<char> {
    match s.phase {
        PopPhase::Update => Seq::empty(),
        PopPhase::Authorization => direct_reply(c),
        PopPhase::Transaction => transaction_reply(s.mailbox, c),
    }
}

/// What follows a command, given the session after it.
pub open spec fn pop_next(after: PopState) -> PopNext {
    match after.phase {
        PopPhase::Update => PopNext::Close,
        PopPhase::Authorization => if after.username.len() > 0 && after.password.len() > 0 {
            PopNext::Login
        } else {
            PopNext::Continue
        },
        PopPhase::Transaction => PopNext::Continue,
    }
}

/// No command changes the mailbox of a session: message numbers stay what
/// they are, and `DELE` changes nothing at all.
pub proof fn lemma_mailbox_is_stable(s: PopState, c: PopRequest)
    ensures
        pop_next_state(s, c).mailbox == s.mailbox,
        c is Dele ==> pop_next_state(s, c) == s,
{
}

/// The recent id moves only when a client retrieves a message that the
/// mailbox holds, and then to the id of the newest post of the snapshot.
pub proof fn lemma_recent_moves_only_on_retr(s: PopState, c: PopRequest)
    ensures
        pop_next_state(s, c).recent != s.recent ==> {
            &&& s.phase == PopPhase::Transaction
            &&& c matches PopRequest::Retr(n)
            &&& in_range(s.mailbox, n as nat)
            &&& pop_next_state(s, c).recent == s.mailbox.ids[0]
        },
{
}

/// `LIST` without an argument and `LIST 0` ask for the same, the whole
/// list; one past the last message there is none to list.
pub proof fn lemma_list_bounds(mb: MailboxView, line: Seq<char>)
    requires
        word(line, 0) == Some("LIST"@),
        word(line, 1) is None || word(line, 1) == Some("0"@),
    ensures
        pop_request(line) == Some(PopRequest::List(0)),
        list_reply(mb, 0) == "+OK "@ + decimal(mb.messages.len()) + " messages ("@ + decimal(
            total_octets(mb.messages),
        ) + " octets)\r\n"@ + scan_lines(mb.messages, mb.messages.len()) + ".\r\n"@,
        list_reply(mb, mb.messages.len() + 1) == no_such_message(),
{
    reveal_strlit("USER");
    reveal_strlit("PASS");
    reveal_strlit("CAPA");
    reveal_strlit("QUIT");
    reveal_strlit("STAT");
    reveal_strlit("NOOP");
    reveal_strlit("RSET");
    reveal_strlit("APOP");
    reveal_strlit("LIST");
    reveal_strlit("0");
    let verb = "LIST"@;
    assert(verb[0] == 'L');
    assert(verb[1] == 'I');
    let zero = "0"@;
    assert(zero.drop_last() =~= Seq::<char>::empty());
    assert(digits_value(zero) == 0) by {
        reveal_with_fuel(digits_value, 2);
    }
}

/// One POP3 session.
pub struct PopSession {
    phase: PopPhase,
    username: String,
    password: String,
    mailbox: Option<Mailbox>,
    recent: String,
}

impl View for PopSession {
    type V = PopState;

    closed spec fn view(&self) -> PopState {
        PopState {
            phase: self.phase,
            username: self.username@,
            password: self.password@,
            mailbox: match self.mailbox {
                Some(mb) => mb@,
                None => MailboxView {
                    domain: Seq::empty(),
                    ids: Seq::empty(),
                    messages: Seq::empty(),
                },
            },
            recent: self.recent@,
        }
    }
}

impl PopSession {
    /// A session that serves a snapshot holds one.
    #[verifier::type_invariant]
    spec fn inv(self) -> bool {
        self.phase == PopPhase::Transaction ==> self.mailbox is Some
    }

    /// A session for a client that has just connected. `recent` is the
    /// newest post id retrieved in an earlier session, or empty.
    pub fn new(recent: String) -> (s: PopSession)
        ensures
            s@.phase == PopPhase::Authorization,
            s@.username.len() == 0,
            s@.password.len() == 0,
            s@.recent == recent@,
    {
        PopSession {
            phase: PopPhase::Authorization,
            username: String::new(),
            password: String::new(),
            mailbox: None,
            recent,
        }
    }

    /// Where the session stands.
    pub fn phase(&self) -> (p: PopPhase)
        ensures
            p == self@.phase,
    {
        self.phase
    }

    /// The newest post id retrieved so far.
    pub fn recent(&self) -> (r: String)
        ensures
            r@ == self@.recent,
    {
        self.recent.clone()
    }

    /// The credential to log in with: what the client sent, with the
    /// configured account and token in place of it where they are set.
    pub fn credential(&self, account: Option<&str>, token: Option<&str>) -> (c: Cred)
        ensures
            (c.username@, c.password@) == effective_cred_spec(
                (self@.username, self@.password),
                match account {
                    Some(a) => Some(a@),
                    None => None,
                },
                match token {
                    Some(t) => Some(t@),
                    None => None,
                },
            ),
    {
        effective_cred(
            Cred { username: self.username.clone(), password: self.password.clone() },
            account,
            token,
        )
    }

    /// Enters TRANSACTION with the rendered snapshot, after a login that
    /// upstream accepted, and returns what is sent to the client. Outside
    /// AUTHORIZATION nothing changes and nothing is sent.
    pub fn open(&mut self, mailbox: Mailbox) -> (reply: String)
        ensures
            old(self)@.phase == PopPhase::Authorization ==> {
                &&& final(self)@ == (PopState {
                    phase: PopPhase::Transaction,
                    mailbox: mailbox@,
                    ..old(self)@
                })
                &&& reply@ == "+OK MOP3 READY, MESSAGES FETCHED\r\n"@
            },
            old(self)@.phase != PopPhase::Authorization ==> {
                &&& final(self)@ == old(self)@
                &&& reply@.len() == 0
            },
    {
        match self.phase {
            PopPhase::Authorization => {
                self.mailbox = Some(mailbox);
                self.phase = PopPhase::Transaction;
                "+OK MOP3 READY, MESSAGES FETCHED\r\n".to_owned()
            },
            _ => String::new(),
        }
    }

    /// Handles one command.
    pub fn on_command(&mut self, c: PopCommand) -> (action: PopAction)
        ensures
            final(self)@ == pop_next_state(old(self)@, c@),
            action.reply@ == pop_reply(old(self)@, c@),
            action.next == pop_next(final(self)@),
    {
        proof {
            use_type_invariant(&*self);
        }
        match self.phase {
            PopPhase::Update => PopAction { reply: String::new(), next: PopNext::Close },
            PopPhase::Authorization => {
                let reply = direct(&c);
                match c {
                    PopCommand::User(name) => {
                        self.username = name;
                    },
                    PopCommand::Pass(token) => {
                        self.password = token;
                    },
                    PopCommand::Quit => {
                        self.phase = PopPhase::Update;
                        return PopAction { reply, next: PopNext::Close };
                    },
                    _ => {},
                }
                let next = if !self.username.as_str().is_empty()
                    && !self.password.as_str().is_empty() {
                    PopNext::Login
                } else {
                    PopNext::Continue
                };
                PopAction { reply, next }
            },
            PopPhase::Transaction => {
                let reply = match &self.mailbox {
                    Some(mb) => match &c {
                        PopCommand::Stat => mb.stat(),
                        PopCommand::List(n) => mb.list(*n),
                        PopCommand::Uidl(n) => mb.uidl(*n),
                        PopCommand::Retr(n) => mb.retr(*n),
                        PopCommand::Top { msg, n } => mb.top(*msg, *n),
                        _ => direct(&c),
                    },
                    None => String::new(),
                };
                match c {
                    PopCommand::Retr(n) => {
                        let newest = match &self.mailbox {
                            Some(mb) => if n >= 1 && n as usize <= mb.count() {
                                mb.newest_id()
                            } else {
                                None
                            },
                            None => None,
                        };
                        match newest {
                            Some(id) => {
                                self.recent = id;
                            },
                            None => {},
                        }
                        PopAction { reply, next: PopNext::Continue }
                    },
                    PopCommand::Quit => {
                        self.phase = PopPhase::Update;
                        PopAction { reply, next: PopNext::Close }
                    },
                    _ => PopAction { reply, next: PopNext::Continue },
                }
            },
        }
    }

    /// Handles one line of the client. A line that is no command gets no
    /// reply and changes nothing.
    pub fn on_line(&mut self, line: &str) -> (action: PopAction)
        ensures
            match pop_request(line@) {
                Some(c) => {
                    &&& final(self)@ == pop_next_state(old(self)@, c)
                    &&& action.reply@ == pop_reply(old(self)@, c)
                    &&& action.next == pop_next(final(self)@)
                },
                None => {
                    &&& final(self)@ == old(self)@
                    &&& action.reply@.len() == 0
                    &&& action.next == PopNext::Continue
                },
            },
    {
        match parse_pop_command(line) {
            Some(c) => self.on_command(c),
            None => PopAction { reply: String::new(), next: PopNext::Continue },
        }
    }

    /// Handles one line of the client as it came from the connection: the
    /// octets are read as UTF-8, with U+FFFD for what is none, and the
    /// text is handled as `on_line` handles it.
    pub fn on_octets(&mut self, line: &[u8]) -> (action: PopAction)
        ensures
            match pop_request(lossy_text(line@)) {
                Some(c) => {
                    &&& final(self)@ == pop_next_state(old(self)@, c)
                    &&& action.reply@ == pop_reply(old(self)@, c)
                    &&& action.next == pop_next(final(self)@)
                },
                None => {
                    &&& final(self)@ == old(self)@
                    &&& action.reply@.len() == 0
                    &&& action.next == PopNext::Continue
                },
            },
    {
        let text = decode_lossy(line);
        self.on_line(text.as_str())
    }
}

} // verus!

//! The mail store of one POP3 session: the rendered messages of a timeline
//! snapshot and the replies that the retrieval commands give from it.

use vstd::prelude::*;
use vstd::string::*;
use crate::text::{
    chars_of, decimal, line_views, lines, octet_len, push_decimal, push_range, split_lines,
};

verus! {

/// One post of the snapshot: its upstream id and the message rendered from it.
pub struct Entry {
    pub id: String,
    pub message: String,
}

/// What a mailbox holds, as mathematical values. Message `i` (counted from
/// 1) is `messages[i - 1]`, rendered from the post with id `ids[i - 1]`.
pub struct MailboxView {
    pub domain: Seq<char>,
    pub ids: Seq<Seq<char>>,
    pub messages: Seq<Seq<char>>,
}

/// The octets of all messages together.
pub open spec fn total_octets(messages: Seq<Seq<char>>) -> nat
    decreases messages.len(),
{
    if messages.len() == 0 {
        0
    } else {
        total_octets(messages.drop_last()) + octet_len(messages.last()) as nat
    }
}

/// The first messages never weigh more than all of them.
pub proof fn lemma_total_octets_prefix(messages: Seq<Seq<char>>, n: int)
    requires
        0 <= n <= messages.len(),
    ensures
        total_octets(messages.take(n)) <= total_octets(messages),
    decreases messages.len() - n,
{
    if n == messages.len() {
        assert(messages.take(n) =~= messages);
    } else {
        lemma_total_octets_prefix(messages, n + 1);
        assert(messages.take(n + 1).drop_last() =~= messages.take(n));
    }
}

/// The post ids of the entries, in order.
pub open spec fn entry_ids(entries: Seq<Entry>) -> Seq<Seq<char>> {
    Seq::new(entries.len(), |i: int| entries[i].id@)
}

/// The messages of the entries, in order.
pub open spec fn entry_messages(entries: Seq<Entry>) -> Seq<Seq<char>> {
    Seq::new(entries.len(), |i: int| entries[i].message@)
}

/// The unique identifier of a post: its id, `@`, the instance domain. It
/// depends on nothing else, so it is the same in every session.
pub open spec fn uid(id: Seq<char>, domain: Seq<char>) -> Seq<char> {
    id + "@"@ + domain
}

/// The reply for a message number that the mailbox does not hold.
pub open spec fn no_such_message() -> Seq<char> {
    "-ERR no such message\r\n"@
}

/// The reply to `STAT`.
pub open spec fn stat_reply(mb: MailboxView) -> Seq<char> {
    "+OK "@ + decimal(mb.messages.len()) + " "@ + decimal(total_octets(mb.messages)) + "\r\n"@
}

/// The scan lines of the first `n` messages: number, space, octets.
pub open spec fn scan_lines(messages: Seq<Seq<char>>, n: nat) -> Seq<char>
    decreases n,
{
    if n == 0 {
        Seq::empty()
    } else {
        scan_lines(messages, (n - 1) as nat) + decimal(n) + " "@ + decimal(
            octet_len(messages[n - 1]) as nat,
        ) + "\r\n"@
    }
}

/// The reply to `LIST` with argument `n`; 0 stands for no argument.
pub open spec fn list_reply(mb: MailboxView, n: nat) -> Seq<char> {
    if n == 0 {
        "+OK "@ + decimal(mb.messages.len()) + " messages ("@ + decimal(
            total_octets(mb.messages),
        ) + " octets)\r\n"@ + scan_lines(mb.messages, mb.messages.len()) + ".\r\n"@
    } else if n > mb.messages.len() {
        no_such_message()
    } else {
        "+OK "@ + decimal(n) + " "@ + decimal(octet_len(mb.messages[n - 1]) as nat) + "\r\n"@
    }
}

/// The unique-id lines of the first `n` messages: number, space, identifier.
pub open spec fn uid_lines(ids: Seq<Seq<char>>, domain: Seq<char>, n: nat) -> Seq<char>
    decreases n,
{
    if n == 0 {
        Seq::empty()
    } else {
        uid_lines(ids, domain, (n - 1) as nat) + decimal(n) + " "@ + uid(ids[n - 1], domain)
            + "\r\n"@
    }
}

/// The reply to `UIDL` with argument `n`; 0 stands for no argument.
pub open spec fn uidl_reply(mb: MailboxView, n: nat) -> Seq<char> {
    if n == 0 {
        "+OK\r\n"@ + uid_lines(mb.ids, mb.domain, mb.ids.len()) + ".\r\n"@
    } else if n > mb.ids.len() {
        no_such_message()
    } else {
        "+OK "@ + decimal(n) + " "@ + uid(mb.ids[n - 1], mb.domain) + "\r\n"@
    }
}

/// Whether message number `n` exists.
pub open spec fn in_range(mb: MailboxView, n: nat) -> bool {
    1 <= n <= mb.messages.len()
}

/// A multi-line reply that carries `payload`: the status line with the
/// payload's octets, the payload as it is, and the terminating line.
pub open spec fn payload_reply(payload: Seq<char>) -> Seq<char> {
    "+OK "@ + decimal(octet_len(payload) as nat) + " octets\r\n"@ + payload + ".\r\n"@
}

/// The reply to `RETR n`.
pub open spec fn retr_reply(mb: MailboxView, n: nat) -> Seq<char> {
    if in_range(mb, n) {
        payload_reply(mb.messages[n - 1])
    } else {
        no_such_message()
    }
}

/// The first position at or after `from` that holds an empty line, or the
/// number of lines.
pub open spec fn first_blank(ls: Seq<Seq<char>>, from: int) -> int
    decreases ls.len() - from,
{
    if 0 <= from < ls.len() && ls[from].len() != 0 {
        first_blank(ls, from + 1)
    } else {
        from
    }
}

/// How many lines `TOP` sends for body limit `k`: the header lines, the
/// empty line that ends them, and at most `k` lines of the body.
pub open spec fn top_count(ls: Seq<Seq<char>>, k: nat) -> int {
    let h = first_blank(ls, 0);
    if h >= ls.len() || h + 1 + k >= ls.len() {
        ls.len() as int
    } else {
        h + 1 + k
    }
}

/// The lines, each followed by CR LF.
pub open spec fn join_crlf(ls: Seq<Seq<char>>) -> Seq<char>
    decreases ls.len(),
{
    if ls.len() == 0 {
        Seq::empty()
    } else {
        join_crlf(ls.drop_last()) + ls.last() + "\r\n"@
    }
}

/// What `TOP` sends of a message for body limit `k`.
pub open spec fn top_text(message: Seq<char>, k: nat) -> Seq<char> {
    let ls = lines(message);
    join_crlf(ls.take(top_count(ls, k)))
}

/// The reply to `TOP n k`.
pub open spec fn top_reply(mb: MailboxView, n: nat, k: nat) -> Seq<char> {
    if in_range(mb, n) {
        payload_reply(top_text(mb.messages[n - 1], k))
    } else {
        no_such_message()
    }
}

/// What `first_blank` finds: no line from `from` up to it is empty, and
/// the line there is, if there is one.
pub proof fn lemma_first_blank(ls: Seq<Seq<char>>, from: int)
    requires
        0 <= from <= ls.len(),
    ensures
        from <= first_blank(ls, from) <= ls.len(),
        forall|j: int| from <= j < first_blank(ls, from) ==> (#[trigger] ls[j]).len() != 0,
        first_blank(ls, from) < ls.len() ==> ls[first_blank(ls, from)].len() == 0,
    decreases ls.len() - from,
{
    if from < ls.len() && ls[from].len() != 0 {
        lemma_first_blank(ls, from + 1);
    }
}

/// `TOP` with body limit 0 sends the header and nothing of the body: of
/// the lines it sends none but the last is empty, and the last one is the
/// empty line that ends the header, where the message has one.
pub proof fn lemma_top_zero_sends_no_body(message: Seq<char>)
    ensures
        ({
            let ls = lines(message);
            let n = top_count(ls, 0);
            &&& 0 <= n <= ls.len()
            &&& forall|j: int| 0 <= j < n - 1 ==> (#[trigger] ls[j]).len() != 0
            &&& n < ls.len() ==> n >= 1 && ls[n - 1].len() == 0
        }),
{
    lemma_first_blank(lines(message), 0);
}

/// The mail store of a session. Its messages are numbered from 1 in the
/// order of the snapshot and never renumbered.
pub struct Mailbox {
    domain: String,
    entries: Vec<Entry>,
    total: usize,
}

impl View for Mailbox {
    type V = MailboxView;

    closed spec fn view(&self) -> MailboxView {
        MailboxView {
            domain: self.domain@,
            ids: entry_ids(self.entries@),
            messages: entry_messages(self.entries@),
        }
    }
}

fn no_such() -> (r: String)
    ensures
        r@ == no_such_message(),
{
    "-ERR no such message\r\n".to_owned()
}

fn payload(text: &str) -> (r: String)
    ensures
        r@ == payload_reply(text@),
{
    let mut r = "+OK ".to_owned();
    push_decimal(&mut r, text.len());
    r.append(" octets\r\n");
    r.append(text);
    r.append(".\r\n");
    r
}

/// What `TOP` sends of `message` for body limit `k`.
pub fn top_of(message: &str, k: u32) -> (r: String)
    ensures
        r@ == top_text(message@, k as nat),
{
    let v = chars_of(message);
    let ls = split_lines(&v);
    let ghost lv = lines(message@);
    let mut h: usize = 0;
    while h < ls.len() && ls[h].len() != 0
        invariant
            h <= ls.len(),
            line_views(ls@) == lv,
            first_blank(lv, 0) == first_blank(lv, h as int),
        decreases ls.len() - h,
    {
        assert(lv[h as int] == ls@[h as int]@);
        h = h + 1;
    }
    assert(h < ls.len() ==> lv[h as int] == ls@[h as int]@);
    assert(h == first_blank(lv, 0));
    let count: usize = if h >= ls.len() || k as usize >= ls.len() - (h + 1) {
        ls.len()
    } else {
        h + 1 + k as usize
    };
    assert(count == top_count(lv, k as nat));
    let mut r = String::new();
    let mut i: usize = 0;
    assert(lv.take(0) =~= Seq::<Seq<char>>::empty());
    while i < count
        invariant
            i <= count <= ls.len(),
            line_views(ls@) == lv,
            r@ == join_crlf(lv.take(i as int)),
        decreases count - i,
    {
        let line = &ls[i];
        assert(lv[i as int] == line@);
        assert(line@.subrange(0, line.len() as int) =~= line@);
        push_range(&mut r, line, 0, line.len());
        r.append("\r\n");
        assert(lv.take(i + 1).drop_last() =~= lv.take(i as int));
        assert(lv.take(i + 1).last() == lv[i as int]);
        i = i + 1;
    }
    r
}

impl Mailbox {
    #[verifier::type_invariant]
    spec fn inv(self) -> bool {
        self.total as nat == total_octets(entry_messages(self.entries@))
    }

    /// A mailbox of the given entries, in their order. `None` when the
    /// octets of all messages together do not fit `usize`.
    pub fn new(domain: String, entries: Vec<Entry>) -> (r: Option<Mailbox>)
        ensures
            match r {
                Some(mb) => {
                    &&& mb@.domain == domain@
                    &&& mb@.ids == entry_ids(entries@)
                    &&& mb@.messages == entry_messages(entries@)
                    &&& total_octets(mb@.messages) <= usize::MAX
                },
                None => total_octets(entry_messages(entries@)) > usize::MAX,
            },
    {
        let ghost all = entry_messages(entries@);
        let mut total: usize = 0;
        let mut i: usize = 0;
        assert(all.take(0) =~= Seq::<Seq<char>>::empty());
        while i < entries.len()
            invariant
                i <= entries.len(),
                all == entry_messages(entries@),
                total as nat == total_octets(all.take(i as int)),
            decreases entries.len() - i,
        {
            let size: usize = entries[i].message.as_str().len();
            proof {
                assert(all.take(i + 1).drop_last() =~= all.take(i as int));
                assert(all.take(i + 1).last() == entries@[i as int].message@);
            }
            match total.checked_add(size) {
                Some(sum) => {
                    total = sum;
                },
                None => {
                    proof {
                        lemma_total_octets_prefix(all, i + 1);
                    }
                    return None;
                },
            }
            i = i + 1;
        }
        assert(all.take(entries.len() as int) =~= all);
        Some(Mailbox { domain, entries, total })
    }

    /// How many messages the mailbox holds; each has its post id.
    pub fn count(&self) -> (n: usize)
        ensures
            n == self@.messages.len(),
            n == self@.ids.len(),
    {
        self.entries.len()
    }

    /// The octets of all messages together.
    pub fn octets(&self) -> (n: usize)
        ensures
            n as nat == total_octets(self@.messages),
    {
        proof {
            use_type_invariant(self);
        }
        self.total
    }

    /// The id of the newest post of the snapshot, the first one.
    pub fn newest_id(&self) -> (r: Option<String>)
        ensures
            match r {
                Some(id) => self@.ids.len() > 0 && id@ == self@.ids[0],
                None => self@.ids.len() == 0,
            },
    {
        if self.entries.len() > 0 {
            Some(self.entries[0].id.clone())
        } else {
            None
        }
    }

    /// The reply to `STAT`.
    pub fn stat(&self) -> (r: String)
        ensures
            r@ == stat_reply(self@),
    {
        proof {
            use_type_invariant(self);
        }
        let mut r = "+OK ".to_owned();
        push_decimal(&mut r, self.entries.len());
        r.append(" ");
        push_decimal(&mut r, self.total);
        r.append("\r\n");
        r
    }

    /// The reply to `LIST`; `n == 0` lists every message.
    pub fn list(&self, n: u32) -> (r: String)
        ensures
            r@ == list_reply(self@, n as nat),
    {
        proof {
            use_type_invariant(self);
        }
        let i: usize = n as usize;
        if i == 0 {
            let mut r = "+OK ".to_owned();
            push_decimal(&mut r, self.entries.len());
            r.append(" messages (");
            push_decimal(&mut r, self.total);
            r.append(" octets)\r\n");
            let ghost head = r@;
            let mut j: usize = 0;
            while j < self.entries.len()
                invariant
                    j <= self.entries.len(),
                    r@ == head + scan_lines(self@.messages, j as nat),
                decreases self.entries.len() - j,
            {
                let ghost before = r@;
                push_decimal(&mut r, j + 1);
                r.append(" ");
                push_decimal(&mut r, self.entries[j].message.as_str().len());
                r.append("\r\n");
                assert(r@ =~= head + scan_lines(self@.messages, (j + 1) as nat));
                j = j + 1;
            }
            r.append(".\r\n");
            r
        } else if i > self.entries.len() {
            no_such()
        } else {
            let mut r = "+OK ".to_owned();
            push_decimal(&mut r, i);
            r.append(" ");
            push_decimal(&mut r, self.entries[i - 1].message.as_str().len());
            r.append("\r\n");
            r
        }
    }

    /// The reply to `UIDL`; `n == 0` lists every message.
    pub fn uidl(&self, n: u32) -> (r: String)
        ensures
            r@ == uidl_reply(self@, n as nat),
    {
        let i: usize = n as usize;
        if i == 0 {
            let mut r = "+OK\r\n".to_owned();
            let ghost head = r@;
            let mut j: usize = 0;
            while j < self.entries.len()
                invariant
                    j <= self.entries.len(),
                    r@ == head + uid_lines(self@.ids, self@.domain, j as nat),
                decreases self.entries.len() - j,
            {
                push_decimal(&mut r, j + 1);
                r.append(" ");
                r.append(self.entries[j].id.as_str());
                r.append("@");
                r.append(self.domain.as_str());
                r.append("\r\n");
                assert(r@ =~= head + uid_lines(self@.ids, self@.domain, (j + 1) as nat));
                j = j + 1;
            }
            r.append(".\r\n");
            r
        } else if i > self.entries.len() {
            no_such()
        } else {
            let mut r = "+OK ".to_owned();
            push_decimal(&mut r, i);
            r.append(" ");
            r.append(self.entries[i - 1].id.as_str());
            r.append("@");
            r.append(self.domain.as_str());
            r.append("\r\n");
            assert(r@ =~= uidl_reply(self@, n as nat));
            r
        }
    }

    /// The reply to `RETR n`.
    pub fn retr(&self, n: u32) -> (r: String)
        ensures
            r@ == retr_reply(self@, n as nat),
    {
        let i: usize = n as usize;
        if i == 0 || i > self.entries.len() {
            no_such()
        } else {
            payload(self.entries[i - 1].message.as_str())
        }
    }

    /// The reply to `TOP n k`.
    pub fn top(&self, n: u32, k: u32) -> (r: String)
        ensures
            r@ == top_reply(self@, n as nat, k as nat),
    {
        let i: usize = n as usize;
        if i == 0 || i > self.entries.len() {
            no_such()
        } else {
            let part = top_of(self.entries[i - 1].message.as_str(), k);
            payload(part.as_str())
        }
    }
}

/// The octets that `LIST n` reports are the octets that `RETR n` sends
/// between its status line and the terminating line: both replies count
/// the same message.
pub proof fn lemma_list_counts_what_retr_sends(mb: MailboxView, n: nat)
    requires
        in_range(mb, n),
    ensures
        list_reply(mb, n) == "+OK "@ + decimal(n) + " "@ + decimal(
            octet_len(mb.messages[n - 1]) as nat,
        ) + "\r\n"@,
        retr_reply(mb, n) == "+OK "@ + decimal(octet_len(mb.messages[n - 1]) as nat)
            + " octets\r\n"@ + mb.messages[n - 1] + ".\r\n"@,
{
}

/// Two sessions that see the same posts on the same instance give every
/// message the same unique identifier, whatever the rendered messages are.
pub proof fn lemma_uidl_is_stable(a: MailboxView, b: MailboxView, n: nat)
    requires
        a.ids == b.ids,
        a.domain == b.domain,
    ensures
        uidl_reply(a, n) == uidl_reply(b, n),
        1 <= n <= a.ids.len() ==> uidl_reply(a, n) == "+OK "@ + decimal(n) + " "@ + uid(
            a.ids[n - 1],
            a.domain,
        ) + "\r\n"@,
{
}

} // verus!

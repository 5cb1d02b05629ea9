//! From a post to an RFC 5322 message.

use vstd::prelude::*;
use vstd::string::*;
use crate::mailbox::{uid, Entry};
use crate::post::{Post, PostKind, PostView};
use crate::text::{
    chars_of, contains, contains_chars, find_last, is_digit, last_index, lemma_last_index,
    push_char, substring, texts,
};

verus! {

/// How the media of a post reach the mail client.
#[derive(Clone, Copy, Debug, PartialEq, Eq, Structural)]
pub enum MediaMode {
    /// Each media URL is a line of the body.
    Link,
    /// Each medium is a MIME part with `Content-Disposition: attachment`.
    Attachment,
    /// Each medium is a MIME part with `Content-Disposition: inline`.
    Inline,
}

/// The mode that the two switches select: attachments where asked for,
/// else inline parts where asked for, else links.
pub open spec fn media_mode_spec(attachment: bool, inline: bool) -> MediaMode {
    if attachment {
        MediaMode::Attachment
    } else if inline {
        MediaMode::Inline
    } else {
        MediaMode::Link
    }
}

/// The mode that the two switches select.
pub fn media_mode(attachment: bool, inline: bool) -> (m: MediaMode)
    ensures
        m == media_mode_spec(attachment, inline),
{
    if attachment {
        MediaMode::Attachment
    } else if inline {
        MediaMode::Inline
    } else {
        MediaMode::Link
    }
}

/// How messages are rendered.
#[derive(Clone, Copy, Debug, PartialEq, Eq, Structural)]
pub struct RenderOptions {
    /// Send the post's HTML as it is; else its plain text.
    pub html: bool,
    pub media: MediaMode,
}

/// The account that the mail is addressed to.
#[derive(Debug)]
pub struct Recipient {
    pub display_name: String,
    pub addr: String,
}

/// A medium that was fetched for a post.
#[derive(Debug)]
pub struct Attachment {
    pub filename: String,
    pub content_type: String,
    pub data: Vec<u8>,
}

/// A fetched medium, as mathematical values.
pub struct AttachmentView {
    pub filename: Seq<char>,
    pub content_type: Seq<char>,
    pub data: Seq<u8>,
}

impl View for Attachment {
    type V = AttachmentView;

    open spec fn view(&self) -> AttachmentView {
        AttachmentView {
            filename: self.filename@,
            content_type: self.content_type@,
            data: self.data@,
        }
    }
}

/// The views of a sequence of fetched media, in order.
pub open spec fn attachment_views(a: Seq<Attachment>) -> Seq<AttachmentView> {
    Seq::new(a.len(), |i: int| a[i]@)
}

/// The file name of a medium: what follows the last `/` of its URL.
pub open spec fn media_filename_spec(url: Seq<char>) -> Seq<char> {
    url.skip(last_index(url, '/', url.len() as int) + 1)
}

/// The file name of a medium, from its URL.
pub fn media_filename(url: &str) -> (r: String)
    ensures
        r@ == media_filename_spec(url@),
{
    let v = chars_of(url);
    proof {
        lemma_last_index(v@, '/', v.len() as int);
    }
    let start: usize = match find_last(&v, '/') {
        Some(i) => i + 1,
        None => 0,
    };
    substring(&v, start, v.len())
}

/// The columns that a plain-text body is wrapped to.
pub const BODY_WIDTH: usize = 78;

/// The code point of `c`, with the letters `A` to `Z` counted as `a` to `z`.
pub open spec fn lower_code(c: char) -> u32 {
    if 'A' <= c <= 'Z' {
        (c as u32 + 32) as u32
    } else {
        c as u32
    }
}

/// Whether `window` spells `name`, which is in lower case, whatever the
/// case of its letters.
pub open spec fn spells(window: Seq<char>, name: Seq<char>) -> bool {
    &&& window.len() == name.len()
    &&& forall|k: int| 0 <= k < name.len() ==> lower_code(#[trigger] window[k]) == name[k] as u32
}

/// Whether `c` is white space between an attribute's name and its `=`.
pub open spec fn is_html_space(c: char) -> bool {
    c == ' ' || c == '\t' || c == '\n' || c == '\r' || c == '\u{c}'
}

/// The first position at or after `from` that holds no such white space.
pub open spec fn skip_html_spaces(s: Seq<char>, from: int) -> int
    decreases s.len() - from,
{
    if 0 <= from < s.len() && is_html_space(s[from]) {
        skip_html_spaces(s, from + 1)
    } else {
        from
    }
}

/// Whether `name` stands at position `i`, in any case, with a `=` behind
/// it or behind white space that follows it.
pub open spec fn sets_at(s: Seq<char>, name: Seq<char>, i: int) -> bool {
    &&& 0 <= i && i + name.len() <= s.len()
    &&& spells(s.subrange(i, i + name.len()), name)
    &&& skip_html_spaces(s, i + name.len()) < s.len()
    &&& s[skip_html_spaces(s, i + name.len())] == '='
}

/// Whether the text may give the attribute `name` a value: every HTML
/// source that does holds the name with a `=` behind it.
pub open spec fn sets_attribute(s: Seq<char>, name: Seq<char>) -> bool {
    exists|i: int| sets_at(s, name, i)
}

/// How many decimal digits stand in a row just before position `upto`.
pub open spec fn digit_run(s: Seq<char>, upto: int) -> nat
    decreases upto,
{
    if 0 < upto <= s.len() && is_digit(s[upto - 1]) {
        1 + digit_run(s, upto - 1)
    } else {
        0
    }
}

/// The longest row of decimal digits that ends at or before `upto`.
pub open spec fn longest_digit_run(s: Seq<char>, upto: int) -> nat
    decreases upto,
{
    if upto <= 0 {
        0
    } else if longest_digit_run(s, upto - 1) >= digit_run(s, upto) {
        longest_digit_run(s, upto - 1)
    } else {
        digit_run(s, upto)
    }
}

/// The most digits that a number in the content of a post may have where
/// the content gives a list its first number.
pub const NUMBER_DIGITS: usize = 9;

/// Whether the content can be handed to the HTML renderer, which adds up
/// the numbers that it reads from `colspan` and `start` attributes without
/// a check. Content that may set `colspan` is left out. Content that may
/// set `start` is taken only where it holds no character reference and no
/// number of more than nine digits.
pub open spec fn is_renderable(content: Seq<char>) -> bool {
    &&& !sets_attribute(content, "colspan"@)
    &&& sets_attribute(content, "start"@) ==> {
        &&& !contains(content, "&"@)
        &&& longest_digit_run(content, content.len() as int) <= NUMBER_DIGITS
    }
}

fn spells_at(v: &Vec<char>, from: usize, name: &Vec<char>) -> (r: bool)
    requires
        from + name.len() <= v.len(),
    ensures
        r == spells(v@.subrange(from as int, from + name.len()), name@),
{
    let ghost window = v@.subrange(from as int, from + name.len());
    let mut k: usize = 0;
    while k < name.len()
        invariant
            k <= name.len(),
            from + name.len() <= v.len(),
            window == v@.subrange(from as int, from + name.len()),
            forall|j: int| 0 <= j < k ==> lower_code(#[trigger] window[j]) == name@[j] as u32,
        decreases name.len() - k,
    {
        let c: char = v[from + k];
        let code: u32 = if 'A' <= c && c <= 'Z' {
            c as u32 + 32
        } else {
            c as u32
        };
        if code != name[k] as u32 {
            assert(lower_code(window[k as int]) != name@[k as int] as u32);
            return false;
        }
        k = k + 1;
    }
    true
}

fn sets_attribute_in(v: &Vec<char>, name: &str) -> (r: bool)
    ensures
        r == sets_attribute(v@, name@),
{
    let n = chars_of(name);
    if n.len() > v.len() {
        return false;
    }
    let last: usize = v.len() - n.len();
    let mut i: usize = 0;
    loop
        invariant
            n@ == name@,
            n.len() <= v.len(),
            last == v.len() - n.len(),
            i <= last,
            forall|j: int| 0 <= j < i ==> !sets_at(v@, n@, j),
        decreases last - i,
    {
        if spells_at(v, i, &n) {
            let mut j: usize = i + n.len();
            while j < v.len() && (v[j] == ' ' || v[j] == '\t' || v[j] == '\n' || v[j] == '\r' || v[j]
                == '\u{c}')
                invariant
                    i + n.len() <= j <= v.len(),
                    skip_html_spaces(v@, i + n.len()) == skip_html_spaces(v@, j as int),
                decreases v.len() - j,
            {
                j = j + 1;
            }
            if j < v.len() && v[j] == '=' {
                assert(sets_at(v@, n@, i as int));
                return true;
            }
        }
        if i == last {
            return false;
        }
        i = i + 1;
    }
}

fn longest_digit_run_in(v: &Vec<char>) -> (r: usize)
    ensures
        r == longest_digit_run(v@, v.len() as int),
{
    let mut run: usize = 0;
    let mut best: usize = 0;
    let mut i: usize = 0;
    while i < v.len()
        invariant
            i <= v.len(),
            run == digit_run(v@, i as int),
            best == longest_digit_run(v@, i as int),
            run <= i,
            best <= i,
        decreases v.len() - i,
    {
        let c: char = v[i];
        if '0' <= c && c <= '9' {
            run = run + 1;
        } else {
            run = 0;
        }
        if run > best {
            best = run;
        }
        i = i + 1;
    }
    best
}

/// Whether the content of a post can be handed to the HTML renderer.
pub fn check_renderable(content: &str) -> (r: bool)
    ensures
        r == is_renderable(content@),
{
    let v = chars_of(content);
    if sets_attribute_in(&v, "colspan") {
        return false;
    }
    if sets_attribute_in(&v, "start") {
        let amp = chars_of("&");
        !contains_chars(&v, &amp) && longest_digit_run_in(&v) <= NUMBER_DIGITS
    } else {
        true
    }
}

/// What `html2text` renders of an HTML fragment at a width, with its
/// plain decorator; `None` where it reports an error.
pub uninterp spec fn html_text(html: Seq<char>, width: usize) -> Option<Seq<char>>;

/// `html2text::config::plain().string_from_read`: the fragment as plain
/// text, wrapped to `width` columns. Trusted: the result is a function of
/// the fragment and the width alone, and `html_text` is its name. The
/// fragments that `is_renderable` leaves out are those on which the
/// renderer's sums of attribute values can overflow.
#[verifier::external_body]
fn html_to_text(html: &str, width: usize) -> (r: Option<String>)
    requires
        is_renderable(html@),
    ensures
        match r {
            Some(t) => html_text(html@, width) == Some(t@),
            None => html_text(html@, width) is None,
        },
{
    html2text::config::plain().string_from_read(html.as_bytes(), width).ok()
}

/// The text with CR LF in place of every line feed.
pub open spec fn crlf(s: Seq<char>) -> Seq<char>
    decreases s.len(),
{
    if s.len() == 0 {
        Seq::empty()
    } else if s.last() == '\n' {
        crlf(s.drop_last()) + "\r\n"@
    } else {
        crlf(s.drop_last()).push(s.last())
    }
}

/// The text with CR LF in place of every line feed.
pub fn to_crlf(s: &str) -> (r: String)
    ensures
        r@ == crlf(s@),
{
    let v = chars_of(s);
    let mut r = String::new();
    let mut i: usize = 0;
    assert(v@.take(0) =~= Seq::<char>::empty());
    while i < v.len()
        invariant
            i <= v.len(),
            r@ == crlf(v@.take(i as int)),
        decreases v.len() - i,
    {
        assert(v@.take(i + 1).drop_last() =~= v@.take(i as int));
        if v[i] == '\n' {
            r.append("\r\n");
        } else {
            push_char(&mut r, v[i]);
        }
        i = i + 1;
    }
    assert(v@.take(v.len() as int) =~= v@);
    r
}

/// The body with each of the first `n` URLs on a line of its own behind it.
pub open spec fn with_links(body: Seq<char>, urls: Seq<Seq<char>>, n: nat) -> Seq<char>
    decreases n,
{
    if n == 0 {
        body
    } else {
        with_links(body, urls, (n - 1) as nat) + "\r\n"@ + urls[n - 1]
    }
}

/// The body of the message for a post, given the plain text of its
/// content where the body is plain.
pub open spec fn body_of(post: PostView, options: RenderOptions, plain: Seq<char>) -> Seq<char> {
    let base = if options.html {
        post.content
    } else {
        crlf(plain)
    };
    if options.media == MediaMode::Link {
        with_links(base, post.media_urls, post.media_urls.len())
    } else {
        base
    }
}

/// The subject of the message for a post.
pub open spec fn subject_of(kind: PostKind) -> Seq<char> {
    match kind {
        PostKind::Original => "Post"@,
        PostKind::Boost => "Boost"@,
    }
}

/// How `created_at` is written upstream: a UTC time with milliseconds.
pub open spec fn created_at_format() -> Seq<char> {
    "%Y-%m-%dT%H:%M:%S%.3fZ"@
}

/// The seconds since the epoch, UTC, of the time that `chrono` reads from
/// a text under a format; `None` where it reads none.
pub uninterp spec fn utc_seconds_of(text: Seq<char>, format: Seq<char>) -> Option<i64>;

/// `chrono::NaiveDateTime::parse_from_str`, then `and_utc` and
/// `timestamp` on what it read. Trusted: the result is a function of the
/// text and the format alone, and `utc_seconds_of` is its name.
#[verifier::external_body]
fn utc_seconds(text: &str, format: &str) -> (r: Option<i64>)
    ensures
        r == utc_seconds_of(text@, format@),
{
    match chrono::NaiveDateTime::parse_from_str(text, format) {
        Ok(t) => Some(t.and_utc().timestamp()),
        Err(_) => None,
    }
}

/// A header of a message under construction.
pub enum Header {
    From { name: Seq<char>, addr: Seq<char> },
    To { name: Seq<char>, addr: Seq<char> },
    Subject(Seq<char>),
    /// Seconds since the epoch; written as an RFC 5322 date.
    Date(i64),
    MessageId(Seq<char>),
    InReplyTo(Seq<char>),
    /// Any other header.
    Other,
}

/// A body of a message under construction.
pub enum Body {
    /// No body of this kind is set.
    Absent,
    /// The text that `text_body` or `html_body` was given.
    Text(Seq<char>),
    /// Any other part.
    Other,
}

/// A further part of a message under construction.
pub enum Medium {
    /// Binary contents with `Content-Disposition: attachment`.
    Attachment { content_type: Seq<char>, filename: Seq<char>, data: Seq<u8> },
    /// Binary contents with `Content-Disposition: inline` and a content id.
    Inline { content_type: Seq<char>, cid: Seq<char>, data: Seq<u8> },
    /// Any other part.
    Other,
}

/// What a message builder holds.
pub struct BuilderState {
    /// The headers, in the order in which they are written.
    pub headers: Seq<Header>,
    pub text_body: Body,
    pub html_body: Body,
    /// The further parts, in order; `None` while none was ever added.
    pub media: Option<Seq<Medium>>,
    /// Whether a MIME structure was set that replaces bodies and parts.
    pub custom_body: bool,
}

/// `mail_builder::MessageBuilder`, carried through as an opaque value.
#[verifier::external_type_specification]
#[verifier::external_body]
pub struct ExMessageBuilder<'x>(mail_builder::MessageBuilder<'x>);

/// What a `mail_builder::MessageBuilder` holds.
pub uninterp spec fn builder_state(b: mail_builder::MessageBuilder<'static>) -> BuilderState;

/// The message that `mail_builder` writes for a state of which
/// `is_single_part` holds; `None` where writing fails.
pub uninterp spec fn message_text(state: BuilderState) -> Option<Seq<char>>;

/// A builder with nothing in it.
pub open spec fn empty_state() -> BuilderState {
    BuilderState {
        headers: Seq::empty(),
        text_body: Body::Absent,
        html_body: Body::Absent,
        media: None,
        custom_body: false,
    }
}

/// The state with one more header at the end.
pub open spec fn with_header(s: BuilderState, h: Header) -> BuilderState {
    BuilderState { headers: s.headers.push(h), ..s }
}

/// The state with one more part at the end.
pub open spec fn with_medium(s: BuilderState, m: Medium) -> BuilderState {
    BuilderState {
        media: Some(
            match s.media {
                Some(parts) => parts.push(m),
                None => seq![m],
            },
        ),
        ..s
    }
}

/// Whether the state gives a message that is written the same way every
/// time: every header is one of those named here, a date and a message
/// id are among them, so none is made up from the clock and the host,
/// and there is at most one body and nothing else, so no MIME boundary is
/// made up.
pub open spec fn is_single_part(s: BuilderState) -> bool {
    &&& forall|i: int| 0 <= i < s.headers.len() ==> !((#[trigger] s.headers[i]) is Other)
    &&& exists|i: int| 0 <= i < s.headers.len() && (#[trigger] s.headers[i]) is Date
    &&& exists|i: int| 0 <= i < s.headers.len() && (#[trigger] s.headers[i]) is MessageId
    &&& !(s.text_body is Other) && !(s.html_body is Other)
    &&& s.text_body is Absent || s.html_body is Absent
    &&& s.media is None
    &&& !s.custom_body
}

/// `MessageBuilder::new`: a builder with nothing in it. Trusted.
#[verifier::external_body]
fn builder_new() -> (b: mail_builder::MessageBuilder<'static>)
    ensures
        builder_state(b) == empty_state(),
{
    mail_builder::MessageBuilder::new()
}

/// `MessageBuilder::from` with a name and an address: puts a `From`
/// header behind the headers and leaves the rest. Trusted.
#[verifier::external_body]
fn builder_from(b: mail_builder::MessageBuilder<'static>, name: &str, addr: &str) -> (r:
    mail_builder::MessageBuilder<'static>)
    ensures
        builder_state(r) == with_header(
            builder_state(b),
            Header::From { name: name@, addr: addr@ },
        ),
{
    b.from((name.to_owned(), addr.to_owned()))
}

/// `MessageBuilder::to` with a name and an address: puts a `To` header
/// behind the headers and leaves the rest. Trusted.
#[verifier::external_body]
fn builder_to(b: mail_builder::MessageBuilder<'static>, name: &str, addr: &str) -> (r:
    mail_builder::MessageBuilder<'static>)
    ensures
        builder_state(r) == with_header(builder_state(b), Header::To { name: name@, addr: addr@ }),
{
    b.to((name.to_owned(), addr.to_owned()))
}

/// `MessageBuilder::subject`: puts a `Subject` header behind the headers
/// and leaves the rest. Trusted.
#[verifier::external_body]
fn builder_subject(b: mail_builder::MessageBuilder<'static>, subject: &str) -> (r:
    mail_builder::MessageBuilder<'static>)
    ensures
        builder_state(r) == with_header(builder_state(b), Header::Subject(subject@)),
{
    b.subject(subject.to_owned())
}

/// `MessageBuilder::date` with seconds since the epoch: puts a `Date`
/// header behind the headers and leaves the rest. Trusted.
#[verifier::external_body]
fn builder_date(b: mail_builder::MessageBuilder<'static>, seconds: i64) -> (r:
    mail_builder::MessageBuilder<'static>)
    ensures
        builder_state(r) == with_header(builder_state(b), Header::Date(seconds)),
{
    b.date(seconds)
}

/// `MessageBuilder::message_id`: puts a `Message-ID` header behind the
/// headers and leaves the rest. Trusted.
#[verifier::external_body]
fn builder_message_id(b: mail_builder::MessageBuilder<'static>, id: &str) -> (r:
    mail_builder::MessageBuilder<'static>)
    ensures
        builder_state(r) == with_header(builder_state(b), Header::MessageId(id@)),
{
    b.message_id(id.to_owned())
}

/// `MessageBuilder::in_reply_to`: puts an `In-Reply-To` header behind the
/// headers and leaves the rest. Trusted.
#[verifier::external_body]
fn builder_in_reply_to(b: mail_builder::MessageBuilder<'static>, id: &str) -> (r:
    mail_builder::MessageBuilder<'static>)
    ensures
        builder_state(r) == with_header(builder_state(b), Header::InReplyTo(id@)),
{
    b.in_reply_to(id.to_owned())
}

/// `MessageBuilder::text_body`: sets the plain-text body, in place of the
/// one that was set before, and leaves the rest. Trusted.
#[verifier::external_body]
fn builder_text_body(b: mail_builder::MessageBuilder<'static>, body: &str) -> (r:
    mail_builder::MessageBuilder<'static>)
    ensures
        builder_state(r) == (BuilderState { text_body: Body::Text(body@), ..builder_state(b) }),
{
    b.text_body(body.to_owned())
}

/// `MessageBuilder::html_body`: sets the HTML body, in place of the one
/// that was set before, and leaves the rest. Trusted.
#[verifier::external_body]
fn builder_html_body(b: mail_builder::MessageBuilder<'static>, body: &str) -> (r:
    mail_builder::MessageBuilder<'static>)
    ensures
        builder_state(r) == (BuilderState { html_body: Body::Text(body@), ..builder_state(b) }),
{
    b.html_body(body.to_owned())
}

/// `MessageBuilder::attachment` with binary contents: puts a part with
/// `Content-Disposition: attachment` and the file name behind the further
/// parts and leaves the rest. Trusted.
#[verifier::external_body]
fn builder_attachment(b: mail_builder::MessageBuilder<'static>, a: &Attachment) -> (r:
    mail_builder::MessageBuilder<'static>)
    ensures
        builder_state(r) == with_medium(
            builder_state(b),
            Medium::Attachment {
                content_type: a.content_type@,
                filename: a.filename@,
                data: a.data@,
            },
        ),
{
    b.attachment(a.content_type.clone(), a.filename.clone(), a.data.clone())
}

/// `MessageBuilder::inline` with binary contents: puts a part with
/// `Content-Disposition: inline` and a content id behind the further
/// parts and leaves the rest. Trusted.
#[verifier::external_body]
fn builder_inline(b: mail_builder::MessageBuilder<'static>, a: &Attachment) -> (r:
    mail_builder::MessageBuilder<'static>)
    ensures
        builder_state(r) == with_medium(
            builder_state(b),
            Medium::Inline { content_type: a.content_type@, cid: a.filename@, data: a.data@ },
        ),
{
    b.inline(a.content_type.clone(), a.filename.clone(), a.data.clone())
}

/// `MessageBuilder::write_to_string`: the message as text, `None` where
/// writing fails. Trusted: for a state of which `is_single_part` holds the
/// result is a function of the state alone, and `message_text` is its
/// name; of other states nothing is claimed.
#[verifier::external_body]
fn builder_write(b: mail_builder::MessageBuilder<'static>) -> (r: Option<String>)
    ensures
        is_single_part(builder_state(b)) ==> match r {
            Some(t) => message_text(builder_state(b)) == Some(t@),
            None => message_text(builder_state(b)) is None,
        },
{
    b.write_to_string().ok()
}

/// Why a post gives no message.
#[derive(Clone, Copy, Debug, PartialEq, Eq, Structural)]
pub enum RenderError {
    /// The content cannot be rendered as plain text: the renderer reports
    /// an error, or the content is not handed to it.
    Html,
    /// `created_at` is no time in the expected form.
    Date,
    /// The message could not be written.
    Write,
}

/// The part for a fetched medium.
pub open spec fn medium_of(mode: MediaMode, a: AttachmentView) -> Medium {
    if mode == MediaMode::Inline {
        Medium::Inline { content_type: a.content_type, cid: a.filename, data: a.data }
    } else {
        Medium::Attachment { content_type: a.content_type, filename: a.filename, data: a.data }
    }
}

/// The further parts of the message for a post: one for each fetched
/// medium where media travel as MIME parts and there is one, else none.
pub open spec fn media_parts(mode: MediaMode, attachments: Seq<AttachmentView>) -> Option<
    Seq<Medium>,
> {
    if mode == MediaMode::Link || attachments.len() == 0 {
        None
    } else {
        Some(Seq::new(attachments.len(), |i: int| medium_of(mode, attachments[i])))
    }
}

/// The headers of the message for a post, in the order in which they are
/// written: `In-Reply-To` comes last, where the post replies to another.
pub open spec fn message_headers(
    post: PostView,
    to_name: Seq<char>,
    to_addr: Seq<char>,
    domain: Seq<char>,
    seconds: i64,
) -> Seq<Header> {
    let fixed = seq![
        Header::From { name: post.display_name, addr: post.acct },
        Header::To { name: to_name, addr: to_addr },
        Header::Subject(subject_of(post.kind)),
        Header::Date(seconds),
        Header::MessageId(uid(post.id, domain)),
    ];
    match post.in_reply_to_id {
        Some(id) => fixed.push(Header::InReplyTo(uid(id, domain))),
        None => fixed,
    }
}

/// Everything that the message for a post is built of.
pub open spec fn message_state(
    post: PostView,
    to_name: Seq<char>,
    to_addr: Seq<char>,
    domain: Seq<char>,
    options: RenderOptions,
    body: Seq<char>,
    seconds: i64,
    attachments: Seq<AttachmentView>,
) -> BuilderState {
    BuilderState {
        headers: message_headers(post, to_name, to_addr, domain, seconds),
        text_body: if options.html {
            Body::Absent
        } else {
            Body::Text(body)
        },
        html_body: if options.html {
            Body::Text(body)
        } else {
            Body::Absent
        },
        media: media_parts(options.media, attachments),
        custom_body: false,
    }
}

/// What the message for a post is built of, or why there is none.
pub open spec fn plan_of(
    post: PostView,
    to_name: Seq<char>,
    to_addr: Seq<char>,
    domain: Seq<char>,
    options: RenderOptions,
    attachments: Seq<AttachmentView>,
) -> Result<BuilderState, RenderError> {
    let plain = if options.html {
        Some(Seq::empty())
    } else if !is_renderable(post.content) {
        None
    } else {
        html_text(post.content, BODY_WIDTH)
    };
    match plain {
        None => Err(RenderError::Html),
        Some(p) => match utc_seconds_of(post.created_at, created_at_format()) {
            None => Err(RenderError::Date),
            Some(seconds) => Ok(
                message_state(
                    post,
                    to_name,
                    to_addr,
                    domain,
                    options,
                    body_of(post, options, p),
                    seconds,
                    attachments,
                ),
            ),
        },
    }
}

/// Whether a text ends with CR LF.
pub open spec fn ends_with_crlf(t: Seq<char>) -> bool {
    exists|w: Seq<char>| t == w + "\r\n"@
}

/// Whether `r` is what rendering gives for a plan: the plan's error; or
/// the written message followed by CR LF; or `Write` where writing fails.
/// Of a message with MIME parts only the final CR LF is stated, since its
/// boundaries differ from one writing to the next.
pub open spec fn is_rendering_of(
    r: Result<Seq<char>, RenderError>,
    plan: Result<BuilderState, RenderError>,
) -> bool {
    match plan {
        Err(e) => r == Err::<Seq<char>, RenderError>(e),
        Ok(state) => if is_single_part(state) {
            match message_text(state) {
                Some(w) => r == Ok::<Seq<char>, RenderError>(w + "\r\n"@),
                None => r == Err::<Seq<char>, RenderError>(RenderError::Write),
            }
        } else {
            match r {
                Ok(t) => ends_with_crlf(t),
                Err(e) => e == RenderError::Write,
            }
        },
    }
}

/// A rendering result with the text taken by its view.
pub open spec fn rendering_view(r: Result<String, RenderError>) -> Result<Seq<char>, RenderError> {
    match r {
        Ok(t) => Ok(t@),
        Err(e) => Err(e),
    }
}

/// With media as links, and where no medium was fetched, the message has
/// a date, a message id, one body and no other part, so it is written the
/// same way every time.
pub proof fn lemma_without_media_is_single_part(
    post: PostView,
    to_name: Seq<char>,
    to_addr: Seq<char>,
    domain: Seq<char>,
    options: RenderOptions,
    body: Seq<char>,
    seconds: i64,
    attachments: Seq<AttachmentView>,
)
    requires
        options.media == MediaMode::Link || attachments.len() == 0,
    ensures
        is_single_part(
            message_state(post, to_name, to_addr, domain, options, body, seconds, attachments),
        ),
{
    let headers = message_headers(post, to_name, to_addr, domain, seconds);
    assert(headers[3] is Date);
    assert(headers[4] is MessageId);
}

/// In every mode the builder is given exactly one `Message-ID` header,
/// and it is the post's id followed by `@` and the instance domain.
pub proof fn lemma_one_message_id(
    post: PostView,
    to_name: Seq<char>,
    to_addr: Seq<char>,
    domain: Seq<char>,
    seconds: i64,
)
    ensures
        ({
            let headers = message_headers(post, to_name, to_addr, domain, seconds);
            &&& headers[4] == Header::MessageId(uid(post.id, domain))
            &&& forall|i: int|
                0 <= i < headers.len() && (#[trigger] headers[i]) is MessageId ==> i == 4
        }),
{
}

/// In every mode the builder is given an `In-Reply-To` header exactly
/// where the post replies to another: then it is that post's message id,
/// and else there is none.
pub proof fn lemma_in_reply_to_follows_post(
    post: PostView,
    to_name: Seq<char>,
    to_addr: Seq<char>,
    domain: Seq<char>,
    seconds: i64,
)
    ensures
        ({
            let headers = message_headers(post, to_name, to_addr, domain, seconds);
            match post.in_reply_to_id {
                Some(id) => {
                    &&& headers[5] == Header::InReplyTo(uid(id, domain))
                    &&& forall|i: int|
                        0 <= i < headers.len() && (#[trigger] headers[i]) is InReplyTo ==> i == 5
                },
                None => forall|i: int|
                    0 <= i < headers.len() ==> !((#[trigger] headers[i]) is InReplyTo),
            }
        }),
{
}

fn append_links(body: &mut String, urls: &Vec<String>)
    ensures
        final(body)@ == with_links(old(body)@, texts(urls@), urls@.len()),
{
    let mut i: usize = 0;
    while i < urls.len()
        invariant
            i <= urls.len(),
            body@ == with_links(old(body)@, texts(urls@), i as nat),
        decreases urls.len() - i,
    {
        body.append("\r\n");
        body.append(urls[i].as_str());
        i = i + 1;
    }
}

fn subject(kind: PostKind) -> (r: &'static str)
    ensures
        r@ == subject_of(kind),
{
    match kind {
        PostKind::Original => "Post",
        PostKind::Boost => "Boost",
    }
}

fn message_id(id: &str, domain: &str) -> (r: String)
    ensures
        r@ == uid(id@, domain@),
{
    let mut r = id.to_owned();
    r.append("@");
    r.append(domain);
    r
}

/// Fills a builder with the message for a post, given its body and the
/// seconds of its time.
pub fn message_builder(
    post: &Post,
    recipient: &Recipient,
    domain: &str,
    options: RenderOptions,
    body: &str,
    seconds: i64,
    attachments: &Vec<Attachment>,
) -> (b: mail_builder::MessageBuilder<'static>)
    ensures
        builder_state(b) == message_state(
            post@,
            recipient.display_name@,
            recipient.addr@,
            domain@,
            options,
            body@,
            seconds,
            attachment_views(attachments@),
        ),
{
    let ghost goal = message_state(
        post@,
        recipient.display_name@,
        recipient.addr@,
        domain@,
        options,
        body@,
        seconds,
        attachment_views(attachments@),
    );
    let mut b = builder_new();
    b = builder_from(b, post.display_name.as_str(), post.acct.as_str());
    b = builder_to(b, recipient.display_name.as_str(), recipient.addr.as_str());
    b = builder_subject(b, subject(post.kind));
    b = builder_date(b, seconds);
    b = builder_message_id(b, message_id(post.id.as_str(), domain).as_str());
    match &post.in_reply_to_id {
        Some(id) => {
            b = builder_in_reply_to(b, message_id(id.as_str(), domain).as_str());
        },
        None => {},
    }
    assert(builder_state(b).headers =~= goal.headers);
    if options.html {
        b = builder_html_body(b, body);
    } else {
        b = builder_text_body(b, body);
    }
    let ghost filled = BuilderState { media: None, ..goal };
    assert(builder_state(b) == filled);
    match options.media {
        MediaMode::Link => {},
        mode => {
            let ghost all = Seq::new(
                attachments@.len(),
                |i: int| medium_of(mode, attachment_views(attachments@)[i]),
            );
            let mut i: usize = 0;
            while i < attachments.len()
                invariant
                    i <= attachments.len(),
                    mode != MediaMode::Link,
                    all == Seq::new(
                        attachments@.len(),
                        |i: int| medium_of(mode, attachment_views(attachments@)[i]),
                    ),
                    builder_state(b) == (BuilderState {
                        media: if i == 0 {
                            None
                        } else {
                            Some(all.take(i as int))
                        },
                        ..filled
                    }),
                decreases attachments.len() - i,
            {
                let ghost before = builder_state(b);
                match mode {
                    MediaMode::Inline => {
                        b = builder_inline(b, &attachments[i]);
                    },
                    _ => {
                        b = builder_attachment(b, &attachments[i]);
                    },
                }
                assert(builder_state(b) == with_medium(before, all[i as int]));
                assert(builder_state(b).media == Some(all.take(i + 1))) by {
                    if i == 0 {
                        assert(seq![all[0]] =~= all.take(1));
                    } else {
                        assert(all.take(i as int).push(all[i as int]) =~= all.take(i + 1));
                    }
                }
                i = i + 1;
            }
            assert(all.take(attachments.len() as int) =~= all);
        },
    }
    b
}

/// Writes the message for a post, given its body and the seconds of its
/// time. `None` where writing fails.
pub fn write_message(
    post: &Post,
    recipient: &Recipient,
    domain: &str,
    options: RenderOptions,
    body: &str,
    seconds: i64,
    attachments: &Vec<Attachment>,
) -> (r: Option<String>)
    ensures
        ({
            let state = message_state(
                post@,
                recipient.display_name@,
                recipient.addr@,
                domain@,
                options,
                body@,
                seconds,
                attachment_views(attachments@),
            );
            is_single_part(state) ==> match r {
                Some(t) => message_text(state) == Some(t@),
                None => message_text(state) is None,
            }
        }),
{
    builder_write(message_builder(post, recipient, domain, options, body, seconds, attachments))
}

/// The rendered message: what was written, and a CR LF behind it.
pub fn finish_message(written: String) -> (r: String)
    ensures
        r@ == written@ + "\r\n"@,
        ends_with_crlf(r@),
{
    let mut r = written;
    r.append("\r\n");
    r
}

/// Renders a post as an RFC 5322 message. `attachments` are the fetched
/// media of the post; they are read only where media travel as MIME parts.
pub fn render_post(
    post: &Post,
    recipient: &Recipient,
    domain: &str,
    options: RenderOptions,
    attachments: &Vec<Attachment>,
) -> (r: Result<String, RenderError>)
    ensures
        is_rendering_of(
            rendering_view(r),
            plan_of(
                post@,
                recipient.display_name@,
                recipient.addr@,
                domain@,
                options,
                attachment_views(attachments@),
            ),
        ),
{
    let mut body = if options.html {
        post.content.clone()
    } else {
        if !check_renderable(post.content.as_str()) {
            return Err(RenderError::Html);
        }
        match html_to_text(post.content.as_str(), BODY_WIDTH) {
            Some(plain) => to_crlf(plain.as_str()),
            None => {
                return Err(RenderError::Html);
            },
        }
    };
    match options.media {
        MediaMode::Link => {
            append_links(&mut body, &post.media_urls);
        },
        _ => {},
    }
    let seconds = match utc_seconds(post.created_at.as_str(), "%Y-%m-%dT%H:%M:%S%.3fZ") {
        Some(s) => s,
        None => {
            return Err(RenderError::Date);
        },
    };
    match write_message(post, recipient, domain, options, body.as_str(), seconds, attachments) {
        Some(written) => Ok(finish_message(written)),
        None => Err(RenderError::Write),
    }
}

/// Renders a post as an entry of the mailbox: the post's id and its message.
pub fn render_entry(
    post: &Post,
    recipient: &Recipient,
    domain: &str,
    options: RenderOptions,
    attachments: &Vec<Attachment>,
) -> (r: Result<Entry, RenderError>)
    ensures
        is_rendering_of(
            match r {
                Ok(e) => Ok(e.message@),
                Err(e) => Err(e),
            },
            plan_of(
                post@,
                recipient.display_name@,
                recipient.addr@,
                domain@,
                options,
                attachment_views(attachments@),
            ),
        ),
        r matches Ok(e) ==> e.id@ == post@.id,
{
    match render_post(post, recipient, domain, options, attachments) {
        Ok(message) => Ok(Entry { id: post.id.clone(), message }),
        Err(e) => Err(e),
    }
}

} // verus!

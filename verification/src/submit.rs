//! From a received RFC 5322 message to the status that is posted.

use mail_parser::MimeHeaders;
use vstd::prelude::*;
use vstd::string::*;
use vstd::utf8::{decode_utf8, encode_utf8, is_char_boundary};
use crate::instance::{base_url_of, domain_of, strip_cred};
use crate::json::{json_of, member, parse_value, text_at, text_of};
use crate::mailbox::uid;
use crate::text::{
    char_is_space, chars_of, find_last, is_space, last_index, lemma_last_index, push_char,
    substring, texts,
};

verus! {

/// A header that lists message ids, as the parser hands it out.
#[derive(Debug)]
pub enum MailHeader {
    /// The message has no such header.
    Absent,
    /// The entries of the header, in order.
    Entries(Vec<String>),
    /// The header holds something else than text.
    Other,
}

/// An attachment of a received message.
#[derive(Debug)]
pub struct MailPart {
    /// Whether the part is a message of its own.
    pub is_message: bool,
    /// Type and subtype of the part, where it declares them.
    pub content_type: Option<(String, Option<String>)>,
    /// The file name of the part, where it has one.
    pub name: Option<String>,
    pub data: Vec<u8>,
}

/// What the gateway reads of a received message.
#[derive(Debug)]
pub struct ParsedMail {
    pub in_reply_to: MailHeader,
    pub references: MailHeader,
    /// The first text body, where the message has one.
    pub text_body: Option<String>,
    pub attachments: Vec<MailPart>,
}

/// A header that lists message ids, as mathematical values.
pub enum HeaderView {
    Absent,
    Entries(Seq<Seq<char>>),
    Other,
}

impl View for MailHeader {
    type V = HeaderView;

    open spec fn view(&self) -> HeaderView {
        match self {
            MailHeader::Absent => HeaderView::Absent,
            MailHeader::Entries(list) => HeaderView::Entries(texts(list@)),
            MailHeader::Other => HeaderView::Other,
        }
    }
}

/// An attachment of a received message, as mathematical values.
pub struct MailPartView {
    pub is_message: bool,
    pub content_type: Option<(Seq<char>, Option<Seq<char>>)>,
    pub name: Option<Seq<char>>,
    pub data: Seq<u8>,
}

impl View for MailPart {
    type V = MailPartView;

    open spec fn view(&self) -> MailPartView {
        MailPartView {
            is_message: self.is_message,
            content_type: match self.content_type {
                Some((kind, Some(sub))) => Some((kind@, Some(sub@))),
                Some((kind, None)) => Some((kind@, None)),
                None => None,
            },
            name: match self.name {
                Some(n) => Some(n@),
                None => None,
            },
            data: self.data@,
        }
    }
}

/// The views of a sequence of attachments, in order.
pub open spec fn part_views(parts: Seq<MailPart>) -> Seq<MailPartView> {
    Seq::new(parts.len(), |i: int| parts[i]@)
}

/// What is read of a received message, as mathematical values.
pub struct MailView {
    pub in_reply_to: HeaderView,
    pub references: HeaderView,
    pub text_body: Option<Seq<char>>,
    pub attachments: Seq<MailPartView>,
}

impl View for ParsedMail {
    type V = MailView;

    open spec fn view(&self) -> MailView {
        MailView {
            in_reply_to: self.in_reply_to@,
            references: self.references@,
            text_body: match self.text_body {
                Some(t) => Some(t@),
                None => None,
            },
            attachments: part_views(self.attachments@),
        }
    }
}

/// `mail_parser::Message`, carried through as an opaque value.
#[verifier::external_type_specification]
#[verifier::external_body]
pub struct ExMessage<'x>(mail_parser::Message<'x>);

/// What `mail_parser` reads of the octets of a message; `None` where it
/// reads no message.
pub uninterp spec fn mail_of(raw: Seq<u8>) -> Option<MailView>;

/// The `In-Reply-To` header of a parsed message.
pub uninterp spec fn in_reply_to_of(m: mail_parser::Message<'static>) -> HeaderView;

/// The `References` header of a parsed message.
pub uninterp spec fn references_of(m: mail_parser::Message<'static>) -> HeaderView;

/// The text body at a position of a parsed message, where it has one.
pub uninterp spec fn text_body_of(m: mail_parser::Message<'static>, position: usize) -> Option<
    Seq<char>,
>;

/// The attachments of a parsed message, in order.
pub uninterp spec fn attachments_of(m: mail_parser::Message<'static>) -> Seq<MailPartView>;

/// What is read of a parsed message: its two reference headers, the
/// first of its text bodies, and its attachments.
pub open spec fn message_view(m: mail_parser::Message<'static>) -> MailView {
    MailView {
        in_reply_to: in_reply_to_of(m),
        references: references_of(m),
        text_body: text_body_of(m, 0),
        attachments: attachments_of(m),
    }
}

/// `mail_parser::Message::parse`, the result made independent of the
/// octets by `into_owned`. Trusted: what is read of the result is a
/// function of the octets alone, and `mail_of` is its name.
#[verifier::external_body]
fn parse_message(raw: &[u8]) -> (r: Option<mail_parser::Message<'static>>)
    ensures
        match r {
            Some(m) => mail_of(raw@) == Some(message_view(m)),
            None => mail_of(raw@) is None,
        },
{
    match mail_parser::Message::parse(raw) {
        Some(m) => Some(m.into_owned()),
        None => None,
    }
}

/// `Message::in_reply_to`: `Empty` is `Absent`, and the entries are what
/// `as_text_list` gives of any other value. Trusted: `in_reply_to_of` is
/// the name of the result.
#[verifier::external_body]
fn message_in_reply_to(m: &mail_parser::Message<'static>) -> (r: MailHeader)
    ensures
        r@ == in_reply_to_of(*m),
{
    match m.in_reply_to() {
        mail_parser::HeaderValue::Empty => MailHeader::Absent,
        other => match other.as_text_list() {
            Some(list) => MailHeader::Entries(list.into_iter().map(str::to_owned).collect()),
            None => MailHeader::Other,
        },
    }
}

/// `Message::references`: `Empty` is `Absent`, and the entries are what
/// `as_text_list` gives of any other value. Trusted: `references_of` is
/// the name of the result.
#[verifier::external_body]
fn message_references(m: &mail_parser::Message<'static>) -> (r: MailHeader)
    ensures
        r@ == references_of(*m),
{
    match m.references() {
        mail_parser::HeaderValue::Empty => MailHeader::Absent,
        other => match other.as_text_list() {
            Some(list) => MailHeader::Entries(list.into_iter().map(str::to_owned).collect()),
            None => MailHeader::Other,
        },
    }
}

/// `Message::body_text`, copied into a `String`. Trusted: `text_body_of`
/// is the name of the result.
#[verifier::external_body]
fn message_text_body(m: &mail_parser::Message<'static>, position: usize) -> (r: Option<String>)
    ensures
        match r {
            Some(t) => text_body_of(*m, position) == Some(t@),
            None => text_body_of(*m, position) is None,
        },
{
    m.body_text(position).map(|t| t.into_owned())
}

/// `Message::attachments`, each part copied by what `is_message`,
/// `content_type`, `attachment_name` and `contents` give of it. Trusted:
/// `attachments_of` is the name of the result.
#[verifier::external_body]
fn message_attachments(m: &mail_parser::Message<'static>) -> (r: Vec<MailPart>)
    ensures
        part_views(r@) == attachments_of(*m),
{
    m.attachments().map(|p| MailPart {
        is_message: p.is_message(),
        content_type: p.content_type().map(|c| (c.ctype().to_owned(), c.subtype().map(str::to_owned))),
        name: p.attachment_name().map(str::to_owned),
        data: p.contents().to_vec(),
    }).collect()
}

/// Reads a message from its octets.
pub fn parse_mail(raw: &[u8]) -> (r: Option<ParsedMail>)
    ensures
        match r {
            Some(mail) => mail_of(raw@) == Some(mail@),
            None => mail_of(raw@) is None,
        },
{
    match parse_message(raw) {
        Some(m) => Some(
            ParsedMail {
                in_reply_to: message_in_reply_to(&m),
                references: message_references(&m),
                text_body: message_text_body(&m, 0),
                attachments: message_attachments(&m),
            },
        ),
        None => None,
    }
}

/// The pattern that finds where a mail client has put the quoted message
/// behind a reply.
pub open spec fn quote_pattern() -> Seq<char> {
    "-*\\s*(On\\s.+\\s.+\\n?wrote:{0,1})\\s{0,1}-*$"@
}

/// What a search for a pattern in a text gives.
#[derive(Clone, Copy, Debug, PartialEq, Eq, Structural)]
pub enum Search {
    /// The first match starts at this octet of the text.
    At(usize),
    /// The pattern matches nowhere.
    NoMatch,
    /// The pattern does not compile, or the search gave up.
    Failed,
}

/// `onig::Error`, carried through as an opaque value.
#[verifier::external_type_specification]
#[verifier::external_body]
pub struct ExSearchError(onig::Error);

/// What `onig` gives for a pattern and a text.
pub uninterp spec fn pattern_search(pattern: Seq<char>, text: Seq<char>) -> Search;

/// `onig::Regex::new`, then `search_with_param` over the whole text with
/// no options. Trusted: the result is a function of pattern and text
/// alone, and `pattern_search` is its name; an error of either call is
/// `Failed`.
#[verifier::external_body]
fn search_pattern(pattern: &str, text: &str) -> (r: Result<Option<usize>, onig::Error>)
    ensures
        pattern_search(pattern@, text@) == match r {
            Ok(Some(n)) => Search::At(n),
            Ok(None) => Search::NoMatch,
            Err(_) => Search::Failed,
        },
{
    let re = onig::Regex::new(pattern)?;
    re.search_with_param(
        text,
        0,
        text.len(),
        onig::SearchOptions::SEARCH_OPTION_NONE,
        None,
        onig::MatchParam::default(),
    )
}

/// Where the quoted message starts in a body.
pub fn find_quote(body: &str) -> (r: Search)
    ensures
        r == pattern_search(quote_pattern(), body@),
{
    match search_pattern("-*\\s*(On\\s.+\\s.+\\n?wrote:{0,1})\\s{0,1}-*$", body) {
        Ok(Some(n)) => Search::At(n),
        Ok(None) => Search::NoMatch,
        Err(_) => Search::Failed,
    }
}

/// Why a received message gives no status.
#[derive(Clone, Copy, Debug, PartialEq, Eq, Structural)]
pub enum SubmitError {
    /// The octets are no RFC 5322 message.
    Parse,
    /// The message has no text body.
    NoText,
    /// `In-Reply-To` or `References` is there but lists no message id.
    BadReference,
    /// The search for the quoted message failed.
    Search,
    /// An attachment declares no content type.
    AttachmentType,
}

/// The first entry of a header; the empty text where the header is absent.
pub open spec fn first_entry(h: HeaderView) -> Result<Seq<char>, SubmitError> {
    match h {
        HeaderView::Absent => Ok(Seq::empty()),
        HeaderView::Entries(list) => if list.len() > 0 {
            Ok(list[0])
        } else {
            Err(SubmitError::BadReference)
        },
        HeaderView::Other => Err(SubmitError::BadReference),
    }
}

/// The message id that a message refers to: the first entry of
/// `In-Reply-To`, else the first entry of `References`, else empty.
pub open spec fn reference_token(mail: MailView) -> Result<Seq<char>, SubmitError> {
    if mail.in_reply_to is Absent {
        first_entry(mail.references)
    } else {
        first_entry(mail.in_reply_to)
    }
}

/// The id of the post that a message id stands for: what precedes its
/// last `@`, or all of it where it holds none. `None` where that is empty.
pub open spec fn reply_target(token: Seq<char>) -> Option<Seq<char>> {
    let at = last_index(token, '@', token.len() as int);
    let id = if at >= 0 {
        token.take(at)
    } else {
        token
    };
    if id.len() == 0 {
        None
    } else {
        Some(id)
    }
}

/// A reply to a rendered post names the post: the message id of post
/// `id` on an instance whose domain holds no `@` stands for `id` again.
pub proof fn lemma_reply_names_the_post(id: Seq<char>, domain: Seq<char>)
    requires
        id.len() > 0,
        forall|i: int| 0 <= i < domain.len() ==> domain[i] != '@',
    ensures
        reply_target(uid(id, domain)) == Some(id),
{
    let token = uid(id, domain);
    reveal_strlit("@");
    assert(token[id.len() as int] == '@');
    assert forall|j: int| id.len() < j < token.len() implies token[j] != '@' by {
        assert(token[j] == domain[j - id.len() - 1]);
    }
    lemma_last_index(token, '@', token.len() as int);
    assert(last_index(token, '@', token.len() as int) == id.len());
    assert(token.take(id.len() as int) =~= id);
}

/// The text without the characters equal to `c`.
pub open spec fn without(s: Seq<char>, c: char) -> Seq<char>
    decreases s.len(),
{
    if s.len() == 0 {
        Seq::empty()
    } else if s.last() == c {
        without(s.drop_last(), c)
    } else {
        without(s.drop_last(), c).push(s.last())
    }
}

/// The text without the white space at its end.
pub open spec fn trim_end(s: Seq<char>) -> Seq<char>
    decreases s.len(),
{
    if s.len() > 0 && is_space(s.last()) {
        trim_end(s.drop_last())
    } else {
        s
    }
}

/// The text before octet `n` of its UTF-8 encoding.
pub open spec fn before_octet(s: Seq<char>, n: usize) -> Seq<char> {
    decode_utf8(encode_utf8(s).subrange(0, n as int))
}

/// The body without the quoted message: cut where the quote starts, if a
/// quote was found and starts between two characters.
pub open spec fn unquoted(body: Seq<char>, quoted_at: Option<usize>) -> Seq<char> {
    match quoted_at {
        Some(n) => if is_char_boundary(encode_utf8(body), n as int) {
            before_octet(body, n)
        } else {
            body
        },
        None => body,
    }
}

/// The status text: the body, without the quoted message where the
/// message is a reply, without object-replacement characters and without
/// white space at its end.
pub open spec fn status_text(body: Seq<char>, is_reply: bool, quoted_at: Option<usize>) -> Seq<
    char,
> {
    let kept = if is_reply {
        unquoted(body, quoted_at)
    } else {
        body
    };
    trim_end(without(kept, '\u{FFFC}'))
}

/// Where no quote is found, or the message is no reply, nothing is cut
/// from the body: the status is the body without object-replacement
/// characters and trailing white space.
pub proof fn lemma_no_quote_no_cut(body: Seq<char>, is_reply: bool, quoted_at: Option<usize>)
    requires
        !is_reply || quoted_at is None,
    ensures
        status_text(body, is_reply, quoted_at) == trim_end(without(body, '\u{FFFC}')),
        body.len() == 0 ==> status_text(body, is_reply, quoted_at) == body,
{
}

/// A medium to upload.
#[derive(Debug)]
pub struct Upload {
    pub mime: String,
    pub filename: String,
    pub data: Vec<u8>,
}

/// A medium to upload, as mathematical values.
pub struct UploadView {
    pub mime: Seq<char>,
    pub filename: Seq<char>,
    pub data: Seq<u8>,
}

impl View for Upload {
    type V = UploadView;

    open spec fn view(&self) -> UploadView {
        UploadView { mime: self.mime@, filename: self.filename@, data: self.data@ }
    }
}

/// The views of a sequence of uploads, in order.
pub open spec fn upload_views(u: Seq<Upload>) -> Seq<UploadView> {
    Seq::new(u.len(), |i: int| u[i]@)
}

/// The MIME type of an attachment: type, `/`, and the subtype or `JPG`.
pub open spec fn mime_of(content_type: (Seq<char>, Option<Seq<char>>)) -> Seq<char> {
    content_type.0 + "/"@ + match content_type.1 {
        Some(sub) => sub,
        None => "JPG"@,
    }
}

/// The file name of an attachment, or `Untitled.jpg`.
pub open spec fn filename_of(name: Option<Seq<char>>) -> Seq<char> {
    match name {
        Some(n) => n,
        None => "Untitled.jpg"@,
    }
}

/// The uploads for the first `n` attachments: one for each that is no
/// message of its own, in order. `None` where one of them declares no
/// content type.
pub open spec fn uploads_of(parts: Seq<MailPartView>, n: nat) -> Option<Seq<UploadView>>
    decreases n,
{
    if n == 0 {
        Some(Seq::empty())
    } else {
        match uploads_of(parts, (n - 1) as nat) {
            None => None,
            Some(before) => {
                let p = parts[n - 1];
                if p.is_message {
                    Some(before)
                } else {
                    match p.content_type {
                        Some(ct) => Some(
                            before.push(
                                UploadView {
                                    mime: mime_of(ct),
                                    filename: filename_of(p.name),
                                    data: p.data,
                                },
                            ),
                        ),
                        None => None,
                    }
                }
            },
        }
    }
}

/// A status before its media are uploaded.
#[derive(Debug)]
pub struct Draft {
    pub status: String,
    pub in_reply_to_id: Option<String>,
    pub uploads: Vec<Upload>,
}

/// A draft, as mathematical values.
pub struct DraftView {
    pub status: Seq<char>,
    pub in_reply_to_id: Option<Seq<char>>,
    pub uploads: Seq<UploadView>,
}

impl View for Draft {
    type V = DraftView;

    open spec fn view(&self) -> DraftView {
        DraftView {
            status: self.status@,
            in_reply_to_id: match self.in_reply_to_id {
                Some(s) => Some(s@),
                None => None,
            },
            uploads: upload_views(self.uploads@),
        }
    }
}

/// The draft for a received message, given where its quoted message
/// starts; or why there is none.
pub open spec fn draft_of(mail: MailView, quoted_at: Option<usize>) -> Result<
    DraftView,
    SubmitError,
> {
    match mail.text_body {
        None => Err(SubmitError::NoText),
        Some(body) => match reference_token(mail) {
            Err(e) => Err(e),
            Ok(token) => match uploads_of(mail.attachments, mail.attachments.len()) {
                None => Err(SubmitError::AttachmentType),
                Some(uploads) => Ok(
                    DraftView {
                        status: status_text(body, token.len() > 0, quoted_at),
                        in_reply_to_id: reply_target(token),
                        uploads,
                    },
                ),
            },
        },
    }
}

/// The draft for the text of a received message.
pub open spec fn draft_of_message(message: Seq<char>) -> Result<DraftView, SubmitError> {
    match mail_of(encode_utf8(message)) {
        None => Err(SubmitError::Parse),
        Some(mail) => match quote_of(mail) {
            Ok(quoted_at) => draft_of(mail, quoted_at),
            Err(e) => Err(e),
        },
    }
}

/// Whether the quoted message is looked for: in the body of a message
/// that refers to another.
pub open spec fn looks_for_quote(mail: MailView) -> bool {
    &&& mail.text_body is Some
    &&& reference_token(mail) matches Ok(token)
    &&& token.len() > 0
}

/// Where the quoted message of a received message starts, where it is
/// looked for and found; `Search` where the search fails.
pub open spec fn quote_of(mail: MailView) -> Result<Option<usize>, SubmitError> {
    if looks_for_quote(mail) {
        match pattern_search(quote_pattern(), mail.text_body->0) {
            Search::At(n) => Ok(Some(n)),
            Search::NoMatch => Ok(None),
            Search::Failed => Err(SubmitError::Search),
        }
    } else {
        Ok(None)
    }
}

/// Where the quoted message starts, given what the search gave.
pub open spec fn quote_from(mail: MailView, found: Search) -> Result<Option<usize>, SubmitError> {
    if looks_for_quote(mail) {
        match found {
            Search::At(n) => Ok(Some(n)),
            Search::NoMatch => Ok(None),
            Search::Failed => Err(SubmitError::Search),
        }
    } else {
        Ok(None)
    }
}

/// A result with the draft taken by its view.
pub open spec fn draft_view(r: Result<Draft, SubmitError>) -> Result<DraftView, SubmitError> {
    match r {
        Ok(d) => Ok(d@),
        Err(e) => Err(e),
    }
}

fn first_of(h: &MailHeader) -> (r: Result<String, SubmitError>)
    ensures
        match r {
            Ok(t) => first_entry(h@) == Ok::<Seq<char>, SubmitError>(t@),
            Err(e) => first_entry(h@) == Err::<Seq<char>, SubmitError>(e),
        },
{
    match h {
        MailHeader::Absent => Ok(String::new()),
        MailHeader::Entries(list) => if list.len() > 0 {
            Ok(list[0].clone())
        } else {
            Err(SubmitError::BadReference)
        },
        MailHeader::Other => Err(SubmitError::BadReference),
    }
}

/// The id of the post that a message id stands for.
pub fn reply_id(token: &str) -> (r: Option<String>)
    ensures
        match r {
            Some(id) => reply_target(token@) == Some(id@),
            None => reply_target(token@) is None,
        },
{
    let v = chars_of(token);
    proof {
        lemma_last_index(v@, '@', v.len() as int);
    }
    let end: usize = match find_last(&v, '@') {
        Some(at) => at,
        None => v.len(),
    };
    assert(v@.subrange(0, end as int) =~= if last_index(v@, '@', v.len() as int) >= 0 {
        v@.take(last_index(v@, '@', v.len() as int))
    } else {
        v@
    });
    if end == 0 {
        None
    } else {
        Some(substring(&v, 0, end))
    }
}

/// The text without object-replacement characters and without white
/// space at its end.
fn clean(text: &str) -> (r: String)
    ensures
        r@ == trim_end(without(text@, '\u{FFFC}')),
{
    let v = chars_of(text);
    let mut kept: Vec<char> = Vec::new();
    let mut i: usize = 0;
    assert(v@.take(0) =~= Seq::<char>::empty());
    while i < v.len()
        invariant
            i <= v.len(),
            kept@ == without(v@.take(i as int), '\u{FFFC}'),
        decreases v.len() - i,
    {
        assert(v@.take(i + 1).drop_last() =~= v@.take(i as int));
        if v[i] != '\u{FFFC}' {
            kept.push(v[i]);
        }
        i = i + 1;
    }
    assert(v@.take(v.len() as int) =~= v@);
    let mut end: usize = kept.len();
    assert(kept@.take(kept.len() as int) =~= kept@);
    while end > 0 && char_is_space(kept[end - 1])
        invariant
            end <= kept.len(),
            trim_end(kept@) == trim_end(kept@.take(end as int)),
        decreases end,
    {
        assert(kept@.take(end as int).drop_last() =~= kept@.take(end - 1));
        end = end - 1;
    }
    assert(kept@.subrange(0, end as int) =~= kept@.take(end as int));
    substring(&kept, 0, end)
}

/// The status text for a body.
pub fn status_from_body(body: &str, is_reply: bool, quoted_at: Option<usize>) -> (r: String)
    ensures
        r@ == status_text(body@, is_reply, quoted_at),
{
    broadcast use vstd::utf8::encode_utf8_decode_utf8;

    if is_reply {
        match quoted_at {
            Some(n) => {
                if body.is_char_boundary(n) {
                    let (head, _) = body.split_at(n);
                    assert(head@ == decode_utf8(encode_utf8(head@)));
                    assert(head@ == before_octet(body@, n));
                    return clean(head);
                }
            },
            None => {},
        }
    }
    clean(body)
}

fn uploads_from(parts: &Vec<MailPart>) -> (r: Option<Vec<Upload>>)
    ensures
        match r {
            Some(u) => uploads_of(part_views(parts@), parts@.len()) == Some(upload_views(u@)),
            None => uploads_of(part_views(parts@), parts@.len()) is None,
        },
{
    let mut uploads: Vec<Upload> = Vec::new();
    let mut i: usize = 0;
    assert(upload_views(uploads@) =~= Seq::<UploadView>::empty());
    while i < parts.len()
        invariant
            i <= parts.len(),
            uploads_of(part_views(parts@), i as nat) == Some(upload_views(uploads@)),
        decreases parts.len() - i,
    {
        let p = &parts[i];
        if !p.is_message {
            match &p.content_type {
                Some(ct) => {
                    let mut mime = ct.0.clone();
                    mime.append("/");
                    match &ct.1 {
                        Some(sub) => {
                            mime.append(sub.as_str());
                        },
                        None => {
                            mime.append("JPG");
                        },
                    }
                    let filename = match &p.name {
                        Some(n) => n.clone(),
                        None => "Untitled.jpg".to_owned(),
                    };
                    let ghost before = upload_views(uploads@);
                    let upload = Upload { mime, filename, data: p.data.clone() };
                    uploads.push(upload);
                    assert(upload_views(uploads@) =~= before.push(upload@));
                },
                None => {
                    assert(uploads_of(part_views(parts@), (i + 1) as nat) is None);
                    proof {
                        lemma_uploads_fail_on(part_views(parts@), (i + 1) as nat, parts@.len());
                    }
                    return None;
                },
            }
        }
        i = i + 1;
    }
    Some(uploads)
}

/// Once an attachment declares no content type, no longer list of
/// attachments gives uploads.
pub proof fn lemma_uploads_fail_on(parts: Seq<MailPartView>, n: nat, m: nat)
    requires
        n <= m,
        uploads_of(parts, n) is None,
    ensures
        uploads_of(parts, m) is None,
    decreases m,
{
    if n < m {
        lemma_uploads_fail_on(parts, n, (m - 1) as nat);
    }
}

/// The message id that a message refers to; empty where it refers to none.
pub fn reference_of(mail: &ParsedMail) -> (r: Result<String, SubmitError>)
    ensures
        match r {
            Ok(t) => reference_token(mail@) == Ok::<Seq<char>, SubmitError>(t@),
            Err(e) => reference_token(mail@) == Err::<Seq<char>, SubmitError>(e),
        },
{
    match &mail.in_reply_to {
        MailHeader::Absent => first_of(&mail.references),
        _ => first_of(&mail.in_reply_to),
    }
}

/// Whether the quoted message is looked for in a message.
pub fn wants_quote_search(mail: &ParsedMail) -> (r: bool)
    ensures
        r == looks_for_quote(mail@),
{
    match &mail.text_body {
        Some(_) => match reference_of(mail) {
            Ok(token) => !token.as_str().is_empty(),
            Err(_) => false,
        },
        None => false,
    }
}

/// The draft for a parsed message, given what the search for its quoted
/// message gave. The search result is read only where the quoted message
/// is looked for.
pub fn draft_from_search(mail: &ParsedMail, found: Search) -> (r: Result<Draft, SubmitError>)
    ensures
        draft_view(r) == match quote_from(mail@, found) {
            Ok(quoted_at) => draft_of(mail@, quoted_at),
            Err(e) => Err(e),
        },
{
    if wants_quote_search(mail) {
        match found {
            Search::At(n) => draft_from_mail(mail, Some(n)),
            Search::NoMatch => draft_from_mail(mail, None),
            Search::Failed => Err(SubmitError::Search),
        }
    } else {
        draft_from_mail(mail, None)
    }
}

/// The draft for a parsed message, given where its quoted message starts.
pub fn draft_from_mail(mail: &ParsedMail, quoted_at: Option<usize>) -> (r: Result<
    Draft,
    SubmitError,
>)
    ensures
        draft_view(r) == draft_of(mail@, quoted_at),
{
    let body = match &mail.text_body {
        Some(b) => b,
        None => {
            return Err(SubmitError::NoText);
        },
    };
    let token = match reference_of(mail) {
        Ok(t) => t,
        Err(e) => {
            return Err(e);
        },
    };
    let uploads = match uploads_from(&mail.attachments) {
        Some(u) => u,
        None => {
            return Err(SubmitError::AttachmentType);
        },
    };
    let status = status_from_body(body.as_str(), !token.as_str().is_empty(), quoted_at);
    let in_reply_to_id = reply_id(token.as_str());
    Ok(Draft { status, in_reply_to_id, uploads })
}

/// The draft for the text of a received message.
pub fn draft_from_message(message: &str) -> (r: Result<Draft, SubmitError>)
    ensures
        draft_view(r) == draft_of_message(message@),
{
    let mail = match parse_mail(message.as_bytes()) {
        Some(m) => m,
        None => {
            return Err(SubmitError::Parse);
        },
    };
    if wants_quote_search(&mail) {
        let found = match &mail.text_body {
            Some(body) => find_quote(body.as_str()),
            None => Search::NoMatch,
        };
        draft_from_search(&mail, found)
    } else {
        draft_from_mail(&mail, None)
    }
}

/// How many media a status can carry.
pub const MEDIA_LIMIT: usize = 4;

/// What is posted.
#[derive(Debug)]
pub struct Status {
    pub status: String,
    pub in_reply_to_id: Option<String>,
    pub media_ids: Vec<String>,
}

/// The ids that are posted: the first four, or all where there are fewer.
pub open spec fn kept_media(ids: Seq<Seq<char>>) -> Seq<Seq<char>> {
    if ids.len() > MEDIA_LIMIT {
        ids.take(MEDIA_LIMIT as int)
    } else {
        ids
    }
}

/// The status for a draft and the ids that upstream gave its media, in
/// the order of the uploads.
pub fn finish_status(draft: Draft, media_ids: Vec<String>) -> (s: Status)
    ensures
        s.status@ == draft.status@,
        s.in_reply_to_id == draft.in_reply_to_id,
        texts(s.media_ids@) == kept_media(texts(media_ids@)),
        s.media_ids@.len() <= MEDIA_LIMIT,
{
    let mut ids = media_ids;
    if ids.len() > MEDIA_LIMIT {
        ids.truncate(MEDIA_LIMIT);
    }
    assert(texts(ids@) =~= kept_media(texts(media_ids@)));
    Status { status: draft.status, in_reply_to_id: draft.in_reply_to_id, media_ids: ids }
}

/// The id that an upload answer gives: the text of its member `id`, empty
/// where that is no string. `None` where the answer is no JSON document.
pub open spec fn media_id_of(answer: Seq<char>) -> Option<Seq<char>> {
    match json_of(answer) {
        Some(j) => Some(text_of(member(j, "id"@))),
        None => None,
    }
}

/// Reads the id of an uploaded medium from upstream's answer.
pub fn media_id(answer: &str) -> (r: Option<String>)
    ensures
        match r {
            Some(id) => media_id_of(answer@) == Some(id@),
            None => media_id_of(answer@) is None,
        },
{
    match parse_value(answer) {
        Some(v) => Some(text_at(&v, "id")),
        None => None,
    }
}

/// The ids so far with the id of one more uploaded medium, read from
/// upstream's answer. `None` where the upload gave no answer or the answer
/// is no JSON document: then no status is posted.
pub fn add_media_id(ids: Vec<String>, answer: Option<&str>) -> (r: Option<Vec<String>>)
    ensures
        match answer {
            Some(a) => match media_id_of(a@) {
                Some(id) => r matches Some(v) && texts(v@) == texts(ids@).push(id),
                None => r is None,
            },
            None => r is None,
        },
{
    match answer {
        Some(a) => match media_id(a) {
            Some(id) => {
                let mut v = ids;
                v.push(id);
                assert(texts(v@) =~= texts(ids@).push(id@));
                Some(v)
            },
            None => None,
        },
        None => None,
    }
}

/// The base URL of the instance that a message is posted to: that of the
/// configured account, else that of the reverse-path.
pub open spec fn submission_base_url(account: Option<Seq<char>>, reverse_path: Seq<char>) -> Seq<
    char,
> {
    match account {
        Some(a) => base_url_of(domain_of(a)),
        None => base_url_of(domain_of(reverse_path)),
    }
}

/// The base URL of the instance that a message is posted to.
pub fn submission_url(account: Option<&str>, reverse_path: &str) -> (r: String)
    ensures
        r@ == submission_base_url(
            match account {
                Some(a) => Some(a@),
                None => None,
            },
            reverse_path@,
        ),
{
    match account {
        Some(a) => strip_cred(a).1,
        None => strip_cred(reverse_path).1,
    }
}

} // verus!

use mop3::mailbox::Mailbox;
use mop3::pop3::PopSession;
use mop3::post::{timeline_from_text, Post, PostKind};
use mop3::render::{
    finish_message, media_filename, media_mode, render_entry, render_post, to_crlf, Attachment,
    MediaMode, Recipient, RenderError, RenderOptions,
};

const LINK: RenderOptions = RenderOptions { html: false, media: MediaMode::Link };

fn me() -> Recipient {
    Recipient { display_name: "Me".to_string(), addr: "me@b".to_string() }
}

fn post() -> Post {
    Post {
        id: "42".to_string(),
        created_at: "2024-01-02T03:04:05.000Z".to_string(),
        in_reply_to_id: None,
        display_name: "A".to_string(),
        acct: "a@b".to_string(),
        kind: PostKind::Original,
        content: "<p>hi</p>".to_string(),
        media_urls: vec![],
    }
}

fn picture() -> Vec<Attachment> {
    vec![Attachment {
        filename: "pic.png".to_string(),
        content_type: "image/png".to_string(),
        data: vec![1, 2, 3, 4],
    }]
}

fn count(hay: &str, needle: &str) -> usize {
    hay.matches(needle).count()
}

#[test]
fn a_plain_message() {
    assert_eq!(
        render_post(&post(), &me(), "b", LINK, &vec![]).unwrap(),
        "From: \"A\" <a@b>\r\nTo: \"Me\" <me@b>\r\nSubject: Post\r\n\
         Date: Tue, 2 Jan 2024 03:04:05 +0000\r\nMessage-ID: <42@b>\r\nMIME-Version: 1.0\r\n\
         Content-Type: text/plain; charset=\"utf-8\"\r\nContent-Transfer-Encoding: 7bit\r\n\r\n\
         hi\r\n\r\n"
    );
}

#[test]
fn pop3_single_post() {
    let posts = timeline_from_text(
        "[{\"id\":\"42\",\"created_at\":\"2024-01-02T03:04:05.000Z\",\"content\":\"<p>hi</p>\",\
         \"account\":{\"acct\":\"a@b\",\"display_name\":\"A\"}}]",
    )
    .unwrap();
    let entries = vec![render_entry(&posts[0], &me(), "b", LINK, &vec![]).unwrap()];
    let mut s = PopSession::new(String::new());
    s.on_line("USER a@b\r\n");
    s.on_line("PASS tok\r\n");
    s.open(Mailbox::new("b".to_string(), entries).unwrap());
    assert_eq!(s.on_line("UIDL 1\r\n").reply, "+OK 1 42@b\r\n");
    let sent = s.on_line("RETR 1\r\n").reply;
    assert!(sent.contains("\r\nMessage-ID: <42@b>\r\n"), "{:?}", sent);
    assert!(sent.contains("\r\n\r\nhi\r\n"), "{:?}", sent);
    assert!(sent.ends_with("\r\n.\r\n"));
    assert_eq!(s.recent(), "42");
    let top = s.on_line("TOP 1 0\r\n").reply;
    assert!(top.contains("Message-ID: <42@b>\r\n"));
    assert!(!top.contains("hi\r\n"));
    assert!(top.ends_with("7bit\r\n\r\n.\r\n"), "{:?}", top);
}

#[test]
fn pop3_reply() {
    let mut p = post();
    p.in_reply_to_id = Some("40".to_string());
    let m = render_post(&p, &me(), "b", LINK, &vec![]).unwrap();
    assert!(m.contains("\r\nIn-Reply-To: <40@b>\r\n"), "{:?}", m);
    assert_eq!(count(&m, "In-Reply-To:"), 1);
}

#[test]
fn no_in_reply_to_without_a_parent() {
    for html in [false, true] {
        for media in [MediaMode::Link, MediaMode::Attachment, MediaMode::Inline] {
            let m = render_post(&post(), &me(), "b", RenderOptions { html, media }, &picture())
                .unwrap();
            assert!(!m.contains("In-Reply-To"), "{:?}", m);
        }
    }
}

#[test]
fn rendered_messages_parse_and_have_one_message_id() {
    let mut p = post();
    p.in_reply_to_id = Some("40".to_string());
    p.content = "<p>héllo <b>wörld</b></p><p>more</p>".to_string();
    p.media_urls = vec!["https://m/x.png".to_string()];
    for html in [false, true] {
        for media in [MediaMode::Link, MediaMode::Attachment, MediaMode::Inline] {
            let m = render_post(&p, &me(), "b", RenderOptions { html, media }, &picture()).unwrap();
            let parsed = mail_parser::Message::parse(m.as_bytes()).unwrap();
            assert_eq!(parsed.message_id(), Some("42@b"));
            assert_eq!(parsed.subject(), Some("Post"));
            assert_eq!(count(&m, "Message-ID:"), 1);
            assert!(m.ends_with("\r\n"));
        }
    }
}

#[test]
fn a_boost_has_its_own_subject() {
    let mut p = post();
    p.kind = PostKind::Boost;
    let m = render_post(&p, &me(), "b", LINK, &vec![]).unwrap();
    assert!(m.contains("\r\nSubject: Boost\r\n"));
    assert!(!m.contains("Subject: Post"));
}

#[test]
fn media_as_links() {
    let mut p = post();
    p.media_urls = vec!["https://m/1.png".to_string(), "https://m/2.png".to_string()];
    let m = render_post(&p, &me(), "b", LINK, &picture()).unwrap();
    assert!(m.ends_with("\r\n\r\nhi\r\n\r\nhttps://m/1.png\r\nhttps://m/2.png\r\n"), "{:?}", m);
    assert!(!m.contains("multipart"));
    let m = render_post(&p, &me(), "b", RenderOptions { html: true, media: MediaMode::Link }, &vec![]).unwrap();
    assert!(m.ends_with("\r\n\r\n<p>hi</p>\r\nhttps://m/1.png\r\nhttps://m/2.png\r\n"), "{:?}", m);
    assert!(m.contains("Content-Type: text/html; charset=\"utf-8\"\r\n"));
}

#[test]
fn media_as_attachments() {
    let mut p = post();
    p.media_urls = vec!["https://m/pic.png".to_string()];
    let m = render_post(&p, &me(), "b", RenderOptions { html: false, media: MediaMode::Attachment }, &picture()).unwrap();
    assert!(m.contains("Content-Type: multipart/mixed"), "{:?}", m);
    assert!(m.contains("Content-Disposition: attachment; filename=\"pic.png\"\r\n"), "{:?}", m);
    assert!(m.contains("Content-Type: image/png\r\n"));
    assert!(m.contains("\r\n\r\nAQIDBA==\r\n"));
    assert!(!m.contains("https://m/pic.png"));
    let parsed = mail_parser::Message::parse(m.as_bytes()).unwrap();
    assert_eq!(parsed.attachment_count(), 1);
    assert_eq!(parsed.attachment(0).unwrap().contents(), &[1u8, 2, 3, 4][..]);
    assert_eq!(parsed.body_text(0).unwrap().trim_end(), "hi");
}

#[test]
fn media_inline() {
    let m = render_post(&post(), &me(), "b", RenderOptions { html: true, media: MediaMode::Inline }, &picture()).unwrap();
    assert!(m.contains("Content-Disposition: inline\r\n"), "{:?}", m);
    assert!(m.contains("Content-ID: <pic.png>\r\n"));
    assert!(m.contains("<p>hi</p>"));
    assert!(!m.contains("Content-Disposition: attachment"));
}

#[test]
fn plain_text_is_wrapped_and_has_crlf() {
    let mut p = post();
    p.content = format!("<p>{}</p><p>two</p>", "word ".repeat(40));
    let m = render_post(&p, &me(), "b", LINK, &vec![]).unwrap();
    let body = &m[m.find("\r\n\r\n").unwrap() + 4..];
    assert!(body.lines().count() >= 4, "{:?}", body);
    assert!(body.lines().all(|l| l.chars().count() <= 78), "{:?}", body);
    assert_eq!(count(body, "\n"), count(body, "\r\n"));
    assert!(body.contains("two\r\n"));
}

#[test]
fn a_time_in_another_form_is_refused() {
    for created_at in ["", "yesterday", "2024-01-02 03:04:05", "2024-01-02T03:04:05.000", "2024-13-02T03:04:05.000Z"] {
        let mut p = post();
        p.created_at = created_at.to_string();
        assert_eq!(render_post(&p, &me(), "b", LINK, &vec![]).unwrap_err(), RenderError::Date, "{:?}", created_at);
        assert!(matches!(render_entry(&p, &me(), "b", LINK, &vec![]), Err(RenderError::Date)));
    }
}

#[test]
fn dates_are_utc() {
    let mut p = post();
    p.created_at = "1970-01-01T00:00:00.000Z".to_string();
    assert!(render_post(&p, &me(), "b", LINK, &vec![]).unwrap().contains("\r\nDate: Thu, 1 Jan 1970 00:00:00 +0000\r\n"));
    p.created_at = "2023-12-31T23:59:59.999Z".to_string();
    assert!(render_post(&p, &me(), "b", LINK, &vec![]).unwrap().contains("\r\nDate: Sun, 31 Dec 2023 23:59:59 +0000\r\n"));
}

#[test]
fn an_entry_keeps_the_id() {
    let e = render_entry(&post(), &me(), "b", LINK, &vec![]).unwrap();
    assert_eq!(e.id, "42");
    assert_eq!(e.message, render_post(&post(), &me(), "b", LINK, &vec![]).unwrap());
}

#[test]
fn line_feeds_become_crlf() {
    assert_eq!(to_crlf(""), "");
    assert_eq!(to_crlf("a\nb\n"), "a\r\nb\r\n");
    assert_eq!(to_crlf("a\r\nb"), "a\r\r\nb");
    assert_eq!(to_crlf("\n\n"), "\r\n\r\n");
    assert_eq!(to_crlf("no line feed"), "no line feed");
    assert_eq!(finish_message("m".to_string()), "m\r\n");
}

#[test]
fn file_names_of_media() {
    assert_eq!(media_filename("https://m.example/files/pic.png"), "pic.png");
    assert_eq!(media_filename("pic.png"), "pic.png");
    assert_eq!(media_filename("https://m.example/"), "");
    assert_eq!(media_filename(""), "");
}

#[test]
fn media_modes() {
    assert_eq!(media_mode(false, false), MediaMode::Link);
    assert_eq!(media_mode(true, false), MediaMode::Attachment);
    assert_eq!(media_mode(false, true), MediaMode::Inline);
    assert_eq!(media_mode(true, true), MediaMode::Attachment);
}

#[test]
fn crlf_agrees_with_std() {
    for s in ["", "\n", "a\nb", "a\r\nb", "\r", "é\n\nü\n"] {
        assert_eq!(to_crlf(s), s.replace('\n', "\r\n"), "{:?}", s);
    }
}

#[test]
fn a_message_from_body_and_time() {
    let written = mop3::render::write_message(&post(), &me(), "b", LINK, "body text\r\n", 86400, &vec![])
        .unwrap();
    assert_eq!(
        written,
        "From: \"A\" <a@b>\r\nTo: \"Me\" <me@b>\r\nSubject: Post\r\n\
         Date: Fri, 2 Jan 1970 00:00:00 +0000\r\nMessage-ID: <42@b>\r\nMIME-Version: 1.0\r\n\
         Content-Type: text/plain; charset=\"utf-8\"\r\nContent-Transfer-Encoding: 7bit\r\n\r\n\
         body text\r\n"
    );
}

#[test]
fn content_that_is_too_deep_to_render_is_refused() {
    let mut p = post();
    p.content = format!("{}x{}", "<blockquote>".repeat(60), "</blockquote>".repeat(60));
    assert_eq!(render_post(&p, &me(), "b", LINK, &vec![]).unwrap_err(), RenderError::Html);
    let kept = render_post(&p, &me(), "b", RenderOptions { html: true, media: MediaMode::Link }, &vec![]);
    assert!(kept.unwrap().contains("<blockquote>"));
}

#[test]
fn a_filled_builder() {
    let mut p = post();
    p.in_reply_to_id = Some("40".to_string());
    let options = RenderOptions { html: false, media: MediaMode::Attachment };
    let b = mop3::render::message_builder(&p, &me(), "b", options, "body\r\n", 0, &picture());
    assert_eq!(b.headers.len(), 6);
    let names: Vec<&str> = b.headers.iter().map(|(name, _)| name.as_ref()).collect();
    assert_eq!(names, vec!["From", "To", "Subject", "Date", "Message-ID", "In-Reply-To"]);
    assert!(b.text_body.is_some());
    assert!(b.html_body.is_none());
    assert!(b.body.is_none());
    assert_eq!(b.attachments.as_ref().map(|a| a.len()), Some(1));
    let text = b.write_to_string().unwrap();
    assert!(text.contains("\r\nIn-Reply-To: <40@b>\r\n"));
    assert!(text.contains("Content-Disposition: attachment; filename=\"pic.png\""));
    let b = mop3::render::message_builder(&post(), &me(), "b", options, "body\r\n", 0, &vec![]);
    assert_eq!(b.headers.len(), 5);
    assert!(b.attachments.is_none());
    let link = RenderOptions { html: true, media: MediaMode::Link };
    let b = mop3::render::message_builder(&post(), &me(), "b", link, "<p>x</p>", 0, &picture());
    assert!(b.attachments.is_none());
    assert!(b.text_body.is_none());
    assert!(b.html_body.is_some());
}

#[test]
fn without_media_no_mime_parts_are_written() {
    for media in [MediaMode::Attachment, MediaMode::Inline] {
        let options = RenderOptions { html: false, media };
        assert_eq!(
            render_post(&post(), &me(), "b", options, &vec![]).unwrap(),
            render_post(&post(), &me(), "b", LINK, &vec![]).unwrap()
        );
    }
}

#[test]
fn numbers_that_the_renderer_would_add_up_are_refused() {
    let refused = [
        "<ol start=\"9223372036854775807\"><li>x</li></ol>",
        "<ol START = '-9223372036854775808'><li>x</li></ol>",
        "<ol start=&#57;223372036854775807><li>x</li></ol>",
        "<ol start=3><li>1234567890</li></ol>",
        "<table><tr><td colspan=\"18446744073709551615\">a</td><td colspan=2>b</td></tr></table>",
        "<td ColSpan\t=2>",
        "colspan=",
    ];
    for content in refused {
        assert!(!mop3::render::check_renderable(content), "{:?}", content);
        let mut p = post();
        p.content = content.to_string();
        assert_eq!(render_post(&p, &me(), "b", LINK, &vec![]).unwrap_err(), RenderError::Html);
        let html = RenderOptions { html: true, media: MediaMode::Link };
        assert!(render_post(&p, &me(), "b", html, &vec![]).is_ok());
    }
}

#[test]
fn ordinary_content_is_rendered() {
    let taken = [
        "",
        "<p>hi</p>",
        "<p>see <a href=\"https://b/@a/109876543212345678?x=1&amp;y=2\">109876543212345678</a></p>",
        "<p>let us start with colspan and 12345678901234567890 &amp; more</p>",
        "<ol start=\"3\"><li>three</li><li>four</li></ol>",
        "<ol start=\"999999999\"><li>x</li></ol>",
        "<ol start><li>x</li></ol>",
        "start =",
    ];
    for content in taken {
        assert!(mop3::render::check_renderable(content), "{:?}", content);
        let mut p = post();
        p.content = content.to_string();
        assert!(render_post(&p, &me(), "b", LINK, &vec![]).is_ok(), "{:?}", content);
    }
    let mut p = post();
    p.content = "<ol start=\"3\"><li>three</li><li>four</li></ol>".to_string();
    let m = render_post(&p, &me(), "b", LINK, &vec![]).unwrap();
    assert!(m.contains("3. three\r\n4. four\r\n"), "{:?}", m);
}

use mop3::post::PostKind;
use mop3::render::{render_post, MediaMode, Recipient, RenderOptions};
use mop3::submit::{
    add_media_id, draft_from_mail, draft_from_message, draft_from_search, find_quote,
    finish_status, media_id, parse_mail, reference_of, reply_id, status_from_body,
    submission_url, wants_quote_search, Draft, MailHeader, MailPart, ParsedMail, Search,
    SubmitError,
};

fn mail(text: &str) -> ParsedMail {
    ParsedMail {
        in_reply_to: MailHeader::Absent,
        references: MailHeader::Absent,
        text_body: Some(text.to_string()),
        attachments: vec![],
    }
}

fn entries(list: &[&str]) -> MailHeader {
    MailHeader::Entries(list.iter().map(|s| s.to_string()).collect())
}

fn image(name: Option<&str>, subtype: Option<&str>) -> MailPart {
    MailPart {
        is_message: false,
        content_type: Some(("image".to_string(), subtype.map(|s| s.to_string()))),
        name: name.map(|s| s.to_string()),
        data: vec![9, 8, 7],
    }
}

fn ids(n: usize) -> Vec<String> {
    (1..=n).map(|i| format!("m{}", i)).collect()
}

fn five_pictures() -> String {
    let mut m = String::from(
        "From: a@b\r\nTo: a@b\r\nSubject: pics\r\nMIME-Version: 1.0\r\n\
         Content-Type: multipart/mixed; boundary=\"XX\"\r\n\r\n\
         --XX\r\nContent-Type: text/plain; charset=utf-8\r\n\r\nlook\r\n",
    );
    for i in 1..=5 {
        m.push_str(&format!(
            "--XX\r\nContent-Type: image/png\r\n\
             Content-Disposition: attachment; filename=\"p{}.png\"\r\n\
             Content-Transfer-Encoding: base64\r\n\r\nAQID\r\n",
            i
        ));
    }
    m.push_str("--XX--\r\n");
    m
}

#[test]
fn smtp_quoted_reply_trimming() {
    let d = draft_from_message(
        "From: a@b\r\nTo: a@b\r\nIn-Reply-To: <42@b>\r\n\r\nsure\r\n\r\nOn Mon, Jan 1, A wrote:\r\n> prior",
    )
    .unwrap();
    assert_eq!(d.status, "sure");
    assert_eq!(d.in_reply_to_id, Some("42".to_string()));
}

#[test]
fn a_quote_is_kept_where_the_message_is_no_reply() {
    let d = draft_from_message(
        "From: a@b\r\nTo: a@b\r\n\r\nsure\r\n\r\nOn Mon, Jan 1, A wrote:\r\n> prior",
    )
    .unwrap();
    assert_eq!(d.status, "sure\r\n\r\nOn Mon, Jan 1, A wrote:\r\n> prior");
    assert_eq!(d.in_reply_to_id, None);
}

#[test]
fn a_reply_without_a_quote_is_unchanged() {
    let d = draft_from_message("From: a@b\r\nIn-Reply-To: <42@b>\r\n\r\nno quote here\r\nat all")
        .unwrap();
    assert_eq!(d.status, "no quote here\r\nat all");
    let d = draft_from_message("From: a@b\r\nIn-Reply-To: <42@b>\r\n\r\n").unwrap_or(Draft {
        status: String::new(),
        in_reply_to_id: None,
        uploads: vec![],
    });
    assert_eq!(d.status, "");
}

#[test]
fn smtp_attachment_cap() {
    let d = draft_from_message(&five_pictures()).unwrap();
    assert_eq!(d.status, "look");
    assert_eq!(d.uploads.len(), 5);
    for (i, u) in d.uploads.iter().enumerate() {
        assert_eq!(u.mime, "image/png");
        assert_eq!(u.filename, format!("p{}.png", i + 1));
        assert_eq!(u.data, vec![1, 2, 3]);
    }
    let s = finish_status(d, ids(5));
    assert_eq!(s.media_ids.len(), 4);
    assert_eq!(s.media_ids, ids(4));
    assert_eq!(s.status, "look");
}

#[test]
fn at_most_four_media() {
    for n in 0..=4 {
        let d = draft_from_mail(&mail("x"), None).unwrap();
        assert_eq!(finish_status(d, ids(n)).media_ids, ids(n));
    }
    for n in [5, 6, 40] {
        let d = draft_from_mail(&mail("x"), None).unwrap();
        assert_eq!(finish_status(d, ids(n)).media_ids, ids(4));
    }
}

#[test]
fn references_stand_in_for_in_reply_to() {
    let d = draft_from_message("From: a@b\r\nReferences: <1@b> <2@b>\r\n\r\nhi").unwrap();
    assert_eq!(d.in_reply_to_id, Some("1".to_string()));
    let d = draft_from_message(
        "From: a@b\r\nReferences: <1@b> <2@b>\r\nIn-Reply-To: <3@b>\r\n\r\nhi",
    )
    .unwrap();
    assert_eq!(d.in_reply_to_id, Some("3".to_string()));
    let mut m = mail("hi");
    m.references = entries(&["9@b", "8@b"]);
    assert_eq!(draft_from_mail(&m, None).unwrap().in_reply_to_id, Some("9".to_string()));
    m.in_reply_to = entries(&["7@b"]);
    assert_eq!(draft_from_mail(&m, None).unwrap().in_reply_to_id, Some("7".to_string()));
}

#[test]
fn messages_that_give_no_status() {
    assert_eq!(draft_from_message("").unwrap_err(), SubmitError::Parse);
    let mut m = mail("hi");
    m.text_body = None;
    assert_eq!(draft_from_mail(&m, None).unwrap_err(), SubmitError::NoText);
    let mut m = mail("hi");
    m.in_reply_to = MailHeader::Other;
    assert_eq!(draft_from_mail(&m, None).unwrap_err(), SubmitError::BadReference);
    m.in_reply_to = entries(&[]);
    assert_eq!(draft_from_mail(&m, None).unwrap_err(), SubmitError::BadReference);
    m.in_reply_to = MailHeader::Absent;
    m.references = MailHeader::Other;
    assert_eq!(draft_from_mail(&m, None).unwrap_err(), SubmitError::BadReference);
    let mut m = mail("hi");
    m.attachments = vec![
        image(None, None),
        MailPart { is_message: false, content_type: None, name: None, data: vec![] },
    ];
    assert_eq!(draft_from_mail(&m, None).unwrap_err(), SubmitError::AttachmentType);
    m.text_body = None;
    m.in_reply_to = MailHeader::Other;
    assert_eq!(draft_from_mail(&m, None).unwrap_err(), SubmitError::NoText);
}

#[test]
fn uploads_of_attachments() {
    let mut m = mail("hi");
    m.attachments = vec![
        image(Some("a.png"), Some("png")),
        MailPart { is_message: true, content_type: None, name: None, data: vec![1] },
        image(None, None),
    ];
    let d = draft_from_mail(&m, None).unwrap();
    assert_eq!(d.uploads.len(), 2);
    assert_eq!((d.uploads[0].mime.as_str(), d.uploads[0].filename.as_str()), ("image/png", "a.png"));
    assert_eq!((d.uploads[1].mime.as_str(), d.uploads[1].filename.as_str()), ("image/JPG", "Untitled.jpg"));
    assert_eq!(d.uploads[1].data, vec![9, 8, 7]);
}

#[test]
fn post_ids_of_message_ids() {
    assert_eq!(reply_id("42@b"), Some("42".to_string()));
    assert_eq!(reply_id("42"), Some("42".to_string()));
    assert_eq!(reply_id("a@b@c"), Some("a@b".to_string()));
    assert_eq!(reply_id("@b"), None);
    assert_eq!(reply_id("@"), None);
    assert_eq!(reply_id(""), None);
    assert_eq!(reply_id("42@"), Some("42".to_string()));
}

#[test]
fn status_texts() {
    assert_eq!(status_from_body("héllo  \r\n\t", false, None), "héllo");
    assert_eq!(status_from_body("  lead stays", false, None), "  lead stays");
    assert_eq!(status_from_body("ab\u{FFFC}c \u{FFFC}\u{00A0}", false, None), "abc");
    assert_eq!(status_from_body("", true, Some(0)), "");
    assert_eq!(status_from_body(" \n ", true, None), "");
    assert_eq!(status_from_body("abcdef", true, Some(2)), "ab");
    assert_eq!(status_from_body("abcdef", false, Some(2)), "abcdef");
    assert_eq!(status_from_body("abcdef", true, None), "abcdef");
    assert_eq!(status_from_body("abcdef", true, Some(0)), "");
    assert_eq!(status_from_body("abcdef", true, Some(6)), "abcdef");
    assert_eq!(status_from_body("abcdef", true, Some(7)), "abcdef");
    assert_eq!(status_from_body("é rest", true, Some(1)), "é rest");
    assert_eq!(status_from_body("é rest", true, Some(2)), "é");
    assert_eq!(status_from_body("é rest", true, Some(3)), "é");
}

#[test]
fn ids_of_uploaded_media() {
    assert_eq!(media_id("{\"id\":\"7\",\"type\":\"image\"}"), Some("7".to_string()));
    assert_eq!(media_id("{\"id\":7}"), Some(String::new()));
    assert_eq!(media_id("{}"), Some(String::new()));
    assert_eq!(media_id("[]"), Some(String::new()));
    assert_eq!(media_id("not json"), None);
    assert_eq!(media_id(""), None);
}

#[test]
fn where_a_message_is_posted() {
    assert_eq!(submission_url(None, "a@b.example"), "https://b.example");
    assert_eq!(submission_url(Some("x@inst.org"), "a@b.example"), "https://inst.org");
    assert_eq!(submission_url(Some("https://inst.org"), ""), "https://inst.org");
}

#[test]
fn a_reply_to_a_rendered_post_names_the_post() {
    let post = mop3::post::Post {
        id: "109".to_string(),
        created_at: "2024-01-02T03:04:05.000Z".to_string(),
        in_reply_to_id: None,
        display_name: "A".to_string(),
        acct: "a@b.example".to_string(),
        kind: PostKind::Original,
        content: "<p>hi</p>".to_string(),
        media_urls: vec![],
    };
    let me = Recipient { display_name: "Me".to_string(), addr: "me@b.example".to_string() };
    let rendered = render_post(
        &post,
        &me,
        "b.example",
        RenderOptions { html: false, media: MediaMode::Link },
        &vec![],
    )
    .unwrap();
    let header = rendered.lines().find(|l| l.starts_with("Message-ID: ")).unwrap();
    let reply = format!(
        "From: me@b.example\r\nTo: a@b.example\r\nIn-Reply-To: {}\r\n\r\nthanks\r\n",
        &header["Message-ID: ".len()..]
    );
    let d = draft_from_message(&reply).unwrap();
    assert_eq!(d.in_reply_to_id, Some("109".to_string()));
    assert_eq!(d.status, "thanks");
}

#[test]
fn status_texts_agree_with_std() {
    for body in ["", " ", "a \u{FFFC}b\u{2003}\r\n", "\u{FFFC}", "x\u{200B}", "é\u{00A0}", "tab\t\u{FFFC}\u{FFFC} "] {
        let expected = body.replace('\u{FFFC}', "").trim_end().to_string();
        assert_eq!(status_from_body(body, false, None), expected, "{:?}", body);
    }
}

#[test]
fn a_cut_agrees_with_split_at() {
    let body = "héllo wörld";
    for n in 0..=body.len() {
        let expected = if body.is_char_boundary(n) { body.split_at(n).0 } else { body };
        assert_eq!(status_from_body(body, true, Some(n)), expected.trim_end(), "{}", n);
    }
}

#[test]
fn what_is_read_of_a_message() {
    let m = parse_mail(five_pictures().as_bytes()).unwrap();
    assert!(matches!(m.in_reply_to, MailHeader::Absent));
    assert!(matches!(m.references, MailHeader::Absent));
    assert_eq!(m.text_body.as_deref(), Some("look"));
    assert_eq!(m.attachments.len(), 5);
    let part = &m.attachments[4];
    assert!(!part.is_message);
    assert_eq!(part.content_type, Some(("image".to_string(), Some("png".to_string()))));
    assert_eq!(part.name.as_deref(), Some("p5.png"));
    assert_eq!(part.data, vec![1, 2, 3]);
    let m = parse_mail(b"In-Reply-To: <1@b>\r\nReferences: <2@b> <3@b>\r\n\r\nhi").unwrap();
    assert!(matches!(&m.in_reply_to, MailHeader::Entries(l) if *l == vec!["1@b".to_string()]));
    assert!(matches!(&m.references, MailHeader::Entries(l) if *l == vec!["2@b".to_string(), "3@b".to_string()]));
    assert_eq!(m.text_body.as_deref(), Some("hi"));
    assert!(m.attachments.is_empty());
    assert!(parse_mail(b"").is_none());
}

#[test]
fn a_forwarded_message_is_not_uploaded() {
    let raw = "From: a@b\r\nMIME-Version: 1.0\r\nContent-Type: multipart/mixed; boundary=\"XX\"\r\n\r\n\
               --XX\r\nContent-Type: text/plain\r\n\r\nsee below\r\n\
               --XX\r\nContent-Type: message/rfc822\r\n\r\nFrom: c@d\r\nSubject: inner\r\n\r\ninner text\r\n\
               --XX\r\nContent-Type: image/gif\r\n\r\nGIF89a\r\n--XX--\r\n";
    let m = parse_mail(raw.as_bytes()).unwrap();
    assert_eq!(m.attachments.len(), 2);
    assert!(m.attachments[0].is_message);
    let d = draft_from_message(raw).unwrap();
    assert_eq!(d.status, "see below");
    assert_eq!(d.uploads.len(), 1);
    assert_eq!(d.uploads[0].mime, "image/gif");
    assert_eq!(d.uploads[0].filename, "Untitled.jpg");
}

#[test]
fn where_a_quote_starts() {
    assert_eq!(find_quote("sure\r\n\r\nOn Mon, Jan 1, A wrote:\r\n> prior"), Search::At(4));
    assert_eq!(find_quote("On Mon, Jan 1, A wrote:"), Search::At(0));
    assert_eq!(find_quote("no quote here"), Search::NoMatch);
    assert_eq!(find_quote(""), Search::NoMatch);
}

#[test]
fn a_failed_search_gives_no_status() {
    let mut m = mail("sure\r\n\r\nOn Mon, Jan 1, A wrote:\r\n> prior");
    assert!(!wants_quote_search(&m));
    assert_eq!(reference_of(&m).unwrap(), "");
    assert_eq!(draft_from_search(&m, Search::Failed).unwrap().status, m.text_body.clone().unwrap());
    assert_eq!(draft_from_search(&m, Search::At(4)).unwrap().status, m.text_body.clone().unwrap());
    m.in_reply_to = entries(&["42@b"]);
    assert!(wants_quote_search(&m));
    assert_eq!(reference_of(&m).unwrap(), "42@b");
    assert_eq!(draft_from_search(&m, Search::Failed).unwrap_err(), SubmitError::Search);
    assert_eq!(draft_from_search(&m, Search::At(4)).unwrap().status, "sure");
    assert_eq!(draft_from_search(&m, Search::NoMatch).unwrap().status, m.text_body.clone().unwrap());
    m.attachments = vec![MailPart { is_message: false, content_type: None, name: None, data: vec![] }];
    assert_eq!(draft_from_search(&m, Search::Failed).unwrap_err(), SubmitError::Search);
    assert_eq!(draft_from_search(&m, Search::NoMatch).unwrap_err(), SubmitError::AttachmentType);
    m.text_body = None;
    assert!(!wants_quote_search(&m));
    assert_eq!(draft_from_search(&m, Search::Failed).unwrap_err(), SubmitError::NoText);
    let mut m = mail("hi");
    m.in_reply_to = MailHeader::Other;
    assert!(!wants_quote_search(&m));
    assert_eq!(reference_of(&m).unwrap_err(), SubmitError::BadReference);
    assert_eq!(draft_from_search(&m, Search::Failed).unwrap_err(), SubmitError::BadReference);
}

#[test]
fn ids_are_collected_until_an_upload_fails() {
    let ids = add_media_id(vec![], Some("{\"id\":\"7\"}")).unwrap();
    assert_eq!(ids, vec!["7".to_string()]);
    let ids = add_media_id(ids, Some("{\"id\":\"8\",\"type\":\"image\"}")).unwrap();
    assert_eq!(ids, vec!["7".to_string(), "8".to_string()]);
    let ids = add_media_id(ids, Some("{}")).unwrap();
    assert_eq!(ids, vec!["7".to_string(), "8".to_string(), String::new()]);
    assert_eq!(add_media_id(ids.clone(), Some("<html>")), None);
    assert_eq!(add_media_id(ids, None), None);
}

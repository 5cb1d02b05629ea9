//! Posts of the home timeline, and how they are read from the upstream's
//! JSON answer.

use vstd::prelude::*;
use vstd::string::*;
use vstd::utf8::is_ascii_chars;
use crate::json::{
    json_model, json_models, json_of, member, parse_value, text_at, text_in, text_of,
    value_is_null, value_items, value_member, JsonModel,
};
use crate::text::texts;

verus! {

/// Whether a post is the author's own or a boost of another post.
#[derive(Clone, Copy, Debug, PartialEq, Eq, Structural)]
pub enum PostKind {
    Original,
    Boost,
}

/// A post as the gateway reads it. For a boost, `content` and
/// `media_urls` are those of the boosted post.
#[derive(Debug)]
pub struct Post {
    pub id: String,
    pub created_at: String,
    pub in_reply_to_id: Option<String>,
    pub display_name: String,
    pub acct: String,
    pub kind: PostKind,
    pub content: String,
    pub media_urls: Vec<String>,
}

/// A post, as mathematical values.
pub struct PostView {
    pub id: Seq<char>,
    pub created_at: Seq<char>,
    pub in_reply_to_id: Option<Seq<char>>,
    pub display_name: Seq<char>,
    pub acct: Seq<char>,
    pub kind: PostKind,
    pub content: Seq<char>,
    pub media_urls: Seq<Seq<char>>,
}

impl View for Post {
    type V = PostView;

    open spec fn view(&self) -> PostView {
        PostView {
            id: self.id@,
            created_at: self.created_at@,
            in_reply_to_id: match self.in_reply_to_id {
                Some(s) => Some(s@),
                None => None,
            },
            display_name: self.display_name@,
            acct: self.acct@,
            kind: self.kind,
            content: self.content@,
            media_urls: texts(self.media_urls@),
        }
    }
}

/// The views of a sequence of posts, in order.
pub open spec fn post_views(posts: Seq<Post>) -> Seq<PostView> {
    Seq::new(posts.len(), |i: int| posts[i]@)
}

/// Why an upstream answer gives no timeline.
#[derive(Clone, Copy, Debug, PartialEq, Eq, Structural)]
pub enum TimelineError {
    /// The answer is no JSON document.
    Malformed,
    /// The document is no list.
    NotAList,
    /// The media attachments of a post are no list.
    NoMediaList,
}

/// The record that a post's content is taken from: the boosted post where
/// there is one, else the post itself.
pub open spec fn source_of(j: JsonModel) -> JsonModel {
    if member(j, "reblog"@) is Null {
        j
    } else {
        member(j, "reblog"@)
    }
}

/// The URLs of a list of media attachments; empty for one without a URL.
pub open spec fn media_urls_of(media: Seq<JsonModel>) -> Seq<Seq<char>> {
    Seq::new(media.len(), |i: int| text_of(member(media[i], "url"@)))
}

/// The media URLs of a source record: those of its list of media
/// attachments, none where it has no such member or `null` for it, and
/// `None` where the member is something else than a list.
pub open spec fn media_of(src: JsonModel) -> Option<Seq<Seq<char>>> {
    match member(src, "media_attachments"@) {
        JsonModel::Array(items) => Some(media_urls_of(items)),
        JsonModel::Null => Some(Seq::empty()),
        _ => None,
    }
}

/// The post that a JSON record holds. A member that is missing or no
/// string reads as the empty text. `None` where the media attachments of
/// the source record are no list.
pub open spec fn post_of(j: JsonModel) -> Option<PostView> {
    let src = source_of(j);
    match media_of(src) {
        Some(media_urls) => Some(
            PostView {
                id: text_of(member(j, "id"@)),
                created_at: text_of(member(j, "created_at"@)),
                in_reply_to_id: if member(j, "in_reply_to_id"@) is Null {
                    None
                } else {
                    Some(text_of(member(j, "in_reply_to_id"@)))
                },
                display_name: text_of(member(member(j, "account"@), "display_name"@)),
                acct: text_of(member(member(j, "account"@), "acct"@)),
                kind: if member(j, "reblog"@) is Null {
                    PostKind::Original
                } else {
                    PostKind::Boost
                },
                content: text_of(member(src, "content"@)),
                media_urls,
            },
        ),
        None => None,
    }
}

/// The timeline that a JSON document holds, newest post first.
pub open spec fn timeline_of(j: JsonModel) -> Result<Seq<PostView>, TimelineError> {
    match j {
        JsonModel::Array(items) => if forall|i: int|
            0 <= i < items.len() ==> (#[trigger] post_of(items[i])) is Some {
            Ok(Seq::new(items.len(), |i: int| post_of(items[i])->0))
        } else {
            Err(TimelineError::NoMediaList)
        },
        _ => Err(TimelineError::NotAList),
    }
}

/// The timeline that an upstream answer holds.
pub open spec fn timeline_of_text(text: Seq<char>) -> Result<Seq<PostView>, TimelineError> {
    match json_of(text) {
        Some(j) => timeline_of(j),
        None => Err(TimelineError::Malformed),
    }
}

fn media_from(src: &serde_json::Value) -> (r: Option<Vec<String>>)
    ensures
        match r {
            Some(urls) => media_of(json_model(*src)) == Some(texts(urls@)),
            None => media_of(json_model(*src)) is None,
        },
{
    let media = value_member(src, "media_attachments");
    match value_items(media) {
        Some(items) => {
            let ghost all = media_urls_of(json_models(items@));
            let mut media_urls: Vec<String> = Vec::new();
            let mut i: usize = 0;
            assert(texts(media_urls@) =~= all.take(0));
            while i < items.len()
                invariant
                    i <= items.len(),
                    all == media_urls_of(json_models(items@)),
                    texts(media_urls@) == all.take(i as int),
                decreases items.len() - i,
            {
                let url = text_at(&items[i], "url");
                let ghost before = texts(media_urls@);
                media_urls.push(url);
                assert(texts(media_urls@) =~= before.push(url@));
                assert(texts(media_urls@) =~= all.take(i + 1));
                i = i + 1;
            }
            assert(all.take(items.len() as int) =~= all);
            Some(media_urls)
        },
        None => {
            if value_is_null(media) {
                let media_urls: Vec<String> = Vec::new();
                assert(texts(media_urls@) =~= Seq::<Seq<char>>::empty());
                Some(media_urls)
            } else {
                None
            }
        },
    }
}

/// Reads one post from its record.
pub fn post_from_value(v: &serde_json::Value) -> (r: Option<Post>)
    ensures
        match r {
            Some(p) => post_of(json_model(*v)) == Some(p@),
            None => post_of(json_model(*v)) is None,
        },
{
    let boosted = value_member(v, "reblog");
    let (src, kind) = if value_is_null(boosted) {
        (v, PostKind::Original)
    } else {
        (boosted, PostKind::Boost)
    };
    let media_urls = match media_from(src) {
        Some(urls) => urls,
        None => {
            return None;
        },
    };
    let parent = value_member(v, "in_reply_to_id");
    let in_reply_to_id = if value_is_null(parent) {
        None
    } else {
        Some(text_in(parent))
    };
    let account = value_member(v, "account");
    Some(
        Post {
            id: text_at(v, "id"),
            created_at: text_at(v, "created_at"),
            in_reply_to_id,
            display_name: text_at(account, "display_name"),
            acct: text_at(account, "acct"),
            kind,
            content: text_at(src, "content"),
            media_urls,
        },
    )
}

/// Reads a timeline from a parsed answer.
pub fn timeline_from_value(v: &serde_json::Value) -> (r: Result<Vec<Post>, TimelineError>)
    ensures
        match r {
            Ok(posts) => timeline_of(json_model(*v)) == Ok::<Seq<PostView>, TimelineError>(
                post_views(posts@),
            ),
            Err(e) => timeline_of(json_model(*v)) == Err::<Seq<PostView>, TimelineError>(e),
        },
{
    match value_items(v) {
        Some(items) => {
            let ghost models = json_models(items@);
            let mut posts: Vec<Post> = Vec::new();
            let mut i: usize = 0;
            while i < items.len()
                invariant
                    i <= items.len(),
                    posts.len() == i,
                    models == json_models(items@),
                    json_model(*v) == JsonModel::Array(models),
                    forall|k: int| 0 <= k < i ==> (#[trigger] post_of(models[k])) == Some(posts@[k]@),
                decreases items.len() - i,
            {
                match post_from_value(&items[i]) {
                    Some(p) => {
                        posts.push(p);
                    },
                    None => {
                        assert(post_of(models[i as int]) is None);
                        return Err(TimelineError::NoMediaList);
                    },
                }
                i = i + 1;
            }
            assert(post_views(posts@) =~= Seq::new(models.len(), |i: int| post_of(models[i])->0));
            Ok(posts)
        },
        None => Err(TimelineError::NotAList),
    }
}

/// Reads a timeline from the text of an upstream answer.
pub fn timeline_from_text(text: &str) -> (r: Result<Vec<Post>, TimelineError>)
    ensures
        match r {
            Ok(posts) => timeline_of_text(text@) == Ok::<Seq<PostView>, TimelineError>(
                post_views(posts@),
            ),
            Err(e) => timeline_of_text(text@) == Err::<Seq<PostView>, TimelineError>(e),
        },
{
    match parse_value(text) {
        Some(v) => timeline_from_value(&v),
        None => Err(TimelineError::Malformed),
    }
}

/// What `deunicode::deunicode` makes of a text.
pub uninterp spec fn ascii_folded(text: Seq<char>) -> Seq<char>;

/// Whether every character of a text is below U+007F.
pub open spec fn is_below_delete(text: Seq<char>) -> bool {
    forall|i: int| 0 <= i < text.len() ==> (#[trigger] text[i] as u32) < 0x7f
}

/// `deunicode::deunicode`: an ASCII transliteration of the text. Trusted:
/// the result is a function of the text alone, holds ASCII only, and is
/// the text itself where every character of it is below U+007F.
#[verifier::external_body]
fn fold_ascii(text: &str) -> (r: String)
    ensures
        r@ == ascii_folded(text@),
        is_ascii_chars(r@),
        is_below_delete(text@) ==> r@ == text@,
{
    deunicode::deunicode(text)
}

/// The answer as the gateway reads it: folded to ASCII where that is
/// asked for, else as it came.
pub open spec fn answer_text(raw: Seq<char>, ascii: bool) -> Seq<char> {
    if ascii {
        ascii_folded(raw)
    } else {
        raw
    }
}

/// Prepares the text of an upstream answer for reading.
pub fn prepare_answer(raw: String, ascii: bool) -> (r: String)
    ensures
        r@ == answer_text(raw@, ascii),
        ascii ==> is_ascii_chars(r@),
{
    if ascii {
        fold_ascii(raw.as_str())
    } else {
        raw
    }
}

} // verus!

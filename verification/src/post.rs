//! The post model that the backup logic reads: a post, its reblog trail and its
//! content blocks, holding as plain values what the renderers and the image
//! handling look at.
use vstd::prelude::*;

verus! {

/// A media file attached to a content block.
#[derive(Debug)]
pub struct MediaObject {
    pub url: String,
    pub media_type: Option<String>,
    pub width: Option<u32>,
    pub height: Option<u32>,
    pub has_original_dimensions: Option<bool>,
}

/// One answer of a poll.
#[derive(Debug)]
pub struct PollAnswer {
    pub client_id: String,
    pub answer_text: String,
}

/// The voting rules of a poll.
#[derive(Debug)]
pub struct PollSettings {
    pub multiple_choice: bool,
    pub close_status: Option<String>,
    pub expire_after: Option<u64>,
    pub source: Option<String>,
}

/// A block of post content.
#[allow(inconsistent_fields)]
#[derive(Debug)]
pub enum ContentBlock {
    Text { text: String, subtype: Option<String> },
    Image { media: Vec<MediaObject>, alt_text: Option<String>, caption: Option<String> },
    Video {
        media: Option<Vec<MediaObject>>,
        url: Option<String>,
        provider: Option<String>,
        embed_html: Option<String>,
        /// Whole part of the duration.
        duration: Option<i64>,
    },
    Audio {
        media: Option<MediaObject>,
        url: Option<String>,
        provider: Option<String>,
        artist: Option<String>,
        album: Option<String>,
        title: Option<String>,
        embed_html: Option<String>,
    },
    Link { url: String, title: Option<String>, description: Option<String> },
    Paywall { text: Option<String> },
    Poll {
        client_id: String,
        question: String,
        answers: Vec<PollAnswer>,
        settings: Option<PollSettings>,
        created_at: Option<String>,
        timestamp: Option<i64>,
    },
    Unknown,
}

/// The blog of a trail item.
#[derive(Debug)]
pub struct TrailBlog {
    pub name: Option<String>,
    pub url: Option<String>,
    pub uuid: Option<String>,
}

/// The post of a trail item.
#[derive(Debug)]
pub struct TrailPost {
    pub id: Option<String>,
}

/// One entry of a reblog trail.
#[derive(Debug)]
pub struct TrailItem {
    pub content: Vec<ContentBlock>,
    pub blog: Option<TrailBlog>,
    pub post: Option<TrailPost>,
    pub is_root_item: bool,
}

/// A Tumblr post.
#[derive(Debug)]
pub struct Post {
    pub id: String,
    pub blog_name: String,
    pub post_url: String,
    pub post_type: String,
    pub original_type: Option<String>,
    pub timestamp: i64,
    pub date: Option<String>,
    pub content: Vec<ContentBlock>,
    pub trail: Vec<TrailItem>,
    pub tags: Vec<String>,
    pub summary: Option<String>,
    pub note_count: u64,
    pub slug: Option<String>,
    pub short_url: Option<String>,
    pub reblog_key: String,
    pub state: Option<String>,
    pub reblogged_from_name: Option<String>,
    pub reblogged_from_url: Option<String>,
    pub reblogged_root_name: Option<String>,
    pub reblogged_root_url: Option<String>,
    pub liked: bool,
    pub followed: bool,
}

impl MediaObject {
    /// A field-for-field copy.
    pub fn duplicate(&self) -> (res: MediaObject)
        ensures
            res == *self,
    {
        MediaObject {
            url: self.url.clone(),
            media_type: copy_opt_string(&self.media_type),
            width: self.width,
            height: self.height,
            has_original_dimensions: self.has_original_dimensions,
        }
    }
}

/// Two optional media lists hold the same media.
pub open spec fn same_media_list(a: Option<Vec<MediaObject>>, b: Option<Vec<MediaObject>>) -> bool {
    match (a, b) {
        (None, None) => true,
        (Some(x), Some(y)) => x@ == y@,
        _ => false,
    }
}

/// Two content blocks hold the same values.
pub open spec fn same_block(a: ContentBlock, b: ContentBlock) -> bool {
    match a {
        ContentBlock::Image { media, alt_text, caption } => b matches ContentBlock::Image {
            media: m2,
            alt_text: a2,
            caption: c2,
        } && m2@ == media@ && a2 == alt_text && c2 == caption,
        ContentBlock::Video { media, url, provider, embed_html, duration } => b matches ContentBlock::Video {
            media: m2,
            url: u2,
            provider: p2,
            embed_html: e2,
            duration: d2,
        } && same_media_list(media, m2) && u2 == url && p2 == provider && e2 == embed_html && d2
            == duration,
        ContentBlock::Poll { client_id, question, answers, settings, created_at, timestamp } => b matches ContentBlock::Poll {
            client_id: i2,
            question: q2,
            answers: a2,
            settings: s2,
            created_at: c2,
            timestamp: t2,
        } && i2 == client_id && q2 == question && a2@ == answers@ && s2 == settings && c2
            == created_at && t2 == timestamp,
        _ => b == a,
    }
}

/// A copy of an optional string.
pub fn copy_opt_string(s: &Option<String>) -> (res: Option<String>)
    ensures
        res == *s,
{
    match s {
        Some(x) => Some(x.clone()),
        None => None,
    }
}

/// A copy of a list of strings.
pub fn copy_strings(v: &Vec<String>) -> (res: Vec<String>)
    ensures
        res@ == v@,
{
    let mut res: Vec<String> = Vec::new();
    for i in 0..v.len()
        invariant
            res@ == v@.take(i as int),
    {
        res.push(v[i].clone());
    }
    assert(v@.take(v@.len() as int) == v@);
    res
}

/// A copy of a list of media objects.
pub fn copy_media(v: &Vec<MediaObject>) -> (res: Vec<MediaObject>)
    ensures
        res@ == v@,
{
    let mut res: Vec<MediaObject> = Vec::new();
    for i in 0..v.len()
        invariant
            res@ == v@.take(i as int),
    {
        res.push(v[i].duplicate());
    }
    assert(v@.take(v@.len() as int) == v@);
    res
}

impl PollAnswer {
    /// A field-for-field copy.
    pub fn duplicate(&self) -> (res: PollAnswer)
        ensures
            res == *self,
    {
        PollAnswer { client_id: self.client_id.clone(), answer_text: self.answer_text.clone() }
    }
}

impl PollSettings {
    /// A field-for-field copy.
    pub fn duplicate(&self) -> (res: PollSettings)
        ensures
            res == *self,
    {
        PollSettings {
            multiple_choice: self.multiple_choice,
            close_status: copy_opt_string(&self.close_status),
            expire_after: self.expire_after,
            source: copy_opt_string(&self.source),
        }
    }
}

impl ContentBlock {
    /// A copy of the block.
    pub fn duplicate(&self) -> (res: ContentBlock)
        ensures
            same_block(*self, res),
    {
        match self {
            ContentBlock::Text { text, subtype } => ContentBlock::Text {
                text: text.clone(),
                subtype: copy_opt_string(subtype),
            },
            ContentBlock::Image { media, alt_text, caption } => ContentBlock::Image {
                media: copy_media(media),
                alt_text: copy_opt_string(alt_text),
                caption: copy_opt_string(caption),
            },
            ContentBlock::Video { media, url, provider, embed_html, duration } => ContentBlock::Video {
                media: match media {
                    Some(m) => Some(copy_media(m)),
                    None => None,
                },
                url: copy_opt_string(url),
                provider: copy_opt_string(provider),
                embed_html: copy_opt_string(embed_html),
                duration: *duration,
            },
            ContentBlock::Audio { media, url, provider, artist, album, title, embed_html } => ContentBlock::Audio {
                media: match media {
                    Some(m) => Some(m.duplicate()),
                    None => None,
                },
                url: copy_opt_string(url),
                provider: copy_opt_string(provider),
                artist: copy_opt_string(artist),
                album: copy_opt_string(album),
                title: copy_opt_string(title),
                embed_html: copy_opt_string(embed_html),
            },
            ContentBlock::Link { url, title, description } => ContentBlock::Link {
                url: url.clone(),
                title: copy_opt_string(title),
                description: copy_opt_string(description),
            },
            ContentBlock::Paywall { text } => ContentBlock::Paywall { text: copy_opt_string(text) },
            ContentBlock::Poll { client_id, question, answers, settings, created_at, timestamp } => {
                let mut copied: Vec<PollAnswer> = Vec::new();
                for i in 0..answers.len()
                    invariant
                        copied@ == answers@.take(i as int),
                {
                    copied.push(answers[i].duplicate());
                }
                assert(answers@.take(answers@.len() as int) == answers@);
                ContentBlock::Poll {
                    client_id: client_id.clone(),
                    question: question.clone(),
                    answers: copied,
                    settings: match settings {
                        Some(s) => Some(s.duplicate()),
                        None => None,
                    },
                    created_at: copy_opt_string(created_at),
                    timestamp: *timestamp,
                }
            },
            ContentBlock::Unknown => ContentBlock::Unknown,
        }
    }
}

impl TrailBlog {
    /// A field-for-field copy.
    pub fn duplicate(&self) -> (res: TrailBlog)
        ensures
            res == *self,
    {
        TrailBlog {
            name: copy_opt_string(&self.name),
            url: copy_opt_string(&self.url),
            uuid: copy_opt_string(&self.uuid),
        }
    }
}

impl TrailPost {
    /// A field-for-field copy.
    pub fn duplicate(&self) -> (res: TrailPost)
        ensures
            res == *self,
    {
        TrailPost { id: copy_opt_string(&self.id) }
    }
}

} // verus!

//! Building the template values of posts, trail items and content blocks.
use vstd::prelude::*;

use crate::images::{best_media, best_media_index, lemma_best_media};
use crate::post::{ContentBlock, MediaObject, PollAnswer, PollSettings, Post, TrailBlog, TrailItem, TrailPost};
use crate::template::{
    answer_items, audio_info, block_html, poll_meta, poll_meta_html, text_or, video_elements,
    video_element, width_attr,
};
use crate::text::decimal;
use crate::value::{
    found, found_from, found_in, int_of, item, length, str_of, str_or, truthy, value_answers,
    value_figure, value_figures, value_html, value_image_html, value_link_html, value_paywall_html,
    value_poll_html, value_poll_meta, value_text_html, value_width, value_videos, value_video_html,
    value_audio_html, value_audio_info, value_audios, TemplateValue,
};
use crate::opt_view;

verus! {

/// The entries of a map value (none for other values).
pub open spec fn entries(v: TemplateValue) -> Seq<(String, TemplateValue)> {
    match v {
        TemplateValue::Dict(e) => e@,
        _ => Seq::empty(),
    }
}

/// `v` is a map value with `n` entries.
pub open spec fn is_dict(v: TemplateValue, n: nat) -> bool {
    v is Dict && entries(v).len() == n
}

/// The `i`-th entry of the map value `v` has the key `key` and a value that `p` accepts.
pub open spec fn entry_is(v: TemplateValue, i: int, key: Seq<char>, p: spec_fn(TemplateValue) -> bool) -> bool {
    entries(v)[i].0@ == key && p(entries(v)[i].1)
}

/// `v` is the string `s`.
pub open spec fn is_str(v: TemplateValue, s: Seq<char>) -> bool {
    v matches TemplateValue::Str(x) && x@ == s
}

/// `v` is the optional string `o` (none when it is absent).
pub open spec fn is_opt_str(v: TemplateValue, o: Option<String>) -> bool {
    match o {
        Some(s) => is_str(v, s@),
        None => v is Null,
    }
}

/// `v` is the optional unsigned number `o`.
pub open spec fn is_opt_u64(v: TemplateValue, o: Option<u64>) -> bool {
    match o {
        Some(n) => v == TemplateValue::UInt(n),
        None => v is Null,
    }
}

/// `v` is the optional signed number `o`.
pub open spec fn is_opt_i64(v: TemplateValue, o: Option<i64>) -> bool {
    match o {
        Some(n) => v == TemplateValue::Int(n),
        None => v is Null,
    }
}

/// A width or height in pixels, as a number.
pub open spec fn size_of(o: Option<u32>) -> Option<u64> {
    match o {
        Some(n) => Some(n as u64),
        None => None,
    }
}

/// The value of a media object: its URL, width, height and media type.
pub open spec fn media_value(v: TemplateValue, m: MediaObject) -> bool {
    &&& is_dict(v, 4)
    &&& entry_is(v, 0, "url"@, |x: TemplateValue| is_str(x, m.url@))
    &&& entry_is(v, 1, "width"@, |x: TemplateValue| is_opt_u64(x, size_of(m.width)))
    &&& entry_is(v, 2, "height"@, |x: TemplateValue| is_opt_u64(x, size_of(m.height)))
    &&& entry_is(v, 3, "media_type"@, |x: TemplateValue| is_opt_str(x, m.media_type))
}

/// `v` is a list of the values of `media`.
pub open spec fn media_list_value(v: TemplateValue, media: Seq<MediaObject>) -> bool {
    v matches TemplateValue::List(items) && items@.len() == media.len() && forall|i: int|
        0 <= i < media.len() ==> media_value(#[trigger] items@[i], media[i])
}

/// The value of a poll answer.
pub open spec fn answer_value(v: TemplateValue, a: PollAnswer) -> bool {
    &&& is_dict(v, 2)
    &&& entry_is(v, 0, "client_id"@, |x: TemplateValue| is_str(x, a.client_id@))
    &&& entry_is(v, 1, "answer_text"@, |x: TemplateValue| is_str(x, a.answer_text@))
}

/// The value of a poll's settings.
pub open spec fn settings_value(v: TemplateValue, s: Option<PollSettings>) -> bool {
    match s {
        None => v is Null,
        Some(s) => {
            &&& is_dict(v, 4)
            &&& entry_is(v, 0, "multiple_choice"@, |x: TemplateValue| x == TemplateValue::Bool(s.multiple_choice))
            &&& entry_is(v, 1, "close_status"@, |x: TemplateValue| is_opt_str(x, s.close_status))
            &&& entry_is(v, 2, "expire_after"@, |x: TemplateValue| is_opt_u64(x, s.expire_after))
            &&& entry_is(v, 3, "source"@, |x: TemplateValue| is_opt_str(x, s.source))
        },
    }
}

/// The value of one audio media object: its URL and media type.
pub open spec fn audio_item_value(v: TemplateValue, m: MediaObject) -> bool {
    &&& is_dict(v, 2)
    &&& entry_is(v, 0, "url"@, |x: TemplateValue| is_str(x, m.url@))
    &&& entry_is(v, 1, "media_type"@, |x: TemplateValue| is_opt_str(x, m.media_type))
}

/// The value of an audio block's media: a list holding its media object, or
/// undefined when there is none.
pub open spec fn audio_media_value(v: TemplateValue, m: Option<MediaObject>) -> bool {
    match m {
        None => v is Undefined,
        Some(m) => v matches TemplateValue::List(items) && items@.len() == 1 && audio_item_value(items@[0], m),
    }
}

/// The media an image block shows: the best one of its media, or none.
pub open spec fn shown_media(media: Seq<MediaObject>) -> Seq<MediaObject> {
    match best_media(media) {
        Some(k) => seq![media[k]],
        None => Seq::empty(),
    }
}

/// `v` is the template value of the content block `b`.
pub open spec fn block_value(b: ContentBlock, v: TemplateValue) -> bool {
    match b {
        ContentBlock::Text { text, subtype } => {
            &&& is_dict(v, 3)
            &&& entry_is(v, 0, "type"@, |x: TemplateValue| is_str(x, "text"@))
            &&& entry_is(v, 1, "text"@, |x: TemplateValue| is_str(x, text@))
            &&& entry_is(v, 2, "subtype"@, |x: TemplateValue| is_opt_str(x, subtype))
        },
        ContentBlock::Image { media, alt_text, caption } => {
            &&& is_dict(v, 4)
            &&& entry_is(v, 0, "type"@, |x: TemplateValue| is_str(x, "image"@))
            &&& entry_is(v, 1, "media"@, |x: TemplateValue| media_list_value(x, shown_media(media@)))
            &&& entry_is(v, 2, "alt_text"@, |x: TemplateValue| is_opt_str(x, alt_text))
            &&& entry_is(v, 3, "caption"@, |x: TemplateValue| is_opt_str(x, caption))
        },
        ContentBlock::Video { media, url, provider, embed_html, duration } => {
            &&& is_dict(v, 6)
            &&& entry_is(v, 0, "type"@, |x: TemplateValue| is_str(x, "video"@))
            &&& entry_is(
                v,
                1,
                "media"@,
                |x: TemplateValue|
                    media_list_value(
                        x,
                        match media {
                            Some(list) => list@,
                            None => Seq::empty(),
                        },
                    ),
            )
            &&& entry_is(v, 2, "url"@, |x: TemplateValue| is_opt_str(x, url))
            &&& entry_is(v, 3, "provider"@, |x: TemplateValue| is_opt_str(x, provider))
            &&& entry_is(v, 4, "embed_html"@, |x: TemplateValue| is_opt_str(x, embed_html))
            &&& entry_is(v, 5, "duration"@, |x: TemplateValue| is_opt_i64(x, duration))
        },
        ContentBlock::Audio { media, url, provider, artist, album, title, embed_html } => {
            &&& is_dict(v, 8)
            &&& entry_is(v, 0, "type"@, |x: TemplateValue| is_str(x, "audio"@))
            &&& entry_is(v, 1, "media"@, |x: TemplateValue| audio_media_value(x, media))
            &&& entry_is(v, 2, "url"@, |x: TemplateValue| is_opt_str(x, url))
            &&& entry_is(v, 3, "provider"@, |x: TemplateValue| is_opt_str(x, provider))
            &&& entry_is(v, 4, "artist"@, |x: TemplateValue| is_opt_str(x, artist))
            &&& entry_is(v, 5, "album"@, |x: TemplateValue| is_opt_str(x, album))
            &&& entry_is(v, 6, "title"@, |x: TemplateValue| is_opt_str(x, title))
            &&& entry_is(v, 7, "embed_html"@, |x: TemplateValue| is_opt_str(x, embed_html))
        },
        ContentBlock::Link { url, title, description } => {
            &&& is_dict(v, 4)
            &&& entry_is(v, 0, "type"@, |x: TemplateValue| is_str(x, "link"@))
            &&& entry_is(v, 1, "url"@, |x: TemplateValue| is_str(x, url@))
            &&& entry_is(v, 2, "title"@, |x: TemplateValue| is_opt_str(x, title))
            &&& entry_is(v, 3, "description"@, |x: TemplateValue| is_opt_str(x, description))
        },
        ContentBlock::Paywall { text } => {
            &&& is_dict(v, 2)
            &&& entry_is(v, 0, "type"@, |x: TemplateValue| is_str(x, "paywall"@))
            &&& entry_is(v, 1, "text"@, |x: TemplateValue| is_opt_str(x, text))
        },
        ContentBlock::Poll { client_id, question, answers, settings, created_at, timestamp } => {
            &&& is_dict(v, 7)
            &&& entry_is(v, 0, "type"@, |x: TemplateValue| is_str(x, "poll"@))
            &&& entry_is(v, 1, "client_id"@, |x: TemplateValue| is_str(x, client_id@))
            &&& entry_is(v, 2, "question"@, |x: TemplateValue| is_str(x, question@))
            &&& entry_is(
                v,
                3,
                "answers"@,
                |x: TemplateValue|
                    x matches TemplateValue::List(items) && items@.len() == answers@.len() && forall|
                        i: int,
                    | 0 <= i < answers@.len() ==> answer_value(#[trigger] items@[i], answers@[i]),
            )
            &&& entry_is(v, 4, "settings"@, |x: TemplateValue| settings_value(x, settings))
            &&& entry_is(v, 5, "created_at"@, |x: TemplateValue| is_opt_str(x, created_at))
            &&& entry_is(v, 6, "timestamp"@, |x: TemplateValue| is_opt_i64(x, timestamp))
        },
        ContentBlock::Unknown => {
            &&& is_dict(v, 1)
            &&& entry_is(v, 0, "type"@, |x: TemplateValue| is_str(x, "unknown"@))
        },
    }
}

fn str_value(s: &String) -> (res: TemplateValue)
    ensures
        is_str(res, s@),
{
    TemplateValue::Str(s.clone())
}

fn lit_value(s: &str) -> (res: TemplateValue)
    ensures
        is_str(res, s@),
{
    TemplateValue::Str(String::from_str(s))
}

fn opt_str_value(o: &Option<String>) -> (res: TemplateValue)
    ensures
        is_opt_str(res, *o),
{
    match o {
        Some(s) => TemplateValue::Str(s.clone()),
        None => TemplateValue::Null,
    }
}

fn opt_u64_value(o: Option<u64>) -> (res: TemplateValue)
    ensures
        is_opt_u64(res, o),
{
    match o {
        Some(n) => TemplateValue::UInt(n),
        None => TemplateValue::Null,
    }
}

fn opt_i64_value(o: Option<i64>) -> (res: TemplateValue)
    ensures
        is_opt_i64(res, o),
{
    match o {
        Some(n) => TemplateValue::Int(n),
        None => TemplateValue::Null,
    }
}

fn size_value(o: Option<u32>) -> (res: TemplateValue)
    ensures
        is_opt_u64(res, size_of(o)),
{
    match o {
        Some(n) => TemplateValue::UInt(n as u64),
        None => TemplateValue::Null,
    }
}

fn entry(key: &str, v: TemplateValue) -> (res: (String, TemplateValue))
    ensures
        res.0@ == key@,
        res.1 == v,
{
    (String::from_str(key), v)
}

fn media_to_value(m: &MediaObject) -> (res: TemplateValue)
    ensures
        media_value(res, *m),
{
    let mut e: Vec<(String, TemplateValue)> = Vec::new();
    e.push(entry("url", str_value(&m.url)));
    e.push(entry("width", size_value(m.width)));
    e.push(entry("height", size_value(m.height)));
    e.push(entry("media_type", opt_str_value(&m.media_type)));
    TemplateValue::Dict(e)
}

fn media_list_to_value(media: &Vec<MediaObject>) -> (res: TemplateValue)
    ensures
        media_list_value(res, media@),
{
    let mut items: Vec<TemplateValue> = Vec::new();
    for i in 0..media.len()
        invariant
            items@.len() == i,
            forall|t: int| 0 <= t < i ==> media_value(#[trigger] items@[t], media@[t]),
    {
        items.push(media_to_value(&media[i]));
    }
    TemplateValue::List(items)
}

fn text_to_value(text: &String, subtype: &Option<String>) -> (res: TemplateValue)
    ensures
        block_value(ContentBlock::Text { text: *text, subtype: *subtype }, res),
{
    let mut e: Vec<(String, TemplateValue)> = Vec::new();
    e.push(entry("type", lit_value("text")));
    e.push(entry("text", str_value(text)));
    e.push(entry("subtype", opt_str_value(subtype)));
    TemplateValue::Dict(e)
}

fn image_to_value(media: &Vec<MediaObject>, alt_text: &Option<String>, caption: &Option<String>) -> (res: TemplateValue)
    ensures
        block_value(ContentBlock::Image { media: *media, alt_text: *alt_text, caption: *caption }, res),
{
    proof {
        lemma_best_media(media@);
    }
    let mut items: Vec<TemplateValue> = Vec::new();
    if let Some(k) = best_media_index(media) {
        items.push(media_to_value(&media[k]));
    }
    assert(media_list_value(TemplateValue::List(items), shown_media(media@)));
    let mut e: Vec<(String, TemplateValue)> = Vec::new();
    e.push(entry("type", lit_value("image")));
    e.push(entry("media", TemplateValue::List(items)));
    e.push(entry("alt_text", opt_str_value(alt_text)));
    e.push(entry("caption", opt_str_value(caption)));
    TemplateValue::Dict(e)
}

fn video_to_value(
    media: &Option<Vec<MediaObject>>,
    url: &Option<String>,
    provider: &Option<String>,
    embed_html: &Option<String>,
    duration: Option<i64>,
) -> (res: TemplateValue)
    ensures
        block_value(
            ContentBlock::Video {
                media: *media,
                url: *url,
                provider: *provider,
                embed_html: *embed_html,
                duration,
            },
            res,
        ),
{
    let media_value = match media {
        Some(list) => media_list_to_value(list),
        None => TemplateValue::List(Vec::new()),
    };
    let mut e: Vec<(String, TemplateValue)> = Vec::new();
    e.push(entry("type", lit_value("video")));
    e.push(entry("media", media_value));
    e.push(entry("url", opt_str_value(url)));
    e.push(entry("provider", opt_str_value(provider)));
    e.push(entry("embed_html", opt_str_value(embed_html)));
    e.push(entry("duration", opt_i64_value(duration)));
    TemplateValue::Dict(e)
}

fn audio_to_value(
    media: &Option<MediaObject>,
    url: &Option<String>,
    provider: &Option<String>,
    artist: &Option<String>,
    album: &Option<String>,
    title: &Option<String>,
    embed_html: &Option<String>,
) -> (res: TemplateValue)
    ensures
        block_value(
            ContentBlock::Audio {
                media: *media,
                url: *url,
                provider: *provider,
                artist: *artist,
                album: *album,
                title: *title,
                embed_html: *embed_html,
            },
            res,
        ),
{
    let media_value = match media {
        Some(m) => {
            let mut me: Vec<(String, TemplateValue)> = Vec::new();
            me.push(entry("url", str_value(&m.url)));
            me.push(entry("media_type", opt_str_value(&m.media_type)));
            let mut items: Vec<TemplateValue> = Vec::new();
            items.push(TemplateValue::Dict(me));
            TemplateValue::List(items)
        },
        None => TemplateValue::Undefined,
    };
    let mut e: Vec<(String, TemplateValue)> = Vec::new();
    e.push(entry("type", lit_value("audio")));
    e.push(entry("media", media_value));
    e.push(entry("url", opt_str_value(url)));
    e.push(entry("provider", opt_str_value(provider)));
    e.push(entry("artist", opt_str_value(artist)));
    e.push(entry("album", opt_str_value(album)));
    e.push(entry("title", opt_str_value(title)));
    e.push(entry("embed_html", opt_str_value(embed_html)));
    TemplateValue::Dict(e)
}

fn link_to_value(url: &String, title: &Option<String>, description: &Option<String>) -> (res: TemplateValue)
    ensures
        block_value(ContentBlock::Link { url: *url, title: *title, description: *description }, res),
{
    let mut e: Vec<(String, TemplateValue)> = Vec::new();
    e.push(entry("type", lit_value("link")));
    e.push(entry("url", str_value(url)));
    e.push(entry("title", opt_str_value(title)));
    e.push(entry("description", opt_str_value(description)));
    TemplateValue::Dict(e)
}

fn paywall_to_value(text: &Option<String>) -> (res: TemplateValue)
    ensures
        block_value(ContentBlock::Paywall { text: *text }, res),
{
    let mut e: Vec<(String, TemplateValue)> = Vec::new();
    e.push(entry("type", lit_value("paywall")));
    e.push(entry("text", opt_str_value(text)));
    TemplateValue::Dict(e)
}

fn settings_to_value(settings: &Option<PollSettings>) -> (res: TemplateValue)
    ensures
        settings_value(res, *settings),
{
    match settings {
        Some(s) => {
            let mut e: Vec<(String, TemplateValue)> = Vec::new();
            e.push(entry("multiple_choice", TemplateValue::Bool(s.multiple_choice)));
            e.push(entry("close_status", opt_str_value(&s.close_status)));
            e.push(entry("expire_after", opt_u64_value(s.expire_after)));
            e.push(entry("source", opt_str_value(&s.source)));
            TemplateValue::Dict(e)
        },
        None => TemplateValue::Null,
    }
}

fn poll_to_value(
    client_id: &String,
    question: &String,
    answers: &Vec<PollAnswer>,
    settings: &Option<PollSettings>,
    created_at: &Option<String>,
    timestamp: Option<i64>,
) -> (res: TemplateValue)
    ensures
        block_value(
            ContentBlock::Poll {
                client_id: *client_id,
                question: *question,
                answers: *answers,
                settings: *settings,
                created_at: *created_at,
                timestamp,
            },
            res,
        ),
{
    let mut items: Vec<TemplateValue> = Vec::new();
    for i in 0..answers.len()
        invariant
            items@.len() == i,
            forall|t: int| 0 <= t < i ==> answer_value(#[trigger] items@[t], answers@[t]),
    {
        let mut ae: Vec<(String, TemplateValue)> = Vec::new();
        ae.push(entry("client_id", str_value(&answers[i].client_id)));
        ae.push(entry("answer_text", str_value(&answers[i].answer_text)));
        items.push(TemplateValue::Dict(ae));
    }
    let mut e: Vec<(String, TemplateValue)> = Vec::new();
    e.push(entry("type", lit_value("poll")));
    e.push(entry("client_id", str_value(client_id)));
    e.push(entry("question", str_value(question)));
    e.push(entry("answers", TemplateValue::List(items)));
    e.push(entry("settings", settings_to_value(settings)));
    e.push(entry("created_at", opt_str_value(created_at)));
    e.push(entry("timestamp", opt_i64_value(timestamp)));
    TemplateValue::Dict(e)
}

/// Converts a content block to the template value that templates read it as.
pub fn content_block_to_value(block: &ContentBlock) -> (res: TemplateValue)
    ensures
        block_value(*block, res),
{
    match block {
        ContentBlock::Text { text, subtype } => text_to_value(text, subtype),
        ContentBlock::Image { media, alt_text, caption } => image_to_value(media, alt_text, caption),
        ContentBlock::Video { media, url, provider, embed_html, duration } => video_to_value(
            media,
            url,
            provider,
            embed_html,
            *duration,
        ),
        ContentBlock::Audio { media, url, provider, artist, album, title, embed_html } => audio_to_value(
            media,
            url,
            provider,
            artist,
            album,
            title,
            embed_html,
        ),
        ContentBlock::Link { url, title, description } => link_to_value(url, title, description),
        ContentBlock::Paywall { text } => paywall_to_value(text),
        ContentBlock::Poll { client_id, question, answers, settings, created_at, timestamp } => poll_to_value(
            client_id,
            question,
            answers,
            settings,
            created_at,
            *timestamp,
        ),
        ContentBlock::Unknown => {
            let mut e: Vec<(String, TemplateValue)> = Vec::new();
            e.push(entry("type", lit_value("unknown")));
            TemplateValue::Dict(e)
        },
    }
}

/// `v` is a list of the values of `blocks`.
pub open spec fn blocks_value(v: TemplateValue, blocks: Seq<ContentBlock>) -> bool {
    v matches TemplateValue::List(items) && items@.len() == blocks.len() && forall|i: int|
        0 <= i < blocks.len() ==> block_value(blocks[i], #[trigger] items@[i])
}

/// The value of a trail item's blog (none when it is absent).
pub open spec fn trail_blog_value(v: TemplateValue, b: Option<TrailBlog>) -> bool {
    match b {
        None => v is Null,
        Some(b) => {
            &&& is_dict(v, 3)
            &&& entry_is(v, 0, "name"@, |x: TemplateValue| is_opt_str(x, b.name))
            &&& entry_is(v, 1, "url"@, |x: TemplateValue| is_opt_str(x, b.url))
            &&& entry_is(v, 2, "uuid"@, |x: TemplateValue| is_opt_str(x, b.uuid))
        },
    }
}

/// The value of a trail item's post (none when it is absent).
pub open spec fn trail_post_value(v: TemplateValue, p: Option<TrailPost>) -> bool {
    match p {
        None => v is Null,
        Some(p) => {
            &&& is_dict(v, 1)
            &&& entry_is(v, 0, "id"@, |x: TemplateValue| is_opt_str(x, p.id))
        },
    }
}

/// `v` is the template value of the trail item `t`.
pub open spec fn trail_value(t: TrailItem, v: TemplateValue) -> bool {
    &&& is_dict(v, 4)
    &&& entry_is(v, 0, "content"@, |x: TemplateValue| blocks_value(x, t.content@))
    &&& entry_is(v, 1, "blog"@, |x: TemplateValue| trail_blog_value(x, t.blog))
    &&& entry_is(v, 2, "post"@, |x: TemplateValue| trail_post_value(x, t.post))
    &&& entry_is(v, 3, "is_root_item"@, |x: TemplateValue| x == TemplateValue::Bool(t.is_root_item))
}

/// `v` is a list of the strings `tags`.
pub open spec fn tags_value(v: TemplateValue, tags: Seq<String>) -> bool {
    v matches TemplateValue::List(items) && items@.len() == tags.len() && forall|i: int|
        0 <= i < tags.len() ==> is_str(#[trigger] items@[i], tags[i]@)
}

/// `v` is the template value of the post `p`.
pub open spec fn post_value(p: Post, v: TemplateValue) -> bool {
    &&& is_dict(v, 22)
    &&& entry_is(v, 0, "id"@, |x: TemplateValue| is_str(x, p.id@))
    &&& entry_is(v, 1, "blog_name"@, |x: TemplateValue| is_str(x, p.blog_name@))
    &&& entry_is(v, 2, "post_url"@, |x: TemplateValue| is_str(x, p.post_url@))
    &&& entry_is(v, 3, "post_type"@, |x: TemplateValue| is_str(x, p.post_type@))
    &&& entry_is(v, 4, "original_type"@, |x: TemplateValue| is_opt_str(x, p.original_type))
    &&& entry_is(v, 5, "timestamp"@, |x: TemplateValue| x == TemplateValue::Int(p.timestamp))
    &&& entry_is(v, 6, "date"@, |x: TemplateValue| is_opt_str(x, p.date))
    &&& entry_is(v, 7, "content"@, |x: TemplateValue| blocks_value(x, p.content@))
    &&& entry_is(
        v,
        8,
        "trail"@,
        |x: TemplateValue|
            x matches TemplateValue::List(items) && items@.len() == p.trail@.len() && forall|i: int|
                0 <= i < p.trail@.len() ==> trail_value(p.trail@[i], #[trigger] items@[i]),
    )
    &&& entry_is(v, 9, "tags"@, |x: TemplateValue| tags_value(x, p.tags@))
    &&& entry_is(v, 10, "summary"@, |x: TemplateValue| is_opt_str(x, p.summary))
    &&& entry_is(v, 11, "note_count"@, |x: TemplateValue| x == TemplateValue::UInt(p.note_count))
    &&& entry_is(v, 12, "slug"@, |x: TemplateValue| is_opt_str(x, p.slug))
    &&& entry_is(v, 13, "short_url"@, |x: TemplateValue| is_opt_str(x, p.short_url))
    &&& entry_is(v, 14, "reblog_key"@, |x: TemplateValue| is_str(x, p.reblog_key@))
    &&& entry_is(v, 15, "state"@, |x: TemplateValue| is_opt_str(x, p.state))
    &&& entry_is(v, 16, "reblogged_from_name"@, |x: TemplateValue| is_opt_str(x, p.reblogged_from_name))
    &&& entry_is(v, 17, "reblogged_from_url"@, |x: TemplateValue| is_opt_str(x, p.reblogged_from_url))
    &&& entry_is(v, 18, "reblogged_root_name"@, |x: TemplateValue| is_opt_str(x, p.reblogged_root_name))
    &&& entry_is(v, 19, "reblogged_root_url"@, |x: TemplateValue| is_opt_str(x, p.reblogged_root_url))
    &&& entry_is(v, 20, "liked"@, |x: TemplateValue| x == TemplateValue::Bool(p.liked))
    &&& entry_is(v, 21, "followed"@, |x: TemplateValue| x == TemplateValue::Bool(p.followed))
}

/// `v` is the value a post page is rendered with: the post, whether it is a
/// reblog or original content, and the link to the next-newer post.
pub open spec fn render_context_value(p: Post, newer_href: Option<Seq<char>>, v: TemplateValue) -> bool {
    &&& is_dict(v, 4)
    &&& entry_is(v, 0, "post"@, |x: TemplateValue| post_value(p, x))
    &&& entry_is(v, 1, "is_reblog"@, |x: TemplateValue| x == TemplateValue::Bool(p.reblogged_from_name is Some))
    &&& entry_is(v, 2, "is_original"@, |x: TemplateValue| x == TemplateValue::Bool(p.reblogged_from_name is None))
    &&& entry_is(
        v,
        3,
        "newer_href"@,
        |x: TemplateValue|
            match newer_href {
                Some(h) => is_str(x, h),
                None => x is Null,
            },
    )
}

proof fn lemma_keys()
    ensures
        "type"@ != "text"@,
        "type"@ != "subtype"@,
        "text"@ != "subtype"@,
        "type"@ != "url"@,
        "type"@ != "title"@,
        "url"@ != "title"@,
        "type"@ != "description"@,
        "url"@ != "description"@,
        "title"@ != "description"@,
        "type"@ != "media"@,
        "type"@ != "alt_text"@,
        "media"@ != "alt_text"@,
        "type"@ != "caption"@,
        "media"@ != "caption"@,
        "alt_text"@ != "caption"@,
        "url"@ != "width"@,
        "type"@ != "question"@,
        "client_id"@ != "question"@,
        "type"@ != "answers"@,
        "client_id"@ != "answers"@,
        "question"@ != "answers"@,
        "type"@ != "settings"@,
        "client_id"@ != "settings"@,
        "question"@ != "settings"@,
        "answers"@ != "settings"@,
        "client_id"@ != "answer_text"@,
        "multiple_choice"@ != "close_status"@,
        "text"@ != "image"@,
        "text"@ != "link"@,
        "image"@ != "link"@,
        "text"@ != "paywall"@,
        "image"@ != "paywall"@,
        "link"@ != "paywall"@,
        "text"@ != "poll"@,
        "image"@ != "poll"@,
        "link"@ != "poll"@,
        "paywall"@ != "poll"@,
        "video"@ != "link"@,
        "video"@ != "paywall"@,
        "video"@ != "poll"@,
        "audio"@ != "link"@,
        "audio"@ != "paywall"@,
        "audio"@ != "poll"@,
        "video"@ != "image"@,
        "audio"@ != "image"@,
        "text"@ != "video"@,
        "text"@ != "audio"@,
        "image"@ != "audio"@,
        "url"@ != "media"@,
        "embed_html"@ != "type"@,
        "embed_html"@ != "media"@,
        "embed_html"@ != "url"@,
        "embed_html"@ != "provider"@,
        "embed_html"@ != "artist"@,
        "embed_html"@ != "album"@,
        "embed_html"@ != "title"@,
        "artist"@ != "type"@,
        "artist"@ != "media"@,
        "artist"@ != "url"@,
        "artist"@ != "provider"@,
        "album"@ != "type"@,
        "album"@ != "media"@,
        "album"@ != "url"@,
        "album"@ != "provider"@,
        "album"@ != "artist"@,
        "title"@ != "media"@,
        "title"@ != "provider"@,
        "title"@ != "artist"@,
        "title"@ != "album"@,
        "video"@ != "audio"@,
        "text"@.len() == 4,
        "image"@.len() == 5,
        "video"@.len() == 5,
        "audio"@.len() == 5,
        "link"@.len() == 4,
        "paywall"@.len() == 7,
        "poll"@.len() == 4,
{
    reveal_strlit("type");
    reveal_strlit("provider");
    reveal_strlit("embed_html");
    reveal_strlit("artist");
    reveal_strlit("album");
    reveal_strlit("text");
    reveal_strlit("subtype");
    reveal_strlit("url");
    reveal_strlit("title");
    reveal_strlit("description");
    reveal_strlit("media");
    reveal_strlit("alt_text");
    reveal_strlit("caption");
    reveal_strlit("width");
    reveal_strlit("question");
    reveal_strlit("client_id");
    reveal_strlit("answers");
    reveal_strlit("settings");
    reveal_strlit("answer_text");
    reveal_strlit("multiple_choice");
    reveal_strlit("close_status");
    reveal_strlit("image");
    reveal_strlit("link");
    reveal_strlit("paywall");
    reveal_strlit("poll");
    reveal_strlit("video");
    reveal_strlit("audio");
    assert("type"@[1] != "text"@[1]);
    assert("type"@.len() != "subtype"@.len());
    assert("text"@.len() != "subtype"@.len());
    assert("type"@.len() != "url"@.len());
    assert("type"@[1] != "title"@[1]);
    assert("url"@.len() != "title"@.len());
    assert("type"@.len() != "description"@.len());
    assert("url"@.len() != "description"@.len());
    assert("title"@.len() != "description"@.len());
    assert("type"@.len() != "media"@.len());
    assert("type"@.len() != "alt_text"@.len());
    assert("media"@.len() != "alt_text"@.len());
    assert("type"@.len() != "caption"@.len());
    assert("media"@.len() != "caption"@.len());
    assert("alt_text"@.len() != "caption"@.len());
    assert("url"@.len() != "width"@.len());
    assert("type"@.len() != "question"@.len());
    assert("client_id"@.len() != "question"@.len());
    assert("type"@.len() != "answers"@.len());
    assert("client_id"@.len() != "answers"@.len());
    assert("question"@[0] != "answers"@[0]);
    assert("type"@.len() != "settings"@.len());
    assert("client_id"@.len() != "settings"@.len());
    assert("question"@[0] != "settings"@[0]);
    assert("answers"@[0] != "settings"@[0]);
    assert("client_id"@.len() != "answer_text"@.len());
    assert("multiple_choice"@.len() != "close_status"@.len());
    assert("text"@.len() != "image"@.len());
    assert("text"@[0] != "link"@[0]);
    assert("image"@.len() != "link"@.len());
    assert("text"@.len() != "paywall"@.len());
    assert("image"@.len() != "paywall"@.len());
    assert("link"@.len() != "paywall"@.len());
    assert("text"@[0] != "poll"@[0]);
    assert("image"@.len() != "poll"@.len());
    assert("link"@[0] != "poll"@[0]);
    assert("paywall"@.len() != "poll"@.len());
    assert("video"@.len() != "link"@.len());
    assert("video"@.len() != "paywall"@.len());
    assert("video"@.len() != "poll"@.len());
    assert("audio"@.len() != "link"@.len());
    assert("audio"@.len() != "paywall"@.len());
    assert("audio"@.len() != "poll"@.len());
    assert("video"@[0] != "image"@[0]);
    assert("audio"@[0] != "image"@[0]);
    assert("text"@.len() != "video"@.len());
    assert("text"@.len() != "audio"@.len());
    assert("image"@[0] != "audio"@[0]);
    assert("url"@.len() != "media"@.len());
    assert("embed_html"@.len() != "type"@.len());
    assert("embed_html"@.len() != "media"@.len());
    assert("embed_html"@.len() != "url"@.len());
    assert("embed_html"@.len() != "provider"@.len());
    assert("embed_html"@.len() != "artist"@.len());
    assert("embed_html"@.len() != "album"@.len());
    assert("embed_html"@.len() != "title"@.len());
    assert("artist"@.len() != "type"@.len());
    assert("artist"@.len() != "media"@.len());
    assert("artist"@.len() != "url"@.len());
    assert("artist"@.len() != "provider"@.len());
    assert("album"@.len() != "type"@.len());
    assert("album"@[0] != "media"@[0]);
    assert("album"@.len() != "url"@.len());
    assert("album"@.len() != "provider"@.len());
    assert("album"@.len() != "artist"@.len());
    assert("title"@[0] != "media"@[0]);
    assert("title"@.len() != "provider"@.len());
    assert("title"@.len() != "artist"@.len());
    assert("title"@[0] != "album"@[0]);
    assert("video"@[0] != "audio"@[0]);
}

proof fn lemma_videos_render(m: TemplateValue, media: Seq<MediaObject>, n: nat)
    requires
        media_list_value(m, media),
        n <= media.len(),
    ensures
        value_videos(m, n) == video_elements(media.take(n as int), None),
    decreases n,
{
    lemma_keys();
    if n > 0 {
        lemma_videos_render(m, media, (n - 1) as nat);
        assert(media.take(n as int).drop_last() == media.take(n - 1));
        if let TemplateValue::List(items) = m {
            let it = items@[n - 1];
            assert(media_value(it, media[n - 1]));
            reveal_with_fuel(found_from, 3);
            assert(item(m, n - 1) == Some(it));
            assert(found(it, "url"@) == Some(entries(it)[0].1));
            assert(found(it, "width"@) == Some(entries(it)[1].1));
            assert(value_width(Some(it)) == width_attr(media[n - 1].width));
            let e = video_element(media[n - 1], None);
            assert(e + Seq::<char>::empty() =~= e);
        }
    }
}

proof fn lemma_audio_info_renders(title: Option<String>, artist: Option<String>, album: Option<String>)
    ensures
        value_audio_info(opt_view(title), opt_view(artist), opt_view(album)) == audio_info(title, artist, album),
{
}

proof fn lemma_answers_render(a: TemplateValue, answers: Seq<PollAnswer>, n: nat)
    requires
        a matches TemplateValue::List(items) && items@.len() == answers.len() && forall|i: int|
            0 <= i < answers.len() ==> answer_value(#[trigger] items@[i], answers[i]),
        n <= answers.len(),
    ensures
        value_answers(a, n) == answer_items(answers.take(n as int)),
    decreases n,
{
    lemma_keys();
    if n > 0 {
        lemma_answers_render(a, answers, (n - 1) as nat);
        assert(answers.take(n as int).drop_last() == answers.take(n - 1));
        let it = item(a, n - 1);
        if let TemplateValue::List(items) = a {
            assert(answer_value(items@[n - 1], answers[n - 1]));
            reveal_with_fuel(found_from, 3);
            assert(str_or(found_in(it, "answer_text"@), Seq::empty()) == answers[n - 1].answer_text@);
        }
    }
}

/// Rendering a text, link, paywall or poll block through its template value
/// gives the block's default HTML; so does an image block whose shown media
/// object is its first, or that has no media; a video block with embed code, or
/// with media and no duration, or with neither media nor a URL; and every
/// audio block.
pub proof fn lemma_block_value_renders_as_block(b: ContentBlock, v: TemplateValue)
    requires
        block_value(b, v),
        b is Text || b is Link || b is Paywall || b is Poll || (b matches ContentBlock::Image { media, .. } && (
        media@.len() == 0 || best_media(media@) == Some(0int))) || (b matches ContentBlock::Video {
            media,
            url,
            embed_html,
            duration,
            ..
        } && (embed_html is Some || (media is Some && duration is None) || (media is None && url is None)))
            || b is Audio,
    ensures
        value_html(v) == block_html(b),
{
    lemma_keys();
    reveal_with_fuel(found_from, 8);
    match b {
        ContentBlock::Text { text, subtype } => {
            assert(found(v, "type"@) == Some(entries(v)[0].1));
            assert(str_or(found(v, "type"@), Seq::empty()) == "text"@);
            assert(value_text_html(v) == block_html(b));
            assert(value_html(v) == value_text_html(v));
        },
        ContentBlock::Link { url, title, description } => {
            assert(value_link_html(v) == block_html(b));
            assert(value_html(v) == block_html(b));
        },
        ContentBlock::Paywall { text } => {
            assert(value_paywall_html(v) == block_html(b));
            assert(value_html(v) == block_html(b));
        },
        ContentBlock::Poll { client_id, question, answers, settings, created_at, timestamp } => {
            let a = entries(v)[3].1;
            lemma_answers_render(a, answers@, answers@.len());
            assert(answers@.take(answers@.len() as int) == answers@);
            assert(found(v, "answers"@) == Some(a));
            assert(value_poll_meta(found(v, "settings"@)) == poll_meta_html(settings));
            assert(value_poll_html(v) == block_html(b));
            assert(value_html(v) == block_html(b));
        },
        ContentBlock::Image { media, alt_text, caption } => {
            lemma_best_media(media@);
            assert(found(v, "type"@) == Some(entries(v)[0].1));
            assert(str_or(found(v, "type"@), Seq::empty()) == "image"@);
            assert(found(v, "media"@) == Some(entries(v)[1].1));
            if media@.len() == 0 {
                assert(value_figures(v, entries(v)[1].1, 0) == Seq::<char>::empty());
                assert(value_image_html(v) == Seq::<char>::empty());
                assert(block_html(b) == Seq::<char>::empty());
            } else {
                let m = entries(v)[1].1;
                if let TemplateValue::List(items) = m {
                    assert(media_value(items@[0], media@[0]));
                    let mv = items@[0];
                    assert(item(m, 0) == Some(mv));
                    assert(found(mv, "url"@) == Some(entries(mv)[0].1));
                    assert(found(mv, "width"@) == Some(entries(mv)[1].1));
                    assert(value_width(Some(mv)) == width_attr(media@[0].width));
                    assert(value_figure(v, Some(mv)) == block_html(b));
                    assert(value_figures(v, m, 0) == Seq::<char>::empty());
                    assert(Seq::<char>::empty() + value_figure(v, item(m, 0)) =~= value_figure(v, item(m, 0)));
                    assert(value_figures(v, m, 1) == value_figure(v, item(m, 0)));
                    assert(value_image_html(v) == block_html(b));
                }
                assert(value_image_html(v) == block_html(b));
                assert(value_html(v) == value_image_html(v));
            }
            assert(value_html(v) == block_html(b));
        },
        ContentBlock::Video { media, url, provider, embed_html, duration } => {
            assert(found(v, "type"@) == Some(entries(v)[0].1));
            assert(str_or(found(v, "type"@), Seq::empty()) == "video"@);
            assert(found(v, "embed_html"@) == Some(entries(v)[4].1));
            let m = entries(v)[1].1;
            assert(found(v, "media"@) == Some(m));
            assert(found(v, "url"@) == Some(entries(v)[2].1));
            if embed_html is None {
                if let Some(list) = media {
                    lemma_videos_render(m, list@, list@.len());
                    assert(list@.take(list@.len() as int) == list@);
                } else {
                    assert(value_videos(m, 0) == Seq::<char>::empty());
                }
            }
            assert(value_video_html(v) == block_html(b));
            assert(value_html(v) == block_html(b));
        },
        ContentBlock::Audio { media, url, provider, artist, album, title, embed_html } => {
            assert(found(v, "type"@) == Some(entries(v)[0].1));
            assert(str_or(found(v, "type"@), Seq::empty()) == "audio"@);
            assert(found(v, "media"@) == Some(entries(v)[1].1));
            assert(found(v, "url"@) == Some(entries(v)[2].1));
            assert(found(v, "artist"@) == Some(entries(v)[4].1));
            assert(found(v, "album"@) == Some(entries(v)[5].1));
            assert(found(v, "title"@) == Some(entries(v)[6].1));
            assert(found(v, "embed_html"@) == Some(entries(v)[7].1));
            lemma_audio_info_renders(title, artist, album);
            assert(str_of(found(v, "title"@)) == opt_view(title));
            assert(str_of(found(v, "artist"@)) == opt_view(artist));
            assert(str_of(found(v, "album"@)) == opt_view(album));
            assert(str_of(found(v, "embed_html"@)) == opt_view(embed_html));
            assert(str_of(found(v, "url"@)) == opt_view(url));
            if embed_html is None && media is Some {
                let m = entries(v)[1].1;
                if let TemplateValue::List(items) = m {
                    let it = items@[0];
                    assert(item(m, 0) == Some(it));
                    assert(found(it, "url"@) == Some(entries(it)[0].1));
                    assert(value_audios(m, 0) == Seq::<char>::empty());
                    let e = "<audio controls src=\""@ + str_or(found_in(item(m, 0), "url"@), Seq::empty()) + "\"></audio>"@;
                    assert(Seq::<char>::empty() + e =~= e);
                    assert(value_audios(m, 1) == e);
                }
            }
            if embed_html is None && media is None {
                assert(length(entries(v)[1].1) is None);
                if let Some(u) = url {
                    reveal_strlit("\">");
                    reveal_strlit("Audio link");
                    reveal_strlit("</a>");
                    reveal_strlit("\">Audio link</a>");
                    assert("<a href=\""@ + u@ + "\">"@ + "Audio link"@ + "</a>"@ =~= "<a href=\""@ + u@
                        + "\">Audio link</a>"@);
                }
            }
            assert(value_audio_html(v) == block_html(b));
            assert(value_html(v) == block_html(b));
        },
        _ => {},
    }
}

/// Converts a list of content blocks to a list value.
pub fn blocks_to_value(blocks: &Vec<ContentBlock>) -> (res: TemplateValue)
    ensures
        blocks_value(res, blocks@),
{
    let mut items: Vec<TemplateValue> = Vec::new();
    for i in 0..blocks.len()
        invariant
            items@.len() == i,
            forall|t: int| 0 <= t < i ==> block_value(blocks@[t], #[trigger] items@[t]),
    {
        items.push(content_block_to_value(&blocks[i]));
    }
    TemplateValue::List(items)
}

/// Converts a trail item to the template value that templates read it as.
pub fn trail_item_to_value(item: &TrailItem) -> (res: TemplateValue)
    ensures
        trail_value(*item, res),
{
    let content = blocks_to_value(&item.content);
    let blog = match &item.blog {
        Some(b) => {
            let mut e: Vec<(String, TemplateValue)> = Vec::new();
            e.push(entry("name", opt_str_value(&b.name)));
            e.push(entry("url", opt_str_value(&b.url)));
            e.push(entry("uuid", opt_str_value(&b.uuid)));
            TemplateValue::Dict(e)
        },
        None => TemplateValue::Null,
    };
    let post = match &item.post {
        Some(p) => {
            let mut e: Vec<(String, TemplateValue)> = Vec::new();
            e.push(entry("id", opt_str_value(&p.id)));
            TemplateValue::Dict(e)
        },
        None => TemplateValue::Null,
    };
    let mut e: Vec<(String, TemplateValue)> = Vec::new();
    e.push(entry("content", content));
    e.push(entry("blog", blog));
    e.push(entry("post", post));
    e.push(entry("is_root_item", TemplateValue::Bool(item.is_root_item)));
    TemplateValue::Dict(e)
}

fn trail_to_value(trail: &Vec<TrailItem>) -> (res: TemplateValue)
    ensures
        res matches TemplateValue::List(items) && items@.len() == trail@.len() && forall|i: int|
            0 <= i < trail@.len() ==> trail_value(trail@[i], #[trigger] items@[i]),
{
    let mut items: Vec<TemplateValue> = Vec::new();
    for i in 0..trail.len()
        invariant
            items@.len() == i,
            forall|t: int| 0 <= t < i ==> trail_value(trail@[t], #[trigger] items@[t]),
    {
        items.push(trail_item_to_value(&trail[i]));
    }
    TemplateValue::List(items)
}

fn tags_to_value(tags: &Vec<String>) -> (res: TemplateValue)
    ensures
        tags_value(res, tags@),
{
    let mut items: Vec<TemplateValue> = Vec::new();
    for i in 0..tags.len()
        invariant
            items@.len() == i,
            forall|t: int| 0 <= t < i ==> is_str(#[trigger] items@[t], tags@[t]@),
    {
        items.push(str_value(&tags[i]));
    }
    TemplateValue::List(items)
}

/// Converts a post to the template value that templates read it as.
pub fn post_to_value(post: &Post) -> (res: TemplateValue)
    ensures
        post_value(*post, res),
{
    let mut e: Vec<(String, TemplateValue)> = Vec::new();
    e.push(entry("id", str_value(&post.id)));
    e.push(entry("blog_name", str_value(&post.blog_name)));
    e.push(entry("post_url", str_value(&post.post_url)));
    e.push(entry("post_type", str_value(&post.post_type)));
    e.push(entry("original_type", opt_str_value(&post.original_type)));
    e.push(entry("timestamp", TemplateValue::Int(post.timestamp)));
    e.push(entry("date", opt_str_value(&post.date)));
    e.push(entry("content", blocks_to_value(&post.content)));
    e.push(entry("trail", trail_to_value(&post.trail)));
    e.push(entry("tags", tags_to_value(&post.tags)));
    e.push(entry("summary", opt_str_value(&post.summary)));
    e.push(entry("note_count", TemplateValue::UInt(post.note_count)));
    e.push(entry("slug", opt_str_value(&post.slug)));
    e.push(entry("short_url", opt_str_value(&post.short_url)));
    e.push(entry("reblog_key", str_value(&post.reblog_key)));
    e.push(entry("state", opt_str_value(&post.state)));
    e.push(entry("reblogged_from_name", opt_str_value(&post.reblogged_from_name)));
    e.push(entry("reblogged_from_url", opt_str_value(&post.reblogged_from_url)));
    e.push(entry("reblogged_root_name", opt_str_value(&post.reblogged_root_name)));
    e.push(entry("reblogged_root_url", opt_str_value(&post.reblogged_root_url)));
    e.push(entry("liked", TemplateValue::Bool(post.liked)));
    e.push(entry("followed", TemplateValue::Bool(post.followed)));
    TemplateValue::Dict(e)
}

/// The value a post page is rendered with.
pub fn render_context(post: &Post, newer_href: Option<&str>) -> (res: TemplateValue)
    ensures
        render_context_value(
            *post,
            match newer_href {
                Some(h) => Some(h@),
                None => None,
            },
            res,
        ),
{
    let mut e: Vec<(String, TemplateValue)> = Vec::new();
    e.push(entry("post", post_to_value(post)));
    e.push(entry("is_reblog", TemplateValue::Bool(post.reblogged_from_name.is_some())));
    e.push(entry("is_original", TemplateValue::Bool(post.reblogged_from_name.is_none())));
    e.push(
        entry(
            "newer_href",
            match newer_href {
                Some(h) => lit_value(h),
                None => TemplateValue::Null,
            },
        ),
    );
    TemplateValue::Dict(e)
}

} // verus!

//! The values that post templates are rendered with, and the rendering of a
//! content block from such a value (the templates' `render_block` function).
use vstd::prelude::*;

use crate::images::{best_media, best_media_index, lemma_best_media};
use crate::post::{ContentBlock, MediaObject, PollAnswer, PollSettings, Post, TrailItem};
use crate::text::signed_decimal;

verus! {

/// A template value.
#[derive(Debug)]
pub enum TemplateValue {
    Undefined,
    Null,
    Bool(bool),
    Int(i64),
    UInt(u64),
    Str(String),
    List(Vec<TemplateValue>),
    Dict(Vec<(String, TemplateValue)>),
    /// A value of another kind, by the integer it reads as (if any) and its truth.
    Other { number: Option<i64>, truthy: bool },
}

/// The value of the first entry at or after `i` with the given key.
pub open spec fn found_from(e: Seq<(String, TemplateValue)>, key: Seq<char>, i: int) -> Option<TemplateValue>
    decreases e.len() - i,
{
    if i < 0 || i >= e.len() {
        None
    } else if e[i].0@ == key {
        Some(e[i].1)
    } else {
        found_from(e, key, i + 1)
    }
}

/// The attribute `key` of a map value; none for a missing key or another kind of value.
pub open spec fn found(v: TemplateValue, key: Seq<char>) -> Option<TemplateValue> {
    match v {
        TemplateValue::Dict(e) => found_from(e@, key, 0),
        _ => None,
    }
}

/// The attribute `key` of an optional value.
pub open spec fn found_in(v: Option<TemplateValue>, key: Seq<char>) -> Option<TemplateValue> {
    match v {
        Some(x) => found(x, key),
        None => None,
    }
}

/// The text of a string value.
pub open spec fn str_of(v: Option<TemplateValue>) -> Option<Seq<char>> {
    match v {
        Some(TemplateValue::Str(s)) => Some(s@),
        _ => None,
    }
}

/// The text of a value, or `default` when it is not a string.
pub open spec fn str_or(v: Option<TemplateValue>, default: Seq<char>) -> Seq<char> {
    match str_of(v) {
        Some(s) => s,
        None => default,
    }
}

/// The integer a value reads as, if any.
pub open spec fn int_of(v: Option<TemplateValue>) -> Option<i64> {
    match v {
        Some(TemplateValue::Bool(b)) => Some(if b { 1i64 } else { 0i64 }),
        Some(TemplateValue::Int(n)) => Some(n),
        Some(TemplateValue::UInt(n)) => if n <= i64::MAX as u64 { Some(n as i64) } else { None },
        Some(TemplateValue::Other { number, .. }) => number,
        _ => None,
    }
}

/// Whether a value counts as true.
pub open spec fn truthy(v: Option<TemplateValue>) -> bool {
    match v {
        Some(TemplateValue::Bool(b)) => b,
        Some(TemplateValue::Int(n)) => n != 0,
        Some(TemplateValue::UInt(n)) => n != 0,
        Some(TemplateValue::Str(s)) => s@.len() != 0,
        Some(TemplateValue::List(items)) => items@.len() != 0,
        Some(TemplateValue::Dict(e)) => e@.len() != 0,
        Some(TemplateValue::Other { truthy, .. }) => truthy,
        _ => false,
    }
}

/// The length of a string, sequence or map value.
pub open spec fn length(v: TemplateValue) -> Option<nat> {
    match v {
        TemplateValue::Str(s) => Some(s@.len()),
        TemplateValue::List(items) => Some(items@.len()),
        TemplateValue::Dict(e) => Some(e@.len()),
        _ => None,
    }
}

/// The `i`-th item of a sequence value; items of other values have no attributes.
pub open spec fn item(v: TemplateValue, i: int) -> Option<TemplateValue> {
    match v {
        TemplateValue::List(items) => if 0 <= i < items@.len() {
            Some(items@[i])
        } else {
            None
        },
        _ => None,
    }
}

impl TemplateValue {
    /// The attribute `key`, when this is a map that has it.
    #[verifier::loop_isolation(false)]
    pub fn found_attr(&self, key: &str) -> (res: Option<&TemplateValue>)
        ensures
            match res {
                Some(r) => found(*self, key@) == Some(*r),
                None => found(*self, key@) is None,
            },
    {
        match self {
            TemplateValue::Dict(e) => {
                let k = String::from_str(key);
                let mut i: usize = 0;
                while i < e.len()
                    invariant
                        i <= e@.len(),
                        k@ == key@,
                        found_from(e@, key@, 0) == found_from(e@, key@, i as int),
                    decreases e@.len() - i,
                {
                    if e[i].0 == k {
                        return Some(&e[i].1);
                    }
                    i = i + 1;
                }
                None
            },
            _ => None,
        }
    }

    /// The text of the attribute `key`, when it is a string.
    pub fn attr_text(&self, key: &str) -> (res: Option<String>)
        ensures
            crate::opt_view(res) == str_of(found(*self, key@)),
    {
        match self.found_attr(key) {
            Some(TemplateValue::Str(s)) => Some(s.clone()),
            _ => None,
        }
    }

    /// The integer the attribute `key` reads as, if any.
    pub fn attr_int(&self, key: &str) -> (res: Option<i64>)
        ensures
            res == int_of(found(*self, key@)),
    {
        match self.found_attr(key) {
            Some(v) => v.as_int(),
            None => None,
        }
    }

    /// The integer this value reads as, if any.
    pub fn as_int(&self) -> (res: Option<i64>)
        ensures
            res == int_of(Some(*self)),
    {
        match self {
            TemplateValue::Bool(b) => Some(if *b { 1 } else { 0 }),
            TemplateValue::Int(n) => Some(*n),
            TemplateValue::UInt(n) => if *n <= i64::MAX as u64 { Some(*n as i64) } else { None },
            TemplateValue::Other { number, .. } => *number,
            _ => None,
        }
    }

    /// Whether this value counts as true.
    pub fn is_true(&self) -> (res: bool)
        ensures
            res == truthy(Some(*self)),
    {
        match self {
            TemplateValue::Bool(b) => *b,
            TemplateValue::Int(n) => *n != 0,
            TemplateValue::UInt(n) => *n != 0,
            TemplateValue::Str(s) => !s.as_str().is_empty(),
            TemplateValue::List(items) => items.len() != 0,
            TemplateValue::Dict(e) => e.len() != 0,
            TemplateValue::Other { truthy, .. } => *truthy,
            _ => false,
        }
    }

    /// The length of a string, sequence or map value.
    pub fn len_of(&self) -> (res: Option<usize>)
        ensures
            match res {
                Some(n) => length(*self) == Some(n as nat),
                None => length(*self) is None,
            },
    {
        match self {
            TemplateValue::Str(s) => Some(s.as_str().unicode_len()),
            TemplateValue::List(items) => Some(items.len()),
            TemplateValue::Dict(e) => Some(e.len()),
            _ => None,
        }
    }

    /// The `i`-th item of a sequence value.
    pub fn item_at(&self, i: usize) -> (res: Option<&TemplateValue>)
        ensures
            match res {
                Some(r) => item(*self, i as int) == Some(*r),
                None => item(*self, i as int) is None,
            },
    {
        match self {
            TemplateValue::List(items) => if i < items.len() {
                Some(&items[i])
            } else {
                None
            },
            _ => None,
        }
    }
}

/// The ` width="…"` attribute for an item whose width reads as an integer.
pub open spec fn value_width(it: Option<TemplateValue>) -> Seq<char> {
    match int_of(found_in(it, "width"@)) {
        Some(w) => " width=\""@ + signed_decimal(w as int) + "\""@,
        None => Seq::empty(),
    }
}

/// The figure for one media item of an image value.
pub open spec fn value_figure(b: TemplateValue, it: Option<TemplateValue>) -> Seq<char> {
    "<figure class=\"content-block image\"><img src=\""@ + str_or(found_in(it, "url"@), Seq::empty())
        + "\" alt=\""@ + str_or(found(b, "alt_text"@), Seq::empty()) + "\""@ + value_width(it) + ">"@
        + match str_of(found(b, "caption"@)) {
        Some(c) => "<figcaption>"@ + c + "</figcaption>"@,
        None => Seq::empty(),
    } + "</figure>"@
}

/// The figures for the first `n` media items of an image value.
pub open spec fn value_figures(b: TemplateValue, media: TemplateValue, n: nat) -> Seq<char>
    decreases n,
{
    if n == 0 {
        Seq::empty()
    } else {
        value_figures(b, media, (n - 1) as nat) + value_figure(b, item(media, n - 1))
    }
}

/// The HTML of an image value: a figure per media item.
pub open spec fn value_image_html(b: TemplateValue) -> Seq<char> {
    match found(b, "media"@) {
        Some(m) => match length(m) {
            Some(n) => value_figures(b, m, n),
            None => Seq::empty(),
        },
        None => Seq::empty(),
    }
}

/// The `<video>` elements for the first `n` media items.
pub open spec fn value_videos(media: TemplateValue, n: nat) -> Seq<char>
    decreases n,
{
    if n == 0 {
        Seq::empty()
    } else {
        let it = item(media, n - 1);
        value_videos(media, (n - 1) as nat) + "<video controls src=\""@ + str_or(
            found_in(it, "url"@),
            Seq::empty(),
        ) + "\""@ + value_width(it) + "></video>"@
    }
}

/// The `<audio>` elements for the first `n` media items.
pub open spec fn value_audios(media: TemplateValue, n: nat) -> Seq<char>
    decreases n,
{
    if n == 0 {
        Seq::empty()
    } else {
        value_audios(media, (n - 1) as nat) + "<audio controls src=\""@ + str_or(
            found_in(item(media, n - 1), "url"@),
            Seq::empty(),
        ) + "\"></audio>"@
    }
}

/// A link to the value's `url`, when it is a string.
pub open spec fn value_link(b: TemplateValue, label: Seq<char>) -> Seq<char> {
    match str_of(found(b, "url"@)) {
        Some(u) => "<a href=\""@ + u + "\">"@ + label + "</a>"@,
        None => Seq::empty(),
    }
}

/// The HTML of a video value: its embed code, else its media items, else a link.
pub open spec fn value_video_html(b: TemplateValue) -> Seq<char> {
    "<div class=\"content-block video-embed\">"@ + match str_of(found(b, "embed_html"@)) {
        Some(e) => e,
        None => match found(b, "media"@) {
            Some(m) => match length(m) {
                Some(n) => value_videos(m, n),
                None => value_link(b, "Video link"@),
            },
            None => value_link(b, "Video link"@),
        },
    } + "</div>"@
}

/// The audio metadata line of a value.
pub open spec fn value_audio_info(
    title: Option<Seq<char>>,
    artist: Option<Seq<char>>,
    album: Option<Seq<char>>,
) -> Seq<char> {
    if title is None && artist is None && album is None {
        Seq::empty()
    } else {
        "<div class=\"audio-info\">"@ + match title {
            Some(t) => "<span class=\"audio-title\">"@ + t + "</span>"@,
            None => Seq::empty(),
        } + match artist {
            Some(a) => " <span class=\"audio-artist\">by "@ + a + "</span>"@,
            None => Seq::empty(),
        } + match album {
            Some(b) => " <span class=\"audio-album\">("@ + b + ")</span>"@,
            None => Seq::empty(),
        } + "</div>"@
    }
}

/// The HTML of an audio value: its metadata, then its embed code, else its
/// media items, else a link.
pub open spec fn value_audio_html(b: TemplateValue) -> Seq<char> {
    "<div class=\"content-block audio-embed\">"@ + value_audio_info(
        str_of(found(b, "title"@)),
        str_of(found(b, "artist"@)),
        str_of(found(b, "album"@)),
    ) + match str_of(found(b, "embed_html"@)) {
        Some(e) => e,
        None => match found(b, "media"@) {
            Some(m) => match length(m) {
                Some(n) => value_audios(m, n),
                None => value_link(b, "Audio link"@),
            },
            None => value_link(b, "Audio link"@),
        },
    } + "</div>"@
}

/// The HTML of a link value.
pub open spec fn value_link_html(b: TemplateValue) -> Seq<char> {
    let url = str_or(found(b, "url"@), Seq::empty());
    "<div class=\"content-block link-block\"><a href=\""@ + url + "\">"@ + str_or(
        found(b, "title"@),
        url,
    ) + "</a>"@ + match str_of(found(b, "description"@)) {
        Some(d) => "<p>"@ + d + "</p>"@,
        None => Seq::empty(),
    } + "</div>"@
}

/// The HTML of a paywall value.
pub open spec fn value_paywall_html(b: TemplateValue) -> Seq<char> {
    "<div class=\"content-block paywall\">"@ + str_or(found(b, "text"@), "Premium content"@)
        + "</div>"@
}

/// The `<li>` elements for the first `n` answers.
pub open spec fn value_answers(answers: TemplateValue, n: nat) -> Seq<char>
    decreases n,
{
    if n == 0 {
        Seq::empty()
    } else {
        value_answers(answers, (n - 1) as nat) + "<li>"@ + str_or(
            found_in(item(answers, n - 1), "answer_text"@),
            Seq::empty(),
        ) + "</li>"@
    }
}

/// The settings line of a poll value.
pub open spec fn value_poll_meta(settings: Option<TemplateValue>) -> Seq<char> {
    let mc = truthy(found_in(settings, "multiple_choice"@));
    match (mc, str_of(found_in(settings, "close_status"@))) {
        (true, Some(s)) => "<div class=\"poll-meta\">"@ + "Multiple choice"@ + crate::template::meta_separator() + s
            + "</div>"@,
        (true, None) => "<div class=\"poll-meta\">"@ + "Multiple choice"@ + "</div>"@,
        (false, Some(s)) => "<div class=\"poll-meta\">"@ + s + "</div>"@,
        (false, None) => Seq::empty(),
    }
}

/// The HTML of a poll value.
pub open spec fn value_poll_html(b: TemplateValue) -> Seq<char> {
    "<div class=\"content-block poll\">"@ + "<div class=\"poll-question\">"@ + str_or(
        found(b, "question"@),
        Seq::empty(),
    ) + "</div>"@ + "<ul class=\"poll-answers\">"@ + match found(b, "answers"@) {
        Some(a) => match length(a) {
            Some(n) => value_answers(a, n),
            None => Seq::empty(),
        },
        None => Seq::empty(),
    } + "</ul>"@ + value_poll_meta(found(b, "settings"@)) + "</div>"@
}

/// The HTML of a text value.
pub open spec fn value_text_html(b: TemplateValue) -> Seq<char> {
    "<div class=\"content-block "@ + str_or(found(b, "subtype"@), Seq::empty()) + "\">"@ + str_or(
        found(b, "text"@),
        Seq::empty(),
    ) + "</div>"@
}

/// The HTML that a block value renders to, chosen by its `type`; nothing for
/// an unknown type.
pub open spec fn value_html(b: TemplateValue) -> Seq<char> {
    let t = str_or(found(b, "type"@), Seq::empty());
    if t == "text"@ {
        value_text_html(b)
    } else if t == "image"@ {
        value_image_html(b)
    } else if t == "video"@ {
        value_video_html(b)
    } else if t == "audio"@ {
        value_audio_html(b)
    } else if t == "link"@ {
        value_link_html(b)
    } else if t == "paywall"@ {
        value_paywall_html(b)
    } else if t == "poll"@ {
        value_poll_html(b)
    } else {
        Seq::empty()
    }
}

/// The text of the attribute `key`, or nothing when it is not a string.
fn text_attr(b: &TemplateValue, key: &str) -> (res: String)
    ensures
        res@ == str_or(found(*b, key@), Seq::empty()),
{
    match b.attr_text(key) {
        Some(s) => s,
        None => String::new(),
    }
}

fn text_attr_in(it: Option<&TemplateValue>, key: &str) -> (res: String)
    ensures
        res@ == str_or(
            found_in(
                match it {
                    Some(r) => Some(*r),
                    None => None,
                },
                key@,
            ),
            Seq::empty(),
        ),
{
    match it {
        Some(v) => text_attr(v, key),
        None => String::new(),
    }
}

fn push_value_width(html: &mut String, it: Option<&TemplateValue>)
    ensures
        final(html)@ == old(html)@ + value_width(
            match it {
                Some(r) => Some(*r),
                None => None,
            },
        ),
{
    let w = match it {
        Some(v) => v.attr_int("width"),
        None => None,
    };
    if let Some(w) = w {
        html.append(" width=\"");
        let d = crate::text::i64_to_string(w);
        html.append(d.as_str());
        html.append("\"");
    }
}

fn push_figure(html: &mut String, b: &TemplateValue, it: Option<&TemplateValue>)
    ensures
        final(html)@ == old(html)@ + value_figure(
            *b,
            match it {
                Some(r) => Some(*r),
                None => None,
            },
        ),
{
    let url = text_attr_in(it, "url");
    let alt = text_attr(b, "alt_text");
    html.append("<figure class=\"content-block image\"><img src=\"");
    html.append(url.as_str());
    html.append("\" alt=\"");
    html.append(alt.as_str());
    html.append("\"");
    push_value_width(html, it);
    html.append(">");
    if let Some(cap) = b.attr_text("caption") {
        html.append("<figcaption>");
        html.append(cap.as_str());
        html.append("</figcaption>");
    }
    html.append("</figure>");
}

fn render_image_value(b: &TemplateValue) -> (res: String)
    ensures
        res@ == value_image_html(*b),
{
    let mut html = String::new();
    if let Some(media) = b.found_attr("media") {
        if let Some(len) = media.len_of() {
            for i in 0..len
                invariant
                    html@ == value_figures(*b, *media, i as nat),
            {
                push_figure(&mut html, b, media.item_at(i));
            }
        }
    }
    html
}

fn push_value_link(html: &mut String, b: &TemplateValue, label: &str)
    ensures
        final(html)@ == old(html)@ + value_link(*b, label@),
{
    if let Some(u) = b.attr_text("url") {
        html.append("<a href=\"");
        html.append(u.as_str());
        html.append("\">");
        html.append(label);
        html.append("</a>");
    }
}

fn render_video_value(b: &TemplateValue) -> (res: String)
    ensures
        res@ == value_video_html(*b),
{
    let mut html = String::from_str("<div class=\"content-block video-embed\">");
    if let Some(embed) = b.attr_text("embed_html") {
        html.append(embed.as_str());
        html.append("</div>");
        return html;
    }
    let mut listed = false;
    if let Some(media) = b.found_attr("media") {
        if let Some(len) = media.len_of() {
            listed = true;
            let ghost start = html@;
            for i in 0..len
                invariant
                    html@ == start + value_videos(*media, i as nat),
            {
                let it = media.item_at(i);
                let url = text_attr_in(it, "url");
                html.append("<video controls src=\"");
                html.append(url.as_str());
                html.append("\"");
                push_value_width(&mut html, it);
                html.append("></video>");
            }
        }
    }
    if !listed {
        push_value_link(&mut html, b, "Video link");
    }
    html.append("</div>");
    html
}

#[verifier::rlimit(40)]
fn push_value_audio_info(html: &mut String, b: &TemplateValue)
    ensures
        final(html)@ == old(html)@ + value_audio_info(
            str_of(found(*b, "title"@)),
            str_of(found(*b, "artist"@)),
            str_of(found(*b, "album"@)),
        ),
{
    let title = b.attr_text("title");
    let artist = b.attr_text("artist");
    let album = b.attr_text("album");
    if title.is_some() || artist.is_some() || album.is_some() {
        html.append("<div class=\"audio-info\">");
        if let Some(t) = &title {
            html.append("<span class=\"audio-title\">");
            html.append(t.as_str());
            html.append("</span>");
        }
        if let Some(a) = &artist {
            html.append(" <span class=\"audio-artist\">by ");
            html.append(a.as_str());
            html.append("</span>");
        }
        if let Some(alb) = &album {
            html.append(" <span class=\"audio-album\">(");
            html.append(alb.as_str());
            html.append(")</span>");
        }
        html.append("</div>");
    }
}

fn render_audio_value(b: &TemplateValue) -> (res: String)
    ensures
        res@ == value_audio_html(*b),
{
    let mut html = String::from_str("<div class=\"content-block audio-embed\">");
    push_value_audio_info(&mut html, b);
    if let Some(embed) = b.attr_text("embed_html") {
        html.append(embed.as_str());
        html.append("</div>");
        return html;
    }
    let mut listed = false;
    if let Some(media) = b.found_attr("media") {
        if let Some(len) = media.len_of() {
            listed = true;
            let ghost start = html@;
            for i in 0..len
                invariant
                    html@ == start + value_audios(*media, i as nat),
            {
                let url = text_attr_in(media.item_at(i), "url");
                html.append("<audio controls src=\"");
                html.append(url.as_str());
                html.append("\"></audio>");
            }
        }
    }
    if !listed {
        push_value_link(&mut html, b, "Audio link");
    }
    html.append("</div>");
    html
}

fn render_link_value(b: &TemplateValue) -> (res: String)
    ensures
        res@ == value_link_html(*b),
{
    let url = text_attr(b, "url");
    let title = match b.attr_text("title") {
        Some(t) => t,
        None => url.clone(),
    };
    let mut html = String::from_str("<div class=\"content-block link-block\"><a href=\"");
    html.append(url.as_str());
    html.append("\">");
    html.append(title.as_str());
    html.append("</a>");
    if let Some(desc) = b.attr_text("description") {
        html.append("<p>");
        html.append(desc.as_str());
        html.append("</p>");
    }
    html.append("</div>");
    html
}

fn render_paywall_value(b: &TemplateValue) -> (res: String)
    ensures
        res@ == value_paywall_html(*b),
{
    let mut html = String::from_str("<div class=\"content-block paywall\">");
    match b.attr_text("text") {
        Some(t) => html.append(t.as_str()),
        None => html.append("Premium content"),
    }
    html.append("</div>");
    html
}

#[verifier::rlimit(40)]
fn push_value_poll_meta(html: &mut String, settings: Option<&TemplateValue>)
    ensures
        final(html)@ == old(html)@ + value_poll_meta(
            match settings {
                Some(r) => Some(*r),
                None => None,
            },
        ),
{
    let mc = match settings {
        Some(s) => match s.found_attr("multiple_choice") {
            Some(v) => v.is_true(),
            None => false,
        },
        None => false,
    };
    let cs = match settings {
        Some(s) => s.attr_text("close_status"),
        None => None,
    };
    if mc || cs.is_some() {
        html.append("<div class=\"poll-meta\">");
        if mc {
            html.append("Multiple choice");
            if cs.is_some() {
                html.append(" \u{b7} ");
                proof {
                    reveal_strlit(" \u{b7} ");
                }
            }
        }
        if let Some(status) = &cs {
            html.append(status.as_str());
        }
        html.append("</div>");
    }
}

fn render_poll_value(b: &TemplateValue) -> (res: String)
    ensures
        res@ == value_poll_html(*b),
{
    let question = text_attr(b, "question");
    let mut html = String::from_str("<div class=\"content-block poll\">");
    html.append("<div class=\"poll-question\">");
    html.append(question.as_str());
    html.append("</div>");
    html.append("<ul class=\"poll-answers\">");
    if let Some(answers) = b.found_attr("answers") {
        if let Some(len) = answers.len_of() {
            let ghost start = html@;
            for i in 0..len
                invariant
                    html@ == start + value_answers(*answers, i as nat),
            {
                let text = text_attr_in(answers.item_at(i), "answer_text");
                html.append("<li>");
                html.append(text.as_str());
                html.append("</li>");
            }
        }
    }
    html.append("</ul>");
    push_value_poll_meta(&mut html, b.found_attr("settings"));
    html.append("</div>");
    html
}

fn render_text_value(b: &TemplateValue) -> (res: String)
    ensures
        res@ == value_text_html(*b),
{
    let text = text_attr(b, "text");
    let subtype = text_attr(b, "subtype");
    let mut html = String::from_str("<div class=\"content-block ");
    html.append(subtype.as_str());
    html.append("\">");
    html.append(text.as_str());
    html.append("</div>");
    html
}

/// Renders a block from a template value (the templates' `render_block` function).
pub fn render_block_from_value(block: &TemplateValue) -> (res: String)
    ensures
        res@ == value_html(*block),
{
    let t = text_attr(block, "type");
    if t == String::from_str("text") {
        render_text_value(block)
    } else if t == String::from_str("image") {
        render_image_value(block)
    } else if t == String::from_str("video") {
        render_video_value(block)
    } else if t == String::from_str("audio") {
        render_audio_value(block)
    } else if t == String::from_str("link") {
        render_link_value(block)
    } else if t == String::from_str("paywall") {
        render_paywall_value(block)
    } else if t == String::from_str("poll") {
        render_poll_value(block)
    } else {
        String::new()
    }
}

} // verus!

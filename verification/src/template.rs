//! HTML output for posts: the default page template, the rendering of content
//! blocks, and the values that templates are rendered with.
use vstd::prelude::*;

use crate::post::{ContentBlock, MediaObject, PollAnswer, PollSettings};
use crate::text::{decimal, signed_decimal, i64_to_string, u64_to_string};

verus! {

/// Default HTML template for rendering posts
pub const DEFAULT_TEMPLATE: &'static str = r##"<!DOCTYPE html>
<html lang="en">
<head>
  <meta charset="UTF-8">
  <meta name="viewport" content="width=device-width, initial-scale=1.0">
  <title>{{ post.blog_name }} - {{ post.id }}</title>
  <style>
    body { font-family: system-ui, sans-serif; max-width: 650px; margin: 2rem auto; padding: 0 1rem; line-height: 1.6; color: #333; }
    .meta { color: #666; font-size: 0.9rem; margin-bottom: 1rem; }
    .meta a { color: #0066cc; text-decoration: none; }
    .meta a:hover { text-decoration: underline; }
    .tags { margin-top: 1rem; }
    .tag { display: inline-block; background: #f0f0f0; padding: 0.2rem 0.5rem; margin: 0.2rem; border-radius: 3px; font-size: 0.85rem; color: #555; }
    .content-block { margin: 1rem 0; }
    .content-block img { max-width: 100%; height: auto; display: block; }
    .content-block.heading1 { font-size: 1.5rem; font-weight: bold; }
    .content-block.heading2 { font-size: 1.25rem; font-weight: bold; }
    .content-block.quote { border-left: 3px solid #ccc; padding-left: 1rem; font-style: italic; color: #555; }
    .content-block.indented { margin-left: 2rem; }
    .content-block.chat { font-family: monospace; background: #f5f5f5; padding: 0.5rem; }
    .trail { margin-bottom: 1.5rem; }
    .trail-item { border-left: 3px solid #ddd; padding-left: 1rem; margin: 1rem 0; }
    .trail-author { font-weight: bold; margin-bottom: 0.5rem; color: #0066cc; }
    .video-embed, .audio-embed { margin: 1rem 0; }
    .video-embed video { max-width: 100%; }
    .audio-info { margin-bottom: 0.5rem; }
    .audio-title { font-weight: bold; }
    .audio-artist { color: #666; }
    .link-block { border: 1px solid #ddd; padding: 1rem; border-radius: 4px; background: #fafafa; }
    .link-block a { font-weight: bold; color: #0066cc; text-decoration: none; }
    .link-block a:hover { text-decoration: underline; }
    .link-block p { margin: 0.5rem 0 0 0; color: #666; }
    .poll { border: 1px solid #ddd; padding: 1rem; border-radius: 4px; background: #fafafa; }
    .poll-question { font-weight: bold; margin-bottom: 0.75rem; }
    .poll-answers { list-style: none; padding: 0; margin: 0; }
    .poll-answers li { background: #e9e9e9; padding: 0.5rem 0.75rem; margin: 0.3rem 0; border-radius: 3px; }
    .poll-meta { font-size: 0.85rem; color: #888; margin-top: 0.5rem; }
    .unsupported-block { color: #999; font-style: italic; }
    figure { margin: 1rem 0; }
    figcaption { font-size: 0.9rem; color: #666; margin-top: 0.5rem; }
    .post-nav { display: flex; justify-content: space-between; margin-top: 2rem; padding-top: 1rem; border-top: 1px solid #ddd; }
    .post-nav a { color: #0066cc; text-decoration: none; }
    .post-nav a:hover { text-decoration: underline; }
    .post-nav:not(:has(a)) { display: none; }
  </style>
</head>
<body>
  <article>
    <header class="meta">
      <a href="{{ post.post_url }}">{{ post.blog_name }}</a>
      {%- if post.date %} &middot; {{ post.date }}{% endif %}
      {%- if post.note_count %} &middot; {{ post.note_count }} notes{% endif %}
    </header>

    {%- if post.trail %}
    <div class="trail">
      {%- for item in post.trail %}
      <div class="trail-item">
        {%- if item.blog and item.blog.name %}
        <div class="trail-author">{{ item.blog.name }}</div>
        {%- endif %}
        {%- for block in item.content %}
        {{ render_block(block) }}
        {%- endfor %}
      </div>
      {%- endfor %}
    </div>
    {%- endif %}

    <div class="content">
      {%- for block in post.content %}
      {{ render_block(block) }}
      {%- endfor %}
    </div>

    {%- if post.tags %}
    <div class="tags">
      {%- for tag in post.tags %}
      <span class="tag">#{{ tag }}</span>
      {%- endfor %}
    </div>
    {%- endif %}
  </article>
  <nav class="post-nav">
    {%- if newer_href %}<a href="{{ newer_href }}">&larr; Newer</a>{%- else %}<span></span>{%- endif %}
    <!-- ARCHIVR:OLDER_NAV -->
  </nav>
</body>
</html>
"##;

/// HTML comment placeholder inserted by the template, replaced after the next post is known
pub const OLDER_NAV_PLACEHOLDER: &'static str = "<!-- ARCHIVR:OLDER_NAV -->";

/// The HTML of an "Older" navigation link to `href`.
pub open spec fn older_nav_link(href: Seq<char>) -> Seq<char> {
    "<a href=\""@ + href + "\">Older &rarr;</a>"@
}

/// Builds the HTML for an "Older" navigation link, to be substituted for [`OLDER_NAV_PLACEHOLDER`].
pub fn build_older_nav_link(href: &str) -> (res: String)
    ensures
        res@ == older_nav_link(href@),
{
    let mut s = String::from_str("<a href=\"");
    s.append(href);
    s.append("\">Older &rarr;</a>");
    s
}

/// An optional string's text, or `default` when it is absent.
pub open spec fn text_or(o: Option<String>, default: Seq<char>) -> Seq<char> {
    match o {
        Some(s) => s@,
        None => default,
    }
}

/// The ` width="…"` attribute for a known width, else nothing.
pub open spec fn width_attr(w: Option<u32>) -> Seq<char> {
    match w {
        Some(w) => " width=\""@ + decimal(w as nat) + "\""@,
        None => Seq::empty(),
    }
}

/// The ` (…s)` note for a known duration, else nothing.
pub open spec fn duration_note(d: Option<i64>) -> Seq<char> {
    match d {
        Some(d) => " ("@ + signed_decimal(d as int) + "s)"@,
        None => Seq::empty(),
    }
}

/// The `<video>` element for one media object.
pub open spec fn video_element(m: MediaObject, duration: Option<i64>) -> Seq<char> {
    "<video controls src=\""@ + m.url@ + "\""@ + width_attr(m.width) + "></video>"@ + duration_note(
        duration,
    )
}

/// The `<video>` elements for a list of media.
pub open spec fn video_elements(media: Seq<MediaObject>, duration: Option<i64>) -> Seq<char>
    decreases media.len(),
{
    if media.len() == 0 {
        Seq::empty()
    } else {
        video_elements(media.drop_last(), duration) + video_element(media.last(), duration)
    }
}

/// The `<li>` elements for the answers of a poll.
pub open spec fn answer_items(answers: Seq<PollAnswer>) -> Seq<char>
    decreases answers.len(),
{
    if answers.len() == 0 {
        Seq::empty()
    } else {
        answer_items(answers.drop_last()) + "<li>"@ + answers.last().answer_text@ + "</li>"@
    }
}

/// The separator between the parts of a poll's meta line.
pub open spec fn meta_separator() -> Seq<char> {
    seq![' ', '\u{b7}', ' ']
}

/// The meta line of a poll's settings: "Multiple choice" and the close status,
/// those that apply, joined by " · "; none when neither applies.
pub open spec fn poll_meta(settings: PollSettings) -> Option<Seq<char>> {
    match (settings.multiple_choice, settings.close_status) {
        (true, Some(s)) => Some("Multiple choice"@ + meta_separator() + s@),
        (true, None) => Some("Multiple choice"@),
        (false, Some(s)) => Some(s@),
        (false, None) => None,
    }
}

/// The HTML of a poll's settings line.
pub open spec fn poll_meta_html(settings: Option<PollSettings>) -> Seq<char> {
    match settings {
        Some(s) => match poll_meta(s) {
            Some(m) => "<div class=\"poll-meta\">"@ + m + "</div>"@,
            None => Seq::empty(),
        },
        None => Seq::empty(),
    }
}

/// The audio metadata line: title, artist and album, those that are known.
pub open spec fn audio_info(title: Option<String>, artist: Option<String>, album: Option<String>) -> Seq<char> {
    if title is None && artist is None && album is None {
        Seq::empty()
    } else {
        "<div class=\"audio-info\">"@ + match title {
            Some(t) => "<span class=\"audio-title\">"@ + t@ + "</span>"@,
            None => Seq::empty(),
        } + match artist {
            Some(a) => " <span class=\"audio-artist\">by "@ + a@ + "</span>"@,
            None => Seq::empty(),
        } + match album {
            Some(b) => " <span class=\"audio-album\">("@ + b@ + ")</span>"@,
            None => Seq::empty(),
        } + "</div>"@
    }
}

/// The HTML of a text block.
pub open spec fn text_html(text: String, subtype: Option<String>) -> Seq<char> {
    "<div class=\"content-block "@ + text_or(subtype, Seq::empty()) + "\">"@ + text@ + "</div>"@
}

/// The HTML of an image block: the first media object, with alt text and caption.
pub open spec fn image_html(media: Seq<MediaObject>, alt_text: Option<String>, caption: Option<String>) -> Seq<char> {
    if media.len() == 0 {
        Seq::empty()
    } else {
        let m = media[0];
        "<figure class=\"content-block image\"><img src=\""@ + m.url@ + "\" alt=\""@ + text_or(
            alt_text,
            Seq::empty(),
        ) + "\""@ + width_attr(m.width) + ">"@ + match caption {
            Some(c) => "<figcaption>"@ + c@ + "</figcaption>"@,
            None => Seq::empty(),
        } + "</figure>"@
    }
}

/// The HTML of a video block: its embed code, else its media, else a link.
pub open spec fn video_html(
    media: Option<Vec<MediaObject>>,
    url: Option<String>,
    embed_html: Option<String>,
    duration: Option<i64>,
) -> Seq<char> {
    "<div class=\"content-block video-embed\">"@ + match embed_html {
        Some(e) => e@,
        None => match media {
            Some(list) => video_elements(list@, duration),
            None => match url {
                Some(u) => "<a href=\""@ + u@ + "\">Video link</a>"@,
                None => Seq::empty(),
            },
        },
    } + "</div>"@
}

/// The HTML of an audio block: its metadata, then its embed code, else its
/// media, else a link.
pub open spec fn audio_html(
    media: Option<MediaObject>,
    url: Option<String>,
    title: Option<String>,
    artist: Option<String>,
    album: Option<String>,
    embed_html: Option<String>,
) -> Seq<char> {
    "<div class=\"content-block audio-embed\">"@ + audio_info(title, artist, album) + match embed_html {
        Some(e) => e@,
        None => match media {
            Some(m) => "<audio controls src=\""@ + m.url@ + "\"></audio>"@,
            None => match url {
                Some(u) => "<a href=\""@ + u@ + "\">Audio link</a>"@,
                None => Seq::empty(),
            },
        },
    } + "</div>"@
}

/// The HTML of a link block: the title (or the URL) linked, and the description.
pub open spec fn link_html(url: String, title: Option<String>, description: Option<String>) -> Seq<char> {
    "<div class=\"content-block link-block\"><a href=\""@ + url@ + "\">"@ + text_or(title, url@)
        + "</a>"@ + match description {
        Some(d) => "<p>"@ + d@ + "</p>"@,
        None => Seq::empty(),
    } + "</div>"@
}

/// A link block shows its title as the link text when it has one, and its URL
/// only when it has none; the description, when there is one, follows in a
/// paragraph.
pub proof fn lemma_link_block_text(url: String, title: Option<String>, description: Option<String>)
    ensures
        block_html(ContentBlock::Link { url, title, description }) == "<div class=\"content-block link-block\"><a href=\""@
            + url@ + "\">"@ + (match title {
            Some(t) => t@,
            None => url@,
        }) + "</a>"@ + (match description {
            Some(d) => "<p>"@ + d@ + "</p>"@,
            None => Seq::<char>::empty(),
        }) + "</div>"@,
{
}

/// The HTML of a paywall block.
pub open spec fn paywall_html(text: Option<String>) -> Seq<char> {
    "<div class=\"content-block paywall\">"@ + text_or(text, "Premium content"@) + "</div>"@
}

/// The HTML of a poll block: question, answers and settings line.
pub open spec fn poll_html(question: String, answers: Seq<PollAnswer>, settings: Option<PollSettings>) -> Seq<char> {
    "<div class=\"content-block poll\">"@ + "<div class=\"poll-question\">"@ + question@ + "</div>"@
        + "<ul class=\"poll-answers\">"@ + answer_items(answers) + "</ul>"@ + poll_meta_html(settings)
        + "</div>"@
}

/// The default HTML of a content block.
pub open spec fn block_html(block: ContentBlock) -> Seq<char> {
    match block {
        ContentBlock::Text { text, subtype } => text_html(text, subtype),
        ContentBlock::Image { media, alt_text, caption } => image_html(media@, alt_text, caption),
        ContentBlock::Video { media, url, embed_html, duration, .. } => video_html(
            media,
            url,
            embed_html,
            duration,
        ),
        ContentBlock::Audio { media, url, title, artist, album, embed_html, .. } => audio_html(
            media,
            url,
            title,
            artist,
            album,
            embed_html,
        ),
        ContentBlock::Link { url, title, description } => link_html(url, title, description),
        ContentBlock::Paywall { text } => paywall_html(text),
        ContentBlock::Poll { question, answers, settings, .. } => poll_html(question, answers@, settings),
        ContentBlock::Unknown => "<div class=\"content-block unsupported-block\">Unsupported block type</div>"@,
    }
}

fn push_width(html: &mut String, w: Option<u32>)
    ensures
        final(html)@ == old(html)@ + width_attr(w),
{
    if let Some(w) = w {
        html.append(" width=\"");
        let d = u64_to_string(w as u64);
        html.append(d.as_str());
        html.append("\"");
    }
}

fn push_opt(html: &mut String, o: &Option<String>)
    ensures
        final(html)@ == old(html)@ + text_or(*o, Seq::empty()),
{
    if let Some(s) = o {
        html.append(s.as_str());
    }
}

fn render_text(text: &String, subtype: &Option<String>) -> (res: String)
    ensures
        res@ == text_html(*text, *subtype),
{
    let mut html = String::from_str("<div class=\"content-block ");
    push_opt(&mut html, subtype);
    html.append("\">");
    html.append(text.as_str());
    html.append("</div>");
    html
}

fn render_image(media: &Vec<MediaObject>, alt_text: &Option<String>, caption: &Option<String>) -> (res: String)
    ensures
        res@ == image_html(media@, *alt_text, *caption),
{
    let mut html = String::new();
    if media.len() == 0 {
        return html;
    }
    let m = &media[0];
    html.append("<figure class=\"content-block image\"><img src=\"");
    html.append(m.url.as_str());
    html.append("\" alt=\"");
    push_opt(&mut html, alt_text);
    html.append("\"");
    push_width(&mut html, m.width);
    html.append(">");
    if let Some(cap) = caption {
        html.append("<figcaption>");
        html.append(cap.as_str());
        html.append("</figcaption>");
    }
    html.append("</figure>");
    html
}

fn push_video_element(html: &mut String, m: &MediaObject, duration: Option<i64>)
    ensures
        final(html)@ == old(html)@ + video_element(*m, duration),
{
    html.append("<video controls src=\"");
    html.append(m.url.as_str());
    html.append("\"");
    push_width(html, m.width);
    html.append("></video>");
    if let Some(d) = duration {
        html.append(" (");
        let ds = i64_to_string(d);
        html.append(ds.as_str());
        html.append("s)");
    }
}

fn push_video_elements(html: &mut String, media_list: &Vec<MediaObject>, duration: Option<i64>)
    ensures
        final(html)@ == old(html)@ + video_elements(media_list@, duration),
{
    let ghost start = html@;
    for i in 0..media_list.len()
        invariant
            html@ == start + video_elements(media_list@.take(i as int), duration),
    {
        assert(media_list@.take(i + 1).drop_last() == media_list@.take(i as int));
        push_video_element(html, &media_list[i], duration);
    }
    assert(media_list@.take(media_list@.len() as int) == media_list@);
}

fn render_video(
    media: &Option<Vec<MediaObject>>,
    url: &Option<String>,
    embed_html: &Option<String>,
    duration: Option<i64>,
) -> (res: String)
    ensures
        res@ == video_html(*media, *url, *embed_html, duration),
{
    let mut html = String::from_str("<div class=\"content-block video-embed\">");
    if let Some(embed) = embed_html {
        html.append(embed.as_str());
    } else if let Some(media_list) = media {
        push_video_elements(&mut html, media_list, duration);
    } else if let Some(video_url) = url {
        html.append("<a href=\"");
        html.append(video_url.as_str());
        html.append("\">Video link</a>");
    }
    html.append("</div>");
    html
}

#[verifier::rlimit(40)]
fn push_audio_info(html: &mut String, title: &Option<String>, artist: &Option<String>, album: &Option<String>)
    ensures
        final(html)@ == old(html)@ + audio_info(*title, *artist, *album),
{
    if title.is_some() || artist.is_some() || album.is_some() {
        html.append("<div class=\"audio-info\">");
        if let Some(t) = title {
            html.append("<span class=\"audio-title\">");
            html.append(t.as_str());
            html.append("</span>");
        }
        if let Some(a) = artist {
            html.append(" <span class=\"audio-artist\">by ");
            html.append(a.as_str());
            html.append("</span>");
        }
        if let Some(alb) = album {
            html.append(" <span class=\"audio-album\">(");
            html.append(alb.as_str());
            html.append(")</span>");
        }
        html.append("</div>");
    }
}

fn render_audio(
    media: &Option<MediaObject>,
    url: &Option<String>,
    title: &Option<String>,
    artist: &Option<String>,
    album: &Option<String>,
    embed_html: &Option<String>,
) -> (res: String)
    ensures
        res@ == audio_html(*media, *url, *title, *artist, *album, *embed_html),
{
    let mut html = String::from_str("<div class=\"content-block audio-embed\">");
    push_audio_info(&mut html, title, artist, album);
    if let Some(embed) = embed_html {
        html.append(embed.as_str());
    } else if let Some(media_object) = media {
        html.append("<audio controls src=\"");
        html.append(media_object.url.as_str());
        html.append("\"></audio>");
    } else if let Some(audio_url) = url {
        html.append("<a href=\"");
        html.append(audio_url.as_str());
        html.append("\">Audio link</a>");
    }
    html.append("</div>");
    html
}

fn render_link(url: &String, title: &Option<String>, description: &Option<String>) -> (res: String)
    ensures
        res@ == link_html(*url, *title, *description),
{
    let mut html = String::from_str("<div class=\"content-block link-block\"><a href=\"");
    html.append(url.as_str());
    html.append("\">");
    match title {
        Some(t) => html.append(t.as_str()),
        None => html.append(url.as_str()),
    }
    html.append("</a>");
    if let Some(desc) = description {
        html.append("<p>");
        html.append(desc.as_str());
        html.append("</p>");
    }
    html.append("</div>");
    html
}

fn render_paywall(text: &Option<String>) -> (res: String)
    ensures
        res@ == paywall_html(*text),
{
    let mut html = String::from_str("<div class=\"content-block paywall\">");
    match text {
        Some(t) => html.append(t.as_str()),
        None => html.append("Premium content"),
    }
    html.append("</div>");
    html
}

#[verifier::rlimit(40)]
fn push_poll_meta(html: &mut String, settings: &Option<PollSettings>)
    ensures
        final(html)@ == old(html)@ + poll_meta_html(*settings),
{
    if let Some(s) = settings {
        if s.multiple_choice || s.close_status.is_some() {
            html.append("<div class=\"poll-meta\">");
            if s.multiple_choice {
                html.append("Multiple choice");
                if s.close_status.is_some() {
                    html.append(" \u{b7} ");
                    proof {
                        reveal_strlit(" \u{b7} ");
                    }
                }
            }
            if let Some(status) = &s.close_status {
                html.append(status.as_str());
            }
            html.append("</div>");
        }
    }
}

fn render_poll(question: &String, answers: &Vec<PollAnswer>, settings: &Option<PollSettings>) -> (res: String)
    ensures
        res@ == poll_html(*question, answers@, *settings),
{
    let mut html = String::from_str("<div class=\"content-block poll\">");
    html.append("<div class=\"poll-question\">");
    html.append(question.as_str());
    html.append("</div>");
    html.append("<ul class=\"poll-answers\">");
    let ghost start = html@;
    for i in 0..answers.len()
        invariant
            html@ == start + answer_items(answers@.take(i as int)),
    {
        assert(answers@.take(i + 1).drop_last() == answers@.take(i as int));
        html.append("<li>");
        html.append(answers[i].answer_text.as_str());
        html.append("</li>");
    }
    assert(answers@.take(answers@.len() as int) == answers@);
    html.append("</ul>");
    push_poll_meta(&mut html, settings);
    html.append("</div>");
    html
}

/// Renders a single ContentBlock to HTML
///
/// This function can be used for programmatic rendering outside of templates.
pub fn render_content_block(block: &ContentBlock) -> (res: String)
    ensures
        res@ == block_html(*block),
{
    match block {
        ContentBlock::Text { text, subtype } => render_text(text, subtype),
        ContentBlock::Image { media, alt_text, caption } => render_image(media, alt_text, caption),
        ContentBlock::Video { media, url, embed_html, duration, .. } => render_video(
            media,
            url,
            embed_html,
            *duration,
        ),
        ContentBlock::Audio { media, url, title, artist, album, embed_html, .. } => render_audio(
            media,
            url,
            title,
            artist,
            album,
            embed_html,
        ),
        ContentBlock::Link { url, title, description } => render_link(url, title, description),
        ContentBlock::Paywall { text } => render_paywall(text),
        ContentBlock::Poll { question, answers, settings, .. } => render_poll(question, answers, settings),
        ContentBlock::Unknown => String::from_str(
            "<div class=\"content-block unsupported-block\">Unsupported block type</div>",
        ),
    }
}

} // verus!

use archivr::context::{content_block_to_value, post_to_value, render_context, trail_item_to_value};
use archivr::post::{ContentBlock, MediaObject, PollAnswer, PollSettings, Post, TrailBlog, TrailItem};
use archivr::template::{build_older_nav_link, render_content_block, DEFAULT_TEMPLATE, OLDER_NAV_PLACEHOLDER};
use archivr::render::PostRenderer;
use archivr::value::{render_block_from_value, TemplateValue};

#[test]
fn test_render_text_block() {
    let block = ContentBlock::Text { text: "Hello, world!".to_string(), subtype: None };
    let html = render_content_block(&block);
    assert!(html.contains("Hello, world!"));
    assert!(html.contains("content-block"));
}

#[test]
fn test_render_text_block_with_subtype() {
    let block = ContentBlock::Text { text: "A heading".to_string(), subtype: Some("heading1".to_string()) };
    let html = render_content_block(&block);
    assert!(html.contains("heading1"));
    assert!(html.contains("A heading"));
}

fn media(url: &str, width: Option<u32>, original: Option<bool>) -> MediaObject {
    MediaObject { url: url.to_owned(), media_type: None, width, height: None, has_original_dimensions: original }
}

#[test]
fn render_blocks_exactly() {
    assert_eq!(
        render_content_block(&ContentBlock::Text { text: "t".into(), subtype: Some("quote".into()) }),
        r#"<div class="content-block quote">t</div>"#
    );
    assert_eq!(
        render_content_block(&ContentBlock::Image {
            media: vec![media("u.jpg", Some(500), None)],
            alt_text: Some("alt".into()),
            caption: Some("cap".into()),
        }),
        r#"<figure class="content-block image"><img src="u.jpg" alt="alt" width="500"><figcaption>cap</figcaption></figure>"#
    );
    assert_eq!(
        render_content_block(&ContentBlock::Image { media: vec![], alt_text: None, caption: None }),
        ""
    );
    assert_eq!(
        render_content_block(&ContentBlock::Video {
            media: Some(vec![media("v.mp4", None, None)]),
            url: None,
            provider: None,
            embed_html: None,
            duration: Some(12),
        }),
        r#"<div class="content-block video-embed"><video controls src="v.mp4"></video> (12s)</div>"#
    );
    assert_eq!(
        render_content_block(&ContentBlock::Video {
            media: None,
            url: Some("https://yt/x".into()),
            provider: None,
            embed_html: None,
            duration: None,
        }),
        r#"<div class="content-block video-embed"><a href="https://yt/x">Video link</a></div>"#
    );
    assert_eq!(
        render_content_block(&ContentBlock::Audio {
            media: None,
            url: Some("https://s/a".into()),
            provider: None,
            artist: Some("A".into()),
            album: None,
            title: Some("T".into()),
            embed_html: None,
        }),
        r#"<div class="content-block audio-embed"><div class="audio-info"><span class="audio-title">T</span> <span class="audio-artist">by A</span></div><a href="https://s/a">Audio link</a></div>"#
    );
    assert_eq!(
        render_content_block(&ContentBlock::Link { url: "https://l".into(), title: None, description: Some("d".into()) }),
        r#"<div class="content-block link-block"><a href="https://l">https://l</a><p>d</p></div>"#
    );
    assert_eq!(
        render_content_block(&ContentBlock::Paywall { text: None }),
        r#"<div class="content-block paywall">Premium content</div>"#
    );
    assert_eq!(
        render_content_block(&poll()),
        r#"<div class="content-block poll"><div class="poll-question">Q?</div><ul class="poll-answers"><li>yes</li><li>no</li></ul><div class="poll-meta">Multiple choice · closed</div></div>"#
    );
    assert_eq!(
        render_content_block(&ContentBlock::Unknown),
        r#"<div class="content-block unsupported-block">Unsupported block type</div>"#
    );
}

fn poll() -> ContentBlock {
    ContentBlock::Poll {
        client_id: "c".into(),
        question: "Q?".into(),
        answers: vec![
            PollAnswer { client_id: "1".into(), answer_text: "yes".into() },
            PollAnswer { client_id: "2".into(), answer_text: "no".into() },
        ],
        settings: Some(PollSettings {
            multiple_choice: true,
            close_status: Some("closed".into()),
            expire_after: None,
            source: None,
        }),
        created_at: None,
        timestamp: None,
    }
}

#[test]
fn render_block_value_agrees_with_default_rendering() {
    let blocks = vec![
        ContentBlock::Text { text: "hi".into(), subtype: Some("heading1".into()) },
        ContentBlock::Link { url: "https://l".into(), title: Some("L".into()), description: None },
        ContentBlock::Paywall { text: Some("pay".into()) },
        poll(),
        ContentBlock::Image {
            media: vec![media("a.jpg", Some(10), Some(true)), media("b.jpg", None, None)],
            alt_text: None,
            caption: Some("c".into()),
        },
        ContentBlock::Video {
            media: Some(vec![media("v.mp4", Some(640), None), media("w.mp4", None, None)]),
            url: None,
            provider: None,
            embed_html: None,
            duration: None,
        },
        ContentBlock::Video {
            media: Some(vec![media("v.mp4", None, None)]),
            url: Some("https://v".into()),
            provider: None,
            embed_html: Some("<iframe></iframe>".into()),
            duration: Some(12),
        },
        ContentBlock::Image { media: vec![], alt_text: None, caption: None },
        ContentBlock::Audio {
            media: Some(media("song.mp3", None, None)),
            url: None,
            provider: None,
            artist: None,
            album: Some("Album".into()),
            title: None,
            embed_html: None,
        },
        ContentBlock::Audio {
            media: None,
            url: Some("https://a".into()),
            provider: None,
            artist: Some("Artist".into()),
            album: None,
            title: Some("Song".into()),
            embed_html: None,
        },
    ];
    for b in &blocks {
        assert_eq!(render_block_from_value(&content_block_to_value(b)), render_content_block(b));
    }
}

#[test]
fn image_value_uses_original_dimensions_media() {
    let b = ContentBlock::Image {
        media: vec![media("small.jpg", None, None), media("big.jpg", Some(2), Some(true))],
        alt_text: Some("a".into()),
        caption: None,
    };
    assert_eq!(
        render_block_from_value(&content_block_to_value(&b)),
        r#"<figure class="content-block image"><img src="big.jpg" alt="a" width="2"></figure>"#
    );
}

#[test]
fn render_block_of_unknown_or_non_map_value_is_empty() {
    assert_eq!(render_block_from_value(&TemplateValue::Undefined), "");
    assert_eq!(render_block_from_value(&content_block_to_value(&ContentBlock::Unknown)), "");
    let custom = TemplateValue::Dict(vec![
        ("type".into(), TemplateValue::Str("video".into())),
        ("embed_html".into(), TemplateValue::Str("<iframe></iframe>".into())),
    ]);
    assert_eq!(
        render_block_from_value(&custom),
        r#"<div class="content-block video-embed"><iframe></iframe></div>"#
    );
}

#[test]
fn older_nav_link_and_placeholder() {
    assert_eq!(build_older_nav_link("42.html"), r#"<a href="42.html">Older &rarr;</a>"#);
    assert!(DEFAULT_TEMPLATE.contains(OLDER_NAV_PLACEHOLDER));
}

fn sample_post() -> Post {
    Post {
        id: "9".into(),
        blog_name: "b".into(),
        post_url: "u".into(),
        post_type: "text".into(),
        original_type: None,
        timestamp: 5,
        date: Some("d".into()),
        content: vec![ContentBlock::Paywall { text: None }],
        trail: vec![TrailItem {
            content: vec![],
            blog: Some(TrailBlog { name: Some("n".into()), url: None, uuid: None }),
            post: None,
            is_root_item: true,
        }],
        tags: vec!["x".into()],
        summary: None,
        note_count: 3,
        slug: None,
        short_url: None,
        reblog_key: "k".into(),
        state: None,
        reblogged_from_name: Some("r".into()),
        reblogged_from_url: None,
        reblogged_root_name: None,
        reblogged_root_url: None,
        liked: false,
        followed: true,
    }
}

#[test]
fn post_and_trail_values() {
    let post = sample_post();
    let v = post_to_value(&post);
    match &v {
        TemplateValue::Dict(e) => {
            assert_eq!(e.len(), 22);
            assert_eq!(e[0].0, "id");
            assert!(matches!(&e[0].1, TemplateValue::Str(s) if s == "9"));
            assert!(matches!(e[11].1, TemplateValue::UInt(3)));
        }
        _ => panic!("expected a map"),
    }
    match trail_item_to_value(&post.trail[0]) {
        TemplateValue::Dict(e) => assert!(matches!(e[3].1, TemplateValue::Bool(true))),
        _ => panic!("expected a map"),
    }
    match render_context(&post, Some("8.html")) {
        TemplateValue::Dict(e) => {
            assert!(matches!(e[1].1, TemplateValue::Bool(true)));
            assert!(matches!(e[2].1, TemplateValue::Bool(false)));
            assert!(matches!(&e[3].1, TemplateValue::Str(s) if s == "8.html"));
        }
        _ => panic!("expected a map"),
    }
}

#[test]
fn video_value_rendering_leaves_out_the_duration() {
    let b = ContentBlock::Video {
        media: Some(vec![media("v.mp4", None, None)]),
        url: None,
        provider: None,
        embed_html: None,
        duration: Some(12),
    };
    assert_eq!(
        render_content_block(&b),
        r#"<div class="content-block video-embed"><video controls src="v.mp4"></video> (12s)</div>"#
    );
    assert_eq!(
        render_block_from_value(&content_block_to_value(&b)),
        r#"<div class="content-block video-embed"><video controls src="v.mp4"></video></div>"#
    );
}

#[test]
fn test_post_renderer_default() {
    let renderer = PostRenderer::new();
    assert_eq!(renderer.template_name, "post");
}

#[test]
fn image_without_media_and_audio_media_values() {
    match content_block_to_value(&ContentBlock::Image { media: vec![], alt_text: None, caption: None }) {
        TemplateValue::Dict(e) => {
            assert!(matches!(&e[0].1, TemplateValue::Str(s) if s == "image"));
            assert!(matches!(&e[1].1, TemplateValue::List(items) if items.is_empty()));
        }
        _ => panic!("expected a map"),
    }
    let audio = ContentBlock::Audio {
        media: Some(media("song.mp3", None, None)),
        url: None,
        provider: None,
        artist: None,
        album: None,
        title: None,
        embed_html: None,
    };
    match content_block_to_value(&audio) {
        TemplateValue::Dict(e) => match &e[1].1 {
            TemplateValue::List(items) => {
                assert_eq!(items.len(), 1);
                assert!(matches!(&items[0], TemplateValue::Dict(m) if m[0].0 == "url"
                    && matches!(&m[0].1, TemplateValue::Str(u) if u == "song.mp3")
                    && m[1].0 == "media_type"));
            }
            _ => panic!("expected a list"),
        },
        _ => panic!("expected a map"),
    }
}

#[test]
fn renderer_renders_custom_and_default_templates() {
    let post = sample_post();
    let custom = PostRenderer::with_template(
        "{{ post.id }}|{{ is_reblog }}|{{ newer_href }}|{% for b in post.content %}{{ render_block(b) }}{% endfor %}",
    )
    .unwrap();
    assert_eq!(
        custom.render(&post, Some("8.html")).unwrap(),
        r#"9|True|8.html|<div class="content-block paywall">Premium content</div>"#
    );
    let page = PostRenderer::new().render(&post, None).unwrap();
    assert!(page.contains("Premium content"));
    assert!(page.contains(OLDER_NAV_PLACEHOLDER));
    assert!(PostRenderer::with_template("{% if %}").is_err());
}

use archivr::images::{
    collect_image_urls, encode, local_filename_for_url, local_relative_path, rewrite_post_image_urls,
    unique_urls, RewrittenPost, UrlMap,
};
use archivr::post::{ContentBlock, MediaObject, Post, TrailItem};

fn make_media(url: &str, has_original: Option<bool>) -> MediaObject {
    MediaObject {
        url: url.to_owned(),
        media_type: None,
        width: None,
        height: None,
        has_original_dimensions: has_original,
    }
}

fn make_post(content: Vec<ContentBlock>, trail: Vec<TrailItem>) -> Post {
    Post {
        id: "123".to_owned(),
        blog_name: "test".to_owned(),
        post_url: "https://test.tumblr.com/post/123".to_owned(),
        post_type: "text".to_owned(),
        original_type: None,
        timestamp: 1700000000,
        date: None,
        content,
        trail,
        tags: vec![],
        summary: None,
        note_count: 0,
        slug: None,
        short_url: None,
        reblog_key: "abc".to_owned(),
        state: None,
        reblogged_from_name: None,
        reblogged_from_url: None,
        reblogged_root_name: None,
        reblogged_root_url: None,
        liked: false,
        followed: false,
    }
}

fn image(media: Vec<MediaObject>) -> ContentBlock {
    ContentBlock::Image { media, alt_text: None, caption: None }
}

#[test]
fn collect_image_urls_from_content() {
    let post = make_post(
        vec![image(vec![
            make_media("https://cdn.tumblr.com/small.jpg", None),
            make_media("https://cdn.tumblr.com/original.jpg", Some(true)),
        ])],
        vec![],
    );

    let urls = collect_image_urls(&post);
    assert_eq!(urls.len(), 1);
    // Should prefer the original-dimensions image
    assert_eq!(urls[0], "https://cdn.tumblr.com/original.jpg");
}

#[test]
fn collect_image_urls_falls_back_to_first() {
    let post = make_post(vec![image(vec![make_media("https://cdn.tumblr.com/only.jpg", None)])], vec![]);

    let urls = collect_image_urls(&post);
    assert_eq!(urls.len(), 1);
    assert_eq!(urls[0], "https://cdn.tumblr.com/only.jpg");
}

#[test]
fn collect_image_urls_skips_empty_media() {
    let post = make_post(vec![image(vec![])], vec![]);

    assert!(collect_image_urls(&post).is_empty());
}

#[test]
fn collect_image_urls_includes_trail() {
    let trail = vec![TrailItem {
        content: vec![image(vec![make_media("https://cdn.tumblr.com/trail.jpg", Some(true))])],
        post: None,
        blog: None,
        is_root_item: false,
    }];

    let post = make_post(vec![], trail);
    let urls = collect_image_urls(&post);
    assert_eq!(urls.len(), 1);
    assert_eq!(urls[0], "https://cdn.tumblr.com/trail.jpg");
}

#[test]
fn collect_image_urls_ignores_non_image_blocks() {
    let post = make_post(
        vec![ContentBlock::Text { text: "hello".to_owned(), subtype: None }],
        vec![],
    );

    assert!(collect_image_urls(&post).is_empty());
}

#[test]
fn collect_image_urls_skips_empty_url_and_keeps_order() {
    let post = make_post(
        vec![
            image(vec![make_media("", Some(true))]),
            image(vec![make_media("https://a/1.jpg", None)]),
        ],
        vec![TrailItem {
            content: vec![image(vec![make_media("https://a/2.jpg", None)])],
            post: None,
            blog: None,
            is_root_item: true,
        }],
    );
    assert_eq!(collect_image_urls(&post), vec!["https://a/1.jpg", "https://a/2.jpg"]);
}

#[test]
fn local_filename_deterministic() {
    let url = "https://64.media.tumblr.com/abc123/s540x810/image.jpg";
    let a = local_filename_for_url(url);
    let b = local_filename_for_url(url);
    assert_eq!(a, b);
}

#[test]
fn local_filename_contains_original_name() {
    let filename = local_filename_for_url("https://example.com/path/to/photo.png");
    assert!(filename.ends_with("_photo.png"));
}

#[test]
fn local_filename_strips_query_params() {
    let filename = local_filename_for_url("https://example.com/img.jpg?width=500&quality=80");
    assert!(filename.ends_with("_img.jpg"));
}

#[test]
fn local_filename_different_urls_different_hashes() {
    let a = local_filename_for_url("https://example.com/a.jpg");
    let b = local_filename_for_url("https://example.com/b.jpg");
    assert_ne!(a, b);
}

#[test]
fn local_filename_exact_value() {
    // The SHA-256 of "abc" begins ba7816bf8f01cfea.
    assert_eq!(local_filename_for_url("abc"), "ba7816bf8f01cfea_abc");
    assert_eq!(local_filename_for_url("https://x.org/dir/"), format!("{}_image", &local_filename_for_url("https://x.org/dir/")[..16]));
    assert!(local_filename_for_url("https://x.org/dir/").ends_with("_image"));
    assert_eq!(local_filename_for_url("https://x.org/dir/").len(), 16 + 6);
}

#[test]
fn hex_encoding_is_lowercase_two_digits_per_byte() {
    assert_eq!(encode(&[0x00, 0x0f, 0xab, 0xff]), "000fabff");
    assert_eq!(encode(&[]), "");
}

#[test]
fn relative_path_prefixes_the_local_name() {
    assert_eq!(local_relative_path("media/", "abc"), "media/ba7816bf8f01cfea_abc");
}

#[test]
fn unique_urls_keeps_first_occurrences() {
    let urls = vec!["b".to_owned(), "a".to_owned(), "b".to_owned(), "c".to_owned(), "a".to_owned()];
    assert_eq!(unique_urls(&urls), vec!["b", "a", "c"]);
}

#[test]
fn url_map_insert_get() {
    let mut m = UrlMap::new();
    assert!(m.is_empty());
    m.insert("u".to_owned(), "p1".to_owned());
    m.insert("v".to_owned(), "p2".to_owned());
    m.insert("u".to_owned(), "p3".to_owned());
    assert!(!m.is_empty());
    assert_eq!(m.get(&"u".to_owned()).map(|s| s.as_str()), Some("p3"));
    assert_eq!(m.get(&"v".to_owned()).map(|s| s.as_str()), Some("p2"));
    assert!(!m.contains_key(&"w".to_owned()));
}

#[test]
fn rewrite_post_image_urls_no_map() {
    let post = make_post(vec![image(vec![make_media("https://cdn.tumblr.com/img.jpg", Some(true))])], vec![]);

    let result = rewrite_post_image_urls(&post, &UrlMap::new());
    assert!(matches!(result, RewrittenPost::Borrowed(_)));
}

#[test]
fn rewrite_post_image_urls_with_map() {
    let post = make_post(vec![image(vec![make_media("https://cdn.tumblr.com/img.jpg", Some(true))])], vec![]);

    let mut url_map = UrlMap::new();
    url_map.insert(
        "https://cdn.tumblr.com/img.jpg".to_owned(),
        "media/images/local.jpg".to_owned(),
    );

    let result = rewrite_post_image_urls(&post, &url_map);
    assert!(matches!(result, RewrittenPost::Owned(_)));

    if let ContentBlock::Image { media, .. } = &result.get().content[0] {
        assert_eq!(media[0].url, "media/images/local.jpg");
    } else {
        panic!("expected Image block");
    }
}

#[test]
fn rewrite_leaves_unmapped_urls_and_other_posts_alone() {
    let post = make_post(
        vec![image(vec![make_media("https://a/1.jpg", None), make_media("https://a/2.jpg", Some(true))])],
        vec![TrailItem {
            content: vec![image(vec![make_media("https://a/3.jpg", None)])],
            post: None,
            blog: None,
            is_root_item: false,
        }],
    );
    let mut url_map = UrlMap::new();
    url_map.insert("https://a/3.jpg".to_owned(), "media/3.jpg".to_owned());
    url_map.insert("https://elsewhere/9.jpg".to_owned(), "media/9.jpg".to_owned());
    let result = rewrite_post_image_urls(&post, &url_map);
    let p = result.get();
    assert!(matches!(result, RewrittenPost::Owned(_)));
    assert_eq!(collect_image_urls(p), vec!["https://a/2.jpg", "media/3.jpg"]);
    assert_eq!(p.id, "123");

    let mut unrelated = UrlMap::new();
    unrelated.insert("https://elsewhere/9.jpg".to_owned(), "x".to_owned());
    assert!(matches!(rewrite_post_image_urls(&post, &unrelated), RewrittenPost::Borrowed(_)));
}

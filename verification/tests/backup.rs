use archivr::backup::{
    callback_response, finalize_content, media_location, newest_timestamp, output_location,
    after_batch, post_relative_href, rate_limit_message, resume_message, resume_params, BatchStep,
    PageChain,
};
use archivr::job::{now_timestamp, unix_seconds, JobState};
use archivr::template::OLDER_NAV_PLACEHOLDER;

#[test]
fn relative_hrefs() {
    assert_eq!(post_relative_href("42", true), "../42/");
    assert_eq!(post_relative_href("42", false), "42.html");
}

#[test]
fn finalize_replaces_every_placeholder() {
    let page = format!("a{OLDER_NAV_PLACEHOLDER}b{OLDER_NAV_PLACEHOLDER}");
    assert_eq!(finalize_content(&page, "X"), "aXbX");
    assert_eq!(finalize_content("plain", "X"), "plain");
}

#[test]
fn page_chain_links_each_page_to_the_next_older_one() {
    let mut chain = PageChain::new();
    assert!(chain.newer_href().is_none());
    let first = format!("p1 {OLDER_NAV_PLACEHOLDER}");
    assert!(chain.push(first, "1.html".into(), "1.html".into()).is_none());
    assert_eq!(chain.newer_href(), Some("1.html"));
    let done = chain.push(format!("p2 {OLDER_NAV_PLACEHOLDER}"), "2.html".into(), "2.html".into()).unwrap();
    assert_eq!(done.output_file, "1.html");
    assert_eq!(done.content, r#"p1 <a href="2.html">Older &rarr;</a>"#);
    let last = chain.finish().unwrap();
    assert_eq!(last.output_file, "2.html");
    assert_eq!(last.content, "p2 <span></span>");
    assert!(chain.finish().is_none());
}

#[test]
fn newest_timestamp_keeps_maximum() {
    assert_eq!(newest_timestamp(None, 5), Some(5));
    assert_eq!(newest_timestamp(Some(7), 5), Some(7));
    assert_eq!(newest_timestamp(Some(7), 9), Some(9));
}

#[test]
fn rate_limit_messages() {
    assert_eq!(
        rate_limit_message(Some(30)),
        "Hit rate limit. Retry after 30 seconds. Use --resume to continue from where you left off."
    );
    assert_eq!(
        rate_limit_message(None),
        "Hit rate limit, please retry later. Use --resume to continue from where you left off."
    );
}

#[test]
fn locations() {
    let m = media_location("/out", "7", true);
    assert_eq!(m.media_dir, "/out/7/media");
    assert_eq!(m.relative_prefix, "media/");
    let m = media_location("/out", "7", false);
    assert_eq!(m.media_dir, "/out/media/images");
    assert_eq!(m.relative_prefix, "media/images/");
    let o = output_location("/out", "7", true, true);
    assert_eq!(o.post_dir.as_deref(), Some("/out/7"));
    assert_eq!(o.output_file, "/out/7/index.json");
    let o = output_location("/out", "7", false, false);
    assert!(o.post_dir.is_none());
    assert_eq!(o.output_file, "/out/7.html");
}

fn job() -> JobState {
    JobState {
        blog_name: "b".into(),
        offset: 0,
        started_at: 0,
        before: Some(100),
        after: Some(-3),
        json: true,
        directories: false,
        save_images: true,
        template_path: Some("t.html".into()),
    }
}

#[test]
fn resume_parameters_and_message() {
    assert_eq!(
        resume_params(&job()),
        vec!["--json", "--save-images", "--before 100", "--after -3", "--template t.html"]
    );
    assert_eq!(
        resume_message(&job()),
        "Resuming with saved parameters: --json --save-images --before 100 --after -3 --template t.html"
    );
    let plain = JobState { before: None, after: None, json: false, save_images: false, template_path: None, ..job() };
    assert_eq!(resume_message(&plain), "Resuming with default parameters");
}

#[test]
fn callback_response_is_exact() {
    let body = "<h1>Success!</h1><p>You can close this tab.</p>";
    assert_eq!(
        callback_response(),
        format!(
            "HTTP/1.1 200 OK\r\nContent-Type: text/html\r\nContent-Length: {}\r\nConnection: close\r\n\r\n{}",
            body.len(),
            body
        )
    );
}

#[test]
fn job_advances_past_each_batch() {
    let mut j = job();
    j.advance(20);
    j.advance(7);
    assert_eq!(j.offset, 27);
    assert_eq!(j.blog_name, "b");
    assert_eq!(j.template_path.as_deref(), Some("t.html"));
}

#[test]
fn an_empty_batch_ends_the_run() {
    let mut j = job();
    assert!(matches!(after_batch(&mut j, 20), BatchStep::Next));
    assert_eq!(j.offset, 20);
    assert!(matches!(after_batch(&mut j, 0), BatchStep::Done));
    assert_eq!(j.offset, 20);
}

#[test]
fn unix_seconds_counts_back_before_the_epoch_and_clamps() {
    assert_eq!(unix_seconds(true, 1_700_000_000), 1_700_000_000);
    assert_eq!(unix_seconds(false, 5), -5);
    assert_eq!(unix_seconds(true, u64::MAX), i64::MAX);
    assert_eq!(unix_seconds(false, u64::MAX), -i64::MAX);
    assert!(now_timestamp() > 1_600_000_000);
}

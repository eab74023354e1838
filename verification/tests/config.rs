use archivr::cmd::Args;
use archivr::config::{Config, ResolvedConfig};
use archivr::job::JobState;
use archivr::ArchivrError;

fn base_args() -> Args {
    Args {
        blog_name: "testblog".to_owned(),
        consumer_key: Some("key".to_owned()),
        consumer_secret: Some("secret".to_owned()),
        config_file: None,
        resume: false,
        incremental: false,
        template: None,
        directories: false,
        save_images: false,
        json: false,
        output_dir: Some("/tmp/test-output".to_owned()),
        before: None,
        after: None,
        quiet: false,
        reauth: false,
        cookies_file: None,
        dashboard: false,
        headless: false,
    }
}

#[test]
fn from_args_basic() {
    let config = ResolvedConfig::from_args(base_args(), None, "/cwd").unwrap();
    assert_eq!(config.blog_name, "testblog");
    assert_eq!(config.consumer_key, "key");
    assert_eq!(config.consumer_secret, "secret");
    assert_eq!(config.output_dir, "/tmp/test-output");
}

#[test]
fn from_args_missing_consumer_key() {
    let mut args = base_args();
    args.consumer_key = None;
    let result = ResolvedConfig::from_args(args, None, "/cwd");
    assert!(result.is_err());
    assert!(result.err().unwrap().message().contains("Consumer key"));
}

#[test]
fn from_args_missing_consumer_secret() {
    let mut args = base_args();
    args.consumer_secret = None;
    let result = ResolvedConfig::from_args(args, None, "/cwd");
    assert!(result.is_err());
    assert!(result.err().unwrap().message().contains("Consumer secret"));
}

#[test]
fn output_dir_defaults_to_blog_name() {
    let mut args = base_args();
    args.output_dir = None;
    let config = ResolvedConfig::from_args(args, None, "/home/user").unwrap();
    // Should end with the blog name
    assert!(config.output_dir.ends_with("testblog"));
    assert_eq!(config.output_dir, "/home/user/testblog");
}

fn file_config() -> Config {
    Config {
        blog_name: "other".to_owned(),
        consumer_key: None,
        consumer_secret: None,
        output_dir: None,
        template: None,
        directories: false,
        save_images: false,
        json: false,
        resume: false,
        incremental: false,
        quiet: false,
        reauth: false,
        before: None,
        after: None,
        cookies_file: None,
        dashboard: false,
        headless: false,
    }
}

#[test]
fn config_file_gives_every_setting() {
    let mut args = base_args();
    args.consumer_key = None;
    args.consumer_secret = None;
    args.output_dir = None;
    let mut config = file_config();
    config.consumer_key = Some("k".to_owned());
    config.consumer_secret = Some("s".to_owned());
    config.save_images = true;
    config.directories = true;
    config.output_dir = Some("/backups/b".to_owned());
    config.template = Some("tpl.html".to_owned());
    config.before = Some(100);
    let c = ResolvedConfig::from_args(args, Some(config), "/cwd").unwrap();
    assert_eq!(c.consumer_key, "k");
    assert_eq!(c.consumer_secret, "s");
    assert!(c.save_images && c.directories && !c.json);
    assert_eq!(c.output_dir, "/backups/b");
    assert_eq!(c.template_path.as_deref(), Some("tpl.html"));
    assert_eq!(c.before, Some(100));
    assert_eq!(c.after, None);
}

#[test]
fn command_line_settings_win_over_the_config_file() {
    let mut args = base_args();
    args.before = Some(7);
    args.json = true;
    let mut config = file_config();
    config.before = Some(100);
    config.output_dir = Some("/elsewhere".to_owned());
    let c = ResolvedConfig::from_args(args, Some(config), "/cwd").unwrap();
    assert_eq!(c.before, Some(7));
    assert!(c.json);
    assert_eq!(c.output_dir, "/tmp/test-output");
}

#[test]
fn config_file_fills_missing_credentials_and_arguments_win() {
    let mut args = base_args();
    args.consumer_key = None;
    let mut config = file_config();
    config.consumer_key = Some("file-key".to_owned());
    config.consumer_secret = Some("file-secret".to_owned());
    let resolved = ResolvedConfig::from_args(args, Some(config), "/cwd").unwrap();
    assert_eq!(resolved.consumer_key, "file-key");
    assert_eq!(resolved.consumer_secret, "secret");
}

#[test]
fn missing_key_is_reported_before_missing_secret() {
    let mut args = base_args();
    args.consumer_key = None;
    args.consumer_secret = None;
    let err = ResolvedConfig::from_args(args, None, "/cwd").unwrap_err();
    assert!(matches!(err, ArchivrError::NoConsumerKey));
}

#[test]
fn resumed_job_settings_override_arguments() {
    let mut config = ResolvedConfig::from_args(base_args(), None, "/cwd").unwrap();
    let job = JobState {
        blog_name: "testblog".to_owned(),
        offset: 40,
        started_at: 1,
        before: Some(10),
        after: Some(5),
        json: true,
        directories: true,
        save_images: true,
        template_path: Some("t.html".to_owned()),
    };
    config.apply_job_state(&job);
    assert_eq!(config.before, Some(10));
    assert_eq!(config.after, Some(5));
    assert!(config.json && config.directories && config.save_images);
    assert_eq!(config.template_path.as_deref(), Some("t.html"));
    assert_eq!(config.output_dir, "/tmp/test-output");
}

//! Resolving the settings of a run from its arguments and its config file.
use vstd::prelude::*;

use crate::cmd::Args;
use crate::job::JobState;
use crate::path::{ends_with, join_path, joined, plain_base, relative_name, simple_name};
use crate::post::copy_opt_string;
use crate::{ArchivrError, PostTimestamp};

verus! {

/// The contents of a job config file: any of the command-line settings.
#[derive(Debug)]
pub struct Config {
    pub blog_name: String,
    pub consumer_key: Option<String>,
    pub consumer_secret: Option<String>,
    pub output_dir: Option<String>,
    pub template: Option<String>,
    pub directories: bool,
    pub save_images: bool,
    pub json: bool,
    pub resume: bool,
    pub incremental: bool,
    pub quiet: bool,
    pub reauth: bool,
    pub before: Option<PostTimestamp>,
    pub after: Option<PostTimestamp>,
    pub cookies_file: Option<String>,
    pub dashboard: bool,
    pub headless: bool,
}

/// The settings of a backup run.
#[derive(Debug)]
pub struct ResolvedConfig {
    pub blog_name: String,
    pub consumer_key: String,
    pub consumer_secret: String,
    pub output_dir: String,
    pub template_path: Option<String>,
    pub directories: bool,
    pub save_images: bool,
    pub json: bool,
    pub resume: bool,
    pub incremental: bool,
    pub quiet: bool,
    pub reauth: bool,
    pub before: Option<PostTimestamp>,
    pub after: Option<PostTimestamp>,
    pub cookies_file: Option<String>,
    pub dashboard: bool,
    pub headless: bool,
}

/// A value given on the command line wins over the one from the config file.
pub open spec fn first_given<T>(arg: Option<T>, from_file: Option<T>) -> Option<T> {
    match arg {
        Some(v) => Some(v),
        None => from_file,
    }
}

/// The consumer key given by the config file, if any.
pub open spec fn file_key(config: Option<Config>) -> Option<String> {
    match config {
        Some(c) => c.consumer_key,
        None => None,
    }
}

/// The consumer secret given by the config file, if any.
pub open spec fn file_secret(config: Option<Config>) -> Option<String> {
    match config {
        Some(c) => c.consumer_secret,
        None => None,
    }
}

/// A setting of the config file, if there is a file and it gives one.
pub open spec fn file_setting<T>(config: Option<Config>, f: spec_fn(Config) -> Option<T>) -> Option<T> {
    match config {
        Some(c) => f(c),
        None => None,
    }
}

/// A switch of the config file: on when there is a file and it turns it on.
pub open spec fn file_switch(config: Option<Config>, f: spec_fn(Config) -> bool) -> bool {
    match config {
        Some(c) => f(c),
        None => false,
    }
}

impl ResolvedConfig {
    /// Resolves the settings of a run: each setting comes from the arguments or
    /// else from the config file (a switch is on when either turns it on), the
    /// consumer key and secret must come from one of them, and the output
    /// directory defaults to the blog's name under `cwd`, the working directory.
    pub fn from_args(args: Args, config: Option<Config>, cwd: &str) -> (res: Result<ResolvedConfig, ArchivrError>)
        ensures
            first_given(args.consumer_key, file_key(config)) is None <==> res matches Err(
                ArchivrError::NoConsumerKey,
            ),
            first_given(args.consumer_key, file_key(config)) is Some && first_given(
                args.consumer_secret,
                file_secret(config),
            ) is None <==> res matches Err(ArchivrError::NoConsumerSecret),
            res is Err ==> res matches Err(ArchivrError::NoConsumerKey) || res matches Err(
                ArchivrError::NoConsumerSecret,
            ),
            res matches Ok(c) ==> {
                &&& Some(c.consumer_key) == first_given(args.consumer_key, file_key(config))
                &&& Some(c.consumer_secret) == first_given(args.consumer_secret, file_secret(config))
                &&& c.blog_name == args.blog_name
                &&& match first_given(args.output_dir, file_setting(config, |k: Config| k.output_dir)) {
                    Some(d) => c.output_dir == d,
                    None => {
                        &&& relative_name(args.blog_name@) && plain_base(cwd@) ==> joined(
                            cwd@,
                            args.blog_name@,
                            c.output_dir@,
                        )
                        &&& simple_name(args.blog_name@) ==> ends_with(c.output_dir@, args.blog_name@)
                    },
                }
                &&& c.template_path == first_given(args.template, file_setting(config, |k: Config| k.template))
                &&& c.directories == (args.directories || file_switch(config, |k: Config| k.directories))
                &&& c.save_images == (args.save_images || file_switch(config, |k: Config| k.save_images))
                &&& c.json == (args.json || file_switch(config, |k: Config| k.json))
                &&& c.resume == (args.resume || file_switch(config, |k: Config| k.resume))
                &&& c.incremental == (args.incremental || file_switch(config, |k: Config| k.incremental))
                &&& c.quiet == (args.quiet || file_switch(config, |k: Config| k.quiet))
                &&& c.reauth == (args.reauth || file_switch(config, |k: Config| k.reauth))
                &&& c.before == first_given(args.before, file_setting(config, |k: Config| k.before))
                &&& c.after == first_given(args.after, file_setting(config, |k: Config| k.after))
                &&& c.cookies_file == first_given(
                    args.cookies_file,
                    file_setting(config, |k: Config| k.cookies_file),
                )
                &&& c.dashboard == (args.dashboard || file_switch(config, |k: Config| k.dashboard))
                &&& c.headless == (args.headless || file_switch(config, |k: Config| k.headless))
            },
    {
        let (f_key, f_secret, f_out, f_template, f_before, f_after, f_cookies) = match &config {
            Some(c) => (
                copy_opt_string(&c.consumer_key),
                copy_opt_string(&c.consumer_secret),
                copy_opt_string(&c.output_dir),
                copy_opt_string(&c.template),
                c.before,
                c.after,
                copy_opt_string(&c.cookies_file),
            ),
            None => (None, None, None, None, None, None, None),
        };
        let (f_dirs, f_save, f_json, f_resume, f_incr, f_quiet, f_reauth, f_dash, f_head) = match &config {
            Some(c) => (
                c.directories,
                c.save_images,
                c.json,
                c.resume,
                c.incremental,
                c.quiet,
                c.reauth,
                c.dashboard,
                c.headless,
            ),
            None => (false, false, false, false, false, false, false, false, false),
        };
        let consumer_key = match args.consumer_key {
            Some(k) => k,
            None => match f_key {
                Some(k) => k,
                None => return Err(ArchivrError::NoConsumerKey),
            },
        };
        let consumer_secret = match args.consumer_secret {
            Some(k) => k,
            None => match f_secret {
                Some(k) => k,
                None => return Err(ArchivrError::NoConsumerSecret),
            },
        };
        let output_dir = match args.output_dir {
            Some(dir) => dir,
            None => match f_out {
                Some(dir) => dir,
                None => join_path(cwd, args.blog_name.as_str()),
            },
        };
        Ok(
            ResolvedConfig {
                blog_name: args.blog_name,
                consumer_key,
                consumer_secret,
                output_dir,
                template_path: match args.template {
                    Some(t) => Some(t),
                    None => f_template,
                },
                directories: args.directories || f_dirs,
                save_images: args.save_images || f_save,
                json: args.json || f_json,
                resume: args.resume || f_resume,
                incremental: args.incremental || f_incr,
                quiet: args.quiet || f_quiet,
                reauth: args.reauth || f_reauth,
                before: match args.before {
                    Some(t) => Some(t),
                    None => f_before,
                },
                after: match args.after {
                    Some(t) => Some(t),
                    None => f_after,
                },
                cookies_file: match args.cookies_file {
                    Some(t) => Some(t),
                    None => f_cookies,
                },
                dashboard: args.dashboard || f_dash,
                headless: args.headless || f_head,
            },
        )
    }

    /// Takes over the settings that a resumed job was started with.
    pub fn apply_job_state(&mut self, job: &JobState)
        ensures
            final(self).before == job.before,
            final(self).after == job.after,
            final(self).json == job.json,
            final(self).directories == job.directories,
            final(self).save_images == job.save_images,
            final(self).template_path == job.template_path,
            final(self).blog_name == old(self).blog_name,
            final(self).consumer_key == old(self).consumer_key,
            final(self).consumer_secret == old(self).consumer_secret,
            final(self).output_dir == old(self).output_dir,
            final(self).resume == old(self).resume,
            final(self).incremental == old(self).incremental,
            final(self).quiet == old(self).quiet,
            final(self).reauth == old(self).reauth,
            final(self).cookies_file == old(self).cookies_file,
            final(self).dashboard == old(self).dashboard,
            final(self).headless == old(self).headless,
    {
        self.before = job.before;
        self.after = job.after;
        self.json = job.json;
        self.directories = job.directories;
        self.save_images = job.save_images;
        self.template_path = copy_opt_string(&job.template_path);
    }
}

} // verus!

//! The record of a backup job in progress, kept so that it can be resumed.
use vstd::prelude::*;

use crate::config::ResolvedConfig;
use crate::path::{ends_with, join_path, joined, plain_base, relative_name, simple_name};
use crate::post::copy_opt_string;
use crate::PostTimestamp;

verus! {

/// The name of the job file inside the output directory.
pub const JOB_FILE_PATH: &'static str = ".archivr-job.json";

/// A backup job: how far it got and the settings it was started with.
#[derive(Debug)]
pub struct JobState {
    pub blog_name: String,
    pub offset: u64,
    pub started_at: PostTimestamp,
    pub before: Option<PostTimestamp>,
    pub after: Option<PostTimestamp>,
    pub json: bool,
    pub directories: bool,
    pub save_images: bool,
    pub template_path: Option<String>,
}

#[verifier::external_type_specification]
#[verifier::external_body]
pub struct ExSystemTime(std::time::SystemTime);

#[verifier::external_type_specification]
#[verifier::external_body]
pub struct ExSystemTimeError(std::time::SystemTimeError);

/// Reads the system clock with `std::time::SystemTime::now`. Trusted for
/// nothing: no claim is made of the time it gives.
#[verifier::external_body]
fn system_now() -> std::time::SystemTime {
    std::time::SystemTime::now()
}

/// The time from the Unix epoch to `t`, with `SystemTime::duration_since`; an
/// error when `t` lies before the epoch. Trusted for nothing.
#[verifier::external_body]
fn since_epoch(t: &std::time::SystemTime) -> Result<core::time::Duration, std::time::SystemTimeError> {
    t.duration_since(std::time::UNIX_EPOCH)
}

/// How far before the epoch a time lay, with `SystemTimeError::duration`.
/// Trusted for nothing.
#[verifier::external_body]
fn time_before_epoch(e: &std::time::SystemTimeError) -> core::time::Duration {
    e.duration()
}

/// The whole seconds of a duration, with `Duration::as_secs`. Trusted for nothing.
#[verifier::external_body]
fn whole_seconds(d: &core::time::Duration) -> u64 {
    d.as_secs()
}

/// A whole number of seconds after (or before) the Unix epoch as a Unix
/// timestamp, held within the range of `i64`.
pub open spec fn unix_time(after_epoch: bool, secs: u64) -> int {
    let s: int = if secs > i64::MAX {
        i64::MAX as int
    } else {
        secs as int
    };
    if after_epoch {
        s
    } else {
        -s
    }
}

/// The Unix timestamp of a time `secs` whole seconds after the epoch, or
/// before it when `after_epoch` is false, held within the range of `i64`.
pub fn unix_seconds(after_epoch: bool, secs: u64) -> (res: i64)
    ensures
        res == unix_time(after_epoch, secs),
{
    let s: i64 = if secs > i64::MAX as u64 {
        i64::MAX
    } else {
        secs as i64
    };
    if after_epoch {
        s
    } else {
        -s
    }
}

/// The current Unix time in whole seconds (counted back from the epoch for a
/// clock set before it, and held within the range of `i64`), read without
/// ever panicking, whatever the clock says.
pub fn now_timestamp() -> (res: i64)
    ensures
        exists|after_epoch: bool, secs: u64| res == #[trigger] unix_time(after_epoch, secs),
{
    let t = system_now();
    match since_epoch(&t) {
        Ok(d) => unix_seconds(true, whole_seconds(&d)),
        Err(e) => {
            let d = time_before_epoch(&e);
            unix_seconds(false, whole_seconds(&d))
        },
    }
}

impl JobState {
    /// A new job for `config`, at offset 0, started at `started_at`.
    pub fn new_at(config: &ResolvedConfig, started_at: PostTimestamp) -> (res: JobState)
        ensures
            res.blog_name == config.blog_name,
            res.offset == 0,
            res.started_at == started_at,
            res.before == config.before,
            res.after == config.after,
            res.json == config.json,
            res.directories == config.directories,
            res.save_images == config.save_images,
            res.template_path == config.template_path,
    {
        JobState {
            blog_name: config.blog_name.clone(),
            offset: 0,
            started_at,
            before: config.before,
            after: config.after,
            json: config.json,
            directories: config.directories,
            save_images: config.save_images,
            template_path: copy_opt_string(&config.template_path),
        }
    }

    /// A new job for `config`, at offset 0, started now.
    pub fn new(config: &ResolvedConfig) -> (res: JobState)
        ensures
            res.blog_name == config.blog_name,
            res.offset == 0,
            res.before == config.before,
            res.after == config.after,
            res.json == config.json,
            res.directories == config.directories,
            res.save_images == config.save_images,
            res.template_path == config.template_path,
    {
        Self::new_at(config, now_timestamp())
    }

    /// Moves the job past a batch of `fetched` posts, so that a resumed run
    /// starts after them.
    pub fn advance(&mut self, fetched: u64)
        requires
            old(self).offset + fetched <= u64::MAX,
        ensures
            final(self).offset == old(self).offset + fetched,
            final(self).blog_name == old(self).blog_name,
            final(self).started_at == old(self).started_at,
            final(self).before == old(self).before,
            final(self).after == old(self).after,
            final(self).json == old(self).json,
            final(self).directories == old(self).directories,
            final(self).save_images == old(self).save_images,
            final(self).template_path == old(self).template_path,
    {
        self.offset = self.offset + fetched;
    }

    /// The path of the job file in `output_dir`.
    pub fn job_file_path(output_dir: &str) -> (res: String)
        ensures
            plain_base(output_dir@) ==> joined(output_dir@, JOB_FILE_PATH@, res@),
            ends_with(res@, JOB_FILE_PATH@),
    {
        proof {
            reveal_strlit(".archivr-job.json");
            assert(relative_name(".archivr-job.json"@));
            assert(".archivr-job.json"@.len() != seq!['.'].len());
            assert(".archivr-job.json"@.len() != seq!['.', '.'].len());
            assert(simple_name(".archivr-job.json"@));
        }
        join_path(output_dir, JOB_FILE_PATH)
    }
}

} // verus!

//! The record of the most recent successful backup.
use vstd::prelude::*;

use crate::path::{ends_with, join_path, joined, plain_base, relative_name, simple_name};
use crate::PostTimestamp;

verus! {

/// The name of the state file inside the output directory.
pub const STATE_FILE_PATH: &'static str = ".archivr-state.json";

/// Persistent record of the most recent successful backup, kept across runs.
#[derive(Debug)]
pub struct BackupState {
    pub blog_name: String,
    pub last_run_at: PostTimestamp,
    pub newest_post_timestamp: PostTimestamp,
}

impl BackupState {
    /// The path of the state file in `output_dir`.
    pub fn state_file_path(output_dir: &str) -> (res: String)
        ensures
            plain_base(output_dir@) ==> joined(output_dir@, STATE_FILE_PATH@, res@),
            ends_with(res@, STATE_FILE_PATH@),
    {
        proof {
            reveal_strlit(".archivr-state.json");
            assert(relative_name(".archivr-state.json"@));
            assert(".archivr-state.json"@.len() != seq!['.'].len());
            assert(".archivr-state.json"@.len() != seq!['.', '.'].len());
            assert(simple_name(".archivr-state.json"@));
        }
        join_path(output_dir, STATE_FILE_PATH)
    }
}

} // verus!

use archivr::job::JobState;
use archivr::state::BackupState;

#[test]
fn job_file_path_joins_correctly() {
    let path = JobState::job_file_path("/tmp/output");
    assert_eq!(path.as_str(), "/tmp/output/.archivr-job.json");
}

#[test]
fn state_file_path_joins_correctly() {
    let path = BackupState::state_file_path("/tmp/output");
    assert_eq!(path.as_str(), "/tmp/output/.archivr-state.json");
}

#[test]
fn job_file_path_after_trailing_separator() {
    assert_eq!(JobState::job_file_path("/tmp/output/"), "/tmp/output/.archivr-job.json");
}

#[test]
fn joined_paths_end_with_the_name() {
    assert!(JobState::job_file_path("C:relative").ends_with(".archivr-job.json"));
    assert!(BackupState::state_file_path("").ends_with(".archivr-state.json"));
    assert_eq!(JobState::job_file_path(""), ".archivr-job.json");
}

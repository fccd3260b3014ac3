use ipa_webtool::models::ApiResponse;
use ipa_webtool::jobs::{status_of, DownloadJob, JobStatus};
use ipa_webtool::models::{usable_versions, Config, VersionInfo, VersionsResponse};
use ipa_webtool::orchestrator::JobPhase;

fn version(v: &str, id: i64) -> VersionInfo {
    VersionInfo { bundle_version: v.to_string(), external_identifier: id, size: 1, created_at: String::new() }
}

#[test]
fn config_defaults() {
    let c = Config::from_values(None, None, "/tmp/ipa-uploads".to_string(), None, None);
    assert_eq!(c.port, 8080);
    assert_eq!(c.data_dir, "./data");
    assert_eq!(c.database_path, "./data/ipa-webtool.db");
    assert_eq!(c.max_file_size, 2 * 1024 * 1024 * 1024);
    assert_eq!(c.max_concurrent_downloads, 10);
    let c = Config::from_values(Some(9000), Some("/srv".to_string()), "t".to_string(), Some(5), Some(2));
    assert_eq!(c.port, 9000);
    assert_eq!(c.database_path, "/srv/ipa-webtool.db");
    assert_eq!(c.max_file_size, 5);
    assert_eq!(c.max_concurrent_downloads, 2);
}

#[test]
fn versions_without_number_or_id_are_dropped() {
    let all = vec![version("1.0", 10), version("", 11), version("1.1", 0), version("1.2", 12)];
    let kept = usable_versions(all);
    let names: Vec<&str> = kept.iter().map(|v| v.bundle_version.as_str()).collect();
    assert_eq!(names, vec!["1.0", "1.2"]);
    let r = VersionsResponse::from_versions(vec![version("3", 3), version("", 4)], "US".to_string());
    assert!(r.ok);
    assert_eq!(r.total, 1);
    assert_eq!(r.region, "US");
}

#[test]
fn job_status_moves_forward_only() {
    let mut job = DownloadJob::new("job-1".to_string(), "t0".to_string());
    assert_eq!(job.status(), JobStatus::Pending);
    assert_eq!(job.logs().len(), 1);
    assert!(job.transition(JobStatus::Downloading, "[download] start".to_string(), "t1".to_string()));
    assert!(!job.transition(JobStatus::Pending, "back".to_string(), "t2".to_string()));
    assert_eq!(job.status(), JobStatus::Downloading);
    job.set_progress(250);
    assert_eq!(job.progress(), 100);
    assert!(job.cancel("t3".to_string()));
    assert_eq!(job.status(), JobStatus::Cancelled);
    assert!(!job.fail("late".to_string(), "t4".to_string()));
    assert_eq!(job.status(), JobStatus::Cancelled);
    assert_eq!(job.logs().len(), 3);
}

#[test]
fn job_finish_and_fail() {
    let mut job = DownloadJob::new("job-2".to_string(), "t0".to_string());
    assert!(job.fail("boom".to_string(), "t1".to_string()));
    assert_eq!(job.error().as_deref(), Some("boom"));
    assert!(!job.finish("/x".to_string(), "x".to_string(), "t2".to_string()));
    let mut job = DownloadJob::new("job-3".to_string(), "t0".to_string());
    assert!(job.finish("/d/Demo_1.ipa".to_string(), "Demo_1.ipa".to_string(), "t1".to_string()));
    assert_eq!(job.status(), JobStatus::Done);
    assert_eq!(job.progress(), 100);
    assert_eq!(job.file_path().as_deref(), Some("/d/Demo_1.ipa"));
}

#[test]
fn machine_phases_map_to_statuses() {
    assert_eq!(status_of(JobPhase::Recheck), JobStatus::Pending);
    assert_eq!(status_of(JobPhase::Download), JobStatus::Downloading);
    assert_eq!(status_of(JobPhase::Failed), JobStatus::Error);
}

#[test]
fn api_envelopes() {
    let ok = ApiResponse::success(7u32);
    assert!(ok.ok);
    assert_eq!(ok.data, Some(7));
    assert!(ok.error.is_none());
    let err: ApiResponse<u32> = ApiResponse::error("无效的 token".to_string());
    assert!(!err.ok);
    assert!(err.data.is_none());
    assert_eq!(err.error.as_deref(), Some("无效的 token"));
}

#[test]
fn cancel_keeps_progress_and_error() {
    let mut job = DownloadJob::new("job-4".to_string(), "t0".to_string());
    job.transition(JobStatus::Downloading, "start".to_string(), "t1".to_string());
    job.set_progress(40);
    assert!(job.cancel("t2".to_string()));
    assert_eq!(job.progress(), 40);
    assert!(job.error().is_none());
    assert!(job.file_path().is_none());
}

#[test]
fn job_endings_are_logged() {
    let mut job = DownloadJob::new("job-5".to_string(), "t0".to_string());
    job.cancel("t1".to_string());
    assert_eq!(job.logs().last().map(String::as_str), Some("任务已取消"));
    let mut job = DownloadJob::new("job-6".to_string(), "t0".to_string());
    job.fail("boom".to_string(), "t1".to_string());
    assert_eq!(job.logs().last().map(String::as_str), Some("boom"));
    let mut job = DownloadJob::new("job-7".to_string(), "t0".to_string());
    job.finish("/p".to_string(), "p".to_string(), "t1".to_string());
    assert_eq!(job.logs().last().map(String::as_str), Some("下载完成"));
}

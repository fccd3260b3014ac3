use ipa_webtool::chunks::CHUNK_SIZE;
use ipa_webtool::jobs::progress_report;
use ipa_webtool::orchestrator::{
    download_metadata, output_file_name, DownloadTask, JobPhase, TaskAction, TaskEvent,
};
use ipa_webtool::remote::{ItemMetadata, SinfEntry, SongItem, StoreResponse};
use ipa_webtool::signature::SignError;

fn denial(failure: &str, customer: Option<&str>) -> StoreResponse {
    StoreResponse {
        failure_type: Some(failure.to_string()),
        customer_message: customer.map(String::from),
        message: None,
        song: None,
    }
}

fn metadata() -> ItemMetadata {
    ItemMetadata {
        bundle_display_name: Some("Demo".to_string()),
        bundle_short_version_string: Some("2.1".to_string()),
        bundle_id: Some("com.example.demo".to_string()),
        artwork_url_60: None,
        artwork_url_512: Some("https://img/512.png".to_string()),
        artwork_url_100: Some("https://img/100.png".to_string()),
        artwork_url: None,
        artist_name: Some("Example".to_string()),
    }
}

fn granted() -> StoreResponse {
    StoreResponse {
        failure_type: None,
        customer_message: None,
        message: None,
        song: Some(SongItem {
            url: Some("https://cdn/pkg.ipa".to_string()),
            metadata: Some(metadata()),
            sinfs: vec![SinfEntry { id: Some(0), sinf: Some("AQID".to_string()) }],
        }),
    }
}

fn purchase_ok() -> StoreResponse {
    StoreResponse { failure_type: None, customer_message: None, message: None, song: None }
}

#[test]
fn license_not_found_with_auto_purchase_proceeds_to_download() {
    let mut task = DownloadTask::new(true);
    assert_eq!(task.first_action(), TaskAction::ResolveContent);
    let a = task.step(TaskEvent::Resolved(denial("License not found", None)));
    assert_eq!(a, TaskAction::Purchase);
    assert_eq!(task.phase(), JobPhase::Purchase);
    let a = task.step(TaskEvent::Purchased(purchase_ok()));
    assert_eq!(a, TaskAction::ResolveContent);
    assert_eq!(task.phase(), JobPhase::Recheck);
    let a = task.step(TaskEvent::Resolved(granted()));
    assert_eq!(a, TaskAction::FetchSize);
    assert_eq!(task.phase(), JobPhase::Download);
}

#[test]
fn unauthorized_denial_is_generic() {
    let mut task = DownloadTask::new(true);
    let a = task.step(TaskEvent::Resolved(denial("2034", Some("unauthorized"))));
    assert_eq!(a, TaskAction::Stop);
    assert_eq!(task.phase(), JobPhase::Failed);
    let r = task.result();
    assert!(!r.ok);
    assert!(!r.needs_purchase);
    assert!(!r.needs_reauth);
    assert_eq!(r.error.as_deref(), Some("unauthorized"));
}

#[test]
fn token_expired_needs_reauth_regardless_of_auto_purchase() {
    for auto in [true, false] {
        let mut task = DownloadTask::new(auto);
        let a = task.step(TaskEvent::Resolved(denial("Token expired", None)));
        assert_eq!(a, TaskAction::Stop);
        let r = task.result();
        assert!(!r.ok);
        assert!(r.needs_reauth);
        assert!(!r.needs_purchase);
        assert_eq!(r.error.as_deref(), Some("会话已失效，请重新登录"));
    }
}

#[test]
fn license_error_without_auto_purchase_needs_purchase() {
    let mut task = DownloadTask::new(false);
    let a = task.step(TaskEvent::Resolved(denial("license not found", None)));
    assert_eq!(a, TaskAction::Stop);
    let r = task.result();
    assert!(r.needs_purchase);
    assert!(!r.needs_reauth);
    assert_eq!(r.error.as_deref(), Some("您尚未购买此应用，正在尝试免费获取..."));
}

#[test]
fn failed_purchase_or_recheck_needs_purchase() {
    let mut task = DownloadTask::new(true);
    task.step(TaskEvent::Resolved(denial("license not found", None)));
    task.step(TaskEvent::Purchased(denial("5002", Some("Payment declined"))));
    let r = task.result();
    assert!(r.needs_purchase);
    assert_eq!(r.error.as_deref(), Some("Payment declined"));

    let mut task = DownloadTask::new(true);
    task.step(TaskEvent::Resolved(denial("license not found", None)));
    task.step(TaskEvent::Purchased(purchase_ok()));
    let a = task.step(TaskEvent::Resolved(denial("license not found", None)));
    assert_eq!(a, TaskAction::Stop);
    assert!(task.result().needs_purchase);
}

#[test]
fn generic_denial_defaults_message() {
    let mut task = DownloadTask::new(false);
    task.step(TaskEvent::Resolved(denial("9999", None)));
    assert_eq!(task.result().error.as_deref(), Some("下载失败"));
}

#[test]
fn granted_without_address_fails() {
    let mut task = DownloadTask::new(false);
    let mut r = granted();
    r.song.as_mut().unwrap().url = None;
    assert_eq!(task.step(TaskEvent::Resolved(r)), TaskAction::Stop);
    assert_eq!(task.result().error.as_deref(), Some("Invalid song list"));
}

fn to_download(task: &mut DownloadTask) {
    task.step(TaskEvent::Resolved(granted()));
}

#[test]
fn full_download_with_retries() {
    let mut task = DownloadTask::new(false);
    to_download(&mut task);
    let size = 2 * CHUNK_SIZE + 10;
    let a = task.step(TaskEvent::SizeKnown(size));
    assert_eq!(a, TaskAction::FetchChunk { index: 0, start: 0, end: CHUNK_SIZE - 1, delay_ms: 0 });
    let a = task.step(TaskEvent::ChunkFetched(true));
    assert_eq!(
        a,
        TaskAction::FetchChunk { index: 1, start: CHUNK_SIZE, end: 2 * CHUNK_SIZE - 1, delay_ms: 0 }
    );
    assert_eq!(task.downloaded(), CHUNK_SIZE);
    assert_eq!(task.progress(), 49);
    for k in 1..=4u64 {
        let a = task.step(TaskEvent::ChunkFetched(false));
        assert_eq!(
            a,
            TaskAction::FetchChunk {
                index: 1,
                start: CHUNK_SIZE,
                end: 2 * CHUNK_SIZE - 1,
                delay_ms: 3000 * k
            }
        );
    }
    let a = task.step(TaskEvent::ChunkFetched(true));
    assert_eq!(
        a,
        TaskAction::FetchChunk { index: 2, start: 2 * CHUNK_SIZE, end: size - 1, delay_ms: 0 }
    );
    let a = task.step(TaskEvent::ChunkFetched(true));
    assert_eq!(a, TaskAction::Merge { chunks: 3 });
    assert_eq!(task.downloaded(), size);
    assert_eq!(task.progress(), 100);
    assert_eq!(task.step(TaskEvent::Merged(true)), TaskAction::Sign);
    assert_eq!(task.step(TaskEvent::Signed(None)), TaskAction::Stop);
    let r = task.result();
    assert!(r.ok);
    assert_eq!(r.file.as_deref(), Some("Demo_2.1.ipa"));
    let m = r.metadata.unwrap();
    assert_eq!(m.artwork_url, "https://img/512.png");
    assert_eq!(m.bundle_id, "com.example.demo");
    assert!(r.error.is_none());
}

#[test]
fn five_failures_abort_the_job() {
    let mut task = DownloadTask::new(false);
    to_download(&mut task);
    task.step(TaskEvent::SizeKnown(10));
    for _ in 0..4 {
        assert!(matches!(task.step(TaskEvent::ChunkFetched(false)), TaskAction::FetchChunk { .. }));
    }
    assert_eq!(task.step(TaskEvent::ChunkFetched(false)), TaskAction::Stop);
    let r = task.result();
    assert!(!r.ok);
    assert!(r.file.is_none());
    assert_eq!(r.error.as_deref(), Some("下载重试次数耗尽"));
}

#[test]
fn empty_package_goes_straight_to_merge() {
    let mut task = DownloadTask::new(false);
    to_download(&mut task);
    assert_eq!(task.step(TaskEvent::SizeKnown(0)), TaskAction::Merge { chunks: 0 });
}

#[test]
fn merge_and_sign_failures() {
    let mut task = DownloadTask::new(false);
    to_download(&mut task);
    task.step(TaskEvent::SizeKnown(1));
    task.step(TaskEvent::ChunkFetched(true));
    assert_eq!(task.step(TaskEvent::Merged(false)), TaskAction::Stop);
    assert_eq!(task.result().error.as_deref(), Some("合并分块失败"));

    let mut task = DownloadTask::new(false);
    to_download(&mut task);
    task.step(TaskEvent::SizeKnown(1));
    task.step(TaskEvent::ChunkFetched(true));
    task.step(TaskEvent::Merged(true));
    task.step(TaskEvent::Signed(Some(SignError::MissingLicenseSlot)));
    assert_eq!(task.result().error.as_deref(), Some("Invalid signature: no SinfPaths found"));
}

#[test]
fn cancellation_and_terminal_states() {
    let mut task = DownloadTask::new(false);
    to_download(&mut task);
    assert_eq!(task.step(TaskEvent::Cancel), TaskAction::Stop);
    assert_eq!(task.phase(), JobPhase::Cancelled);
    assert_eq!(task.step(TaskEvent::SizeKnown(5)), TaskAction::Stop);
    assert_eq!(task.phase(), JobPhase::Cancelled);
    assert_eq!(task.result().error.as_deref(), Some("任务已取消"));
}

#[test]
fn out_of_order_event_fails_the_job() {
    let mut task = DownloadTask::new(false);
    assert_eq!(task.step(TaskEvent::Merged(true)), TaskAction::Stop);
    assert_eq!(task.result().error.as_deref(), Some("unexpected event"));
}

#[test]
fn package_names_and_defaults() {
    assert_eq!(output_file_name(&metadata()), "Demo_2.1.ipa");
    let empty = ItemMetadata {
        bundle_display_name: None,
        bundle_short_version_string: None,
        bundle_id: None,
        artwork_url_60: None,
        artwork_url_512: None,
        artwork_url_100: None,
        artwork_url: None,
        artist_name: None,
    };
    assert_eq!(output_file_name(&empty), "Unknown_1.0.ipa");
    let m = download_metadata(&empty);
    assert_eq!(m.bundle_display_name, "Unknown");
    assert_eq!(m.bundle_short_version_string, "1.0");
    assert_eq!(m.artwork_url, "");
}

#[test]
fn transport_failure_ends_the_job() {
    let mut task = DownloadTask::new(false);
    to_download(&mut task);
    assert_eq!(task.step(TaskEvent::Failed("无法获取文件".to_string())), TaskAction::Stop);
    let r = task.result();
    assert!(!r.ok && !r.needs_reauth && !r.needs_purchase);
    assert_eq!(r.error.as_deref(), Some("无法获取文件"));
}

#[test]
fn progress_reports_follow_the_job() {
    let mut task = DownloadTask::new(false);
    let r = progress_report(&task);
    assert_eq!(r.phase, "auth");
    assert_eq!(r.message, "[auth]");
    assert!(r.progress.is_none() && r.file_size.is_none() && r.downloaded.is_none());
    to_download(&mut task);
    task.step(TaskEvent::SizeKnown(2 * CHUNK_SIZE));
    task.step(TaskEvent::ChunkFetched(true));
    let r = progress_report(&task);
    assert_eq!(r.phase, "download");
    assert_eq!(r.message, format!("[download] {}/{}", CHUNK_SIZE, 2 * CHUNK_SIZE));
    assert_eq!(r.progress, Some(50));
    assert_eq!(r.file_size, Some(2 * CHUNK_SIZE));
    assert_eq!(r.downloaded, Some(CHUNK_SIZE));
}

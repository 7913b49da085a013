use tiktok_downloader::batch::{
    collect_video_files, join, video_file_name, BatchAction, BatchEvent, BatchJob, SessionEntry,
};
use tiktok_downloader::errors::ServiceError;
use tiktok_downloader::models::{FormatOption, VideoInfo};
use tiktok_downloader::single::{
    check_metadata_run, check_profile_url, check_video_url, metadata_arguments, metadata_failure,
    plan_audio_stream, plan_video_stream, profile_username, tool_probe_verdict, DownloadCounter,
};
use tiktok_downloader::stream::{Delivery, ExitCheck, Pull, ReadOutcome, StreamControl};

const PROFILE: &str = "https://www.tiktok.com/@user";

fn entry(name: &str, is_file: bool) -> SessionEntry {
    SessionEntry { name: name.to_string(), is_file }
}

fn session_dir(action: &BatchAction) -> String {
    match action {
        BatchAction::CreateSession { dir } => dir.clone(),
        other => panic!("expected the session to be created, got {:?}", other),
    }
}

#[test]
fn malformed_urls_are_refused_before_anything_runs() {
    for url in ["not-a-url", "https://youtube.com/watch?v=1", "https://tiktok.com/invalid", ""] {
        match check_video_url(url) {
            Err(ServiceError::InvalidInput(_)) => {}
            other => panic!("{} should be refused, got {:?}", url, other),
        }
    }
    for url in ["not-a-url", "https://youtube.com/@user", "https://www.tiktok.com/@user/video/1"] {
        match BatchJob::start(url, None, "/tmp/work", "/srv/downloads") {
            Err(ServiceError::InvalidInput(_)) => {}
            other => panic!("{} should be refused, got {:?}", url, other.map(|(_, a)| a)),
        }
    }
    assert!(check_video_url("https://www.tiktok.com/@user/video/123").is_ok());
}

#[test]
fn empty_selection_is_refused() {
    match BatchJob::start(PROFILE, Some(Vec::new()), "/tmp/work", "/srv/downloads") {
        Err(ServiceError::InvalidInput(m)) => assert_eq!(m, "No videos selected for download"),
        other => panic!("expected a refusal, got {:?}", other.map(|(_, a)| a)),
    }
}

#[test]
fn selective_batch_skips_the_failed_download() {
    let urls = vec![
        "https://www.tiktok.com/@user/video/1".to_string(),
        "https://www.tiktok.com/@user/video/2".to_string(),
        "https://www.tiktok.com/@user/video/3".to_string(),
    ];
    let (mut job, action) =
        BatchJob::start(PROFILE, Some(urls.clone()), "/tmp/work", "/srv/downloads").unwrap();
    assert!(matches!(action, BatchAction::ProbeTool));
    let dir = session_dir(&job.step(BatchEvent::ToolProbed(true)));
    assert!(dir.starts_with("/tmp/work/selective_user_"));
    assert_eq!(dir.len(), "/tmp/work/selective_user_".len() + 36);

    let mut targets = Vec::new();
    let mut action = job.step(BatchEvent::SessionCreated(true));
    for ok in [true, false, true] {
        match &action {
            BatchAction::RunTool { args } => targets.push(args.last().unwrap().clone()),
            other => panic!("expected a download, got {:?}", other),
        }
        action = job.step(BatchEvent::ToolRan { success: ok, stderr: String::new() });
    }
    assert_eq!(targets, urls);
    assert!(matches!(action, BatchAction::ScanSession { .. }));

    let entries = vec![
        entry("user_first_1.mp4", true),
        entry("notes.txt", true),
        entry("user_third_3.mp4", true),
        entry("partial.mp4.part", true),
    ];
    match job.step(BatchEvent::Scanned(Some(entries))) {
        BatchAction::BuildArchive { sources, names, destination } => {
            assert_eq!(names, vec!["user_first_1.mp4", "user_third_3.mp4"]);
            assert_eq!(sources, vec![format!("{}/user_first_1.mp4", dir), format!("{}/user_third_3.mp4", dir)]);
            assert_eq!(destination, "/srv/downloads/tiktok_selected_user_2_videos.zip");
        }
        other => panic!("expected the archive to be built, got {:?}", other),
    }
    assert!(matches!(job.step(BatchEvent::ArchiveBuilt(Some(1234))), BatchAction::DeleteFiles { .. }));
    match job.step(BatchEvent::FilesDeleted) {
        BatchAction::RemoveSession { dir: d } => assert_eq!(d, dir),
        other => panic!("expected cleanup, got {:?}", other),
    }
    match job.step(BatchEvent::SessionRemoved) {
        BatchAction::Finish(Ok(artifact)) => {
            assert_eq!(artifact.filename, "tiktok_selected_user_2_videos.zip");
            assert_eq!(artifact.path, "/srv/downloads/tiktok_selected_user_2_videos.zip");
            assert_eq!(artifact.size, 1234);
        }
        other => panic!("expected success, got {:?}", other),
    }
}

#[test]
fn bulk_batch_failure_removes_the_session_then_fails() {
    let (mut job, _) = BatchJob::start(PROFILE, None, "/tmp/work/", "/srv/downloads").unwrap();
    let dir = session_dir(&job.step(BatchEvent::ToolProbed(true)));
    assert!(dir.starts_with("/tmp/work/profile_user_"));
    match job.step(BatchEvent::SessionCreated(true)) {
        BatchAction::RunTool { args } => {
            assert_eq!(args[3], "best[ext=mp4]");
            assert_eq!(args[5], format!("{}/%(uploader)s_%(title)s_%(id)s.%(ext)s", dir));
            assert_eq!(args[6], PROFILE);
        }
        other => panic!("expected the bulk download, got {:?}", other),
    }
    match job.step(BatchEvent::ToolRan { success: false, stderr: "ERROR: private account".to_string() }) {
        BatchAction::RemoveSession { dir: d } => assert_eq!(d, dir),
        other => panic!("the session must be removed first, got {:?}", other),
    }
    match job.step(BatchEvent::SessionRemoved) {
        BatchAction::Finish(Err(ServiceError::BatchDownloadFailed(m))) => {
            assert_eq!(m, "Failed to download profile videos: ERROR: private account")
        }
        other => panic!("expected a failed batch, got {:?}", other),
    }
    assert!(job.session_removed);
}

#[test]
fn batch_without_video_files_fails_after_cleanup() {
    let (mut job, _) = BatchJob::start(PROFILE, None, "/tmp/work", "/srv/downloads").unwrap();
    job.step(BatchEvent::ToolProbed(true));
    job.step(BatchEvent::SessionCreated(true));
    job.step(BatchEvent::ToolRan { success: true, stderr: String::new() });
    let entries = vec![entry("clip.mp4", false), entry(".mp4", true), entry("readme", true)];
    assert!(matches!(job.step(BatchEvent::Scanned(Some(entries))), BatchAction::RemoveSession { .. }));
    match job.step(BatchEvent::SessionRemoved) {
        BatchAction::Finish(Err(ServiceError::NoVideosDownloaded(m))) => {
            assert_eq!(m, "No videos were downloaded from the profile")
        }
        other => panic!("expected no videos, got {:?}", other),
    }
}

#[test]
fn missing_tool_ends_the_batch_at_once() {
    let (mut job, _) = BatchJob::start(PROFILE, None, "/tmp/work", "/srv/downloads").unwrap();
    match job.step(BatchEvent::ToolProbed(false)) {
        BatchAction::Finish(Err(ServiceError::DependencyUnavailable(_))) => {}
        other => panic!("expected the tool to be missing, got {:?}", other),
    }
    assert!(!job.session_created);
}

#[test]
fn unexpected_event_repeats_the_pending_action() {
    let (mut job, _) = BatchJob::start(PROFILE, None, "/tmp/work", "/srv/downloads").unwrap();
    assert!(matches!(job.step(BatchEvent::FilesDeleted), BatchAction::ProbeTool));
}

#[test]
fn video_files_are_told_by_extension() {
    assert!(video_file_name("a.mp4"));
    assert!(video_file_name("a.b.webm"));
    assert!(video_file_name("x.mkv"));
    assert!(!video_file_name(".mkv"));
    assert!(!video_file_name("a.MP4"));
    assert!(!video_file_name("mp4"));
    let names = collect_video_files(&vec![entry("b.mkv", true), entry("dir.mp4", false), entry("c.avi", true)]);
    assert_eq!(names, vec!["b.mkv"]);
    assert_eq!(join("", "x"), "x");
    assert_eq!(join("/a/", "x"), "/a/x");
    assert_eq!(join("/a", "x"), "/a/x");
}

#[test]
fn dropping_after_one_chunk_terminates_the_process() {
    let mut control = StreamControl::new();
    assert!(matches!(control.begin_pull(ExitCheck::Running), Pull::Read));
    assert!(matches!(control.finish_pull(ReadOutcome::Bytes(8192)), Delivery::Chunk(8192)));
    assert!(control.teardown());
    assert!(!control.teardown());
    assert!(matches!(control.begin_pull(ExitCheck::Running), Pull::Stop));
}

#[test]
fn failed_process_fails_the_stream_before_reading() {
    let mut control = StreamControl::new();
    match control.begin_pull(ExitCheck::Failed) {
        Pull::Fail(ServiceError::UpstreamProcessError(_)) => {}
        other => panic!("expected a failure, got {:?}", other),
    }
    assert!(control.finished);
    assert!(control.teardown());
}

#[test]
fn end_of_output_and_read_errors_end_the_stream() {
    let mut control = StreamControl::new();
    assert!(matches!(control.begin_pull(ExitCheck::Succeeded), Pull::Read));
    assert!(matches!(control.finish_pull(ReadOutcome::Bytes(0)), Delivery::End));
    assert!(control.teardown());

    let mut control = StreamControl::new();
    control.begin_pull(ExitCheck::Running);
    match control.finish_pull(ReadOutcome::Error("broken pipe".to_string())) {
        Delivery::Fail(ServiceError::IoError(m)) => assert_eq!(m, "broken pipe"),
        other => panic!("expected an I/O error, got {:?}", other),
    }
    assert!(control.finished);
}

fn option(id: &str) -> FormatOption {
    FormatOption {
        format_id: id.to_string(),
        label: "720p (HD)".to_string(),
        quality: "720p".to_string(),
        ext: "mp4".to_string(),
        filesize: None,
        height: Some(720),
        width: None,
    }
}

fn info_with(formats: Vec<FormatOption>) -> VideoInfo {
    VideoInfo {
        id: "1".to_string(),
        title: "t".to_string(),
        author: "a".to_string(),
        description: String::new(),
        duration: None,
        view_count: None,
        like_count: None,
        share_count: None,
        comment_count: None,
        thumbnail_url: None,
        video_url: String::new(),
        original_url: "https://www.tiktok.com/@user/video/1".to_string(),
        available_formats: formats,
        created_at: 0,
    }
}

#[test]
fn streams_are_planned_with_counted_file_names() {
    let mut counter = DownloadCounter::new();
    let info = info_with(vec![option("hd"), option("sd")]);
    let url = "https://www.tiktok.com/@user/video/1";
    let plan = plan_video_stream(url, "sd", &info, &mut counter).unwrap();
    assert_eq!(plan.filename, "topclipdowload1.mp4");
    assert_eq!(plan.args, vec!["--no-warnings", "--no-post-overwrites", "--no-embed-subs", "--no-embed-chapters", "--no-embed-info-json", "-f", "sd", "-o", "-", url]);
    match plan_video_stream(url, "4k", &info, &mut counter) {
        Err(ServiceError::InvalidFormat(_)) => {}
        other => panic!("expected an invalid format, got {:?}", other),
    }
    let audio = plan_audio_stream(url, &mut counter);
    assert_eq!(audio.filename, "tiktok_audio_2.mp3");
    assert_eq!(audio.args[..3], ["-x", "--audio-format", "mp3"]);
    assert_eq!(counter.next, 3);
    let mut last = DownloadCounter { next: u32::MAX };
    assert_eq!(last.take(), u32::MAX);
    assert_eq!(last.next, 0);
}

#[test]
fn tool_probe_and_metadata_helpers() {
    assert!(tool_probe_verdict(true, true).is_ok());
    assert!(matches!(tool_probe_verdict(false, true), Err(ServiceError::DependencyUnavailable(_))));
    assert!(matches!(tool_probe_verdict(true, false), Err(ServiceError::DependencyUnavailable(_))));
    assert_eq!(metadata_arguments("u"), vec!["--dump-json", "--no-download", "--no-warnings", "u"]);
    match metadata_failure("oops") {
        ServiceError::UpstreamProcessError(m) => assert_eq!(m, "Failed to extract video metadata: oops"),
        other => panic!("unexpected {:?}", other),
    }
}

#[test]
fn failed_archive_or_scan_fails_the_batch_after_cleanup() {
    let (mut job, _) = BatchJob::start(PROFILE, None, "/tmp/work", "/srv/downloads").unwrap();
    job.step(BatchEvent::ToolProbed(true));
    job.step(BatchEvent::SessionCreated(true));
    job.step(BatchEvent::ToolRan { success: true, stderr: String::new() });
    assert!(matches!(
        job.step(BatchEvent::Scanned(Some(vec![entry("a.webm", true)]))),
        BatchAction::BuildArchive { .. }
    ));
    assert!(matches!(job.step(BatchEvent::ArchiveBuilt(None)), BatchAction::RemoveSession { .. }));
    match job.step(BatchEvent::SessionRemoved) {
        BatchAction::Finish(Err(ServiceError::ArchiveBuildError(_))) => {}
        other => panic!("expected an archive failure, got {:?}", other),
    }

    let (mut job, _) = BatchJob::start(PROFILE, None, "/tmp/work", "/srv/downloads").unwrap();
    job.step(BatchEvent::ToolProbed(true));
    job.step(BatchEvent::SessionCreated(true));
    job.step(BatchEvent::ToolRan { success: true, stderr: String::new() });
    assert!(matches!(job.step(BatchEvent::Scanned(None)), BatchAction::RemoveSession { .. }));
    match job.step(BatchEvent::SessionRemoved) {
        BatchAction::Finish(Err(ServiceError::IoError(_))) => {}
        other => panic!("expected an I/O failure, got {:?}", other),
    }
}

#[test]
fn failed_session_creation_ends_the_batch() {
    let (mut job, _) = BatchJob::start(PROFILE, None, "/tmp/work", "/srv/downloads").unwrap();
    job.step(BatchEvent::ToolProbed(true));
    match job.step(BatchEvent::SessionCreated(false)) {
        BatchAction::Finish(Err(ServiceError::IoError(_))) => {}
        other => panic!("expected an I/O failure, got {:?}", other),
    }
}

#[test]
fn profile_checks_and_metadata_runs() {
    assert!(check_profile_url(PROFILE).is_ok());
    assert!(matches!(check_profile_url("https://example.com/@user"), Err(ServiceError::InvalidInput(_))));
    assert_eq!(profile_username("https://tiktok.com/@user.name/").unwrap(), "user.name");
    assert!(matches!(profile_username("not-a-url"), Err(ServiceError::InvalidInput(_))));
    assert!(check_metadata_run(true, "").is_ok());
    match check_metadata_run(false, "gone") {
        Err(ServiceError::UpstreamProcessError(m)) => assert_eq!(m, "Failed to extract video metadata: gone"),
        other => panic!("unexpected {:?}", other),
    }
}

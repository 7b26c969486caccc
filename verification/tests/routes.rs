use webaudioprov::config::Configuration;
use webaudioprov::fetch::{ProbeReport, ToolOutcome};
use webaudioprov::http::{download_route, status_of, stream_route, DownloaderParams, Stream};
use webaudioprov::media::MediaKind;
use webaudioprov::cache::PlacementFailure;
use webaudioprov::messages::{
    audio_limit_message, describe, missing_source_message, video_limit_message, NOT_FOUND,
    STREAM_UNSUPPORTED,
};
use webaudioprov::pipeline::{Failure, FsOperation, Stage, Step, Tool};
use webaudioprov::policy::DurationExceeded;
use webaudioprov::protocol::Action;
use webaudioprov::redirect::{get_audio, redirect_target, resolve_redirect};
use webaudioprov::setup::{
    setup, Install, APP_NAME, APP_ORGANIZATION, APP_QUALIFIER, CACHE_DIR, FETCH_TOOL,
};

fn params(format: Option<&str>) -> DownloaderParams {
    DownloaderParams { format: format.map(|f| f.to_string()) }
}

#[test]
fn format_parameter_selects_the_kind() {
    assert_eq!(params(Some("mp4")).kind(), MediaKind::Video);
    assert_eq!(params(Some("mp3")).kind(), MediaKind::Audio);
    assert_eq!(params(Some("MP4")).kind(), MediaKind::Audio);
    assert_eq!(params(Some("")).kind(), MediaKind::Audio);
    assert_eq!(params(Some("mp4 ")).kind(), MediaKind::Audio);
    assert_eq!(params(None).kind(), MediaKind::Audio);
}

#[test]
fn download_route_starts_a_transcoded_materialization() {
    let cfg = Configuration::default();
    let d = download_route("PpjdTwQwWWY", &params(Some("mp4")), &cfg);
    assert_eq!(d.content_type, "video/mp4");
    assert_eq!(d.pipeline.kind, MediaKind::Video);
    assert!(d.pipeline.transcode);
    assert_eq!(d.pipeline.stage, Stage::Probing);
    assert_eq!(d.pipeline.requested_id, "PpjdTwQwWWY");
    assert_eq!(d.pipeline.config, cfg);
    match d.first {
        Step::Do(Action::RunFetch(r)) => {
            assert_eq!(r.url, "https://www.youtube.com/watch?v=PpjdTwQwWWY");
            assert!(!r.download);
        }
        other => panic!("{other:?}"),
    }
    let d = download_route("PpjdTwQwWWY", &params(None), &cfg);
    assert_eq!(d.content_type, "audio/mpeg");
    assert_eq!(d.pipeline.kind, MediaKind::Audio);
    assert!(d.pipeline.transcode);
}

#[test]
fn download_route_rejects_an_identifier_of_wrong_length() {
    let d = download_route("short", &params(None), &Configuration::default());
    assert_eq!(d.pipeline.stage, Stage::Failed(Failure::InvalidReference));
    assert!(matches!(d.first, Step::End(_)));
}

#[test]
fn stream_route_refuses_video() {
    assert!(matches!(stream_route("PpjdTwQwWWY", &params(Some("mp4"))), Stream::VideoUnsupported));
}

#[test]
fn stream_route_probes_audio() {
    match stream_route("PpjdTwQwWWY", &params(None)) {
        Stream::Probe(r) => {
            assert_eq!(r.url, "https://www.youtube.com/watch?v=PpjdTwQwWWY");
            assert_eq!(r.format, "bestaudio");
            assert!(!r.download);
            assert!(!r.extract_audio);
        }
        other => panic!("{other:?}"),
    }
    assert!(matches!(
        stream_route("nope", &params(Some("mp3"))),
        Stream::Refused(Failure::InvalidReference)
    ));
}

#[test]
fn statuses_of_failures() {
    assert_eq!(status_of(Failure::InvalidReference), 404);
    assert_eq!(status_of(Failure::ProbeFailure), 400);
    assert_eq!(status_of(Failure::ToolExitedNonZero(Tool::Transcode)), 400);
    assert_eq!(status_of(Failure::RenameFailed), 400);
}

#[test]
fn redirect_request_is_a_probe_without_download() {
    let link = "https://www.youtube.com/watch?v=PpjdTwQwWWY".to_string();
    let r = get_audio(&link).unwrap();
    assert_eq!(r.url, link);
    assert_eq!(r.format, "bestaudio");
    assert!(!r.download);
    assert!(!r.extract_audio);
    assert_eq!(r.output_template.as_deref(), Some("[%(id)s].%(ext)s"));
    let r = resolve_redirect(&link, MediaKind::Video).unwrap();
    assert_eq!(r.format, "bestaudio+bestvideo");
    assert!(!r.download);
    assert_eq!(get_audio(&"v=bad".to_string()).unwrap_err(), Failure::InvalidReference);
    assert_eq!(
        resolve_redirect(&"v=bad".to_string(), MediaKind::Video).unwrap_err(),
        Failure::InvalidReference
    );
}

fn report(url: Option<&str>) -> Option<ProbeReport> {
    Some(ProbeReport {
        title: "t".to_string(),
        id: "PpjdTwQwWWY".to_string(),
        duration: None,
        channel: None,
        url: url.map(|u| u.to_string()),
    })
}

#[test]
fn redirect_target_is_the_reported_address() {
    assert_eq!(
        redirect_target(ToolOutcome::Completed, report(Some("https://cdn.example/a.opus"))),
        Ok("https://cdn.example/a.opus".to_string())
    );
}

#[test]
fn redirect_fails_without_an_address() {
    assert_eq!(redirect_target(ToolOutcome::Completed, report(None)), Err(Failure::ProbeFailure));
    assert_eq!(redirect_target(ToolOutcome::Completed, None), Err(Failure::ProbeFailure));
    assert_eq!(
        redirect_target(ToolOutcome::ExitedNonZero, report(Some("u"))),
        Err(Failure::ProbeFailure)
    );
    assert_eq!(
        redirect_target(ToolOutcome::NotStarted, report(Some("u"))),
        Err(Failure::ProbeFailure)
    );
}

#[test]
fn setup_copies_the_tool_once() {
    assert_eq!(setup(false, false), Install::Unavailable);
    assert_eq!(setup(false, true), Install::Unavailable);
    assert_eq!(setup(true, false), Install::Copy);
    assert_eq!(setup(true, true), Install::Keep);
    assert_eq!(
        (APP_QUALIFIER, APP_ORGANIZATION, APP_NAME),
        ("me", "lukasz26671", "r_webaudioprov")
    );
    assert_eq!((FETCH_TOOL, CACHE_DIR), ("yt-dlp.exe", "temp"));
}

#[test]
fn failure_texts() {
    assert_eq!(NOT_FOUND, "Video not found");
    assert_eq!(STREAM_UNSUPPORTED, "Video streaming is not supported.");
    assert_eq!(video_limit_message(5), "Video duration exceeds maximum of 5 minutes");
    assert_eq!(video_limit_message(65535), "Video duration exceeds maximum of 65535 minutes");
    assert_eq!(audio_limit_message("10"), "Audio duration exceeds maximum of 10 hours");
    assert_eq!(missing_source_message("T [a].mp3"), "T [a].mp3 does not exist");
}

#[test]
fn every_failure_has_its_text() {
    let cases = [
        (Failure::InvalidReference, "Video not found"),
        (Failure::ProbeFailure, "The metadata of the item could not be read"),
        (
            Failure::DurationExceeded(DurationExceeded { kind: MediaKind::Audio, max_minutes: 90 }),
            "Audio duration exceeds maximum of 1.5 hours",
        ),
        (
            Failure::DurationExceeded(DurationExceeded { kind: MediaKind::Video, max_minutes: 90 }),
            "Video duration exceeds maximum of 90 minutes",
        ),
        (Failure::ToolInvocationFailed(Tool::Fetch), "The fetch tool could not be started"),
        (Failure::ToolInvocationFailed(Tool::Transcode), "The transcode tool could not be started"),
        (Failure::ToolExitedNonZero(Tool::Fetch), "The fetch tool failed"),
        (Failure::ToolExitedNonZero(Tool::Transcode), "The transcode tool failed"),
        (Failure::RenameFailed, "The download could not be renamed"),
        (Failure::PlacementFailed(PlacementFailure::SourceMissing), "T [a].mp3 does not exist"),
        (
            Failure::PlacementFailed(PlacementFailure::CacheRootUnavailable),
            "The cache directory could not be created",
        ),
        (
            Failure::PlacementFailed(PlacementFailure::RenameFailed),
            "The file could not be moved into the cache",
        ),
        (
            Failure::FilesystemFailure(FsOperation::ListWorkingDir),
            "The working directory could not be listed",
        ),
        (
            Failure::FilesystemFailure(FsOperation::RemoveStale),
            "Leftover downloads could not be removed",
        ),
        (Failure::UnexpectedEvent, "Internal error"),
    ];
    for (failure, text) in cases {
        assert_eq!(describe(failure, "T [a].mp3", "1.5"), text);
    }
}

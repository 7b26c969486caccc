use webaudioprov::fetch::{
    download_audio, download_video, get_metadata, read_probe, watch_url_of, ProbeFailure,
    ProbeReport, ToolOutcome,
};
use webaudioprov::policy::ProbedDuration;

fn report(duration: Option<ProbedDuration>) -> Option<ProbeReport> {
    Some(ProbeReport {
        title: "Caf\u{e9} / Bar | 1".to_string(),
        id: "PpjdTwQwWWY".to_string(),
        duration,
        channel: Some("Ch\u{e9}".to_string()),
        url: None,
    })
}

#[test]
fn watch_url_is_prefix_and_id() {
    assert_eq!(watch_url_of("PpjdTwQwWWY"), "https://www.youtube.com/watch?v=PpjdTwQwWWY");
    assert_eq!(watch_url_of(""), "https://www.youtube.com/watch?v=");
}

#[test]
fn audio_request_with_download() {
    let r = download_audio(&"PpjdTwQwWWY".to_string(), Some(true));
    assert_eq!(r.url, "https://www.youtube.com/watch?v=PpjdTwQwWWY");
    assert_eq!(r.format, "bestaudio");
    assert_eq!(r.socket_timeout, "15");
    assert!(r.extract_audio);
    assert_eq!(r.output_template.as_deref(), Some("[%(id)s].%(ext)s"));
    assert!(r.download);
}

#[test]
fn audio_request_without_download() {
    for flag in [None, Some(false)] {
        let r = download_audio(&"PpjdTwQwWWY".to_string(), flag);
        assert_eq!(r.format, "bestaudio");
        assert!(!r.extract_audio);
        assert!(!r.download);
        assert_eq!(r.output_template.as_deref(), Some("[%(id)s].%(ext)s"));
    }
}

#[test]
fn video_request() {
    let r = download_video(&"PpjdTwQwWWY".to_string(), Some(true));
    assert_eq!(r.url, "https://www.youtube.com/watch?v=PpjdTwQwWWY");
    assert_eq!(r.format, "bestaudio+bestvideo");
    assert_eq!(r.socket_timeout, "15");
    assert!(!r.extract_audio);
    assert_eq!(r.output_template.as_deref(), Some("[%(id)s].%(ext)s"));
    assert!(r.download);
    assert!(!download_video(&"PpjdTwQwWWY".to_string(), None).download);
}

#[test]
fn metadata_request_never_downloads() {
    for (flag, format) in
        [(None, "bestaudio"), (Some(false), "bestaudio"), (Some(true), "bestaudio+bestvideo")]
    {
        let r = get_metadata(&"PpjdTwQwWWY".to_string(), flag);
        assert_eq!(r.url, "https://www.youtube.com/watch?v=PpjdTwQwWWY");
        assert_eq!(r.format, format);
        assert_eq!(r.socket_timeout, "15");
        assert!(!r.extract_audio);
        assert_eq!(r.output_template, None);
        assert!(!r.download);
    }
}

#[test]
fn probe_report_becomes_metadata() {
    let d = ProbedDuration { whole_seconds: 12, fraction: true };
    let m = read_probe(ToolOutcome::Completed, report(Some(d))).unwrap();
    assert_eq!(m.title, "Caf  Bar  1");
    assert_eq!(m.id, "PpjdTwQwWWY");
    assert_eq!(m.duration, d);
    assert_eq!(m.channel.as_deref(), Some("Ch\u{e9}"));
}

#[test]
fn probe_fails_without_duration_report_or_success() {
    let d = ProbedDuration { whole_seconds: 12, fraction: false };
    assert_eq!(read_probe(ToolOutcome::Completed, report(None)).unwrap_err(), ProbeFailure);
    assert_eq!(read_probe(ToolOutcome::Completed, None).unwrap_err(), ProbeFailure);
    assert_eq!(read_probe(ToolOutcome::NotStarted, report(Some(d))).unwrap_err(), ProbeFailure);
    assert_eq!(read_probe(ToolOutcome::ExitedNonZero, report(Some(d))).unwrap_err(), ProbeFailure);
}

//! What is asked of the external fetch tool, and what it reports back.

use crate::media::{format_selector, sanitize_title, sanitized, MediaKind};
use crate::policy::ProbedDuration;
use crate::text::text_view;
use vstd::prelude::*;
use vstd::string::*;

verus! {

/// One invocation of the fetch tool, as plain values.
#[derive(Clone, Debug)]
pub struct FetchRequest {
    /// Canonical address of the item.
    pub url: String,
    /// Format selector.
    pub format: String,
    /// Socket timeout in seconds, as the tool takes it.
    pub socket_timeout: String,
    /// Whether the tool is told to extract the audio track.
    pub extract_audio: bool,
    /// Template of the name that a download is written under, if one is set.
    pub output_template: Option<String>,
    /// Whether media is downloaded; when false, only metadata is retrieved.
    pub download: bool,
}

/// Mathematical value of a `FetchRequest`.
pub struct FetchRequestView {
    pub url: Seq<char>,
    pub format: Seq<char>,
    pub socket_timeout: Seq<char>,
    pub extract_audio: bool,
    pub output_template: Option<Seq<char>>,
    pub download: bool,
}

impl View for FetchRequest {
    type V = FetchRequestView;

    open spec fn view(&self) -> FetchRequestView {
        FetchRequestView {
            url: self.url@,
            format: self.format@,
            socket_timeout: self.socket_timeout@,
            extract_audio: self.extract_audio,
            output_template: text_view(self.output_template),
            download: self.download,
        }
    }
}

/// How a run of an external tool ended.
#[derive(Clone, Copy, Debug, PartialEq, Eq, Structural)]
pub enum ToolOutcome {
    /// The tool ran and exited with status zero.
    Completed,
    /// The tool could not be started.
    NotStarted,
    /// The tool ran and exited with a status other than zero.
    ExitedNonZero,
}

/// What the fetch tool reports of an item, as plain values. A field that
/// the tool's output lacks, or holds in an unusable form, is `None`.
#[derive(Clone, Debug)]
pub struct ProbeReport {
    pub title: String,
    pub id: String,
    pub duration: Option<ProbedDuration>,
    pub channel: Option<String>,
    pub url: Option<String>,
}

/// Mathematical value of a `ProbeReport`.
pub struct ProbeReportView {
    pub title: Seq<char>,
    pub id: Seq<char>,
    pub duration: Option<ProbedDuration>,
    pub channel: Option<Seq<char>>,
    pub url: Option<Seq<char>>,
}

impl View for ProbeReport {
    type V = ProbeReportView;

    open spec fn view(&self) -> ProbeReportView {
        ProbeReportView {
            title: self.title@,
            id: self.id@,
            duration: self.duration,
            channel: text_view(self.channel),
            url: text_view(self.url),
        }
    }
}

/// What is known of an item once it has been probed: the title made safe
/// for file names, the identifier as the source reports it, the duration,
/// and the channel for display.
#[derive(Clone, Debug)]
pub struct ItemMetadata {
    pub title: String,
    pub id: String,
    pub duration: ProbedDuration,
    pub channel: Option<String>,
}

/// Mathematical value of an `ItemMetadata`.
pub struct ItemMetadataView {
    pub title: Seq<char>,
    pub id: Seq<char>,
    pub duration: ProbedDuration,
    pub channel: Option<Seq<char>>,
}

impl View for ItemMetadata {
    type V = ItemMetadataView;

    open spec fn view(&self) -> ItemMetadataView {
        ItemMetadataView {
            title: self.title@,
            id: self.id@,
            duration: self.duration,
            channel: text_view(self.channel),
        }
    }
}

/// A probe that failed, or whose report cannot be used.
#[derive(Clone, Copy, Debug, PartialEq, Eq, Structural)]
pub struct ProbeFailure;

/// Mathematical value of an optional report.
pub open spec fn report_view(report: Option<ProbeReport>) -> Option<ProbeReportView> {
    match report {
        Some(r) => Some(r@),
        None => None,
    }
}

/// What a probe yields: the metadata of the item when the tool completed
/// and its report holds a duration, with the title sanitized; nothing in
/// every other case.
pub open spec fn probed(outcome: ToolOutcome, report: Option<ProbeReportView>) -> Option<
    ItemMetadataView,
> {
    match (outcome, report) {
        (ToolOutcome::Completed, Some(r)) => match r.duration {
            Some(d) => Some(
                ItemMetadataView {
                    title: sanitized(r.title),
                    id: r.id,
                    duration: d,
                    channel: r.channel,
                },
            ),
            None => None,
        },
        _ => None,
    }
}

/// Canonical address of the item `id`.
pub open spec fn watch_url(id: Seq<char>) -> Seq<char> {
    "https://www.youtube.com/watch?v="@ + id
}

/// Template that names a download after the item's identifier and the
/// extension of what was downloaded.
pub const OUTPUT_TEMPLATE: &'static str = "[%(id)s].%(ext)s";

/// Socket timeout given to every invocation, in seconds.
pub const SOCKET_TIMEOUT: &'static str = "15";

/// The request that `download_audio` builds.
pub open spec fn audio_request(id: Seq<char>, download: bool) -> FetchRequestView {
    FetchRequestView {
        url: watch_url(id),
        format: format_selector(MediaKind::Audio),
        socket_timeout: SOCKET_TIMEOUT@,
        extract_audio: download,
        output_template: Some(OUTPUT_TEMPLATE@),
        download,
    }
}

/// The request that `download_video` builds.
pub open spec fn video_request(id: Seq<char>, download: bool) -> FetchRequestView {
    FetchRequestView {
        url: watch_url(id),
        format: format_selector(MediaKind::Video),
        socket_timeout: SOCKET_TIMEOUT@,
        extract_audio: false,
        output_template: Some(OUTPUT_TEMPLATE@),
        download,
    }
}

/// The request that `get_metadata` builds: metadata only, nothing written.
pub open spec fn metadata_request(id: Seq<char>, kind: MediaKind) -> FetchRequestView {
    FetchRequestView {
        url: watch_url(id),
        format: format_selector(kind),
        socket_timeout: SOCKET_TIMEOUT@,
        extract_audio: false,
        output_template: None,
        download: false,
    }
}

/// The request that downloads the raw media of `kind`.
pub open spec fn download_request(id: Seq<char>, kind: MediaKind) -> FetchRequestView {
    match kind {
        MediaKind::Audio => audio_request(id, true),
        MediaKind::Video => video_request(id, true),
    }
}

/// The kind whose format a metadata probe asks for: video only when the
/// flag is present and set.
pub open spec fn probe_kind(video: Option<bool>) -> MediaKind {
    if video == Some(true) {
        MediaKind::Video
    } else {
        MediaKind::Audio
    }
}

/// Builds the canonical address of the item `id`.
pub fn watch_url_of(id: &str) -> (r: String)
    ensures
        r@ == watch_url(id@),
{
    let mut url = String::from_str("https://www.youtube.com/watch?v=");
    url.append(id);
    url
}

/// Builds the invocation that retrieves the best audio of the item `id`.
/// With `download` absent or false only metadata is retrieved; with it set,
/// the audio is downloaded and extracted under a name made of the item's
/// identifier.
pub fn download_audio(id: &String, download: Option<bool>) -> (r: FetchRequest)
    ensures
        r@ == audio_request(id@, download == Some(true)),
{
    let dl = match download {
        Some(d) => d,
        None => false,
    };
    FetchRequest {
        url: watch_url_of(id.as_str()),
        format: String::from_str(MediaKind::Audio.format_selector()),
        socket_timeout: String::from_str(SOCKET_TIMEOUT),
        extract_audio: dl,
        output_template: Some(String::from_str(OUTPUT_TEMPLATE)),
        download: dl,
    }
}

/// Builds the invocation that retrieves the best audio and video of the
/// item `id`. With `download` absent or false only metadata is retrieved.
pub fn download_video(id: &String, download: Option<bool>) -> (r: FetchRequest)
    ensures
        r@ == video_request(id@, download == Some(true)),
{
    let dl = match download {
        Some(d) => d,
        None => false,
    };
    FetchRequest {
        url: watch_url_of(id.as_str()),
        format: String::from_str(MediaKind::Video.format_selector()),
        socket_timeout: String::from_str(SOCKET_TIMEOUT),
        extract_audio: false,
        output_template: Some(String::from_str(OUTPUT_TEMPLATE)),
        download: dl,
    }
}

/// Builds the invocation that probes the item `id` without downloading:
/// for the best audio and video when `video` is present and set, else for
/// the best audio.
pub fn get_metadata(id: &String, video: Option<bool>) -> (r: FetchRequest)
    ensures
        r@ == metadata_request(id@, probe_kind(video)),
{
    let kind = match video {
        Some(true) => MediaKind::Video,
        _ => MediaKind::Audio,
    };
    FetchRequest {
        url: watch_url_of(id.as_str()),
        format: String::from_str(kind.format_selector()),
        socket_timeout: String::from_str(SOCKET_TIMEOUT),
        extract_audio: false,
        output_template: None,
        download: false,
    }
}

/// Reads the outcome of a probe. The probe fails when the tool did not
/// complete, when its output is not the report of a single item, and when
/// the report lacks the duration; nothing is tried again.
pub fn read_probe(outcome: ToolOutcome, report: Option<ProbeReport>) -> (r: Result<
    ItemMetadata,
    ProbeFailure,
>)
    ensures
        match probed(outcome, report_view(report)) {
            Some(m) => r matches Ok(got) && got@ == m,
            None => r is Err,
        },
{
    match outcome {
        ToolOutcome::Completed => {
            match report {
                Some(rep) => {
                    match rep.duration {
                        Some(duration) => Ok(
                            ItemMetadata {
                                title: sanitize_title(rep.title.as_str()),
                                id: rep.id,
                                duration,
                                channel: rep.channel,
                            },
                        ),
                        None => Err(ProbeFailure),
                    }
                },
                None => Err(ProbeFailure),
            }
        },
        _ => Err(ProbeFailure),
    }
}

} // verus!

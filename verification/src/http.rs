//! What the routes of the service decide before and after the retrieval.

use crate::config::Configuration;
use crate::fetch::{audio_request, watch_url, watch_url_of, FetchRequest};
use crate::ident::{
    is_terminator, lemma_resolve_accepts, marker_at, resolve, ID_LEN,
};
use crate::media::{content_type, MediaKind};
use crate::pipeline::{begin, dl_get_audio, dl_get_video, Failure, Pipeline, Step};
use crate::redirect::get_audio;
use crate::text::{same_text, text_view};
use vstd::prelude::*;
use vstd::string::*;

verus! {

/// Query parameters of the download and stream routes.
#[derive(Clone, Debug)]
pub struct DownloaderParams {
    /// `mp4` asks for video; anything else, or nothing, for audio.
    pub format: Option<String>,
}

/// The value of `format` that asks for video.
pub const VIDEO_FORMAT: &'static str = "mp4";

/// Status of a failed request for which the item or the tools are to blame.
pub const STATUS_BAD_REQUEST: u16 = 400;

/// Status of a request whose reference names no item.
pub const STATUS_NOT_FOUND: u16 = 404;

/// The kind that a value of `format` asks for.
pub open spec fn requested_kind(format: Option<Seq<char>>) -> MediaKind {
    if format == Some(VIDEO_FORMAT@) {
        MediaKind::Video
    } else {
        MediaKind::Audio
    }
}

impl DownloaderParams {
    /// Mathematical value of the `format` parameter.
    pub open spec fn format_view(&self) -> Option<Seq<char>> {
        text_view(self.format)
    }

    /// The kind of artifact that the request asks for.
    pub fn kind(&self) -> (r: MediaKind)
        ensures
            r == requested_kind(self.format_view()),
    {
        match &self.format {
            Some(f) => {
                if same_text(f.as_str(), VIDEO_FORMAT) {
                    MediaKind::Video
                } else {
                    MediaKind::Audio
                }
            },
            None => MediaKind::Audio,
        }
    }
}

/// The status that a failed request is answered with: not found when the
/// reference names no item, bad request for every other failure.
pub open spec fn failure_status(f: Failure) -> u16 {
    match f {
        Failure::InvalidReference => STATUS_NOT_FOUND,
        _ => STATUS_BAD_REQUEST,
    }
}

/// Gives the status that a failed request is answered with.
pub fn status_of(f: Failure) -> (r: u16)
    ensures
        r == failure_status(f),
{
    match f {
        Failure::InvalidReference => STATUS_NOT_FOUND,
        _ => STATUS_BAD_REQUEST,
    }
}

/// What the download route serves once the artifact is materialized.
#[derive(Debug)]
pub struct Download {
    /// The materialization to run.
    pub pipeline: Pipeline,
    /// Its first step.
    pub first: Step,
    /// Content type of the response.
    pub content_type: &'static str,
}

/// The download route: starts the materialization of the item `id` in the
/// kind that `params` asks for, always transcoded, and names the content
/// type of the response.
pub fn download_route(id: &str, params: &DownloaderParams, config: &Configuration) -> (r: Download)
    ensures
        r.pipeline@ == begin(
            watch_url(id@),
            requested_kind(params.format_view()),
            true,
            *config,
        ).0,
        r.first@ == begin(watch_url(id@), requested_kind(params.format_view()), true, *config).1,
        r.content_type@ == content_type(requested_kind(params.format_view())),
{
    let url = watch_url_of(id);
    let kind = params.kind();
    let (pipeline, first) = match kind {
        MediaKind::Audio => dl_get_audio(&url, config),
        MediaKind::Video => dl_get_video(&url, true, config),
    };
    Download { pipeline, first, content_type: kind.content_type() }
}

/// What the stream route answers before any probe.
#[derive(Debug)]
pub enum Stream {
    /// Video is not streamed: the request is refused.
    VideoUnsupported,
    /// The reference names no item.
    Refused(Failure),
    /// The probe to run; its report yields the address to redirect to.
    Probe(FetchRequest),
}

/// The stream route: refuses video, and for audio starts the redirect to
/// the upstream address of the item `id`.
pub fn stream_route(id: &str, params: &DownloaderParams) -> (r: Stream)
    ensures
        match requested_kind(params.format_view()) {
            MediaKind::Video => r is VideoUnsupported,
            MediaKind::Audio => match resolve(watch_url(id@)) {
                Some(found) => r matches Stream::Probe(request) && request@ == audio_request(
                    found,
                    false,
                ),
                None => r matches Stream::Refused(f) && f == Failure::InvalidReference,
            },
        },
{
    match params.kind() {
        MediaKind::Video => Stream::VideoUnsupported,
        MediaKind::Audio => {
            let url = watch_url_of(id);
            match get_audio(&url) {
                Ok(request) => Stream::Probe(request),
                Err(f) => Stream::Refused(f),
            }
        },
    }
}

/// The canonical address of an identifier leads back to it: when `id` has
/// eleven characters, none of them a terminator, the address built from it
/// resolves to `id`.
pub proof fn lemma_watch_url_resolves(id: Seq<char>)
    requires
        id.len() == ID_LEN,
        forall|k: int| 0 <= k < id.len() ==> !is_terminator(#[trigger] id[k]),
    ensures
        resolve(watch_url(id)) == Some(id),
{
    reveal_strlit("https://www.youtube.com/watch?v=");
    let url = watch_url(id);
    let prefix = "https://www.youtube.com/watch?v="@;
    assert(prefix.len() == 32);
    assert(forall|i: int| 0 <= i < 32 ==> url[i] == prefix[i]);
    assert(forall|k: int| 0 <= k < 11 ==> url[32 + k] == id[k]);
    assert(marker_at(url, 30));
    assert forall|i: int| 0 <= i < 30 implies !marker_at(url, i) by {
        assert(url[i] == prefix[i]);
    }
    assert forall|k: int| 32 <= k < 43 implies !is_terminator(url[k]) by {
        assert(url[k] == id[k - 32]);
    }
    lemma_resolve_accepts(url, 30);
    assert(url.subrange(32, 43) =~= id);
}

} // verus!

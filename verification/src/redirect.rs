//! Resolving a reference to the upstream address of its media, for the
//! client to fetch by itself. Nothing is downloaded or cached.

use crate::fetch::{
    audio_request, download_audio, download_video, report_view, video_request, FetchRequest,
    FetchRequestView, ProbeReport, ProbeReportView, ToolOutcome,
};
use crate::ident::{extract_id, resolve};
use crate::media::MediaKind;
use crate::pipeline::Failure;
use vstd::prelude::*;

verus! {

/// The probe that a redirect of `kind` runs on the item `id`: the request
/// of a download with the download switched off.
pub open spec fn redirect_request(id: Seq<char>, kind: MediaKind) -> FetchRequestView {
    match kind {
        MediaKind::Audio => audio_request(id, false),
        MediaKind::Video => video_request(id, false),
    }
}

/// The upstream address that a probe outcome yields, if it yields one: the
/// tool must have completed and its report must hold an address.
pub open spec fn upstream_address(outcome: ToolOutcome, report: Option<ProbeReportView>) -> Option<
    Seq<char>,
> {
    match (outcome, report) {
        (ToolOutcome::Completed, Some(r)) => r.url,
        _ => None,
    }
}

/// Starts a redirect: resolves the identifier of `reference` and builds the
/// probe to run on it. No duration ceiling applies, as nothing is
/// downloaded.
pub fn resolve_redirect(reference: &String, kind: MediaKind) -> (r: Result<FetchRequest, Failure>)
    ensures
        match resolve(reference@) {
            Some(id) => r matches Ok(request) && request@ == redirect_request(id, kind),
            None => r matches Err(f) && f == Failure::InvalidReference,
        },
{
    match extract_id(reference) {
        Some(id) => Ok(
            match kind {
                MediaKind::Audio => download_audio(&id, Some(false)),
                MediaKind::Video => download_video(&id, Some(false)),
            },
        ),
        None => Err(Failure::InvalidReference),
    }
}

/// Starts the redirect to the audio of the item at `url`.
pub fn get_audio(url: &String) -> (r: Result<FetchRequest, Failure>)
    ensures
        match resolve(url@) {
            Some(id) => r matches Ok(request) && request@ == audio_request(id, false),
            None => r matches Err(f) && f == Failure::InvalidReference,
        },
{
    resolve_redirect(url, MediaKind::Audio)
}

/// Ends a redirect: takes the upstream address out of the probe's report.
/// A probe that failed, or that reports no address, fails the redirect.
pub fn redirect_target(outcome: ToolOutcome, report: Option<ProbeReport>) -> (r: Result<
    String,
    Failure,
>)
    ensures
        match upstream_address(outcome, report_view(report)) {
            Some(address) => r matches Ok(target) && target@ == address,
            None => r matches Err(f) && f == Failure::ProbeFailure,
        },
{
    match outcome {
        ToolOutcome::Completed => {
            match report {
                Some(rep) => {
                    match rep.url {
                        Some(address) => Ok(address),
                        None => Err(Failure::ProbeFailure),
                    }
                },
                None => Err(Failure::ProbeFailure),
            }
        },
        _ => Err(Failure::ProbeFailure),
    }
}

} // verus!

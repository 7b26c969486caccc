//! The texts that tell a user why a request failed.

use crate::cache::PlacementFailure;
use crate::media::MediaKind;
use crate::pipeline::{Failure, FsOperation, Tool};
use crate::text::{decimal, to_decimal};
use vstd::prelude::*;
use vstd::string::*;

verus! {

/// Text for a reference that names no item.
pub const NOT_FOUND: &'static str = "Video not found";

/// Text for a request to stream video.
pub const STREAM_UNSUPPORTED: &'static str = "Video streaming is not supported.";

/// Text for a probe that failed.
pub const PROBE_FAILED: &'static str = "The metadata of the item could not be read";

/// Text for a fetch tool that could not be started.
pub const FETCH_NOT_STARTED: &'static str = "The fetch tool could not be started";

/// Text for a fetch tool that exited with a status other than zero.
pub const FETCH_FAILED: &'static str = "The fetch tool failed";

/// Text for a transcode tool that could not be started.
pub const TRANSCODE_NOT_STARTED: &'static str = "The transcode tool could not be started";

/// Text for a transcode tool that exited with a status other than zero.
pub const TRANSCODE_FAILED: &'static str = "The transcode tool failed";

/// Text for a download that could not be renamed.
pub const RENAME_FAILED: &'static str = "The download could not be renamed";

/// Text for a cache root that could not be created.
pub const CACHE_UNAVAILABLE: &'static str = "The cache directory could not be created";

/// Text for an artifact that could not be moved into the cache.
pub const MOVE_FAILED: &'static str = "The file could not be moved into the cache";

/// Text for a working directory that could not be listed.
pub const LISTING_FAILED: &'static str = "The working directory could not be listed";

/// Text for raw downloads that could not be removed.
pub const REMOVAL_FAILED: &'static str = "Leftover downloads could not be removed";

/// Text for an event that did not fit the pending action.
pub const UNEXPECTED: &'static str = "Internal error";

/// Text for a video longer than `max_minutes`.
pub open spec fn video_limit_text(max_minutes: u16) -> Seq<char> {
    "Video duration exceeds maximum of "@ + decimal(max_minutes as nat) + " minutes"@
}

/// Text for an audio longer than the ceiling, which `hours` spells out in
/// hours.
pub open spec fn audio_limit_text(hours: Seq<char>) -> Seq<char> {
    "Audio duration exceeds maximum of "@ + hours + " hours"@
}

/// Text for an artifact that was to be placed and is not there.
pub open spec fn missing_source_text(filename: Seq<char>) -> Seq<char> {
    filename + " does not exist"@
}

/// The text for the failure `f` of a request for `artifact`. `hours` spells
/// the audio ceiling out in hours; it is used for audio that is too long
/// and for nothing else.
pub open spec fn failure_text(f: Failure, artifact: Seq<char>, hours: Seq<char>) -> Seq<char> {
    match f {
        Failure::InvalidReference => NOT_FOUND@,
        Failure::ProbeFailure => PROBE_FAILED@,
        Failure::DurationExceeded(e) => match e.kind {
            MediaKind::Audio => audio_limit_text(hours),
            MediaKind::Video => video_limit_text(e.max_minutes),
        },
        Failure::ToolInvocationFailed(Tool::Fetch) => FETCH_NOT_STARTED@,
        Failure::ToolInvocationFailed(Tool::Transcode) => TRANSCODE_NOT_STARTED@,
        Failure::ToolExitedNonZero(Tool::Fetch) => FETCH_FAILED@,
        Failure::ToolExitedNonZero(Tool::Transcode) => TRANSCODE_FAILED@,
        Failure::RenameFailed => RENAME_FAILED@,
        Failure::PlacementFailed(PlacementFailure::SourceMissing) => missing_source_text(artifact),
        Failure::PlacementFailed(PlacementFailure::CacheRootUnavailable) => CACHE_UNAVAILABLE@,
        Failure::PlacementFailed(PlacementFailure::RenameFailed) => MOVE_FAILED@,
        Failure::FilesystemFailure(FsOperation::ListWorkingDir) => LISTING_FAILED@,
        Failure::FilesystemFailure(FsOperation::RemoveStale) => REMOVAL_FAILED@,
        Failure::UnexpectedEvent => UNEXPECTED@,
    }
}

/// Writes the text for a video longer than `max_minutes`.
pub fn video_limit_message(max_minutes: u16) -> (r: String)
    ensures
        r@ == video_limit_text(max_minutes),
{
    let mut out = String::from_str("Video duration exceeds maximum of ");
    let amount = to_decimal(max_minutes as u64);
    out.append(amount.as_str());
    out.append(" minutes");
    out
}

/// Writes the text for an audio longer than the ceiling. The caller
/// spells the ceiling out in hours.
pub fn audio_limit_message(hours: &str) -> (r: String)
    ensures
        r@ == audio_limit_text(hours@),
{
    let mut out = String::from_str("Audio duration exceeds maximum of ");
    out.append(hours);
    out.append(" hours");
    out
}

/// Writes the text for an artifact that was to be placed and is not there.
pub fn missing_source_message(filename: &str) -> (r: String)
    ensures
        r@ == missing_source_text(filename@),
{
    let mut out = String::from_str(filename);
    out.append(" does not exist");
    out
}

/// Writes the text that tells the user why a request for `artifact`
/// failed.
pub fn describe(f: Failure, artifact: &str, hours: &str) -> (r: String)
    ensures
        r@ == failure_text(f, artifact@, hours@),
{
    match f {
        Failure::InvalidReference => String::from_str(NOT_FOUND),
        Failure::ProbeFailure => String::from_str(PROBE_FAILED),
        Failure::DurationExceeded(e) => match e.kind {
            MediaKind::Audio => audio_limit_message(hours),
            MediaKind::Video => video_limit_message(e.max_minutes),
        },
        Failure::ToolInvocationFailed(tool) => match tool {
            Tool::Fetch => String::from_str(FETCH_NOT_STARTED),
            Tool::Transcode => String::from_str(TRANSCODE_NOT_STARTED),
        },
        Failure::ToolExitedNonZero(tool) => match tool {
            Tool::Fetch => String::from_str(FETCH_FAILED),
            Tool::Transcode => String::from_str(TRANSCODE_FAILED),
        },
        Failure::RenameFailed => String::from_str(RENAME_FAILED),
        Failure::PlacementFailed(why) => match why {
            PlacementFailure::SourceMissing => missing_source_message(artifact),
            PlacementFailure::CacheRootUnavailable => String::from_str(CACHE_UNAVAILABLE),
            PlacementFailure::RenameFailed => String::from_str(MOVE_FAILED),
        },
        Failure::FilesystemFailure(operation) => match operation {
            FsOperation::ListWorkingDir => String::from_str(LISTING_FAILED),
            FsOperation::RemoveStale => String::from_str(REMOVAL_FAILED),
        },
        Failure::UnexpectedEvent => String::from_str(UNEXPECTED),
    }
}

} // verus!

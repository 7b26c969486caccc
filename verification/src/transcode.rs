//! The command lines handed to the external transcode tool.

use crate::media::{final_extension, raw_extension, with_extension, with_extension_of, MediaKind};
use vstd::prelude::*;
use vstd::string::*;

verus! {

/// One invocation of the transcode tool: the program, looked up in the
/// working directory, and its arguments in order.
#[derive(Clone, Debug)]
pub struct TranscodeCommand {
    pub program: String,
    pub args: Vec<String>,
}

/// Mathematical value of a `TranscodeCommand`.
pub struct TranscodeCommandView {
    pub program: Seq<char>,
    pub args: Seq<Seq<char>>,
}

impl View for TranscodeCommand {
    type V = TranscodeCommandView;

    open spec fn view(&self) -> TranscodeCommandView {
        TranscodeCommandView { program: self.program@, args: self.args.deep_view() }
    }
}

/// Name of the transcode tool's executable.
pub open spec fn transcoder() -> Seq<char> {
    "ffmpeg.exe"@
}

/// The raw file that a transcode of `kind` reads.
pub open spec fn transcode_input(stem: Seq<char>, kind: MediaKind) -> Seq<char> {
    with_extension(stem, raw_extension(kind))
}

/// The file that a transcode of `kind` writes.
pub open spec fn transcode_output(stem: Seq<char>, kind: MediaKind) -> Seq<char> {
    with_extension(stem, final_extension(kind, true))
}

/// Converts `stem.opus` to `stem.mp3` at a fixed bitrate of 320k.
pub open spec fn audio_command(stem: Seq<char>) -> TranscodeCommandView {
    TranscodeCommandView {
        program: transcoder(),
        args: seq![
            "-i"@,
            transcode_input(stem, MediaKind::Audio),
            "-ab"@,
            "320k"@,
            transcode_output(stem, MediaKind::Audio),
        ],
    }
}

/// Converts `stem.webm` to `stem.mp4` with the preset `fast` at a constant
/// rate factor of 26.
pub open spec fn video_command(stem: Seq<char>) -> TranscodeCommandView {
    TranscodeCommandView {
        program: transcoder(),
        args: seq![
            "-i"@,
            transcode_input(stem, MediaKind::Video),
            "-preset"@,
            "fast"@,
            "-crf"@,
            "26"@,
            transcode_output(stem, MediaKind::Video),
        ],
    }
}

/// The command that transcodes the raw file of `kind` named by `stem`.
pub open spec fn transcode_command(stem: Seq<char>, kind: MediaKind) -> TranscodeCommandView {
    match kind {
        MediaKind::Audio => audio_command(stem),
        MediaKind::Video => video_command(stem),
    }
}

/// Builds the command that turns the raw audio `filename.opus` into
/// `filename.mp3`.
pub fn process_audio(filename: &String) -> (r: TranscodeCommand)
    ensures
        r@ == audio_command(filename@),
{
    let stem = filename.as_str();
    let mut args: Vec<String> = Vec::new();
    args.push(String::from_str("-i"));
    args.push(with_extension_of(stem, MediaKind::Audio.raw_extension()));
    args.push(String::from_str("-ab"));
    args.push(String::from_str("320k"));
    args.push(with_extension_of(stem, MediaKind::Audio.final_extension(true)));
    let r = TranscodeCommand { program: String::from_str("ffmpeg.exe"), args };
    assert(r@.args =~= audio_command(filename@).args);
    r
}

/// Builds the command that turns the raw video `filename.webm` into
/// `filename.mp4`.
pub fn process_video(filename: &str) -> (r: TranscodeCommand)
    ensures
        r@ == video_command(filename@),
{
    let mut args: Vec<String> = Vec::new();
    args.push(String::from_str("-i"));
    args.push(with_extension_of(filename, MediaKind::Video.raw_extension()));
    args.push(String::from_str("-preset"));
    args.push(String::from_str("fast"));
    args.push(String::from_str("-crf"));
    args.push(String::from_str("26"));
    args.push(with_extension_of(filename, MediaKind::Video.final_extension(true)));
    let r = TranscodeCommand { program: String::from_str("ffmpeg.exe"), args };
    assert(r@.args =~= video_command(filename@).args);
    r
}

} // verus!

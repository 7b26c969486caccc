use webaudioprov::transcode::{process_audio, process_video};

#[test]
fn audio_command_line() {
    let c = process_audio(&"Song [abcdefghijk]".to_string());
    assert_eq!(c.program, "ffmpeg.exe");
    assert_eq!(
        c.args,
        vec!["-i", "Song [abcdefghijk].opus", "-ab", "320k", "Song [abcdefghijk].mp3"]
    );
}

#[test]
fn video_command_line() {
    let c = process_video("Clip [abcdefghijk]");
    assert_eq!(c.program, "ffmpeg.exe");
    assert_eq!(
        c.args,
        vec![
            "-i",
            "Clip [abcdefghijk].webm",
            "-preset",
            "fast",
            "-crf",
            "26",
            "Clip [abcdefghijk].mp4"
        ]
    );
}

use webaudioprov::config::{
    default_limit_duration, default_max_audio_duration_minutes,
    default_max_video_duration_minutes, default_port, Configuration,
};
use webaudioprov::media::MediaKind;
use webaudioprov::policy::{check_duration, DurationExceeded, ProbedDuration};

fn probed(seconds: f64) -> ProbedDuration {
    if seconds.is_nan() || seconds <= 0.0 {
        ProbedDuration { whole_seconds: 0, fraction: false }
    } else {
        ProbedDuration { whole_seconds: seconds.trunc() as u64, fraction: seconds.fract() != 0.0 }
    }
}

fn limits(audio: u16, video: u16, limit: bool) -> Configuration {
    Configuration {
        max_video_duration_minutes: video,
        limit_duration: limit,
        max_audio_duration_minutes: audio,
        port: 3000,
    }
}

#[test]
fn configuration_defaults() {
    let c = Configuration::default();
    assert_eq!(c.max_video_duration_minutes, 5);
    assert!(c.limit_duration);
    assert_eq!(c.max_audio_duration_minutes, 600);
    assert_eq!(c.port, 3000);
    assert_eq!(default_max_video_duration_minutes(), 5);
    assert!(default_limit_duration());
    assert_eq!(default_max_audio_duration_minutes(), 600);
    assert_eq!(default_port(), 3000);
}

#[test]
fn policy_boundary_is_inclusive() {
    let cfg = limits(5, 600, true);
    assert_eq!(check_duration(probed(300.0), MediaKind::Audio, &cfg), Ok(()));
    assert_eq!(
        check_duration(probed(300.01), MediaKind::Audio, &cfg),
        Err(DurationExceeded { kind: MediaKind::Audio, max_minutes: 5 })
    );
    assert_eq!(check_duration(probed(299.99), MediaKind::Audio, &cfg), Ok(()));
    assert_eq!(
        check_duration(probed(301.0), MediaKind::Audio, &cfg),
        Err(DurationExceeded { kind: MediaKind::Audio, max_minutes: 5 })
    );
}

#[test]
fn kind_selects_the_ceiling() {
    let cfg = limits(10, 1, true);
    assert_eq!(check_duration(probed(61.0), MediaKind::Audio, &cfg), Ok(()));
    assert_eq!(
        check_duration(probed(61.0), MediaKind::Video, &cfg),
        Err(DurationExceeded { kind: MediaKind::Video, max_minutes: 1 })
    );
    assert_eq!(check_duration(probed(60.0), MediaKind::Video, &cfg), Ok(()));
}

#[test]
fn switched_off_limit_accepts_everything() {
    let cfg = limits(0, 0, false);
    let huge = ProbedDuration { whole_seconds: u64::MAX, fraction: true };
    assert_eq!(check_duration(huge, MediaKind::Audio, &cfg), Ok(()));
    assert_eq!(check_duration(huge, MediaKind::Video, &cfg), Ok(()));
}

#[test]
fn ceiling_of_zero_and_of_the_largest_value() {
    let cfg = limits(0, u16::MAX, true);
    assert_eq!(check_duration(probed(0.0), MediaKind::Audio, &cfg), Ok(()));
    assert_eq!(
        check_duration(probed(0.5), MediaKind::Audio, &cfg),
        Err(DurationExceeded { kind: MediaKind::Audio, max_minutes: 0 })
    );
    let top = ProbedDuration { whole_seconds: 65535 * 60, fraction: false };
    assert_eq!(check_duration(top, MediaKind::Video, &cfg), Ok(()));
    let over = ProbedDuration { whole_seconds: 65535 * 60, fraction: true };
    assert_eq!(
        check_duration(over, MediaKind::Video, &cfg),
        Err(DurationExceeded { kind: MediaKind::Video, max_minutes: u16::MAX })
    );
}

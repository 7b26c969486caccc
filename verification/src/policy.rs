//! The duration ceiling that a request must pass before anything is fetched.

use crate::config::Configuration;
use crate::media::MediaKind;
use vstd::prelude::*;

verus! {

/// A duration as the source reports it, held without floating point: the
/// whole seconds, and whether a part of a second comes on top of them.
///
/// A caller that holds a floating-point number of seconds gives its integral
/// part and whether its fractional part is non-zero; a number that is
/// negative or no number at all counts as zero.
#[derive(Clone, Copy, Debug, PartialEq, Eq, Structural)]
pub struct ProbedDuration {
    pub whole_seconds: u64,
    pub fraction: bool,
}

/// The rejection of a request whose item is longer than the ceiling for its
/// kind. It carries the configured ceiling for the message to the user.
#[derive(Clone, Copy, Debug, PartialEq, Eq, Structural)]
pub struct DurationExceeded {
    pub kind: MediaKind,
    pub max_minutes: u16,
}

/// The configured ceiling for `kind`, in minutes.
pub open spec fn ceiling_minutes(kind: MediaKind, cfg: Configuration) -> u16 {
    match kind {
        MediaKind::Audio => cfg.max_audio_duration_minutes,
        MediaKind::Video => cfg.max_video_duration_minutes,
    }
}

/// The rejection that a violation of the ceiling for `kind` yields.
pub open spec fn rejection(kind: MediaKind, cfg: Configuration) -> DurationExceeded {
    DurationExceeded { kind, max_minutes: ceiling_minutes(kind, cfg) }
}

/// True when `d` is strictly longer than `limit_seconds`.
pub open spec fn exceeds(d: ProbedDuration, limit_seconds: int) -> bool {
    d.whole_seconds > limit_seconds || (d.whole_seconds == limit_seconds && d.fraction)
}

/// True when a request for an item of duration `d` is to be rejected.
pub open spec fn violates(d: ProbedDuration, kind: MediaKind, cfg: Configuration) -> bool {
    cfg.limit_duration && exceeds(d, ceiling_minutes(kind, cfg) * 60)
}

/// Checks a probed duration against the ceiling configured for `kind`.
///
/// Accepts every duration when the limit is switched off. Otherwise it
/// accepts a duration up to and including the ceiling and rejects every
/// longer one, with the ceiling that applied.
pub fn check_duration(duration: ProbedDuration, kind: MediaKind, cfg: &Configuration) -> (r: Result<
    (),
    DurationExceeded,
>)
    ensures
        r is Err <==> violates(duration, kind, *cfg),
        r matches Err(e) ==> e == rejection(kind, *cfg),
{
    let max_minutes = match kind {
        MediaKind::Audio => cfg.max_audio_duration_minutes,
        MediaKind::Video => cfg.max_video_duration_minutes,
    };
    let limit: u64 = (max_minutes as u64) * 60;
    if cfg.limit_duration && (duration.whole_seconds > limit || (duration.whole_seconds == limit
        && duration.fraction)) {
        Err(DurationExceeded { kind, max_minutes })
    } else {
        Ok(())
    }
}

} // verus!

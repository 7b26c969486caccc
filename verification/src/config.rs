//! Process-wide settings, read once by the caller and never changed.

use vstd::prelude::*;

verus! {

/// Settings of the service.
#[derive(Clone, Copy, Debug, PartialEq, Eq, Structural)]
pub struct Configuration {
    /// Longest video that is materialized, in minutes.
    pub max_video_duration_minutes: u16,
    /// Whether the duration ceilings are enforced at all.
    pub limit_duration: bool,
    /// Longest audio that is materialized, in minutes.
    pub max_audio_duration_minutes: u16,
    /// Port that the service listens on.
    pub port: u16,
}

/// Default of `limit_duration`.
pub fn default_limit_duration() -> (r: bool)
    ensures
        r,
{
    true
}

/// Default of `max_video_duration_minutes`.
pub fn default_max_video_duration_minutes() -> (r: u16)
    ensures
        r == 5,
{
    5
}

/// Default of `port`.
pub fn default_port() -> (r: u16)
    ensures
        r == 3000,
{
    3000
}

/// Default of `max_audio_duration_minutes`.
pub fn default_max_audio_duration_minutes() -> (r: u16)
    ensures
        r == 600,
{
    600
}

impl Default for Configuration {
    /// The settings that hold when the environment gives none.
    fn default() -> (r: Self)
        ensures
            r == (Configuration {
                max_video_duration_minutes: 5,
                limit_duration: true,
                max_audio_duration_minutes: 600,
                port: 3000,
            }),
    {
        Configuration {
            max_video_duration_minutes: default_max_video_duration_minutes(),
            limit_duration: default_limit_duration(),
            max_audio_duration_minutes: default_max_audio_duration_minutes(),
            port: default_port(),
        }
    }
}

} // verus!

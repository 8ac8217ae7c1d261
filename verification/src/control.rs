//! Control commands and the volume-step rules of the control surface.

use vstd::prelude::*;

verus! {

/// Volume percentage the engine is set to when a session starts.
pub const DEFAULT_VOL: i64 = 50;

/// A command from the presentation layer to the playback controller.
///
/// Commands travel over a channel and are consumed exactly once by the
/// poller, at most one per iteration. Volume is a percentage; the engine
/// accepts writes in `0 ..= 100`. `JumpTo` carries a playlist index whose
/// bounds are the engine's to check.
#[derive(Clone, Copy, Debug, PartialEq, Eq, Structural)]
pub enum VanControl {
    SetVolume(i64),
    NextSong,
    PrevSong,
    PauseControl,
    JumpTo(i64),
    Exit,
}

/// The volume one step up, when the current volume still allows a step.
///
/// Mirrors the `=` key handler: below 100 the volume rises by 5 and a
/// `SetVolume` command is sent; at or above 100 nothing is sent.
pub fn increased_volume(vol: i64) -> (r: Option<i64>)
    requires
        vol <= i64::MAX - 5,
    ensures
        vol < 100 ==> r == Some((vol + 5) as i64),
        vol >= 100 ==> r is None,
{
    if vol < 100 {
        Some(vol + 5)
    } else {
        None
    }
}

/// The volume one step down, when the current volume still allows a step.
///
/// Mirrors the `-` key handler: above 0 the volume drops by 5 and a
/// `SetVolume` command is sent; at or below 0 nothing is sent.
pub fn decreased_volume(vol: i64) -> (r: Option<i64>)
    requires
        vol >= i64::MIN + 5,
    ensures
        vol > 0 ==> r == Some((vol - 5) as i64),
        vol <= 0 ==> r is None,
{
    if vol > 0 {
        Some(vol - 5)
    } else {
        None
    }
}

} // verus!

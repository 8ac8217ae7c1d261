//! The status feed: what the controller publishes to the presentation layer.

use vstd::prelude::*;

verus! {

/// Metadata of the entry the engine is currently playing.
#[derive(Debug, PartialEq)]
pub struct MediaInfo {
    pub title: String,
    pub artist: String,
    pub duration: i64,
    pub current_time: i64,
}

/// The mathematical value of a [`MediaInfo`].
pub struct MediaInfoView {
    pub title: Seq<char>,
    pub artist: Seq<char>,
    pub duration: int,
    pub current_time: int,
}

impl View for MediaInfo {
    type V = MediaInfoView;

    open spec fn view(&self) -> MediaInfoView {
        MediaInfoView {
            title: self.title@,
            artist: self.artist@,
            duration: self.duration as int,
            current_time: self.current_time as int,
        }
    }
}

impl Clone for MediaInfo {
    fn clone(&self) -> (r: Self)
        ensures
            r@ == self@,
    {
        MediaInfo {
            title: self.title.clone(),
            artist: self.artist.clone(),
            duration: self.duration,
            current_time: self.current_time,
        }
    }
}

/// One sample of the status feed. `Loading` covers every state in which the
/// engine reports no current-track metadata — between tracks as well as
/// before the first track is ready. Published on every poller iteration,
/// not only on change: the stream is level-valued, and the presentation
/// layer debounces it.
#[derive(Debug, PartialEq)]
pub enum PlayStatus {
    MediaInfo(MediaInfo),
    Loading,
}

/// The mathematical value of a [`PlayStatus`].
pub enum PlayStatusView {
    MediaInfo(MediaInfoView),
    Loading,
}

impl View for PlayStatus {
    type V = PlayStatusView;

    open spec fn view(&self) -> PlayStatusView {
        match self {
            PlayStatus::MediaInfo(m) => PlayStatusView::MediaInfo(m@),
            PlayStatus::Loading => PlayStatusView::Loading,
        }
    }
}

impl Clone for PlayStatus {
    fn clone(&self) -> (r: Self)
        ensures
            r@ == self@,
    {
        match self {
            PlayStatus::MediaInfo(m) => PlayStatus::MediaInfo(m.clone()),
            PlayStatus::Loading => PlayStatus::Loading,
        }
    }
}

/// The status that one engine observation turns into: metadata when the
/// engine reports some, `Loading` otherwise.
pub open spec fn status_of(media: Option<MediaInfoView>) -> PlayStatusView {
    match media {
        Some(m) => PlayStatusView::MediaInfo(m),
        None => PlayStatusView::Loading,
    }
}

/// The value of a published sequence of status samples.
pub open spec fn statuses_view(s: Seq<PlayStatus>) -> Seq<PlayStatusView> {
    s.map_values(|x: PlayStatus| x@)
}

/// Assembles current-track metadata from the four property reads that feed
/// it. The engine hands each of title, duration, artist and playback
/// position back separately, any of which can be missing mid-transition;
/// metadata exists exactly when all four reads succeeded.
pub fn media_info_from_parts(
    title: Option<String>,
    duration: Option<i64>,
    artist: Option<String>,
    current_time: Option<i64>,
) -> (r: Option<MediaInfo>)
    ensures
        match (title, duration, artist, current_time) {
            (Some(t), Some(d), Some(a), Some(c)) => r matches Some(m) && m@ == (MediaInfoView {
                title: t@,
                artist: a@,
                duration: d as int,
                current_time: c as int,
            }),
            _ => r is None,
        },
{
    match (title, duration, artist, current_time) {
        (Some(t), Some(d), Some(a), Some(c)) => Some(
            MediaInfo { title: t, artist: a, duration: d, current_time: c },
        ),
        _ => None,
    }
}

} // verus!

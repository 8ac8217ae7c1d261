//! The shared track queue: an append-only list of track descriptors.
//!
//! The queue is shared between the submission path (the presentation layer
//! enqueues sources) and the continuation policy (the poller re-submits the
//! whole queue when the engine reaches its last entry). The session driver
//! guards one `TrackQueue` with a mutex held only for the duration of a
//! single `add` or `snapshot` call, never across engine calls; inside the
//! library the exclusive `&mut` borrow stands for that guard, so the
//! contents pass atomically from one whole state to the next.

use vstd::prelude::*;

verus! {

/// How one queued entry is handed to the engine's load command.
///
/// `AppendPlay` appends the entry and starts it when the engine is idle;
/// `Append` only appends; `Replace` discards the current playlist first.
/// The submission path always uses `AppendPlay`.
#[derive(Clone, Copy, PartialEq, Eq, Structural, Debug)]
pub enum LoadMode {
    Replace,
    Append,
    AppendPlay,
}

/// One queued track: a locator (URL or path), the load mode, and an
/// optional subtitle locator. Immutable once queued.
#[derive(Debug, PartialEq)]
pub struct Track {
    pub locator: String,
    pub mode: LoadMode,
    pub subtitle: Option<String>,
}

/// The mathematical value of a [`Track`].
pub struct TrackView {
    pub locator: Seq<char>,
    pub mode: LoadMode,
    pub subtitle: Option<Seq<char>>,
}

impl View for Track {
    type V = TrackView;

    open spec fn view(&self) -> TrackView {
        TrackView {
            locator: self.locator@,
            mode: self.mode,
            subtitle: match self.subtitle {
                Some(s) => Some(s@),
                None => None,
            },
        }
    }
}

impl Clone for Track {
    fn clone(&self) -> (r: Self)
        ensures
            r@ == self@,
    {
        Track {
            locator: self.locator.clone(),
            mode: self.mode,
            subtitle: match &self.subtitle {
                Some(s) => Some(s.clone()),
                None => None,
            },
        }
    }
}

impl Track {
    /// A track as the submission path queues it: append-and-play-if-idle,
    /// no subtitle.
    pub fn from_url(url: &str) -> (r: Track)
        ensures
            r@ == (TrackView { locator: url@, mode: LoadMode::AppendPlay, subtitle: None }),
    {
        Track { locator: url.to_owned(), mode: LoadMode::AppendPlay, subtitle: None }
    }
}

/// The value of a sequence of tracks.
pub open spec fn tracks_view(tracks: Seq<Track>) -> Seq<TrackView> {
    tracks.map_values(|t: Track| t@)
}

/// The ordered queue of tracks for one session. Insertion order is playback
/// order; producers only append, and readers only take whole owned copies.
pub struct TrackQueue {
    tracks: Vec<Track>,
}

impl View for TrackQueue {
    type V = Seq<TrackView>;

    closed spec fn view(&self) -> Seq<TrackView> {
        tracks_view(self.tracks@)
    }
}

impl TrackQueue {
    /// The empty queue a session starts from.
    pub fn new() -> (q: TrackQueue)
        ensures
            q@ == Seq::<TrackView>::empty(),
    {
        let q = TrackQueue { tracks: Vec::new() };
        proof {
            assert(q@ =~= Seq::<TrackView>::empty());
        }
        q
    }

    /// Appends a source to the end of the queue, as append-and-play-if-idle.
    /// The queue changes in no other way.
    pub fn add(&mut self, url: &str)
        ensures
            final(self)@ == old(self)@.push(
                TrackView { locator: url@, mode: LoadMode::AppendPlay, subtitle: None },
            ),
    {
        let t = Track::from_url(url);
        let ghost tv = t@;
        self.tracks.push(t);
        proof {
            assert(self@ =~= old(self)@.push(tv));
        }
    }

    /// The number of queued tracks.
    pub fn len(&self) -> (n: usize)
        ensures
            n == self@.len(),
    {
        self.tracks.len()
    }

    /// An owned copy of the entire current contents, for use by a concurrent
    /// loop without holding the queue's guard during engine calls. The copy
    /// is whole: it is exactly the queue's value at the moment of the call.
    pub fn snapshot(&self) -> (r: Vec<Track>)
        ensures
            tracks_view(r@) == self@,
    {
        let r = self.tracks.clone();
        proof {
            assert forall|i: int| 0 <= i < r@.len() implies r@[i]@ == self.tracks@[i]@ by {
                assert(cloned::<Track>(self.tracks@[i], r@[i]));
            }
            assert(tracks_view(r@) =~= self@);
        }
        r
    }
}

/// The contents of an append-only queue after its first `k` appends beyond
/// a starting point: the start plus the first `k` appended tracks, whole.
pub open spec fn after_appends(start: Seq<TrackView>, appended: Seq<TrackView>, k: int) -> Seq<
    TrackView,
> {
    start + appended.take(k)
}

/// Snapshots of an append-only queue are never torn.
///
/// `add` changes the queue from one whole value to the next (its `ensures`
/// allows nothing else), and `snapshot` copies one whole value, so a
/// snapshot taken concurrently with a run of appends observes the contents
/// at one of the points `after_appends(start, appended, k)`. This law says
/// those points are totally ordered by prefix: an earlier observation is
/// always a prefix of a later one — never a mix of both.
pub proof fn lemma_snapshot_never_torn(
    start: Seq<TrackView>,
    appended: Seq<TrackView>,
    j: int,
    k: int,
)
    requires
        0 <= j <= k <= appended.len(),
    ensures
        after_appends(start, appended, j).is_prefix_of(after_appends(start, appended, k)),
        after_appends(start, appended, j).len() == start.len() + j,
{
    assert(after_appends(start, appended, j) =~= after_appends(start, appended, k).subrange(
        0,
        start.len() + j,
    ));
}

} // verus!

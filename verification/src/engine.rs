//! A model of the media engine's observable state.
//!
//! The real engine is an external capability reached over a property and
//! command interface. This module pins down, as a verified state machine,
//! what each command and property access the controller issues does to the
//! state the engine reports back: the playlist, the current index, volume,
//! pause state and current-track metadata. The controller's contracts are
//! stated against this model; the session driver replays the same commands
//! against the real engine.

use vstd::prelude::*;

use crate::queue::Track;
use crate::queue::TrackView;
use crate::queue::LoadMode;
use crate::queue::tracks_view;
use crate::status::MediaInfo;
use crate::status::MediaInfoView;

verus! {

/// Why the engine rejected a call.
///
/// `NotRunning` stands for an engine that was torn down (or never came up):
/// every call on it fails. `Rejected` stands for a property write or a
/// command the running engine refused, such as an out-of-range volume or
/// playlist position.
#[derive(Clone, Copy, Debug, PartialEq, Eq, Structural)]
pub enum EngineError {
    NotRunning,
    Rejected,
}

/// The engine state the controller can observe, as one mathematical value.
///
/// `pos` is the current playlist index, `-1` when no entry is current —
/// the value the engine itself reports for the position property in that
/// case. `media` is the current-track metadata, absent mid-transition.
pub struct EngineView {
    pub playlist: Seq<TrackView>,
    pub pos: int,
    pub volume: int,
    pub paused: bool,
    pub running: bool,
    pub media: Option<MediaInfoView>,
    pub video_disabled: bool,
    pub expansion_disabled: bool,
}

impl EngineView {
    /// Well-formedness: the current index stays inside the playlist (or is
    /// the distinguished `-1`), the volume inside its percentage range, and
    /// the playlist short enough that its length fits the reported integer.
    pub open spec fn wf(self) -> bool {
        &&& -1 <= self.pos
        &&& self.pos < self.playlist.len()
        &&& 0 <= self.volume <= 100
        &&& self.playlist.len() <= i64::MAX
    }
}

/// The state of a freshly created engine: empty playlist, nothing current,
/// full volume, not paused, running.
pub open spec fn initial_engine() -> EngineView {
    EngineView {
        playlist: Seq::empty(),
        pos: -1,
        volume: 100,
        paused: false,
        running: true,
        media: None,
        video_disabled: false,
        expansion_disabled: false,
    }
}

/// The error half of a unit result, for stating contracts.
pub open spec fn err_of(r: Result<(), EngineError>) -> Option<EngineError> {
    match r {
        Ok(u) => None,
        Err(e) => Some(e),
    }
}

/// The value of an optional metadata record.
pub open spec fn media_view(m: Option<MediaInfo>) -> Option<MediaInfoView> {
    match m {
        Some(x) => Some(x@),
        None => None,
    }
}

// What each engine call does: one transition function per call, giving the
// state afterwards and the error, if any, that the call reports.

/// A volume property write: exact within `0 ..= 100`, rejected outside.
pub open spec fn spec_set_volume(e: EngineView, v: int) -> (EngineView, Option<EngineError>) {
    if !e.running {
        (e, Some(EngineError::NotRunning))
    } else if 0 <= v <= 100 {
        (EngineView { volume: v, ..e }, None)
    } else {
        (e, Some(EngineError::Rejected))
    }
}

/// The weak advance command: one step forward, a no-op (not an error) when
/// no entry is current or the last entry is. Moving clears the reported
/// metadata until the engine has loaded the new entry.
pub open spec fn spec_next_weak(e: EngineView) -> (EngineView, Option<EngineError>) {
    if !e.running {
        (e, Some(EngineError::NotRunning))
    } else if 0 <= e.pos && e.pos + 1 < e.playlist.len() {
        (EngineView { pos: e.pos + 1, media: None, ..e }, None)
    } else {
        (e, None)
    }
}

/// The weak retreat command: one step back, a no-op at the first entry or
/// when no entry is current.
pub open spec fn spec_prev_weak(e: EngineView) -> (EngineView, Option<EngineError>) {
    if !e.running {
        (e, Some(EngineError::NotRunning))
    } else if e.pos > 0 {
        (EngineView { pos: e.pos - 1, media: None, ..e }, None)
    } else {
        (e, None)
    }
}

/// The pause command.
pub open spec fn spec_pause(e: EngineView) -> (EngineView, Option<EngineError>) {
    if !e.running {
        (e, Some(EngineError::NotRunning))
    } else {
        (EngineView { paused: true, ..e }, None)
    }
}

/// The resume command.
pub open spec fn spec_unpause(e: EngineView) -> (EngineView, Option<EngineError>) {
    if !e.running {
        (e, Some(EngineError::NotRunning))
    } else {
        (EngineView { paused: false, ..e }, None)
    }
}

/// A direct write of the current-playlist-position property. Bounds are the
/// engine's to check: in range the index changes to exactly `i`, out of
/// range the write is rejected and nothing changes.
pub open spec fn spec_force_play(e: EngineView, i: int) -> (EngineView, Option<EngineError>) {
    if !e.running {
        (e, Some(EngineError::NotRunning))
    } else if 0 <= i < e.playlist.len() {
        (EngineView { pos: i, media: None, ..e }, None)
    } else {
        (e, Some(EngineError::Rejected))
    }
}

/// The terminate command: the engine stops reporting anything.
pub open spec fn spec_quit(e: EngineView) -> (EngineView, Option<EngineError>) {
    if !e.running {
        (e, Some(EngineError::NotRunning))
    } else {
        (EngineView { running: false, media: None, ..e }, None)
    }
}

/// Loading one entry: `Replace` discards the playlist for it, `Append` adds
/// it at the end, `AppendPlay` adds it and makes it current when the engine
/// was idle.
pub open spec fn spec_load_one(e: EngineView, t: TrackView) -> EngineView {
    match t.mode {
        LoadMode::Replace => EngineView {
            playlist: seq![t],
            pos: 0,
            media: None,
            ..e
        },
        LoadMode::Append => EngineView { playlist: e.playlist.push(t), ..e },
        LoadMode::AppendPlay => {
            if e.pos == -1 {
                EngineView {
                    playlist: e.playlist.push(t),
                    pos: e.playlist.len() as int,
                    media: None,
                    ..e
                }
            } else {
                EngineView { playlist: e.playlist.push(t), ..e }
            }
        },
    }
}

/// Loading a batch: the entries are loaded first to last.
pub open spec fn spec_load_all(e: EngineView, ts: Seq<TrackView>) -> EngineView
    decreases ts.len(),
{
    if ts.len() == 0 {
        e
    } else {
        spec_load_all(spec_load_one(e, ts[0]), ts.drop_first())
    }
}

/// The load command on the engine: a batch load when running, rejected
/// whole when not.
pub open spec fn spec_load_files(e: EngineView, ts: Seq<TrackView>) -> (
    EngineView,
    Option<EngineError>,
) {
    if !e.running {
        (e, Some(EngineError::NotRunning))
    } else {
        (spec_load_all(e, ts), None)
    }
}

/// The property write that disables video output.
pub open spec fn spec_disable_video(e: EngineView) -> (EngineView, Option<EngineError>) {
    if !e.running {
        (e, Some(EngineError::NotRunning))
    } else {
        (EngineView { video_disabled: true, ..e }, None)
    }
}

/// The property write that keeps aggregate sources from being expanded
/// into many playlist entries.
pub open spec fn spec_disable_expansion(e: EngineView) -> (EngineView, Option<EngineError>) {
    if !e.running {
        (e, Some(EngineError::NotRunning))
    } else {
        (EngineView { expansion_disabled: true, ..e }, None)
    }
}

/// The engine reporting fresh current-track metadata (or losing it): the
/// environment's move, not the controller's.
pub open spec fn spec_report_media(e: EngineView, m: Option<MediaInfoView>) -> EngineView {
    if e.running {
        EngineView { media: m, ..e }
    } else {
        e
    }
}

// What each property read the controller polls reports: a value from the
// running engine, nothing from a torn-down one.

/// The current-playlist-position property, `-1` when nothing is current.
pub open spec fn obs_pos(e: EngineView) -> Option<int> {
    if e.running {
        Some(e.pos)
    } else {
        None
    }
}

/// The playlist-length property.
pub open spec fn obs_count(e: EngineView) -> Option<int> {
    if e.running {
        Some(e.playlist.len() as int)
    } else {
        None
    }
}

/// The pause property.
pub open spec fn obs_pause(e: EngineView) -> Option<bool> {
    if e.running {
        Some(e.paused)
    } else {
        None
    }
}

/// The current-track metadata, absent mid-transition.
pub open spec fn obs_media(e: EngineView) -> Option<MediaInfoView> {
    if e.running {
        e.media
    } else {
        None
    }
}

/// The filename property: the locator of the current entry.
pub open spec fn obs_filename(e: EngineView) -> Option<Seq<char>> {
    if e.running && 0 <= e.pos < e.playlist.len() {
        Some(e.playlist[e.pos].locator)
    } else {
        None
    }
}

/// The volume property.
pub open spec fn obs_volume(e: EngineView) -> Option<int> {
    if e.running {
        Some(e.volume)
    } else {
        None
    }
}

/// Loading a batch appends to the playlist (except through `Replace`
/// entries) and touches neither the volume nor the pause state; it
/// preserves well-formedness whenever the grown playlist still fits the
/// reported integer.
pub proof fn lemma_load_all_wf(e: EngineView, ts: Seq<TrackView>)
    requires
        e.wf(),
        e.playlist.len() + ts.len() <= i64::MAX,
    ensures
        spec_load_all(e, ts).wf(),
        spec_load_all(e, ts).playlist.len() <= e.playlist.len() + ts.len(),
        spec_load_all(e, ts).volume == e.volume,
        spec_load_all(e, ts).paused == e.paused,
        spec_load_all(e, ts).running == e.running,
    decreases ts.len(),
{
    if ts.len() > 0 {
        lemma_load_all_wf(spec_load_one(e, ts[0]), ts.drop_first());
    }
}

/// A batch load never touches the volume, the pause state or whether the
/// engine runs, whatever state it starts from.
pub proof fn lemma_load_all_preserves_controls(e: EngineView, ts: Seq<TrackView>)
    ensures
        spec_load_all(e, ts).volume == e.volume,
        spec_load_all(e, ts).paused == e.paused,
        spec_load_all(e, ts).running == e.running,
    decreases ts.len(),
{
    if ts.len() > 0 {
        lemma_load_all_preserves_controls(spec_load_one(e, ts[0]), ts.drop_first());
    }
}

/// Peeling a batch load from the back: loading `ts` and then one more
/// entry is loading `ts.push(t)`.
pub proof fn lemma_load_all_snoc(e: EngineView, ts: Seq<TrackView>, t: TrackView)
    ensures
        spec_load_all(e, ts.push(t)) == spec_load_one(spec_load_all(e, ts), t),
    decreases ts.len(),
{
    reveal_with_fuel(spec_load_all, 3);
    if ts.len() == 0 {
        assert(ts.push(t)[0] == t);
        assert(ts.push(t).drop_first() =~= Seq::<TrackView>::empty());
        assert(spec_load_all(spec_load_one(e, t), Seq::<TrackView>::empty()) == spec_load_one(
            e,
            t,
        ));
    } else {
        assert(ts.push(t)[0] == ts[0]);
        assert(ts.push(t).drop_first() =~= ts.drop_first().push(t));
        lemma_load_all_snoc(spec_load_one(e, ts[0]), ts.drop_first(), t);
    }
}

/// The engine model: the observable state, driven only through the calls
/// the controller issues.
pub struct EngineModel {
    playlist: Vec<Track>,
    pos: i64,
    volume: i64,
    paused: bool,
    running: bool,
    media: Option<MediaInfo>,
    video_disabled: bool,
    expansion_disabled: bool,
}

impl View for EngineModel {
    type V = EngineView;

    closed spec fn view(&self) -> EngineView {
        EngineView {
            playlist: tracks_view(self.playlist@),
            pos: self.pos as int,
            volume: self.volume as int,
            paused: self.paused,
            running: self.running,
            media: media_view(self.media),
            video_disabled: self.video_disabled,
            expansion_disabled: self.expansion_disabled,
        }
    }
}

impl EngineModel {
    /// A fresh engine.
    pub fn new() -> (e: EngineModel)
        ensures
            e@ == initial_engine(),
            e@.wf(),
    {
        let e = EngineModel {
            playlist: Vec::new(),
            pos: -1,
            volume: 100,
            paused: false,
            running: true,
            media: None,
            video_disabled: false,
            expansion_disabled: false,
        };
        proof {
            assert(e@.playlist =~= initial_engine().playlist);
            assert(e@ == initial_engine());
        }
        e
    }

    /// Writes the volume property.
    pub fn set_volume(&mut self, v: i64) -> (r: Result<(), EngineError>)
        ensures
            final(self)@ == spec_set_volume(old(self)@, v as int).0,
            err_of(r) == spec_set_volume(old(self)@, v as int).1,
    {
        if !self.running {
            Err(EngineError::NotRunning)
        } else if 0 <= v && v <= 100 {
            self.volume = v;
            Ok(())
        } else {
            Err(EngineError::Rejected)
        }
    }

    /// Issues the weak advance command.
    pub fn playlist_next_weak(&mut self) -> (r: Result<(), EngineError>)
        requires
            old(self)@.wf(),
        ensures
            final(self)@ == spec_next_weak(old(self)@).0,
            err_of(r) == spec_next_weak(old(self)@).1,
    {
        if !self.running {
            Err(EngineError::NotRunning)
        } else {
            if 0 <= self.pos && self.pos + 1 < self.playlist.len() as i64 {
                self.pos = self.pos + 1;
                self.media = None;
            }
            Ok(())
        }
    }

    /// Issues the weak retreat command.
    pub fn playlist_previous_weak(&mut self) -> (r: Result<(), EngineError>)
        requires
            old(self)@.wf(),
        ensures
            final(self)@ == spec_prev_weak(old(self)@).0,
            err_of(r) == spec_prev_weak(old(self)@).1,
    {
        if !self.running {
            Err(EngineError::NotRunning)
        } else {
            if self.pos > 0 {
                self.pos = self.pos - 1;
                self.media = None;
            }
            Ok(())
        }
    }

    /// Issues the pause command.
    pub fn pause(&mut self) -> (r: Result<(), EngineError>)
        ensures
            final(self)@ == spec_pause(old(self)@).0,
            err_of(r) == spec_pause(old(self)@).1,
    {
        if !self.running {
            Err(EngineError::NotRunning)
        } else {
            self.paused = true;
            Ok(())
        }
    }

    /// Issues the resume command.
    pub fn unpause(&mut self) -> (r: Result<(), EngineError>)
        ensures
            final(self)@ == spec_unpause(old(self)@).0,
            err_of(r) == spec_unpause(old(self)@).1,
    {
        if !self.running {
            Err(EngineError::NotRunning)
        } else {
            self.paused = false;
            Ok(())
        }
    }

    /// Writes the current-playlist-position property.
    pub fn force_play(&mut self, count: i64) -> (r: Result<(), EngineError>)
        requires
            old(self)@.wf(),
        ensures
            final(self)@ == spec_force_play(old(self)@, count as int).0,
            err_of(r) == spec_force_play(old(self)@, count as int).1,
    {
        if !self.running {
            Err(EngineError::NotRunning)
        } else if 0 <= count && count < self.playlist.len() as i64 {
            self.pos = count;
            self.media = None;
            Ok(())
        } else {
            Err(EngineError::Rejected)
        }
    }

    /// Issues the terminate command.
    pub fn quit(&mut self) -> (r: Result<(), EngineError>)
        ensures
            final(self)@ == spec_quit(old(self)@).0,
            err_of(r) == spec_quit(old(self)@).1,
    {
        if !self.running {
            Err(EngineError::NotRunning)
        } else {
            self.running = false;
            self.media = None;
            Ok(())
        }
    }

    /// Issues the batch load command for a whole snapshot of the queue.
    pub fn playlist_load_files(&mut self, tracks: &Vec<Track>) -> (r: Result<(), EngineError>)
        requires
            old(self)@.wf(),
            old(self)@.playlist.len() + tracks@.len() <= i64::MAX,
        ensures
            final(self)@ == spec_load_files(old(self)@, tracks_view(tracks@)).0,
            err_of(r) == spec_load_files(old(self)@, tracks_view(tracks@)).1,
            final(self)@.wf(),
    {
        if !self.running {
            return Err(EngineError::NotRunning);
        }
        let ghost e0 = self@;
        let ghost tsv = tracks_view(tracks@);
        let mut i: usize = 0;
        proof {
            assert(tsv.take(0) =~= Seq::<TrackView>::empty());
        }
        while i < tracks.len()
            invariant
                0 <= i <= tracks@.len(),
                tsv == tracks_view(tracks@),
                tsv.len() == tracks@.len(),
                e0.wf(),
                e0.playlist.len() + tracks@.len() <= i64::MAX,
                self@ == spec_load_all(e0, tsv.take(i as int)),
                self.running,
            decreases tracks@.len() - i,
        {
            proof {
                lemma_load_all_wf(e0, tsv.take(i as int));
            }
            let t = tracks[i].clone();
            let ghost tv = tsv[i as int];
            proof {
                assert(cloned::<Track>(tracks@[i as int], t));
                assert(t@ == tv);
            }
            self.load_one(t);
            proof {
                assert(tsv.take(i as int).push(tv) =~= tsv.take(i as int + 1));
                lemma_load_all_snoc(e0, tsv.take(i as int), tv);
            }
            i = i + 1;
        }
        proof {
            assert(tsv.take(tracks@.len() as int) =~= tsv);
            lemma_load_all_wf(e0, tsv);
        }
        Ok(())
    }

    /// Loads a single entry into the running engine.
    fn load_one(&mut self, t: Track)
        requires
            old(self)@.running,
            old(self)@.wf(),
            old(self)@.playlist.len() < i64::MAX,
        ensures
            final(self)@ == spec_load_one(old(self)@, t@),
            final(self)@.running,
    {
        let ghost tv = t@;
        match t.mode {
            LoadMode::Replace => {
                let mut fresh: Vec<Track> = Vec::new();
                fresh.push(t);
                self.playlist = fresh;
                self.pos = 0;
                self.media = None;
                proof {
                    assert(self@.playlist =~= seq![tv]);
                }
            },
            LoadMode::Append => {
                self.playlist.push(t);
                proof {
                    assert(self@.playlist =~= old(self)@.playlist.push(tv));
                }
            },
            LoadMode::AppendPlay => {
                if self.pos == -1 {
                    let new_pos = self.playlist.len() as i64;
                    self.playlist.push(t);
                    self.pos = new_pos;
                    self.media = None;
                    proof {
                        assert(self@.playlist =~= old(self)@.playlist.push(tv));
                    }
                } else {
                    self.playlist.push(t);
                    proof {
                        assert(self@.playlist =~= old(self)@.playlist.push(tv));
                    }
                }
            },
        }
    }

    /// The environment's move: the engine now reports this metadata.
    pub fn report_media(&mut self, m: Option<MediaInfo>)
        ensures
            final(self)@ == spec_report_media(old(self)@, media_view(m)),
    {
        if self.running {
            self.media = m;
        }
    }

    /// Reads the current-playlist-position property.
    pub fn get_current_song_index(&self) -> (r: Option<i64>)
        ensures
            match r {
                Some(p) => obs_pos(self@) == Some(p as int),
                None => obs_pos(self@) is None,
            },
    {
        if self.running {
            Some(self.pos)
        } else {
            None
        }
    }

    /// Reads the playlist-length property.
    pub fn get_total_content(&self) -> (r: Option<i64>)
        requires
            self@.wf(),
        ensures
            match r {
                Some(n) => obs_count(self@) == Some(n as int),
                None => obs_count(self@) is None,
            },
    {
        if self.running {
            Some(self.playlist.len() as i64)
        } else {
            None
        }
    }

    /// Reads the pause property.
    pub fn get_pause_state(&self) -> (r: Option<bool>)
        ensures
            r == obs_pause(self@),
    {
        if self.running {
            Some(self.paused)
        } else {
            None
        }
    }

    /// Reads the current-track metadata properties.
    pub fn get_current_media_info(&self) -> (r: Option<MediaInfo>)
        ensures
            media_view(r) == obs_media(self@),
    {
        if self.running {
            match &self.media {
                Some(m) => Some(m.clone()),
                None => None,
            }
        } else {
            None
        }
    }

    /// Reads the filename property.
    pub fn get_file_name(&self) -> (r: Option<String>)
        requires
            self@.wf(),
        ensures
            match r {
                Some(s) => obs_filename(self@) == Some(s@),
                None => obs_filename(self@) is None,
            },
    {
        if self.running && 0 <= self.pos && (self.pos as usize) < self.playlist.len() {
            Some(self.playlist[self.pos as usize].locator.clone())
        } else {
            None
        }
    }

    /// Reads the volume property.
    pub fn get_volume(&self) -> (r: Option<i64>)
        ensures
            match r {
                Some(v) => obs_volume(self@) == Some(v as int),
                None => obs_volume(self@) is None,
            },
    {
        if self.running {
            Some(self.volume)
        } else {
            None
        }
    }

    /// Writes the property that disables video output, for audio-only use.
    pub fn disable_video(&mut self) -> (r: Result<(), EngineError>)
        ensures
            final(self)@ == spec_disable_video(old(self)@).0,
            err_of(r) == spec_disable_video(old(self)@).1,
    {
        if !self.running {
            Err(EngineError::NotRunning)
        } else {
            self.video_disabled = true;
            Ok(())
        }
    }

    /// Writes the property that keeps aggregate sources from being expanded
    /// into many playlist entries.
    pub fn disable_playlist_expansion(&mut self) -> (r: Result<(), EngineError>)
        ensures
            final(self)@ == spec_disable_expansion(old(self)@).0,
            err_of(r) == spec_disable_expansion(old(self)@).1,
    {
        if !self.running {
            Err(EngineError::NotRunning)
        } else {
            self.expansion_disabled = true;
            Ok(())
        }
    }
}

} // verus!

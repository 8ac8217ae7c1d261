//! The loader: the once-per-session start-up sequence.
//!
//! On session start the loader disables playlist auto-expansion for
//! aggregate sources (so one logical entry is not exploded into many),
//! disables video output for the audio-only use case, takes a snapshot of
//! the track queue and submits it to the engine as a single load. Each
//! step is attempted even when an earlier one was rejected; every
//! rejection is reported, and the session driver treats any of them as
//! fatal to the session — the loader never retries.

use vstd::prelude::*;

use crate::engine::spec_disable_expansion;
use crate::engine::spec_disable_video;
use crate::engine::spec_load_files;
use crate::engine::EngineError;
use crate::engine::EngineModel;
use crate::engine::EngineView;
use crate::poller::opt_errs;
use crate::queue::TrackQueue;
use crate::queue::TrackView;

verus! {

/// The whole loader sequence: the two property writes, then the batch
/// load of the snapshot; alongside, every error the engine reported.
pub open spec fn spec_loader(e: EngineView, snap: Seq<TrackView>) -> (
    EngineView,
    Seq<EngineError>,
) {
    let (e1, r1) = spec_disable_expansion(e);
    let (e2, r2) = spec_disable_video(e1);
    let (e3, r3) = spec_load_files(e2, snap);
    (e3, opt_errs(r1) + opt_errs(r2) + opt_errs(r3))
}

/// Runs the loader sequence against the engine, returning the errors the
/// engine reported, in order. The effect is exactly [`spec_loader`].
pub fn run_loader(engine: &mut EngineModel, queue: &TrackQueue) -> (errs: Vec<EngineError>)
    requires
        old(engine)@.wf(),
        old(engine)@.playlist.len() + queue@.len() <= i64::MAX,
    ensures
        final(engine)@ == spec_loader(old(engine)@, queue@).0,
        errs@ == spec_loader(old(engine)@, queue@).1,
        final(engine)@.wf(),
{
    let ghost e0 = engine@;
    let mut errs: Vec<EngineError> = Vec::new();
    if let Err(e) = engine.disable_playlist_expansion() {
        errs.push(e);
    }
    if let Err(e) = engine.disable_video() {
        errs.push(e);
    }
    let snap = queue.snapshot();
    if let Err(e) = engine.playlist_load_files(&snap) {
        errs.push(e);
    }
    proof {
        assert(errs@ =~= spec_loader(e0, queue@).1);
    }
    errs
}

} // verus!

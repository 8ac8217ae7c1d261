//! One whole playback session against the engine model.
//!
//! A session runs the loader once and then the poller until the inputs run
//! out or `Exit` arrives. A loader failure is fatal: the session is
//! unrecoverable, nothing is polled, and the failure is handed to the
//! caller — while the poller's own per-command failures are reported and
//! the loop goes on. The session driver plays the same calls against the
//! real engine on its threads; this is the one-thread mathematical value
//! of what they do together.

use vstd::prelude::*;

use crate::control::VanControl;
use crate::engine::EngineError;
use crate::engine::EngineModel;
use crate::engine::EngineView;
use crate::loader::run_loader;
use crate::loader::spec_loader;
use crate::poller::run_poller;
use crate::poller::run_steps;
use crate::poller::RunView;
use crate::queue::TrackQueue;
use crate::queue::TrackView;
use crate::status::statuses_view;
use crate::status::PlayStatus;

verus! {

/// What one session leaves behind, as a mathematical value: the loader's
/// errors, and — only when the loader went through whole — the poller run.
pub open spec fn session_spec(
    e: EngineView,
    snap: Seq<TrackView>,
    inputs: Seq<Option<VanControl>>,
) -> (EngineView, Seq<EngineError>, RunView) {
    let (e1, lerrs) = spec_loader(e, snap);
    if lerrs.len() == 0 {
        let run = run_steps(e1, snap, inputs);
        (run.engine, lerrs, run)
    } else {
        (
            e1,
            lerrs,
            RunView {
                engine: e1,
                statuses: Seq::empty(),
                errors: Seq::empty(),
                exit: false,
                steps: 0,
            },
        )
    }
}

/// What one call of [`run_session`] hands back.
pub struct SessionOutcome {
    pub loader_errors: Vec<EngineError>,
    pub statuses: Vec<PlayStatus>,
    pub errors: Vec<EngineError>,
    pub exited: bool,
    pub iterations: usize,
}

/// One whole session: the loader, then — only on a whole loader success —
/// the poller over the per-iteration receive results. The effect is
/// exactly [`session_spec`].
pub fn run_session(
    engine: &mut EngineModel,
    queue: &TrackQueue,
    inputs: &Vec<Option<VanControl>>,
) -> (r: SessionOutcome)
    requires
        old(engine)@.wf(),
        old(engine)@.playlist.len() + queue@.len() + inputs@.len() * queue@.len() <= i64::MAX,
    ensures
        final(engine)@ == session_spec(old(engine)@, queue@, inputs@).0,
        r.loader_errors@ == session_spec(old(engine)@, queue@, inputs@).1,
        statuses_view(r.statuses@) == session_spec(old(engine)@, queue@, inputs@).2.statuses,
        r.errors@ == session_spec(old(engine)@, queue@, inputs@).2.errors,
        r.exited == session_spec(old(engine)@, queue@, inputs@).2.exit,
        r.iterations as int == session_spec(old(engine)@, queue@, inputs@).2.steps,
        final(engine)@.wf(),
{
    let ghost e0 = engine@;
    let loader_errors = run_loader(engine, queue);
    proof {
        let ea = crate::engine::spec_disable_expansion(e0).0;
        let eb = crate::engine::spec_disable_video(ea).0;
        crate::engine::lemma_load_all_wf(eb, queue@);
    }
    if loader_errors.is_empty() {
        let run = run_poller(engine, queue, inputs);
        SessionOutcome {
            loader_errors,
            statuses: run.statuses,
            errors: run.errors,
            exited: run.exited,
            iterations: run.iterations,
        }
    } else {
        let statuses: Vec<PlayStatus> = Vec::new();
        proof {
            assert(statuses_view(statuses@) =~= Seq::<crate::status::PlayStatusView>::empty());
        }
        SessionOutcome {
            loader_errors,
            statuses,
            errors: Vec::new(),
            exited: false,
            iterations: 0,
        }
    }
}

} // verus!

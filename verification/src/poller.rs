//! The command-and-continuation poller: the heart of the session.
//!
//! Each iteration, without ever blocking, the poller samples the engine's
//! current-track metadata and publishes a status, applies at most one
//! pending control command, and re-evaluates the playlist-continuation
//! policy: when the engine reports that its last entry is current, the
//! whole current snapshot of the track queue is submitted again, which is
//! how indefinite looping over the playlist is achieved.
//!
//! The session driver owns the channels and threads and calls
//! [`poll_iteration`] with whatever one non-blocking receive yielded;
//! [`run_poller`] is the same loop over a whole sequence of such receive
//! results, and the laws at the end of this module are stated against its
//! transition function.

use vstd::prelude::*;

use crate::control::VanControl;
use crate::engine::err_of;
use crate::engine::obs_count;
use crate::engine::obs_media;
use crate::engine::obs_pause;
use crate::engine::obs_pos;
use crate::engine::spec_disable_expansion;
use crate::engine::spec_disable_video;
use crate::engine::spec_force_play;
use crate::engine::spec_load_files;
use crate::engine::spec_next_weak;
use crate::engine::spec_pause;
use crate::engine::spec_prev_weak;
use crate::engine::spec_quit;
use crate::engine::spec_set_volume;
use crate::engine::spec_unpause;
use crate::engine::EngineError;
use crate::engine::EngineModel;
use crate::engine::EngineView;
use crate::queue::TrackQueue;
use crate::queue::TrackView;
use crate::status::status_of;
use crate::status::statuses_view;
use crate::status::PlayStatus;
use crate::status::PlayStatusView;

verus! {

/// The successor of an optional index, for the continuation comparison.
pub open spec fn succ_opt(p: Option<int>) -> Option<int> {
    match p {
        Some(x) => Some(x + 1),
        None => None,
    }
}

/// The continuation condition, exactly as the poller evaluates it: the
/// playlist-length read equals the successor of the position read. For a
/// running engine this holds exactly when the last entry is current (or the
/// playlist is empty and nothing is current); when both reads fail — the
/// engine is gone — the two failed reads also compare equal, and the reload
/// is attempted and rejected. The comparison races the engine's own
/// end-of-playlist handling by design; the policy is level-triggered and
/// tolerates stale reads.
pub open spec fn should_reload(pos: Option<int>, count: Option<int>) -> bool {
    count == succ_opt(pos)
}

/// The value of an optional reported integer.
pub open spec fn opt_int_view(o: Option<i64>) -> Option<int> {
    match o {
        Some(x) => Some(x as int),
        None => None,
    }
}

/// The continuation decision on the two property reads as the poller got
/// them: exactly [`should_reload`]. The session driver asks this before
/// re-submitting the queue to the real engine.
pub fn reload_decision(index: Option<i64>, total: Option<i64>) -> (r: bool)
    requires
        index matches Some(p) ==> p < i64::MAX,
    ensures
        r == should_reload(opt_int_view(index), opt_int_view(total)),
{
    match (total, index) {
        (Some(t), Some(p)) => t == p + 1,
        (None, None) => true,
        _ => false,
    }
}

/// An error, as the sequence it contributes to the error feed.
pub open spec fn opt_errs(o: Option<EngineError>) -> Seq<EngineError> {
    match o {
        Some(e) => seq![e],
        None => Seq::empty(),
    }
}

/// The continuation phase of one iteration: reload the whole queue
/// snapshot when the condition holds, do nothing otherwise.
pub open spec fn spec_continuation(e: EngineView, snap: Seq<TrackView>) -> (
    EngineView,
    Option<EngineError>,
) {
    if should_reload(obs_pos(e), obs_count(e)) {
        spec_load_files(e, snap)
    } else {
        (e, None)
    }
}

/// What applying one control command to the engine does: the state
/// afterwards, the statuses published while handling it, the error if the
/// engine rejected it, and whether the command asks the session to unwind.
pub open spec fn spec_apply_command(e: EngineView, c: VanControl) -> (
    EngineView,
    Seq<PlayStatusView>,
    Option<EngineError>,
    bool,
) {
    match c {
        VanControl::SetVolume(v) => {
            let (e1, err) = spec_set_volume(e, v as int);
            (e1, Seq::empty(), err, false)
        },
        VanControl::NextSong => {
            let (e1, err) = spec_next_weak(e);
            (e1, seq![PlayStatusView::Loading], err, false)
        },
        VanControl::PrevSong => {
            let (e1, err) = spec_prev_weak(e);
            (e1, seq![PlayStatusView::Loading], err, false)
        },
        VanControl::PauseControl => {
            match obs_pause(e) {
                Some(false) => {
                    let (e1, err) = spec_pause(e);
                    (e1, Seq::empty(), err, false)
                },
                Some(true) => {
                    let (e1, err) = spec_unpause(e);
                    (e1, Seq::empty(), err, false)
                },
                None => (e, Seq::empty(), None, false),
            }
        },
        VanControl::JumpTo(i) => {
            let (e1, err) = spec_force_play(e, i as int);
            (e1, Seq::empty(), err, false)
        },
        VanControl::Exit => {
            let (e1, err) = spec_quit(e);
            (e1, Seq::empty(), err, true)
        },
    }
}

/// The outcome of one poller iteration, as a mathematical value.
pub struct PollStepView {
    pub engine: EngineView,
    pub statuses: Seq<PlayStatusView>,
    pub errors: Seq<EngineError>,
    pub exit: bool,
}

/// One whole poller iteration: publish the level-valued status, apply at
/// most the one command handed in, then — unless the command was `Exit`,
/// which ends the iteration at once — re-evaluate the continuation policy.
pub open spec fn poll_step(e: EngineView, snap: Seq<TrackView>, cmd: Option<VanControl>) -> PollStepView {
    let st0 = seq![status_of(obs_media(e))];
    match cmd {
        None => {
            let (e2, err2) = spec_continuation(e, snap);
            PollStepView { engine: e2, statuses: st0, errors: opt_errs(err2), exit: false }
        },
        Some(c) => {
            let (e1, sts, err1, exit) = spec_apply_command(e, c);
            if exit {
                PollStepView { engine: e1, statuses: st0 + sts, errors: opt_errs(err1), exit: true }
            } else {
                let (e2, err2) = spec_continuation(e1, snap);
                PollStepView {
                    engine: e2,
                    statuses: st0 + sts,
                    errors: opt_errs(err1) + opt_errs(err2),
                    exit: false,
                }
            }
        },
    }
}

/// What one call of [`poll_iteration`] hands back.
pub struct PollOutcome {
    pub statuses: Vec<PlayStatus>,
    pub errors: Vec<EngineError>,
    pub exit: bool,
}

/// Applies one control command to the engine: the command phase of one
/// iteration, exactly [`spec_apply_command`].
fn apply_command(engine: &mut EngineModel, c: VanControl) -> (r: (
    Option<PlayStatus>,
    Option<EngineError>,
    bool,
))
    requires
        old(engine)@.wf(),
    ensures
        final(engine)@ == spec_apply_command(old(engine)@, c).0,
        (match r.0 {
            Some(s) => seq![s@],
            None => Seq::<PlayStatusView>::empty(),
        }) == spec_apply_command(old(engine)@, c).1,
        r.1 == spec_apply_command(old(engine)@, c).2,
        r.2 == spec_apply_command(old(engine)@, c).3,
        final(engine)@.wf(),
        final(engine)@.playlist == old(engine)@.playlist,
{
    match c {
        VanControl::SetVolume(v) => {
            let err = engine.set_volume(v).err();
            (None, err, false)
        },
        VanControl::NextSong => {
            let err = engine.playlist_next_weak().err();
            (Some(PlayStatus::Loading), err, false)
        },
        VanControl::PrevSong => {
            let err = engine.playlist_previous_weak().err();
            (Some(PlayStatus::Loading), err, false)
        },
        VanControl::PauseControl => {
            match engine.get_pause_state() {
                Some(false) => (None, engine.pause().err(), false),
                Some(true) => (None, engine.unpause().err(), false),
                None => (None, None, false),
            }
        },
        VanControl::JumpTo(i) => {
            let err = engine.force_play(i).err();
            (None, err, false)
        },
        VanControl::Exit => {
            let err = engine.quit().err();
            (None, err, true)
        },
    }
}

/// The continuation phase of one iteration: evaluates the reload condition
/// against the engine's own reads and re-submits the whole queue snapshot
/// when it holds — exactly [`spec_continuation`].
fn run_continuation(engine: &mut EngineModel, queue: &TrackQueue) -> (r: Option<EngineError>)
    requires
        old(engine)@.wf(),
        old(engine)@.playlist.len() + queue@.len() <= i64::MAX,
    ensures
        final(engine)@ == spec_continuation(old(engine)@, queue@).0,
        r == spec_continuation(old(engine)@, queue@).1,
        final(engine)@.wf(),
        final(engine)@.playlist.len() <= old(engine)@.playlist.len() + queue@.len(),
{
    let total = engine.get_total_content();
    let index = engine.get_current_song_index();
    let reload = match (total, index) {
        (Some(t), Some(p)) => t == p + 1,
        (None, None) => true,
        _ => false,
    };
    if reload {
        let snap = queue.snapshot();
        let r = engine.playlist_load_files(&snap).err();
        proof {
            crate::engine::lemma_load_all_wf(old(engine)@, queue@);
        }
        r
    } else {
        None
    }
}

/// One iteration of the poller loop against the engine.
///
/// `cmd` is what one non-blocking receive on the command channel yielded:
/// at most one command is consumed, and the iteration never blocks. The
/// whole effect on the engine, the statuses published and the errors
/// reported are exactly those of [`poll_step`].
pub fn poll_iteration(
    engine: &mut EngineModel,
    queue: &TrackQueue,
    cmd: Option<VanControl>,
) -> (r: PollOutcome)
    requires
        old(engine)@.wf(),
        old(engine)@.playlist.len() + queue@.len() <= i64::MAX,
    ensures
        final(engine)@ == poll_step(old(engine)@, queue@, cmd).engine,
        statuses_view(r.statuses@) == poll_step(old(engine)@, queue@, cmd).statuses,
        r.errors@ == poll_step(old(engine)@, queue@, cmd).errors,
        r.exit == poll_step(old(engine)@, queue@, cmd).exit,
        final(engine)@.wf(),
        final(engine)@.playlist.len() <= old(engine)@.playlist.len() + queue@.len(),
{
    let ghost e0 = engine@;
    let ghost step = poll_step(engine@, queue@, cmd);
    let mut statuses: Vec<PlayStatus> = Vec::new();
    let mut errors: Vec<EngineError> = Vec::new();
    let mut exit = false;

    // Publish the level-valued status: metadata when the engine reports
    // some, `Loading` otherwise — on every iteration, not only on change.
    match engine.get_current_media_info() {
        Some(m) => statuses.push(PlayStatus::MediaInfo(m)),
        None => statuses.push(PlayStatus::Loading),
    }
    proof {
        assert(statuses_view(statuses@) =~= seq![status_of(obs_media(e0))]);
    }

    // Apply at most one pending command.
    if let Some(c) = cmd {
        let (extra, err, ex) = apply_command(engine, c);
        if let Some(s) = extra {
            statuses.push(s);
        }
        if let Some(e) = err {
            errors.push(e);
        }
        exit = ex;
        proof {
            assert(statuses_view(statuses@) =~= seq![status_of(obs_media(e0))]
                + spec_apply_command(e0, c).1);
            assert(errors@ =~= opt_errs(spec_apply_command(e0, c).2));
        }
    }

    // The continuation policy, skipped only when the session is unwinding.
    if !exit {
        if let Some(e) = run_continuation(engine, queue) {
            errors.push(e);
        }
    }

    proof {
        assert(statuses_view(statuses@) =~= step.statuses);
        assert(errors@ =~= step.errors);
    }
    PollOutcome { statuses, errors, exit }
}

/// The outcome of a whole poller run, as a mathematical value.
pub struct RunView {
    pub engine: EngineView,
    pub statuses: Seq<PlayStatusView>,
    pub errors: Seq<EngineError>,
    pub exit: bool,
    pub steps: int,
}

/// The poller loop over a sequence of per-iteration receive results, first
/// to last: each iteration is one [`poll_step`], and the loop stops right
/// after the iteration whose command asked the session to unwind. `steps`
/// counts the iterations that ran.
pub open spec fn run_steps(
    e: EngineView,
    snap: Seq<TrackView>,
    cmds: Seq<Option<VanControl>>,
) -> RunView
    decreases cmds.len(),
{
    if cmds.len() == 0 {
        RunView {
            engine: e,
            statuses: Seq::empty(),
            errors: Seq::empty(),
            exit: false,
            steps: 0,
        }
    } else {
        let s = poll_step(e, snap, cmds[0]);
        if s.exit {
            RunView { engine: s.engine, statuses: s.statuses, errors: s.errors, exit: true, steps: 1 }
        } else {
            let rest = run_steps(s.engine, snap, cmds.drop_first());
            RunView {
                engine: rest.engine,
                statuses: s.statuses + rest.statuses,
                errors: s.errors + rest.errors,
                exit: rest.exit,
                steps: 1 + rest.steps,
            }
        }
    }
}

/// Iterations process their inputs strictly in arrival order: running the
/// poller over `a` followed by `b` is running it over `a` and, unless that
/// run already exited, continuing from the state `a` left behind — so the
/// commands of `b` are applied after every command of `a`, and a run that
/// exited applies nothing further.
pub proof fn lemma_run_steps_append(
    e: EngineView,
    snap: Seq<TrackView>,
    a: Seq<Option<VanControl>>,
    b: Seq<Option<VanControl>>,
)
    ensures
        ({
            let ra = run_steps(e, snap, a);
            let rb = run_steps(ra.engine, snap, b);
            run_steps(e, snap, a + b) == (if ra.exit {
                ra
            } else {
                RunView {
                    engine: rb.engine,
                    statuses: ra.statuses + rb.statuses,
                    errors: ra.errors + rb.errors,
                    exit: rb.exit,
                    steps: ra.steps + rb.steps,
                }
            })
        }),
    decreases a.len(),
{
    let ra = run_steps(e, snap, a);
    let rb = run_steps(ra.engine, snap, b);
    if a.len() == 0 {
        assert(a + b =~= b);
        assert(ra.statuses + rb.statuses =~= rb.statuses);
        assert(ra.errors + rb.errors =~= rb.errors);
    } else {
        let s = poll_step(e, snap, a[0]);
        assert((a + b)[0] == a[0]);
        assert((a + b).drop_first() =~= a.drop_first() + b);
        if s.exit {
        } else {
            lemma_run_steps_append(s.engine, snap, a.drop_first(), b);
            let rest = run_steps(s.engine, snap, a.drop_first());
            if rest.exit {
            } else {
                let rb2 = run_steps(rest.engine, snap, b);
                assert(s.statuses + (rest.statuses + rb2.statuses) =~= (s.statuses
                    + rest.statuses) + rb2.statuses);
                assert(s.errors + (rest.errors + rb2.errors) =~= (s.errors + rest.errors)
                    + rb2.errors);
            }
        }
    }
}

/// An iteration asks the session to unwind exactly when the command it
/// received was `Exit` — the shutdown signal is explicit, checked every
/// iteration, and distinct from the error feed.
pub proof fn lemma_exit_only_from_exit(
    e: EngineView,
    snap: Seq<TrackView>,
    cmd: Option<VanControl>,
)
    ensures
        poll_step(e, snap, cmd).exit <==> cmd == Some(VanControl::Exit),
{
}

/// Once `Exit` arrives the poller stops: the run ends with the iteration
/// that received the first `Exit`, the engine is no longer running, and no
/// input after that iteration has any effect on the engine.
pub proof fn lemma_exit_stops(
    e: EngineView,
    snap: Seq<TrackView>,
    cmds: Seq<Option<VanControl>>,
    i: int,
)
    requires
        0 <= i < cmds.len(),
        cmds[i] == Some(VanControl::Exit),
        forall|j: int| 0 <= j < i ==> cmds[j] != Some(VanControl::Exit),
    ensures
        run_steps(e, snap, cmds).exit,
        run_steps(e, snap, cmds).steps == i + 1,
        !run_steps(e, snap, cmds).engine.running,
        run_steps(e, snap, cmds).engine == run_steps(e, snap, cmds.take(i + 1)).engine,
    decreases i,
{
    let s = poll_step(e, snap, cmds[0]);
    if i == 0 {
        assert(s.exit);
        assert(cmds.take(1)[0] == cmds[0]);
    } else {
        assert(cmds[0] != Some(VanControl::Exit));
        lemma_exit_only_from_exit(e, snap, cmds[0]);
        assert(!s.exit);
        let rest = cmds.drop_first();
        assert(rest[i - 1] == cmds[i]);
        assert forall|j: int| 0 <= j < i - 1 implies rest[j] != Some(VanControl::Exit) by {
            assert(rest[j] == cmds[j + 1]);
        }
        lemma_exit_stops(s.engine, snap, rest, i - 1);
        assert(cmds.take(i + 1)[0] == cmds[0]);
        assert(cmds.take(i + 1).drop_first() =~= rest.take(i));
    }
}

/// What one call of [`run_poller`] hands back.
pub struct RunOutcome {
    pub statuses: Vec<PlayStatus>,
    pub errors: Vec<EngineError>,
    pub exited: bool,
    pub iterations: usize,
}

/// The poller loop: one [`poll_iteration`] per receive result, in order,
/// stopping right after the iteration that received `Exit`. The run's
/// whole effect is exactly [`run_steps`] over the inputs.
pub fn run_poller(
    engine: &mut EngineModel,
    queue: &TrackQueue,
    inputs: &Vec<Option<VanControl>>,
) -> (r: RunOutcome)
    requires
        old(engine)@.wf(),
        old(engine)@.playlist.len() + inputs@.len() * queue@.len() <= i64::MAX,
    ensures
        final(engine)@ == run_steps(old(engine)@, queue@, inputs@).engine,
        statuses_view(r.statuses@) == run_steps(old(engine)@, queue@, inputs@).statuses,
        r.errors@ == run_steps(old(engine)@, queue@, inputs@).errors,
        r.exited == run_steps(old(engine)@, queue@, inputs@).exit,
        r.iterations as int == run_steps(old(engine)@, queue@, inputs@).steps,
        final(engine)@.wf(),
{
    let ghost e0 = engine@;
    let ghost q = queue@;
    let ghost full = run_steps(e0, q, inputs@);
    let mut statuses: Vec<PlayStatus> = Vec::new();
    let mut errors: Vec<EngineError> = Vec::new();
    let mut exited = false;
    let mut i: usize = 0;

    proof {
        assert(inputs@.take(0) =~= Seq::<Option<VanControl>>::empty());
        assert(statuses_view(statuses@) =~= Seq::<PlayStatusView>::empty());
    }
    while i < inputs.len() && !exited
        invariant
            0 <= i <= inputs@.len(),
            e0.wf(),
            q == queue@,
            full == run_steps(e0, q, inputs@),
            e0.playlist.len() + inputs@.len() * q.len() <= i64::MAX,
            engine@.wf(),
            engine@.playlist.len() <= e0.playlist.len() + i * q.len(),
            !exited ==> run_steps(e0, q, inputs@.take(i as int)) == (RunView {
                engine: engine@,
                statuses: statuses_view(statuses@),
                errors: errors@,
                exit: false,
                steps: i as int,
            }),
            exited ==> full == (RunView {
                engine: engine@,
                statuses: statuses_view(statuses@),
                errors: errors@,
                exit: true,
                steps: i as int,
            }),
        decreases inputs@.len() - i,
    {
        let ghost taken = inputs@.take(i as int);
        let ghost before = engine@;
        let ghost sts_before = statuses@;
        let ghost errs_before = errors@;
        proof {
            assert((i + 1) * q.len() == i * q.len() + q.len()) by (nonlinear_arith);
            assert(i as int * q.len() <= inputs@.len() * q.len() && (i as int + 1) * q.len()
                <= inputs@.len() * q.len()) by (nonlinear_arith)
                requires
                    0 <= i + 1 <= inputs@.len(),
                    q.len() >= 0,
            ;
        }
        let cmd = inputs[i];
        let mut out = poll_iteration(engine, queue, cmd);
        let ghost step = poll_step(before, q, cmd);
        statuses.append(&mut out.statuses);
        errors.append(&mut out.errors);
        proof {
            reveal_with_fuel(run_steps, 2);
            assert(statuses_view(statuses@) =~= statuses_view(sts_before) + step.statuses);
            assert(taken.push(cmd) =~= inputs@.take(i as int + 1));
            lemma_run_steps_append(e0, q, taken, seq![cmd]);
            assert(run_steps(before, q, seq![cmd]).engine == step.engine);
            let combined = run_steps(e0, q, inputs@.take(i as int + 1));
            assert(taken + seq![cmd] =~= taken.push(cmd));
            if out.exit {
                // The run over all inputs equals the run over the prefix that
                // ends with this iteration.
                lemma_run_steps_append(e0, q, inputs@.take(i as int + 1), inputs@.skip(i as int + 1));
                assert(inputs@.take(i as int + 1) + inputs@.skip(i as int + 1) =~= inputs@);
                assert(statuses_view(sts_before) + step.statuses =~= combined.statuses);
                assert(errs_before + step.errors =~= combined.errors);
            } else {
                assert(statuses_view(sts_before) + step.statuses =~= combined.statuses);
                assert(errs_before + step.errors =~= combined.errors);
            }
        }
        exited = out.exit;
        i = i + 1;
    }
    proof {
        if !exited {
            assert(inputs@.take(i as int) =~= inputs@);
        }
    }
    RunOutcome { statuses, errors, exited, iterations: i }
}

// The laws of the poller, stated once over its transition function.

/// The continuation phase only ever issues the load command: it never
/// writes the volume or the pause state, and never tears the engine down.
pub proof fn lemma_continuation_preserves_controls(e: EngineView, snap: Seq<TrackView>)
    ensures
        spec_continuation(e, snap).0.volume == e.volume,
        spec_continuation(e, snap).0.paused == e.paused,
        spec_continuation(e, snap).0.running == e.running,
{
    crate::engine::lemma_load_all_preserves_controls(e, snap);
}

/// One iteration applies at most the one command its receive yielded. An
/// iteration whose receive came back empty moves the engine only by the
/// continuation policy; an iteration with a command applies that command
/// and then the policy — except `Exit`, which ends the iteration at once.
pub proof fn lemma_at_most_one_command(e: EngineView, snap: Seq<TrackView>, c: VanControl)
    ensures
        poll_step(e, snap, None).engine == spec_continuation(e, snap).0,
        poll_step(e, snap, Some(c)).engine == (if c == VanControl::Exit {
            spec_quit(e).0
        } else {
            spec_continuation(spec_apply_command(e, c).0, snap).0
        }),
{
}

/// Volume writes are exact and come only from `SetVolume`: a `SetVolume(v)`
/// with `v` in `0 ..= 100` on a running engine sets the volume to exactly
/// `v`; any other iteration — any other command, a rejected write, or an
/// empty receive — leaves the volume untouched.
pub proof fn lemma_volume_writes(e: EngineView, snap: Seq<TrackView>, cmd: Option<VanControl>)
    ensures
        (match cmd {
            Some(VanControl::SetVolume(v)) => poll_step(e, snap, cmd).engine.volume == (
            if e.running && 0 <= v <= 100 {
                v as int
            } else {
                e.volume
            }),
            _ => poll_step(e, snap, cmd).engine.volume == e.volume,
        }),
{
    match cmd {
        None => {
            lemma_continuation_preserves_controls(e, snap);
        },
        Some(c) => {
            let e1 = spec_apply_command(e, c).0;
            lemma_continuation_preserves_controls(e1, snap);
        },
    }
}

/// The continuation policy reloads exactly on the level-triggered equality
/// of the two playlist reads: when it holds on a running engine the whole
/// current snapshot is submitted as a fresh load, and when it does not
/// hold no load command is issued in that iteration. On a running engine
/// the equality says precisely that the current index is the last one.
pub proof fn lemma_continuation_policy(e: EngineView, snap: Seq<TrackView>)
    ensures
        !should_reload(obs_pos(e), obs_count(e)) ==> spec_continuation(e, snap) == (
        e,
        None::<EngineError>,
        ),
        should_reload(obs_pos(e), obs_count(e)) && e.running ==> spec_continuation(e, snap).0
            == crate::engine::spec_load_all(e, snap),
        e.running ==> (should_reload(obs_pos(e), obs_count(e)) <==> e.pos + 1
            == e.playlist.len()),
{
}

/// Weak navigation at a playlist boundary is a no-op on the engine, not an
/// error — and the iteration still publishes a `Loading` status between
/// the sampled status and the transition.
pub proof fn lemma_weak_navigation_boundary(e: EngineView, snap: Seq<TrackView>)
    requires
        e.running,
    ensures
        e.pos == -1 || e.pos + 1 >= e.playlist.len() ==> spec_next_weak(e) == (
        e,
        None::<EngineError>,
        ),
        e.pos <= 0 ==> spec_prev_weak(e) == (e, None::<EngineError>),
        poll_step(e, snap, Some(VanControl::NextSong)).statuses == seq![
            status_of(obs_media(e)),
            PlayStatusView::Loading,
        ],
        poll_step(e, snap, Some(VanControl::PrevSong)).statuses == seq![
            status_of(obs_media(e)),
            PlayStatusView::Loading,
        ],
{
    assert(seq![status_of(obs_media(e))] + seq![PlayStatusView::Loading] =~= seq![
        status_of(obs_media(e)),
        PlayStatusView::Loading,
    ]);
}

/// A jump to an in-range index moves the engine's reported current index
/// to exactly that index; out of range the engine rejects the write and
/// nothing changes.
pub proof fn lemma_jump_exact(e: EngineView, i: int)
    ensures
        e.running && 0 <= i < e.playlist.len() ==> spec_force_play(e, i) == (
        (EngineView { pos: i, media: None, ..e }),
        None::<EngineError>,
        ),
        e.running && !(0 <= i < e.playlist.len()) ==> spec_force_play(e, i) == (
        e,
        Some(EngineError::Rejected),
        ),
{
}

/// `PauseControl` toggles from whatever pause state the engine reports: a
/// playing engine receives the pause command, a paused one the resume
/// command, and the iteration leaves the engine running either way.
pub proof fn lemma_pause_toggle(e: EngineView, snap: Seq<TrackView>)
    requires
        e.running,
    ensures
        !e.paused ==> poll_step(e, snap, Some(VanControl::PauseControl)).engine.paused,
        e.paused ==> !poll_step(e, snap, Some(VanControl::PauseControl)).engine.paused,
        poll_step(e, snap, Some(VanControl::PauseControl)).engine.running,
{
    let e1 = spec_apply_command(e, VanControl::PauseControl).0;
    lemma_continuation_preserves_controls(e1, snap);
}

} // verus!

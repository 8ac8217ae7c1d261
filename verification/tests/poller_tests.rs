use van_core::{
    poll_iteration, run_loader, run_poller, run_session, EngineError, EngineModel, MediaInfo,
    PlayStatus, TrackQueue, VanControl,
};

fn session(urls: &[&str]) -> (EngineModel, TrackQueue) {
    let mut queue = TrackQueue::new();
    for u in urls {
        queue.add(u);
    }
    let mut engine = EngineModel::new();
    let errs = run_loader(&mut engine, &queue);
    assert!(errs.is_empty());
    (engine, queue)
}

fn media(title: &str) -> MediaInfo {
    MediaInfo {
        title: String::from(title),
        artist: String::from("someone"),
        duration: 100,
        current_time: 1,
    }
}

#[test]
fn status_is_published_every_iteration() {
    let (mut engine, queue) = session(&["a", "b", "c"]);
    engine.report_media(Some(media("a")));
    let out1 = poll_iteration(&mut engine, &queue, None);
    let out2 = poll_iteration(&mut engine, &queue, None);
    assert_eq!(out1.statuses, vec![PlayStatus::MediaInfo(media("a"))]);
    assert_eq!(out2.statuses, vec![PlayStatus::MediaInfo(media("a"))]);
    assert!(!out1.exit && !out2.exit);
}

#[test]
fn loading_is_published_when_no_metadata_is_reported() {
    let (mut engine, queue) = session(&["a", "b"]);
    let out = poll_iteration(&mut engine, &queue, None);
    assert_eq!(out.statuses, vec![PlayStatus::Loading]);
}

#[test]
fn set_volume_applies_exactly_through_the_poller() {
    let (mut engine, queue) = session(&["a", "b"]);
    let out = poll_iteration(&mut engine, &queue, Some(VanControl::SetVolume(37)));
    assert!(out.errors.is_empty());
    assert_eq!(engine.get_volume(), Some(37));
}

#[test]
fn volume_is_untouched_when_the_channel_is_empty() {
    let (mut engine, queue) = session(&["a", "b"]);
    engine.set_volume(64).unwrap();
    poll_iteration(&mut engine, &queue, None);
    assert_eq!(engine.get_volume(), Some(64));
}

#[test]
fn rejected_volume_write_is_reported_and_changes_nothing() {
    let (mut engine, queue) = session(&["a", "b"]);
    engine.set_volume(64).unwrap();
    let out = poll_iteration(&mut engine, &queue, Some(VanControl::SetVolume(150)));
    assert_eq!(out.errors, vec![EngineError::Rejected]);
    assert_eq!(engine.get_volume(), Some(64));
}

#[test]
fn continuation_reloads_whole_snapshot_at_the_last_entry() {
    // Scenario: queue = [A, B, C]; the engine reports index 2 of 3. The
    // continuation check re-submits the whole snapshot, and `Loading` is
    // published before the next `NowPlaying`.
    let (mut engine, queue) = session(&["A", "B", "C"]);
    engine.force_play(2).unwrap();
    let out = poll_iteration(&mut engine, &queue, None);
    assert_eq!(out.statuses, vec![PlayStatus::Loading]);
    assert!(out.errors.is_empty());
    assert_eq!(engine.get_total_content(), Some(6));
    assert_eq!(engine.get_current_song_index(), Some(2));
    engine.report_media(Some(media("C")));
    let out2 = poll_iteration(&mut engine, &queue, None);
    assert_eq!(out2.statuses, vec![PlayStatus::MediaInfo(media("C"))]);
    assert_eq!(engine.get_total_content(), Some(6));
}

#[test]
fn continuation_is_quiet_away_from_the_last_entry() {
    let (mut engine, queue) = session(&["A", "B", "C"]);
    let out = poll_iteration(&mut engine, &queue, None);
    assert!(out.errors.is_empty());
    assert_eq!(engine.get_total_content(), Some(3));
}

#[test]
fn weak_navigation_at_boundary_still_publishes_loading() {
    let (mut engine, queue) = session(&["A", "B"]);
    engine.force_play(1).unwrap();
    engine.report_media(Some(media("B")));
    // An empty queue keeps the continuation check from adding entries, so
    // the boundary no-op itself is observable.
    let empty = TrackQueue::new();
    let out = poll_iteration(&mut engine, &empty, Some(VanControl::NextSong));
    assert_eq!(
        out.statuses,
        vec![PlayStatus::MediaInfo(media("B")), PlayStatus::Loading]
    );
    assert!(out.errors.is_empty());
    assert_eq!(engine.get_current_song_index(), Some(1));
    assert_eq!(engine.get_total_content(), Some(2));

    engine.force_play(0).unwrap();
    let out = poll_iteration(&mut engine, &empty, Some(VanControl::PrevSong));
    assert_eq!(out.statuses, vec![PlayStatus::Loading, PlayStatus::Loading]);
    assert!(out.errors.is_empty());
    assert_eq!(engine.get_current_song_index(), Some(0));
}

#[test]
fn jump_moves_the_reported_index_to_exactly_that_index() {
    let (mut engine, queue) = session(&["A", "B", "C"]);
    let out = poll_iteration(&mut engine, &queue, Some(VanControl::JumpTo(1)));
    assert!(out.errors.is_empty());
    assert_eq!(engine.get_current_song_index(), Some(1));
}

#[test]
fn jump_out_of_range_is_an_engine_error_not_a_local_check() {
    let (mut engine, queue) = session(&["A", "B", "C"]);
    let out = poll_iteration(&mut engine, &queue, Some(VanControl::JumpTo(7)));
    assert_eq!(out.errors, vec![EngineError::Rejected]);
    assert_eq!(engine.get_current_song_index(), Some(0));
}

#[test]
fn pause_toggles_from_the_reported_state() {
    // Scenario: `PauseToggle` while the engine reports pause=false makes
    // the engine receive the pause command; a second one, with pause=true,
    // makes it receive the resume command.
    let (mut engine, queue) = session(&["A"]);
    engine.force_play(0).unwrap();
    assert_eq!(engine.get_pause_state(), Some(false));
    let empty = TrackQueue::new();
    poll_iteration(&mut engine, &empty, Some(VanControl::PauseControl));
    assert_eq!(engine.get_pause_state(), Some(true));
    poll_iteration(&mut engine, &empty, Some(VanControl::PauseControl));
    assert_eq!(engine.get_pause_state(), Some(false));
}

#[test]
fn commands_are_applied_in_order_one_per_iteration() {
    let (mut engine, queue) = session(&["A", "B", "C"]);
    // In arrival order: the jump lands on the last entry (which also
    // triggers a reload of the 3-track snapshot), then the weak advance
    // moves into the reloaded part. Any other order ends elsewhere.
    let inputs = vec![
        Some(VanControl::JumpTo(2)),
        Some(VanControl::NextSong),
    ];
    let out = run_poller(&mut engine, &queue, &inputs);
    assert_eq!(out.iterations, 2);
    assert!(!out.exited);
    assert!(out.errors.is_empty());
    assert_eq!(engine.get_current_song_index(), Some(3));
    assert_eq!(engine.get_total_content(), Some(6));
    // One status sample per iteration, plus the Loading the advance adds.
    assert_eq!(out.statuses.len(), 3);
}

#[test]
fn empty_receives_apply_no_command() {
    let (mut engine, queue) = session(&["A", "B", "C"]);
    let inputs = vec![None, None, None];
    let out = run_poller(&mut engine, &queue, &inputs);
    assert_eq!(out.iterations, 3);
    assert_eq!(engine.get_current_song_index(), Some(0));
    assert_eq!(engine.get_volume(), Some(100));
    assert_eq!(engine.get_total_content(), Some(3));
    assert_eq!(out.statuses.len(), 3);
}

#[test]
fn exit_stops_the_session_and_nothing_runs_after() {
    // Scenario: `Exit` arrives mid-run; the run ends with that iteration,
    // without error, and no further engine calls are issued afterwards.
    let (mut engine, queue) = session(&["A", "B", "C"]);
    let inputs = vec![
        Some(VanControl::SetVolume(10)),
        Some(VanControl::Exit),
        Some(VanControl::NextSong),
        None,
    ];
    let out = run_poller(&mut engine, &queue, &inputs);
    assert!(out.exited);
    assert_eq!(out.iterations, 2);
    assert!(out.errors.is_empty());
    // The engine was torn down by the exit iteration and reports nothing.
    assert!(engine.get_current_song_index().is_none());
    assert!(engine.get_total_content().is_none());
    // Two iterations ran, one status sample each.
    assert_eq!(out.statuses.len(), 2);
}

#[test]
fn whole_session_loads_polls_and_exits() {
    let mut queue = TrackQueue::new();
    queue.add("A");
    queue.add("B");
    let mut engine = EngineModel::new();
    let inputs = vec![
        Some(VanControl::SetVolume(25)),
        None,
        Some(VanControl::Exit),
    ];
    let out = run_session(&mut engine, &queue, &inputs);
    assert!(out.loader_errors.is_empty());
    assert!(out.exited);
    assert_eq!(out.iterations, 3);
    assert!(out.errors.is_empty());
    assert!(engine.get_volume().is_none());
}

#[test]
fn loader_failure_is_fatal_and_nothing_is_polled() {
    let mut queue = TrackQueue::new();
    queue.add("A");
    let mut engine = EngineModel::new();
    engine.quit().unwrap();
    let inputs = vec![Some(VanControl::SetVolume(25))];
    let out = run_session(&mut engine, &queue, &inputs);
    assert_eq!(out.loader_errors.len(), 3);
    assert_eq!(out.iterations, 0);
    assert!(!out.exited);
    assert!(out.statuses.is_empty());
}

#[test]
fn exit_alone_returns_cleanly() {
    let (mut engine, queue) = session(&["A"]);
    let out = poll_iteration(&mut engine, &queue, Some(VanControl::Exit));
    assert!(out.exit);
    assert!(out.errors.is_empty());
    assert_eq!(out.statuses.len(), 1);
}

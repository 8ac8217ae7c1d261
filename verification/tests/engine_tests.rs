use van_core::{run_loader, EngineError, EngineModel, LoadMode, MediaInfo, Track, TrackQueue};

fn loaded_engine(urls: &[&str]) -> EngineModel {
    let mut queue = TrackQueue::new();
    for u in urls {
        queue.add(u);
    }
    let mut engine = EngineModel::new();
    let errs = run_loader(&mut engine, &queue);
    assert!(errs.is_empty());
    engine
}

#[test]
fn fresh_engine_reports_idle() {
    let e = EngineModel::new();
    assert_eq!(e.get_current_song_index(), Some(-1));
    assert_eq!(e.get_total_content(), Some(0));
    assert_eq!(e.get_pause_state(), Some(false));
    assert_eq!(e.get_volume(), Some(100));
    assert!(e.get_current_media_info().is_none());
    assert!(e.get_file_name().is_none());
}

#[test]
fn loader_loads_snapshot_and_starts_first_entry() {
    let e = loaded_engine(&["a", "b", "c"]);
    assert_eq!(e.get_total_content(), Some(3));
    assert_eq!(e.get_current_song_index(), Some(0));
    assert_eq!(e.get_file_name(), Some(String::from("a")));
}

#[test]
fn loader_on_dead_engine_reports_every_step() {
    let mut queue = TrackQueue::new();
    queue.add("a");
    let mut engine = EngineModel::new();
    engine.quit().unwrap();
    let errs = run_loader(&mut engine, &queue);
    assert_eq!(errs, vec![
        EngineError::NotRunning,
        EngineError::NotRunning,
        EngineError::NotRunning,
    ]);
}

#[test]
fn set_volume_writes_exactly() {
    let mut e = EngineModel::new();
    assert!(e.set_volume(42).is_ok());
    assert_eq!(e.get_volume(), Some(42));
    assert!(e.set_volume(0).is_ok());
    assert_eq!(e.get_volume(), Some(0));
    assert!(e.set_volume(100).is_ok());
    assert_eq!(e.get_volume(), Some(100));
}

#[test]
fn set_volume_out_of_range_is_rejected() {
    let mut e = EngineModel::new();
    e.set_volume(42).unwrap();
    assert_eq!(e.set_volume(101), Err(EngineError::Rejected));
    assert_eq!(e.set_volume(-1), Err(EngineError::Rejected));
    assert_eq!(e.get_volume(), Some(42));
}

#[test]
fn weak_navigation_moves_inside_the_playlist() {
    let mut e = loaded_engine(&["a", "b", "c"]);
    assert!(e.playlist_next_weak().is_ok());
    assert_eq!(e.get_current_song_index(), Some(1));
    assert!(e.playlist_previous_weak().is_ok());
    assert_eq!(e.get_current_song_index(), Some(0));
}

#[test]
fn weak_navigation_is_noop_at_the_boundary() {
    let mut e = loaded_engine(&["a", "b"]);
    assert!(e.playlist_previous_weak().is_ok());
    assert_eq!(e.get_current_song_index(), Some(0));
    e.force_play(1).unwrap();
    assert!(e.playlist_next_weak().is_ok());
    assert_eq!(e.get_current_song_index(), Some(1));
}

#[test]
fn force_play_jumps_to_exactly_that_index() {
    let mut e = loaded_engine(&["a", "b", "c"]);
    assert!(e.force_play(2).is_ok());
    assert_eq!(e.get_current_song_index(), Some(2));
    assert_eq!(e.get_file_name(), Some(String::from("c")));
}

#[test]
fn force_play_out_of_range_is_rejected() {
    let mut e = loaded_engine(&["a", "b", "c"]);
    assert_eq!(e.force_play(3), Err(EngineError::Rejected));
    assert_eq!(e.force_play(-1), Err(EngineError::Rejected));
    assert_eq!(e.get_current_song_index(), Some(0));
}

#[test]
fn pause_and_unpause_set_the_property() {
    let mut e = EngineModel::new();
    assert!(e.pause().is_ok());
    assert_eq!(e.get_pause_state(), Some(true));
    assert!(e.unpause().is_ok());
    assert_eq!(e.get_pause_state(), Some(false));
}

#[test]
fn load_modes_replace_append_and_append_play() {
    let mut e = loaded_engine(&["a", "b"]);
    // Append adds at the end without moving the current entry.
    let batch = vec![Track {
        locator: String::from("c"),
        mode: LoadMode::Append,
        subtitle: None,
    }];
    e.playlist_load_files(&batch).unwrap();
    assert_eq!(e.get_total_content(), Some(3));
    assert_eq!(e.get_current_song_index(), Some(0));
    // AppendPlay adds at the end and also leaves the current entry alone
    // while something is playing.
    let batch = vec![Track {
        locator: String::from("d"),
        mode: LoadMode::AppendPlay,
        subtitle: None,
    }];
    e.playlist_load_files(&batch).unwrap();
    assert_eq!(e.get_total_content(), Some(4));
    assert_eq!(e.get_current_song_index(), Some(0));
    // Replace discards the playlist for the one entry and makes it current.
    let batch = vec![Track {
        locator: String::from("z"),
        mode: LoadMode::Replace,
        subtitle: None,
    }];
    e.playlist_load_files(&batch).unwrap();
    assert_eq!(e.get_total_content(), Some(1));
    assert_eq!(e.get_current_song_index(), Some(0));
    assert_eq!(e.get_file_name(), Some(String::from("z")));
}

#[test]
fn reported_media_round_trips() {
    let mut e = EngineModel::new();
    e.report_media(Some(MediaInfo {
        title: String::from("Song"),
        artist: String::from("Artist"),
        duration: 180,
        current_time: 10,
    }));
    let m = e.get_current_media_info().unwrap();
    assert_eq!(m.title, "Song");
    assert_eq!(m.artist, "Artist");
    assert_eq!(m.duration, 180);
    assert_eq!(m.current_time, 10);
}

#[test]
fn dead_engine_rejects_calls_and_reports_nothing() {
    let mut e = EngineModel::new();
    e.quit().unwrap();
    assert_eq!(e.set_volume(50), Err(EngineError::NotRunning));
    assert_eq!(e.playlist_next_weak(), Err(EngineError::NotRunning));
    assert_eq!(e.pause(), Err(EngineError::NotRunning));
    assert_eq!(e.quit(), Err(EngineError::NotRunning));
    assert!(e.get_current_song_index().is_none());
    assert!(e.get_total_content().is_none());
    assert!(e.get_pause_state().is_none());
    assert!(e.get_volume().is_none());
    assert!(e.get_current_media_info().is_none());
    assert!(e.get_file_name().is_none());
}

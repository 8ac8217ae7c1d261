use van_core::{
    decreased_volume, increased_volume, media_info_from_parts, select_media_meta, ResolvedSource,
    DEFAULT_VOL,
};

#[test]
fn default_volume_is_fifty() {
    assert_eq!(DEFAULT_VOL, 50);
}

#[test]
fn volume_steps_up_by_five_below_hundred() {
    assert_eq!(increased_volume(50), Some(55));
    assert_eq!(increased_volume(0), Some(5));
    assert_eq!(increased_volume(99), Some(104));
    assert_eq!(increased_volume(100), None);
    assert_eq!(increased_volume(130), None);
}

#[test]
fn volume_steps_down_by_five_above_zero() {
    assert_eq!(decreased_volume(50), Some(45));
    assert_eq!(decreased_volume(5), Some(0));
    assert_eq!(decreased_volume(3), Some(-2));
    assert_eq!(decreased_volume(0), None);
    assert_eq!(decreased_volume(-4), None);
}

#[test]
fn media_info_needs_all_four_reads() {
    let m = media_info_from_parts(
        Some(String::from("Title")),
        Some(200),
        Some(String::from("Artist")),
        Some(42),
    )
    .unwrap();
    assert_eq!(m.title, "Title");
    assert_eq!(m.artist, "Artist");
    assert_eq!(m.duration, 200);
    assert_eq!(m.current_time, 42);

    assert!(media_info_from_parts(None, Some(200), Some(String::from("a")), Some(1)).is_none());
    assert!(media_info_from_parts(Some(String::from("t")), None, Some(String::from("a")), Some(1))
        .is_none());
    assert!(media_info_from_parts(Some(String::from("t")), Some(200), None, Some(1)).is_none());
    assert!(media_info_from_parts(Some(String::from("t")), Some(200), Some(String::from("a")), None)
        .is_none());
}

#[test]
fn playlist_source_keeps_its_own_uploader() {
    let meta = select_media_meta(ResolvedSource::Playlist {
        title: Some(String::from("List")),
        uploader: Some(String::from("Owner")),
        first_entry_uploader: Some(String::from("First")),
    });
    assert_eq!(meta.title, Some(String::from("List")));
    assert_eq!(meta.uploader, Some(String::from("Owner")));
}

#[test]
fn playlist_source_falls_back_to_first_entry_uploader() {
    let meta = select_media_meta(ResolvedSource::Playlist {
        title: Some(String::from("List")),
        uploader: None,
        first_entry_uploader: Some(String::from("First")),
    });
    assert_eq!(meta.uploader, Some(String::from("First")));

    let meta = select_media_meta(ResolvedSource::Playlist {
        title: None,
        uploader: None,
        first_entry_uploader: None,
    });
    assert_eq!(meta.title, None);
    assert_eq!(meta.uploader, None);
}

#[test]
fn single_source_keeps_title_and_uploader() {
    let meta = select_media_meta(ResolvedSource::Single {
        title: String::from("Video"),
        uploader: Some(String::from("Owner")),
    });
    assert_eq!(meta.title, Some(String::from("Video")));
    assert_eq!(meta.uploader, Some(String::from("Owner")));
}

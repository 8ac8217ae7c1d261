use van_core::{find_index, parse_playlist, PlayListItem, PlaylistError};

#[test]
fn typical_payload_decodes_field_by_field() {
    let items = parse_playlist(
        "[{\"filename\":\"a.mp3\",\"current\":true,\"playing\":true,\"id\":1},\
         {\"filename\":\"b.mp3\",\"id\":2}]",
    )
    .unwrap();
    assert_eq!(
        items,
        vec![
            PlayListItem {
                filename: String::from("a.mp3"),
                current: Some(true),
                playing: Some(true),
                id: 1,
            },
            PlayListItem {
                filename: String::from("b.mp3"),
                current: None,
                playing: None,
                id: 2,
            },
        ]
    );
}

#[test]
fn empty_array_decodes_to_no_items() {
    assert_eq!(parse_playlist("[]").unwrap(), vec![]);
    assert_eq!(parse_playlist("  [ \t\n ]  ").unwrap(), vec![]);
}

#[test]
fn whitespace_and_member_order_are_free() {
    let items = parse_playlist(
        " [ { \"id\" : 7 , \"current\" : false , \"filename\" : \"x\" } ] ",
    )
    .unwrap();
    assert_eq!(items.len(), 1);
    assert_eq!(items[0].filename, "x");
    assert_eq!(items[0].current, Some(false));
    assert_eq!(items[0].playing, None);
    assert_eq!(items[0].id, 7);
}

#[test]
fn unknown_members_are_ignored_whole() {
    let items = parse_playlist(
        "[{\"filename\":\"x\",\"playlist-path\":\"y\",\"depth\":{\"a\":[1,-2.5e+3,{\"b\":null}],\
         \"s\":\"t\"},\"flag\":null,\"id\":0}]",
    )
    .unwrap();
    assert_eq!(items.len(), 1);
    assert_eq!(items[0].filename, "x");
    assert_eq!(items[0].id, 0);
}

#[test]
fn string_escapes_decode() {
    let items = parse_playlist(
        "[{\"filename\":\"a\\\"b\\\\c\\/d\\n\\t\\u0041\",\"id\":1}]",
    )
    .unwrap();
    assert_eq!(items[0].filename, "a\"b\\c/d\n\tA");
}

#[test]
fn surrogate_pairs_decode_to_one_character() {
    let items = parse_playlist("[{\"filename\":\"\\ud83d\\ude00\",\"id\":1}]").unwrap();
    assert_eq!(items[0].filename, "\u{1F600}");
}

#[test]
fn non_ascii_filenames_pass_through() {
    let items = parse_playlist("[{\"filename\":\"\u{6B4C}\u{66F2}.mp3\",\"id\":3}]").unwrap();
    assert_eq!(items[0].filename, "\u{6B4C}\u{66F2}.mp3");
}

#[test]
fn null_for_optional_flags_counts_as_absent() {
    let items = parse_playlist("[{\"filename\":\"x\",\"current\":null,\"id\":1}]").unwrap();
    assert_eq!(items[0].current, None);
}

#[test]
fn negative_and_extreme_ids_fit() {
    let items =
        parse_playlist("[{\"filename\":\"x\",\"id\":-5},{\"filename\":\"y\",\"id\":2147483647}]")
            .unwrap();
    assert_eq!(items[0].id, -5);
    assert_eq!(items[1].id, 2147483647);
    let items = parse_playlist("[{\"filename\":\"z\",\"id\":-2147483648}]").unwrap();
    assert_eq!(items[0].id, -2147483648);
}

#[test]
fn malformed_payloads_are_reported() {
    // Not an array at all.
    assert_eq!(parse_playlist("{}"), Err(PlaylistError::Malformed));
    // Unterminated string.
    assert_eq!(
        parse_playlist("[{\"filename\":\"x"),
        Err(PlaylistError::Malformed)
    );
    // Trailing comma.
    assert_eq!(
        parse_playlist("[{\"filename\":\"x\",\"id\":1},]"),
        Err(PlaylistError::Malformed)
    );
    // Trailing garbage.
    assert_eq!(
        parse_playlist("[{\"filename\":\"x\",\"id\":1}] x"),
        Err(PlaylistError::Malformed)
    );
    // Missing id.
    assert_eq!(
        parse_playlist("[{\"filename\":\"x\"}]"),
        Err(PlaylistError::Malformed)
    );
    // Missing filename.
    assert_eq!(parse_playlist("[{\"id\":1}]"), Err(PlaylistError::Malformed));
}

#[test]
fn wrongly_typed_members_are_reported() {
    // A fractional id.
    assert_eq!(
        parse_playlist("[{\"filename\":\"x\",\"id\":1.5}]"),
        Err(PlaylistError::Malformed)
    );
    // An id with a redundant leading zero.
    assert_eq!(
        parse_playlist("[{\"filename\":\"x\",\"id\":01}]"),
        Err(PlaylistError::Malformed)
    );
    // An id outside 32 bits.
    assert_eq!(
        parse_playlist("[{\"filename\":\"x\",\"id\":2147483648}]"),
        Err(PlaylistError::Malformed)
    );
    // A numeric filename.
    assert_eq!(
        parse_playlist("[{\"filename\":3,\"id\":1}]"),
        Err(PlaylistError::Malformed)
    );
    // A string where current's boolean belongs.
    assert_eq!(
        parse_playlist("[{\"filename\":\"x\",\"current\":\"yes\",\"id\":1}]"),
        Err(PlaylistError::Malformed)
    );
}

#[test]
fn duplicate_members_are_reported() {
    assert_eq!(
        parse_playlist("[{\"filename\":\"x\",\"filename\":\"y\",\"id\":1}]"),
        Err(PlaylistError::Malformed)
    );
    assert_eq!(
        parse_playlist("[{\"filename\":\"x\",\"current\":null,\"current\":true,\"id\":1}]"),
        Err(PlaylistError::Malformed)
    );
}

#[test]
fn broken_escapes_are_reported() {
    // A lone high surrogate.
    assert_eq!(
        parse_playlist("[{\"filename\":\"\\ud83d\",\"id\":1}]"),
        Err(PlaylistError::Malformed)
    );
    // A lone low surrogate.
    assert_eq!(
        parse_playlist("[{\"filename\":\"\\ude00\",\"id\":1}]"),
        Err(PlaylistError::Malformed)
    );
    // An unknown escape.
    assert_eq!(
        parse_playlist("[{\"filename\":\"\\x\",\"id\":1}]"),
        Err(PlaylistError::Malformed)
    );
    // A raw control character.
    assert_eq!(
        parse_playlist("[{\"filename\":\"a\u{1}b\",\"id\":1}]"),
        Err(PlaylistError::Malformed)
    );
}

#[test]
fn find_index_returns_the_first_match() {
    let files = vec![
        String::from("a.mp3"),
        String::from("b.mp3"),
        String::from("a.mp3"),
    ];
    assert_eq!(find_index(&files, "a.mp3"), Some(0));
    assert_eq!(find_index(&files, "b.mp3"), Some(1));
    assert_eq!(find_index(&files, "c.mp3"), None);
    assert_eq!(find_index(&Vec::new(), "a"), None);
}

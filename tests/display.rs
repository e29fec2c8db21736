use player_daemon::display::{frames, redraw, FRAME_INTERVAL_MS};

#[test]
fn three_frame_asset_gives_three_frames() {
    let fs = frames("f1SPLITf2SPLITf3");
    assert_eq!(fs, vec!["f1".to_string(), "f2".to_string(), "f3".to_string()]);
    let drawn: Vec<String> = fs.iter().map(|f| redraw(f)).collect();
    assert_eq!(drawn, vec!["f1\r".to_string(), "f2\r".to_string(), "f3\r".to_string()]);
    assert_eq!(FRAME_INTERVAL_MS, 41);
    assert_eq!(FRAME_INTERVAL_MS * fs.len() as u64, 123);
}

#[test]
fn placeholders_become_spaces() {
    assert_eq!(frames(".#.SPLIT..#"), vec![" # ".to_string(), "  #".to_string()]);
}

#[test]
fn empty_asset_is_one_empty_frame() {
    assert_eq!(frames(""), vec!["".to_string()]);
}

#[test]
fn asset_without_delimiter_is_one_frame() {
    assert_eq!(frames("abc\ndef"), vec!["abc\ndef".to_string()]);
}

#[test]
fn delimiters_at_edges_and_adjacent_give_empty_frames() {
    assert_eq!(
        frames("SPLITaSPLITSPLITb SPLIT"),
        vec!["".to_string(), "a".to_string(), "".to_string(), "b ".to_string(), "".to_string()]
    );
}

#[test]
fn partial_delimiter_is_kept() {
    assert_eq!(frames("xSPLISPLITSPLx"), vec!["xSPLI".to_string(), "SPLx".to_string()]);
}

#[test]
fn frames_keep_non_ascii_characters() {
    assert_eq!(frames("é.ñSPLIT→"), vec!["é ñ".to_string(), "→".to_string()]);
}

#[test]
fn redraw_appends_carriage_return() {
    assert_eq!(redraw("ab c"), "ab c\r");
    assert_eq!(redraw(""), "\r");
}

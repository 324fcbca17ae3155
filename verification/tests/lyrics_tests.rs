use ncm_tui::lyrics::encode_lyrics;

fn lines(list: &[&str]) -> Vec<String> {
    list.iter().map(|s| s.to_string()).collect()
}

#[test]
fn encodes_lyrics_with_translations() {
    let lyrics = encode_lyrics(
        lines(&["[00:01.00]hello", "[00:02]world", "no timestamp"]),
        lines(&["[00:01.00]你好"]),
        lines(&["x"]),
    )
    .unwrap();
    assert_eq!(lyrics.len(), 2);
    assert_eq!(lyrics[0].timestamp, 1000);
    assert_eq!(lyrics[0].lyric_line, "hello");
    assert_eq!(lyrics[0].trans_lyric_line.as_deref(), Some("你好"));
    assert_eq!(lyrics[0].roman_lyric_line, None);
    assert_eq!(lyrics[1].timestamp, 2000);
    assert_eq!(lyrics[1].lyric_line, "world");
    assert_eq!(lyrics[1].trans_lyric_line, None);
}

#[test]
fn repairs_short_and_odd_timestamps() {
    let lyrics = encode_lyrics(
        lines(&["[01:02.5]a\t", "[00:03:45]b", "[02:00.12]c"]),
        lines(&["[02:00.012]c-trans"]),
        lines(&["[01:02.005]a-roman"]),
    )
    .unwrap();
    assert_eq!(lyrics.iter().map(|l| l.timestamp).collect::<Vec<_>>(), vec![62005, 3045, 120012]);
    assert_eq!(lyrics[0].lyric_line, "a");
    assert_eq!(lyrics[0].roman_lyric_line.as_deref(), Some("a-roman"));
    assert_eq!(lyrics[1].lyric_line, "b");
    assert_eq!(lyrics[2].trans_lyric_line.as_deref(), Some("c-trans"));
    assert_eq!(lyrics[2].roman_lyric_line, None);
}

#[test]
fn lyrics_without_translation_lines_are_refused() {
    assert!(encode_lyrics(lines(&["[00:01.00]hello"]), Vec::new(), lines(&["x"])).is_none());
    assert!(encode_lyrics(lines(&["[00:01.00]hello"]), lines(&["x"]), Vec::new()).is_none());
}

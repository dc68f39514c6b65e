use radio_cli::audio::StreamInfo;
use radio_cli::metadata::{parse_status_line, update_stream_info};

#[test]
fn parses_full_status_line() {
    let m = parse_status_line("STATUS: Song Name FORMAT: mp3 BITRATE: 128").unwrap();
    assert_eq!(m.format, "mp3");
    assert_eq!(m.bitrate, "128 kbps");
    assert_eq!(m.song.as_deref(), Some("Song Name"));
}

#[test]
fn marker_order_song_and_format_agree() {
    let a = parse_status_line("STATUS: Song Name FORMAT: mp3 BITRATE: 128").unwrap();
    let b = parse_status_line("STATUS: Song Name BITRATE: 128 FORMAT: mp3").unwrap();
    assert_eq!(a.song, b.song);
    assert_eq!(a.format, b.format);
    // The bitrate reads to the end of the line, so the swapped order
    // drags the format segment into it.
    assert_eq!(b.bitrate, "128 FORMAT: mp3 kbps");
}

#[test]
fn line_without_markers_is_all_song() {
    let m = parse_status_line("STATUS: Just a song title").unwrap();
    assert_eq!(m.format, "Unknown");
    assert_eq!(m.bitrate, "Unknown");
    assert_eq!(m.song.as_deref(), Some("Just a song title"));
}

#[test]
fn blank_line_has_no_song() {
    let m = parse_status_line("STATUS:    ").unwrap();
    assert_eq!(m.song, None);
    assert_eq!(m.format, "Unknown");
    assert_eq!(m.bitrate, "Unknown");
}

#[test]
fn unrecognized_line_is_ignored() {
    assert!(parse_status_line("AV: 00:00:03 / 00:00:00").is_none());
    assert!(parse_status_line("").is_none());
    assert!(parse_status_line("status: lowercase prefix").is_none());
}

#[test]
fn empty_bitrate_value_falls_back() {
    let m = parse_status_line("STATUS: x FORMAT: aac BITRATE: ").unwrap();
    assert_eq!(m.format, "aac");
    assert_eq!(m.bitrate, "Unknown");
}

#[test]
fn missing_bitrate_marker() {
    let m = parse_status_line("STATUS: tune FORMAT: flac").unwrap();
    assert_eq!(m.format, "flac");
    assert_eq!(m.bitrate, "Unknown");
    assert_eq!(m.song.as_deref(), Some("tune"));
}

#[test]
fn truncated_line_parses_without_error() {
    let m = parse_status_line("STATUS: FORMAT:").unwrap();
    assert_eq!(m.format, "");
    assert_eq!(m.bitrate, "Unknown");
    assert_eq!(m.song, None);
}

#[test]
fn swapped_markers_parse_without_error() {
    let m = parse_status_line("STATUS: BITRATE: 96 FORMAT: ogg").unwrap();
    assert_eq!(m.format, "ogg");
    assert_eq!(m.song, None);
}

#[test]
fn update_keeps_station_name() {
    let mut info = StreamInfo {
        bitrate: "Detecting...".to_string(),
        format: "Detecting...".to_string(),
        station_name: "Groove Salad".to_string(),
        current_song: None,
    };
    update_stream_info(&mut info, "STATUS: A Tune FORMAT: mp3 BITRATE: 192");
    assert_eq!(info.station_name, "Groove Salad");
    assert_eq!(info.format, "mp3");
    assert_eq!(info.bitrate, "192 kbps");
    assert_eq!(info.current_song.as_deref(), Some("A Tune"));
}

#[test]
fn update_ignores_other_lines() {
    let mut info = StreamInfo {
        bitrate: "b".to_string(),
        format: "f".to_string(),
        station_name: "s".to_string(),
        current_song: Some("old".to_string()),
    };
    update_stream_info(&mut info, "some noise on the pipe");
    assert_eq!(info.bitrate, "b");
    assert_eq!(info.format, "f");
    assert_eq!(info.current_song.as_deref(), Some("old"));
}

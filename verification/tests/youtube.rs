use audido::text::{parse_whole_seconds, split_tabs, str_contains, to_ascii_lowercase};
use audido::youtube::{
    parse_video_info, parse_video_line,
    duration_is_valid, expected_stream_samples, leading_silence_len, search_fetch_count, select_search_page, startup_decision,
    startup_samples, StartupDecision, YoutubeSearchError,
};

#[test]
fn fetch_count_covers_the_page_up_to_the_cap() {
    assert_eq!(search_fetch_count(10, 0), 10);
    assert_eq!(search_fetch_count(10, 2), 30);
    assert_eq!(search_fetch_count(10, 4), 50);
    assert_eq!(search_fetch_count(10, 9), 50);
    assert_eq!(search_fetch_count(usize::MAX, usize::MAX), 50);
    assert_eq!(search_fetch_count(0, 3), 0);
}

#[test]
fn pages_are_cut_from_the_results() {
    let results: Vec<u32> = (0..25).collect();
    assert_eq!(select_search_page(results.clone(), 10, 0, "q").unwrap(), (0..10).collect::<Vec<u32>>());
    assert_eq!(select_search_page(results.clone(), 10, 2, "q").unwrap(), (20..25).collect::<Vec<u32>>());
    match select_search_page(results, 10, 3, "cats") {
        Err(YoutubeSearchError::NoResults { query }) => assert_eq!(query, "cats"),
        other => panic!("unexpected {other:?}"),
    }
    match select_search_page(Vec::<u32>::new(), 10, 0, "none") {
        Err(YoutubeSearchError::NoResults { query }) => assert_eq!(query, "none"),
        other => panic!("unexpected {other:?}"),
    }
}

#[test]
fn startup_buffer_is_half_a_second() {
    assert_eq!(startup_samples(48_000, 2), 48_000);
    assert_eq!(startup_samples(44_100, 1), 22_050);
    assert_eq!(startup_samples(0, 2), 0);
}

#[test]
fn startup_waits_for_enough_audio() {
    assert_eq!(startup_decision(48_000, false, false, 48_000), StartupDecision::Ready);
    assert_eq!(startup_decision(100, false, false, 48_000), StartupDecision::Wait);
    assert_eq!(startup_decision(100, true, false, 48_000), StartupDecision::Ready);
    assert_eq!(startup_decision(0, true, false, 48_000), StartupDecision::NoAudio);
    assert_eq!(startup_decision(0, false, true, 48_000), StartupDecision::TimedOut);
    assert_eq!(startup_decision(10, false, true, 48_000), StartupDecision::Ready);
    assert_eq!(startup_decision(511, false, false, 0), StartupDecision::Wait);
    assert_eq!(startup_decision(512, false, false, 0), StartupDecision::Ready);
}

#[test]
fn durations_and_expected_samples() {
    assert!(duration_is_valid(1));
    assert!(!duration_is_valid(0));
    assert!(!duration_is_valid(-5));
    assert!(!duration_is_valid(u32::MAX as i64));
    assert_eq!(expected_stream_samples(10, 48_000, 2), 960_000);
    assert_eq!(expected_stream_samples(4_000_000_000, u32::MAX, u16::MAX), i64::MAX as u64);
}

use audido::source::retained_copy_len;
use audido::youtube::is_streamable_codec;

#[test]
fn search_errors_read_like_sentences() {
    assert_eq!(
        YoutubeSearchError::DownloaderBuildFailed("no binary".to_string()).message(),
        "Failed to build yt-dlp downloader: no binary"
    );
    assert_eq!(
        YoutubeSearchError::SearchRequestFailed("timeout".to_string()).message(),
        "YouTube search request failed: timeout"
    );
    assert_eq!(
        YoutubeSearchError::NoResults { query: "cat \"videos\"".to_string() }.message(),
        "Search succeeded but returned no entries for query \"cat \\\"videos\\\"\""
    );
}

#[test]
fn only_aac_streams_are_played() {
    assert!(is_streamable_codec(Some("mp4a.40.2")));
    assert!(is_streamable_codec(Some("AAC")));
    assert!(is_streamable_codec(Some("MP4A")));
    assert!(!is_streamable_codec(Some("opus")));
    assert!(!is_streamable_codec(None));
}

#[test]
fn retained_reads_stop_at_the_end() {
    assert_eq!(retained_copy_len(0, 10, 100), 10);
    assert_eq!(retained_copy_len(95, 10, 100), 5);
    assert_eq!(retained_copy_len(100, 10, 100), 0);
    assert_eq!(retained_copy_len(120, 10, 100), 0);
    assert_eq!(retained_copy_len(1, usize::MAX, 100), 99);
}

#[test]
fn leading_silence_skips_whole_silent_frames_only() {
    let samples: [f32; 9] = [0.0, 0.0005, -0.0002, 0.0, 0.0, 0.3, 0.0, 0.0, 0.0];
    let audible: Vec<bool> = samples.iter().map(|s| s.abs() > 0.001).collect();
    assert_eq!(leading_silence_len(&audible, 2), 4);
    assert_eq!(leading_silence_len(&audible, 1), 5);
    assert_eq!(leading_silence_len(&audible, 3), 3);
    let quiet = vec![false; 7];
    assert_eq!(leading_silence_len(&quiet, 2), 6);
    assert_eq!(leading_silence_len(&quiet, 7), 7);
    assert_eq!(leading_silence_len(&Vec::new(), 2), 0);
}

#[test]
fn search_lines_are_read_field_by_field() {
    let video = parse_video_line("abc\tLofi beats\thttps://youtube.test/watch?v=abc\tSomeone\t213.0").unwrap();
    assert_eq!(video.id, "abc");
    assert_eq!(video.title, "Lofi beats");
    assert_eq!(video.url, "https://youtube.test/watch?v=abc");
    assert_eq!(video.uploader.as_deref(), Some("Someone"));
    assert_eq!(video.duration_secs, Some(213));
    let unknown = parse_video_line("x\tTitle\turl\tNA\tNA").unwrap();
    assert_eq!(unknown.uploader, None);
    assert_eq!(unknown.duration_secs, None);
    let short = parse_video_line("x\tTitle\turl").unwrap();
    assert_eq!(short.uploader, None);
    assert!(parse_video_line("x\tTitle").is_none());
    assert!(parse_video_line("").is_none());
}

#[test]
fn video_info_lines_are_read_field_by_field() {
    let info = parse_video_info("Song — Ü\tNA\t95\tmp4a.40.2");
    assert_eq!(info.title, "Song — Ü");
    assert_eq!(info.uploader, None);
    assert_eq!(info.duration_secs, Some(95));
    assert_eq!(info.codec.as_deref(), Some("mp4a.40.2"));
    let empty = parse_video_info("");
    assert_eq!(empty.title, "");
    assert_eq!(empty.duration_secs, None);
    assert_eq!(empty.codec, None);
}

#[test]
fn fields_split_at_every_tab() {
    assert_eq!(split_tabs("a\t\tb"), vec!["a".to_string(), String::new(), "b".to_string()]);
    assert_eq!(split_tabs(""), vec![String::new()]);
    assert_eq!(split_tabs("é\t"), vec!["é".to_string(), String::new()]);
}

#[test]
fn whole_seconds_ignore_the_fraction() {
    assert_eq!(parse_whole_seconds("213"), Some(213));
    assert_eq!(parse_whole_seconds("213.75"), Some(213));
    assert_eq!(parse_whole_seconds(".5"), None);
    assert_eq!(parse_whole_seconds("NA"), None);
    assert_eq!(parse_whole_seconds("-3"), None);
    assert_eq!(parse_whole_seconds(""), None);
    assert_eq!(parse_whole_seconds("18446744073709551615"), Some(u64::MAX));
    assert_eq!(parse_whole_seconds("18446744073709551616"), None);
}

#[test]
fn ascii_lowercasing_and_searching_text() {
    assert_eq!(to_ascii_lowercase("MP4A.40.2 Ünï"), "mp4a.40.2 Ünï");
    assert!(str_contains("mp4a.40.2", "mp4a"));
    assert!(str_contains("aac", "aac"));
    assert!(str_contains("anything", ""));
    assert!(!str_contains("opus", "aac"));
    assert!(!str_contains("aa", "aac"));
    assert!(str_contains("éaacé", "aac"));
}

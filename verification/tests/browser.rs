use audido::browser::{directory_listing, get_system_drives, should_include, sort_entries, supported_extension, DirEntryInfo, FileEntry};
use audido::browser_state::{
    enter_target, ActiveBrowserPane, BrowserCommand, BrowserFileDialog, BrowserSource, BrowserState, EnterTarget,
    YoutubeBrowserFocus, YoutubeSearchOutcome, YoutubeSearchResponse, DEFAULT_YOUTUBE_PAGE_SIZE,
};
use audido::keys::Key;
use audido::source::AudioSource;
use audido::youtube::YoutubeVideo;

fn youtube_entry(id: &str) -> YoutubeVideo {
    YoutubeVideo {
        id: id.to_string(),
        title: format!("Video {id}"),
        url: format!("https://youtube.test/watch?v={id}"),
        uploader: None,
        duration_secs: None,
    }
}

fn youtube_state() -> BrowserState<YoutubeVideo> {
    let mut state: BrowserState<YoutubeVideo> = BrowserState::new(".".to_string(), Vec::new());
    state.select_source(Some(1));
    state
}

fn file(name: &str, is_dir: bool) -> FileEntry {
    FileEntry { name: name.to_string(), path: format!("/music/{name}"), is_dir }
}

fn found(name: &str, is_dir: bool, extension: Option<&str>) -> DirEntryInfo {
    DirEntryInfo { entry: file(name, is_dir), extension: extension.map(|e| e.to_string()) }
}

#[test]
fn applies_latest_youtube_page_to_generic_entries() {
    let mut state = youtube_state();
    state.page_size = 2;
    state.latest_search_request = 7;
    state.is_searching = true;

    let rebuild = state.apply_search_response(YoutubeSearchResponse {
        request_id: 7,
        page_idx: 1,
        outcome: YoutubeSearchOutcome::Entries(vec![youtube_entry("one"), youtube_entry("two")]),
    });

    assert!(rebuild);
    assert!(!state.is_searching);
    assert_eq!(state.page_idx, 1);
    assert!(state.has_next_page);
    assert_eq!(state.youtube_entries.len(), 2);
    assert_eq!(state.youtube_entries.first().map(|entry| entry.id.as_str()), Some("one"));
    assert_eq!(state.youtube_focus, YoutubeBrowserFocus::Entries);

    assert!(state.open_selected_youtube_dialog(Some(0)));
    assert!(state.is_dialog_open());
    assert!(matches!(
        &state.dialog,
        BrowserFileDialog::Open {
            source: AudioSource::Youtube { url },
            title,
            selected: 0,
        } if url.ends_with("one") && title == "Video one"
    ));
}

#[test]
fn ignores_stale_search_responses_and_stops_at_result_cap() {
    let mut state = youtube_state();
    state.page_size = 10;
    state.latest_search_request = 2;
    state.is_searching = true;

    let stale = state.apply_search_response(YoutubeSearchResponse {
        request_id: 1,
        page_idx: 0,
        outcome: YoutubeSearchOutcome::Error("stale error".to_string()),
    });
    assert!(!stale);
    assert!(state.is_searching);

    state.apply_search_response(YoutubeSearchResponse {
        request_id: 2,
        page_idx: 4,
        outcome: YoutubeSearchOutcome::Entries((0..10).map(|index| youtube_entry(&index.to_string())).collect()),
    });

    assert_eq!(state.page_idx, 4);
    assert!(!state.has_next_page);
    assert!(state.search_error.is_none());
}

#[test]
fn no_results_on_first_page_clears_results_and_explains() {
    let mut state = youtube_state();
    state.youtube_entries = vec![youtube_entry("old")];
    state.youtube_focus = YoutubeBrowserFocus::Entries;
    state.latest_search_request = 3;
    state.is_searching = true;
    let rebuild = state.apply_search_response(YoutubeSearchResponse {
        request_id: 3,
        page_idx: 0,
        outcome: YoutubeSearchOutcome::NoResults,
    });
    assert!(rebuild);
    assert!(state.youtube_entries.is_empty());
    assert_eq!(state.search_error.as_deref(), Some("No YouTube results found"));
    assert_eq!(state.youtube_focus, YoutubeBrowserFocus::Search);
    assert!(!state.has_next_page);
}

#[test]
fn no_results_on_later_page_keeps_current_page() {
    let mut state = youtube_state();
    state.youtube_entries = vec![youtube_entry("kept")];
    state.page_idx = 2;
    state.has_next_page = true;
    state.latest_search_request = 3;
    state.is_searching = true;
    let rebuild = state.apply_search_response(YoutubeSearchResponse {
        request_id: 3,
        page_idx: 3,
        outcome: YoutubeSearchOutcome::NoResults,
    });
    assert!(!rebuild);
    assert_eq!(state.youtube_entries.len(), 1);
    assert_eq!(state.page_idx, 2);
    assert!(!state.has_next_page);
    assert!(!state.is_searching);
}

#[test]
fn search_error_is_shown() {
    let mut state = youtube_state();
    state.latest_search_request = 5;
    state.is_searching = true;
    let rebuild = state.apply_search_response(YoutubeSearchResponse {
        request_id: 5,
        page_idx: 0,
        outcome: YoutubeSearchOutcome::Error("network down".to_string()),
    });
    assert!(!rebuild);
    assert_eq!(state.search_error.as_deref(), Some("network down"));
    assert!(!state.is_searching);
}

#[test]
fn results_for_hidden_source_do_not_rebuild_rows() {
    let mut state: BrowserState<YoutubeVideo> = BrowserState::new(".".to_string(), Vec::new());
    state.latest_search_request = 1;
    let rebuild = state.apply_search_response(YoutubeSearchResponse {
        request_id: 1,
        page_idx: 0,
        outcome: YoutubeSearchOutcome::Entries(vec![youtube_entry("a")]),
    });
    assert!(!rebuild);
    assert_eq!(state.youtube_entries.len(), 1);
}

#[test]
fn empty_query_is_refused() {
    let mut state = youtube_state();
    state.search_query = "   ".to_string();
    assert!(state.search_youtube().is_none());
    assert_eq!(state.search_error.as_deref(), Some("Enter a search query"));
    assert!(!state.is_searching);
    assert_eq!(state.latest_search_request, 0);
}

#[test]
fn submitted_query_is_trimmed_and_starts_at_first_page() {
    let mut state = youtube_state();
    state.search_query = "  lofi beats  ".to_string();
    state.page_idx = 3;
    state.has_next_page = true;
    state.youtube_entries = vec![youtube_entry("old")];
    state.page_size = 80;
    let request = state.search_youtube().expect("a request");
    assert_eq!(request.query, "lofi beats");
    assert_eq!(request.page_idx, 0);
    assert_eq!(request.request_id, 1);
    assert_eq!(request.page_size, 50);
    assert_eq!(state.submitted_query.as_deref(), Some("lofi beats"));
    assert_eq!(state.page_idx, 0);
    assert!(!state.has_next_page);
    assert!(state.youtube_entries.is_empty());
    assert!(state.is_searching);
}

#[test]
fn paging_follows_the_submitted_query() {
    let mut state = youtube_state();
    assert!(state.next_youtube_page().is_none());
    state.submitted_query = Some("jazz".to_string());
    state.has_next_page = true;
    state.page_idx = 1;
    state.latest_search_request = u64::MAX;
    let next = state.next_youtube_page().expect("next page");
    assert_eq!(next.page_idx, 2);
    assert_eq!(next.request_id, 0);
    assert_eq!(next.query, "jazz");
    assert_eq!(next.page_size, DEFAULT_YOUTUBE_PAGE_SIZE);
    assert!(state.next_youtube_page().is_none());
    state.is_searching = false;
    let previous = state.previous_youtube_page().expect("previous page");
    assert_eq!(previous.page_idx, 0);
    state.is_searching = false;
    state.page_idx = 0;
    assert!(state.previous_youtube_page().is_none());
}

#[test]
fn typing_edits_the_query_and_enter_submits() {
    let mut state = youtube_state();
    state.youtube_focus = YoutubeBrowserFocus::Entries;
    for c in "abc".chars() {
        assert!(matches!(state.handle_key(Key::Char(c), ActiveBrowserPane::Entries, true), BrowserCommand::Nothing));
    }
    assert_eq!(state.youtube_focus, YoutubeBrowserFocus::Search);
    state.handle_key(Key::Backspace, ActiveBrowserPane::Entries, true);
    assert_eq!(state.search_query, "ab");
    match state.handle_key(Key::Enter, ActiveBrowserPane::Entries, true) {
        BrowserCommand::Search { request, rebuild } => {
            assert!(rebuild);
            assert_eq!(request.query, "ab");
        }
        other => panic!("unexpected {other:?}"),
    }
    state.handle_key(Key::Delete, ActiveBrowserPane::Entries, true);
    assert_eq!(state.search_query, "");
}

#[test]
fn youtube_keys_move_between_search_box_and_results() {
    let mut state = youtube_state();
    assert!(matches!(state.handle_key(Key::Down, ActiveBrowserPane::Entries, true), BrowserCommand::Nothing));
    assert_eq!(state.youtube_focus, YoutubeBrowserFocus::Search);
    state.handle_key(Key::Down, ActiveBrowserPane::Entries, false);
    assert_eq!(state.youtube_focus, YoutubeBrowserFocus::Entries);
    assert!(matches!(state.handle_key(Key::Down, ActiveBrowserPane::Entries, false), BrowserCommand::NextEntry));
    assert!(matches!(state.handle_key(Key::Up, ActiveBrowserPane::Entries, false), BrowserCommand::PrevEntry));
    assert!(matches!(
        state.handle_key(Key::Enter, ActiveBrowserPane::Entries, false),
        BrowserCommand::OpenSelectedYoutube
    ));
    state.handle_key(Key::Esc, ActiveBrowserPane::Entries, false);
    assert_eq!(state.youtube_focus, YoutubeBrowserFocus::Search);
    assert!(state.intercepts_key(Key::Char('x'), ActiveBrowserPane::Entries));
    assert!(!state.intercepts_key(Key::Tab, ActiveBrowserPane::Entries));
    assert!(!state.intercepts_key(Key::Char('x'), ActiveBrowserPane::Sources));
}

#[test]
fn dialog_keys_toggle_close_and_confirm() {
    let mut state: BrowserState<YoutubeVideo> = BrowserState::new(".".to_string(), Vec::new());
    state.open_dialog("/music/song.mp3".to_string());
    assert!(state.intercepts_key(Key::Tab, ActiveBrowserPane::Entries));
    match &state.dialog {
        BrowserFileDialog::Open { title, selected, source } => {
            assert_eq!(title, "song.mp3");
            assert_eq!(*selected, 0);
            assert!(matches!(source, AudioSource::Local { path } if path == "/music/song.mp3"));
        }
        BrowserFileDialog::Closed => panic!("dialog should be open"),
    }
    state.handle_key(Key::Down, ActiveBrowserPane::Entries, false);
    assert!(matches!(state.dialog, BrowserFileDialog::Open { selected: 1, .. }));
    match state.handle_key(Key::Enter, ActiveBrowserPane::Entries, false) {
        BrowserCommand::AddToQueue(AudioSource::Local { path }) => assert_eq!(path, "/music/song.mp3"),
        other => panic!("unexpected {other:?}"),
    }
    assert!(!state.is_dialog_open());

    state.open_dialog("/music/other.flac".to_string());
    assert!(matches!(
        state.handle_key(Key::Enter, ActiveBrowserPane::Entries, false),
        BrowserCommand::PlayNow(AudioSource::Local { .. })
    ));
    state.open_dialog("/music/third.wav".to_string());
    state.handle_key(Key::Esc, ActiveBrowserPane::Entries, false);
    assert!(!state.is_dialog_open());
}

#[test]
fn dialog_on_path_without_file_name_is_unknown() {
    let mut state: BrowserState<YoutubeVideo> = BrowserState::new(".".to_string(), Vec::new());
    state.open_dialog("..".to_string());
    assert!(matches!(&state.dialog, BrowserFileDialog::Open { title, .. } if title == "Unknown File"));
}

#[test]
fn pane_keys_on_local_files() {
    let mut state: BrowserState<YoutubeVideo> = BrowserState::new(".".to_string(), Vec::new());
    assert_eq!(state.current_source(), BrowserSource::LocalFiles);
    assert!(matches!(state.handle_key(Key::Enter, ActiveBrowserPane::Entries, false), BrowserCommand::EnterSelected));
    assert!(matches!(state.handle_key(Key::Enter, ActiveBrowserPane::Sources, false), BrowserCommand::FocusEntries));
    assert!(matches!(state.handle_key(Key::Left, ActiveBrowserPane::Entries, false), BrowserCommand::FocusSources));
    assert!(matches!(state.handle_key(Key::Right, ActiveBrowserPane::Sources, false), BrowserCommand::FocusEntries));
    assert!(matches!(state.handle_key(Key::Down, ActiveBrowserPane::Entries, false), BrowserCommand::NextEntry));
    assert!(matches!(state.handle_key(Key::Down, ActiveBrowserPane::Sources, false), BrowserCommand::RebuildEntries));
    assert_eq!(state.current_source(), BrowserSource::YouTube);
    state.handle_key(Key::Down, ActiveBrowserPane::Sources, false);
    assert_eq!(state.current_source(), BrowserSource::Playlists);
    state.handle_key(Key::Down, ActiveBrowserPane::Sources, false);
    assert_eq!(state.current_source(), BrowserSource::LocalFiles);
    state.handle_key(Key::Up, ActiveBrowserPane::Sources, false);
    assert_eq!(state.current_source(), BrowserSource::Playlists);
    assert!(matches!(state.handle_key(Key::Enter, ActiveBrowserPane::Entries, false), BrowserCommand::Nothing));
}

#[test]
fn replacing_local_entries_rebuilds_only_local_view() {
    let mut state: BrowserState<YoutubeVideo> = BrowserState::new(".".to_string(), Vec::new());
    assert!(state.replace_local_entries("/music".to_string(), vec![file("a.mp3", false)]));
    assert_eq!(state.current_dir, "/music");
    assert_eq!(state.local_entries.len(), 1);
    state.select_source(Some(1));
    assert!(!state.replace_local_entries("/other".to_string(), Vec::new()));
}

#[test]
fn entering_rows() {
    let dir = file("albums", true);
    let song = file("song.mp3", false);
    assert!(matches!(enter_target(ActiveBrowserPane::Entries, Some(&dir)), EnterTarget::Directory(p) if p == "/music/albums"));
    assert!(matches!(enter_target(ActiveBrowserPane::Entries, Some(&song)), EnterTarget::File(p) if p == "/music/song.mp3"));
    assert!(matches!(enter_target(ActiveBrowserPane::Sources, Some(&song)), EnterTarget::Nothing));
    assert!(matches!(enter_target(ActiveBrowserPane::Entries, None), EnterTarget::Nothing));
}

#[test]
fn extensions_are_matched_without_case() {
    assert!(supported_extension("MP3"));
    assert!(supported_extension("Flac"));
    assert!(supported_extension("m4a"));
    assert!(!supported_extension("txt"));
    assert!(!supported_extension(""));
    assert!(should_include(&found("x", true, None)));
    assert!(should_include(&found("a.OGG", false, Some("OGG"))));
    assert!(!should_include(&found("notes.txt", false, Some("txt"))));
    assert!(!should_include(&found("README", false, None)));
}

#[test]
fn listing_puts_directories_first_then_names_without_case() {
    let listing = directory_listing(
        "/music",
        Some("/".to_string()),
        vec![
            found("b.mp3", false, Some("mp3")),
            found("Zeta", true, None),
            found("notes.txt", false, Some("txt")),
            found("A.wav", false, Some("wav")),
            found("alpha", true, None),
            found("c.FLAC", false, Some("FLAC")),
        ],
    );
    let names: Vec<&str> = listing.iter().map(|e| e.name.as_str()).collect();
    assert_eq!(names, vec!["..", "alpha", "Zeta", "A.wav", "b.mp3", "c.FLAC"]);
    assert_eq!(listing[0].path, "/");
    assert!(listing[0].is_dir);
    assert!(listing[1].is_dir && listing[2].is_dir);
}

#[test]
fn listing_without_parent_leads_to_virtual_root() {
    let listing = directory_listing("/", None, vec![found("a.mp3", false, Some("mp3"))]);
    assert_eq!(listing.len(), 2);
    assert_eq!(listing[0].name, "..");
    assert_eq!(listing[0].path, "");
}

#[test]
fn empty_path_lists_system_root() {
    let listing = directory_listing("", None, vec![found("a.mp3", false, Some("mp3"))]);
    assert_eq!(listing.len(), 1);
    assert_eq!(listing[0].name, "/");
    let drives = get_system_drives();
    assert_eq!(drives.len(), 1);
    assert_eq!(drives[0].path, "/");
    assert!(drives[0].is_dir);
}

#[test]
fn sorting_keeps_every_entry() {
    let sorted = sort_entries(vec![file("b", false), file("B", true), file("a", false), file("A", true)]);
    assert_eq!(sorted.len(), 4);
    assert!(sorted[0].is_dir && sorted[1].is_dir);
    assert!(!sorted[2].is_dir && !sorted[3].is_dir);
    assert_eq!(sorted[0].name.to_lowercase(), "a");
    assert_eq!(sorted[2].name, "a");
    assert_eq!(sorted[3].name, "b");
}

#[test]
fn opening_a_youtube_row_needs_the_youtube_source_and_a_result_there() {
    let mut state = youtube_state();
    state.youtube_entries = vec![youtube_entry("a"), youtube_entry("b")];
    assert!(!state.open_selected_youtube_dialog(None));
    assert!(!state.open_selected_youtube_dialog(Some(2)));
    assert!(!state.is_dialog_open());
    assert!(state.open_selected_youtube_dialog(Some(1)));
    assert!(matches!(
        &state.dialog,
        BrowserFileDialog::Open { source: AudioSource::Youtube { url }, title, selected: 0 }
            if url.ends_with("b") && title == "Video b"
    ));
    let mut local: BrowserState<YoutubeVideo> = BrowserState::new(".".to_string(), Vec::new());
    local.youtube_entries = vec![youtube_entry("a")];
    assert!(!local.open_selected_youtube_dialog(Some(0)));
    assert!(!local.is_dialog_open());
}

#[test]
fn local_file_dialog_is_titled_by_the_file_name() {
    let mut state = youtube_state();
    state.open_dialog("/music/song.mp3".to_string());
    assert!(matches!(&state.dialog, BrowserFileDialog::Open { title, .. } if title == "song.mp3"));
    state.open_dialog("/".to_string());
    assert!(matches!(&state.dialog, BrowserFileDialog::Open { title, .. } if title == "Unknown File"));
}

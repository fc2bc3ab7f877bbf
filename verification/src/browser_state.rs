use vstd::prelude::*;

use crate::browser::FileEntry;
use crate::keys::Key;
use crate::screens::{queue_next, queue_prev, spec_queue_next, spec_queue_prev};
use crate::source::AudioSource;
use crate::text::{is_plain_base, path_file_name, pop_char, push_char, spec_file_name, spec_trim, trim};
use crate::youtube::{sat_add, sat_mul, saturating_mul_usize, YoutubeVideo};

verus! {

/// Results asked for per page of a YouTube search, unless changed.
pub const DEFAULT_YOUTUBE_PAGE_SIZE: usize = 10;

/// No search page reaches past this many results.
pub const MAX_YOUTUBE_SEARCH_RESULTS: usize = 50;

/// Where the browser takes its entries from.
#[derive(Debug, Clone, Copy, PartialEq, Eq, Structural)]
pub enum BrowserSource {
    LocalFiles,
    YouTube,
    Playlists,
}

/// Marks the list of browser rows.
#[derive(Debug, Clone, Copy)]
pub struct BrowserEntryTag;

/// Marks the list of sources.
#[derive(Debug, Clone, Copy)]
pub struct SourceItemTag;

/// Which part of the YouTube pane has the keyboard.
#[derive(Debug, Clone, Copy, PartialEq, Eq, Structural)]
pub enum YoutubeBrowserFocus {
    Search,
    Entries,
}

/// Which pane of the browser has the keyboard.
#[derive(Debug, Clone, Copy, PartialEq, Eq, Structural)]
pub enum ActiveBrowserPane {
    Sources,
    Entries,
}

/// The dialog that asks what to do with a chosen file or video.
#[derive(Debug, Clone)]
pub enum BrowserFileDialog {
    Closed,
    /// Open on a source; `selected` is 0 for "Play Now" and 1 for "Add to Queue".
    Open { source: AudioSource, title: String, selected: usize },
}

/// A page of YouTube results to fetch.
#[derive(Debug, Clone)]
pub struct YoutubeSearchRequest {
    pub request_id: u64,
    pub query: String,
    pub page_size: usize,
    pub page_idx: usize,
}

/// How a search request ended.
#[derive(Debug, Clone)]
pub enum YoutubeSearchOutcome<Y> {
    Entries(Vec<Y>),
    NoResults,
    Error(String),
}

/// The answer to a search request.
#[derive(Debug, Clone)]
pub struct YoutubeSearchResponse<Y> {
    pub request_id: u64,
    pub page_idx: usize,
    pub outcome: YoutubeSearchOutcome<Y>,
}

/// The browser's state: the local directory and its entries, the selected
/// source, the YouTube search and its current page, and the file dialog.
/// `Y` is the type of a YouTube result.
#[derive(Debug, Clone)]
pub struct BrowserState<Y> {
    pub current_dir: String,
    pub local_entries: Vec<FileEntry>,
    /// Selected row of the source list (local files, YouTube, playlists).
    pub selected_source: Option<usize>,
    pub dialog: BrowserFileDialog,
    pub search_query: String,
    pub submitted_query: Option<String>,
    pub page_idx: usize,
    pub page_size: usize,
    pub is_searching: bool,
    pub search_error: Option<String>,
    pub has_next_page: bool,
    pub youtube_focus: YoutubeBrowserFocus,
    pub youtube_entries: Vec<Y>,
    pub latest_search_request: u64,
}

/// The source at a row of the source list; no selection means local files.
pub open spec fn spec_source_at(selected: Option<usize>) -> BrowserSource {
    match selected {
        Some(i) => if i == 1 {
            BrowserSource::YouTube
        } else if i == 2 {
            BrowserSource::Playlists
        } else {
            BrowserSource::LocalFiles
        },
        None => BrowserSource::LocalFiles,
    }
}

/// The identifier after `id`, wrapping to zero.
pub open spec fn next_request_id(id: u64) -> u64 {
    if id == u64::MAX {
        0
    } else {
        (id + 1) as u64
    }
}

/// The page size sent with a request: at least one, at most the result cap.
pub open spec fn clamped_page_size(page_size: usize) -> usize {
    if page_size < 1 {
        1
    } else if page_size > MAX_YOUTUBE_SEARCH_RESULTS {
        MAX_YOUTUBE_SEARCH_RESULTS
    } else {
        page_size
    }
}

/// A later page exists when this one came back full and the page after it
/// still starts under the result cap.
pub open spec fn spec_has_next_page(returned: nat, page_idx: usize, page_size: usize) -> bool {
    returned == page_size && sat_mul(sat_add(page_idx as int, 1), page_size as int)
        < MAX_YOUTUBE_SEARCH_RESULTS as int
}

/// A page that came back short is the last one: when fewer results than the
/// page size arrived, no later page is offered.  A full page is followed by
/// another exactly when that one would still start under the result cap.
pub proof fn lemma_short_page_is_last(returned: nat, page_idx: usize, page_size: usize)
    ensures
        returned < page_size ==> !spec_has_next_page(returned, page_idx, page_size),
        returned > page_size ==> !spec_has_next_page(returned, page_idx, page_size),
        returned == page_size && (page_idx + 1) * page_size < MAX_YOUTUBE_SEARCH_RESULTS ==> spec_has_next_page(
            returned,
            page_idx,
            page_size,
        ),
        (page_idx + 1) * page_size >= MAX_YOUTUBE_SEARCH_RESULTS ==> !spec_has_next_page(returned, page_idx, page_size),
{
    let a = page_idx as int + 1;
    let b = page_size as int;
    if page_idx < usize::MAX {
        assert(sat_add(page_idx as int, 1) == a);
    } else {
        assert(sat_add(page_idx as int, 1) == usize::MAX);
        if b == 0 {
            assert(usize::MAX as int * b == 0) by (nonlinear_arith)
                requires
                    b == 0,
            ;
            assert(a * b == 0) by (nonlinear_arith)
                requires
                    b == 0,
            ;
        } else {
            assert(usize::MAX as int * b >= usize::MAX) by (nonlinear_arith)
                requires
                    b >= 1,
            ;
            assert(a * b >= a) by (nonlinear_arith)
                requires
                    b >= 1,
                    a >= 0,
            ;
        }
    }
}

/// The fields that searching and paging leave alone.
pub open spec fn same_browsing<Y>(a: BrowserState<Y>, b: BrowserState<Y>) -> bool {
    &&& a.current_dir == b.current_dir
    &&& a.local_entries == b.local_entries
    &&& a.selected_source == b.selected_source
    &&& a.dialog == b.dialog
    &&& a.search_query == b.search_query
    &&& a.page_size == b.page_size
}

/// `b` is `a` after a request for a page went out: a new request
/// identifier, a search running and no error shown; everything else kept.
pub open spec fn spec_requested<Y>(a: BrowserState<Y>, b: BrowserState<Y>) -> bool {
    &&& same_browsing(a, b)
    &&& b.latest_search_request == next_request_id(a.latest_search_request)
    &&& b.is_searching
    &&& b.search_error is None
    &&& b.submitted_query == a.submitted_query
    &&& b.page_idx == a.page_idx
    &&& b.has_next_page == a.has_next_page
    &&& b.youtube_focus == a.youtube_focus
    &&& b.youtube_entries == a.youtube_entries
}

/// The request sent for page `page_idx` of `query` from state `a`.
pub open spec fn is_request_for<Y>(r: YoutubeSearchRequest, a: BrowserState<Y>, query: Seq<char>, page_idx: usize) -> bool {
    &&& r.request_id == next_request_id(a.latest_search_request)
    &&& r.query@ == query
    &&& r.page_size == clamped_page_size(a.page_size)
    &&& r.page_idx == page_idx
}

/// `b` and `r` are the state and request after submitting the typed query
/// in state `a`.  The query is taken without its surrounding white space; an
/// empty one asks for nothing and says so.  Otherwise the first page of the
/// query is asked for and the previous results are cleared.
pub open spec fn spec_submitted<Y>(a: BrowserState<Y>, b: BrowserState<Y>, r: Option<YoutubeSearchRequest>) -> bool {
    let q = spec_trim(a.search_query@);
    if q.len() == 0 {
        &&& r is None
        &&& b.search_error matches Some(e) && e@ == "Enter a search query"@
        &&& b == (BrowserState { search_error: b.search_error, ..a })
    } else {
        &&& r matches Some(req) && is_request_for(req, a, q, 0)
        &&& same_browsing(a, b)
        &&& b.submitted_query matches Some(s) && s@ == q
        &&& b.page_idx == 0
        &&& !b.has_next_page
        &&& b.youtube_focus == YoutubeBrowserFocus::Search
        &&& b.youtube_entries@.len() == 0
        &&& b.latest_search_request == next_request_id(a.latest_search_request)
        &&& b.is_searching
        &&& b.search_error is None
    }
}

/// `b` and `r` after asking, in state `a`, for the page after the current
/// one: nothing happens while a search runs, when there is no later page or
/// when nothing was submitted.
pub open spec fn spec_paged_forward<Y>(a: BrowserState<Y>, b: BrowserState<Y>, r: Option<YoutubeSearchRequest>) -> bool {
    if a.is_searching || !a.has_next_page || a.submitted_query is None {
        r is None && b == a
    } else {
        &&& r matches Some(req) && is_request_for(req, a, a.submitted_query->0@, sat_add(a.page_idx as int, 1) as usize)
        &&& spec_requested(a, b)
    }
}

/// `b` and `r` after asking, in state `a`, for the page before the current
/// one: nothing happens while a search runs, on the first page or when
/// nothing was submitted.
pub open spec fn spec_paged_back<Y>(a: BrowserState<Y>, b: BrowserState<Y>, r: Option<YoutubeSearchRequest>) -> bool {
    if a.is_searching || a.page_idx == 0 || a.submitted_query is None {
        r is None && b == a
    } else {
        &&& r matches Some(req) && is_request_for(req, a, a.submitted_query->0@, (a.page_idx - 1) as usize)
        &&& spec_requested(a, b)
    }
}

/// What the browser asks of the program after a key.
#[derive(Debug, Clone)]
pub enum BrowserCommand {
    Nothing,
    /// The rows on show must be rebuilt from the current source.
    RebuildEntries,
    /// Rebuild the rows when `rebuild` holds, and fetch the requested page.
    Search { request: YoutubeSearchRequest, rebuild: bool },
    /// Move the selection of the rows down or up.
    NextEntry,
    PrevEntry,
    /// Give the keyboard to the source pane or the entries pane.
    FocusSources,
    FocusEntries,
    /// Open the dialog on the selected YouTube result.
    OpenSelectedYoutube,
    /// Enter the selected local directory, or open the dialog on the selected file.
    EnterSelected,
    /// Play the source now, replacing the screen by the playback screen.
    PlayNow(AudioSource),
    /// Add the source to the queue.
    AddToQueue(AudioSource),
}

/// The dialog with its other choice selected; a closed dialog stays closed.
pub open spec fn spec_toggled(d: BrowserFileDialog) -> BrowserFileDialog {
    match d {
        BrowserFileDialog::Open { source, title, selected } => BrowserFileDialog::Open {
            source,
            title,
            selected: if selected == 0 {
                1usize
            } else {
                0usize
            },
        },
        BrowserFileDialog::Closed => BrowserFileDialog::Closed,
    }
}

/// Switching the dialog's choice twice gives back the dialog, when its
/// choice is one of its two options.
pub proof fn lemma_toggle_twice(d: BrowserFileDialog)
    requires
        d matches BrowserFileDialog::Open { selected, .. } ==> selected <= 1,
    ensures
        spec_toggled(spec_toggled(d)) == d,
{
}

/// The request a command carries, if any.
pub open spec fn request_of(cmd: BrowserCommand) -> Option<YoutubeSearchRequest> {
    match cmd {
        BrowserCommand::Search { request, .. } => Some(request),
        _ => None,
    }
}

/// Keys while the dialog is open: Up and Down switch the choice, Enter closes
/// it and plays or queues its source, Esc closes it.
pub open spec fn dialog_key_effect<Y>(a: BrowserState<Y>, b: BrowserState<Y>, key: Key, cmd: BrowserCommand) -> bool {
    match key {
        Key::Up | Key::Down => b == (BrowserState { dialog: spec_toggled(a.dialog), ..a }) && cmd is Nothing,
        Key::Enter => match a.dialog {
            BrowserFileDialog::Open { source, selected, .. } => {
                &&& b == (BrowserState { dialog: BrowserFileDialog::Closed, ..a })
                &&& cmd == if selected == 0 {
                    BrowserCommand::PlayNow(source)
                } else {
                    BrowserCommand::AddToQueue(source)
                }
            },
            BrowserFileDialog::Closed => b == a && cmd is Nothing,
        },
        Key::Esc => b == (BrowserState { dialog: BrowserFileDialog::Closed, ..a }) && cmd is Nothing,
        _ => b == a && cmd is Nothing,
    }
}

/// Keys on the two panes: Up and Down move in the focused list (a new source
/// changes the rows on show), Left and Right move the focus between the
/// panes, Enter enters a local entry or, on the source pane, moves to the
/// entries.
pub open spec fn pane_key_effect<Y>(
    a: BrowserState<Y>,
    b: BrowserState<Y>,
    key: Key,
    pane: ActiveBrowserPane,
    cmd: BrowserCommand,
) -> bool {
    match key {
        Key::Up => if pane == ActiveBrowserPane::Sources {
            b == (BrowserState { selected_source: spec_queue_prev(a.selected_source, 3), ..a }) && cmd is RebuildEntries
        } else {
            b == a && cmd is PrevEntry
        },
        Key::Down => if pane == ActiveBrowserPane::Sources {
            b == (BrowserState { selected_source: spec_queue_next(a.selected_source, 3), ..a }) && cmd is RebuildEntries
        } else {
            b == a && cmd is NextEntry
        },
        Key::Left => b == a && cmd is FocusSources,
        Key::Right => b == a && cmd is FocusEntries,
        Key::Enter => b == a && if pane == ActiveBrowserPane::Entries && spec_source_at(a.selected_source)
            == BrowserSource::LocalFiles {
            cmd is EnterSelected
        } else if pane == ActiveBrowserPane::Sources {
            cmd is FocusEntries
        } else {
            cmd is Nothing
        },
        _ => b == a && cmd is Nothing,
    }
}

/// `b` is `a` with the search box focused and its text replaced by `query`.
pub open spec fn typed<Y>(a: BrowserState<Y>, b: BrowserState<Y>, query: Seq<char>) -> bool {
    &&& b.search_query@ == query
    &&& b == (BrowserState { search_query: b.search_query, youtube_focus: YoutubeBrowserFocus::Search, ..a })
}

/// Keys on the YouTube results: typing edits the query, Enter submits it or
/// opens the selected result, Up and Down move between the search box and
/// the results, Esc goes back to the search box, Page Down and Page Up turn
/// pages.  Other keys act as on any pane.
pub open spec fn youtube_key_effect<Y>(
    a: BrowserState<Y>,
    b: BrowserState<Y>,
    key: Key,
    entries_empty: bool,
    cmd: BrowserCommand,
) -> bool {
    let searching = a.youtube_focus == YoutubeBrowserFocus::Search;
    match key {
        Key::Char(c) => typed(a, b, a.search_query@.push(c)) && cmd is Nothing,
        Key::Backspace => typed(
            a,
            b,
            if a.search_query@.len() > 0 {
                a.search_query@.drop_last()
            } else {
                a.search_query@
            },
        ) && cmd is Nothing,
        Key::Delete => typed(a, b, Seq::empty()) && cmd is Nothing,
        Key::Enter => if searching {
            &&& spec_submitted(a, b, request_of(cmd))
            &&& cmd is Search ==> cmd->rebuild
            &&& cmd is Search || cmd is Nothing
        } else {
            b == a && cmd is OpenSelectedYoutube
        },
        Key::Down => if searching {
            cmd is Nothing && b == if entries_empty {
                a
            } else {
                BrowserState { youtube_focus: YoutubeBrowserFocus::Entries, ..a }
            }
        } else {
            b == a && cmd is NextEntry
        },
        Key::Up => b == a && if searching {
            cmd is Nothing
        } else {
            cmd is PrevEntry
        },
        Key::Esc => cmd is Nothing && b == if searching {
            a
        } else {
            BrowserState { youtube_focus: YoutubeBrowserFocus::Search, ..a }
        },
        Key::PageDown => {
            &&& spec_paged_forward(a, b, request_of(cmd))
            &&& cmd is Search ==> !cmd->rebuild
            &&& cmd is Search || cmd is Nothing
        },
        Key::PageUp => {
            &&& spec_paged_back(a, b, request_of(cmd))
            &&& cmd is Search ==> !cmd->rebuild
            &&& cmd is Search || cmd is Nothing
        },
        _ => pane_key_effect(a, b, key, ActiveBrowserPane::Entries, cmd),
    }
}

/// Whether the YouTube results have the keyboard: no dialog is open, the
/// entries pane is focused and YouTube is the selected source.
pub open spec fn youtube_active<Y>(a: BrowserState<Y>, pane: ActiveBrowserPane) -> bool {
    &&& !(a.dialog is Open)
    &&& pane == ActiveBrowserPane::Entries
    &&& spec_source_at(a.selected_source) == BrowserSource::YouTube
}

/// The browser screen's answer to a key, given the focused pane and whether
/// the rows on show are empty.
pub open spec fn browser_key_effect<Y>(
    a: BrowserState<Y>,
    b: BrowserState<Y>,
    key: Key,
    pane: ActiveBrowserPane,
    entries_empty: bool,
    cmd: BrowserCommand,
) -> bool {
    if a.dialog is Open {
        dialog_key_effect(a, b, key, cmd)
    } else if youtube_active(a, pane) {
        youtube_key_effect(a, b, key, entries_empty, cmd)
    } else {
        pane_key_effect(a, b, key, pane, cmd)
    }
}

/// What entering the selected row leads to.
#[derive(Debug, Clone)]
pub enum EnterTarget {
    Nothing,
    Directory(String),
    File(String),
}

/// Entering the selected row: only the entries pane enters anything; a
/// directory is opened and a file is handed back for its dialog.
pub fn enter_target(pane: ActiveBrowserPane, selected: Option<&FileEntry>) -> (r: EnterTarget)
    ensures
        pane != ActiveBrowserPane::Entries || selected is None ==> r is Nothing,
        pane == ActiveBrowserPane::Entries && selected is Some ==> {
            let e = selected->0;
            if e.is_dir {
                r matches EnterTarget::Directory(p) && p@ == e.path@
            } else {
                r matches EnterTarget::File(p) && p@ == e.path@
            }
        },
{
    if pane != ActiveBrowserPane::Entries {
        return EnterTarget::Nothing;
    }
    match selected {
        Some(e) => {
            if e.is_dir {
                EnterTarget::Directory(e.path.clone())
            } else {
                EnterTarget::File(e.path.clone())
            }
        },
        None => EnterTarget::Nothing,
    }
}

impl<Y> BrowserState<Y> {
    /// The browser on `current_dir` with its entries, local files selected,
    /// no search made and no dialog open.
    pub fn new(current_dir: String, local_entries: Vec<FileEntry>) -> (r: Self)
        ensures
            r.current_dir@ == current_dir@,
            r.local_entries@ == local_entries@,
            r.selected_source == Some(0usize),
            r.dialog is Closed,
            r.search_query@.len() == 0,
            r.submitted_query is None,
            r.page_idx == 0,
            r.page_size == DEFAULT_YOUTUBE_PAGE_SIZE,
            !r.is_searching,
            r.search_error is None,
            !r.has_next_page,
            r.youtube_focus == YoutubeBrowserFocus::Search,
            r.youtube_entries@.len() == 0,
            r.latest_search_request == 0,
    {
        BrowserState {
            current_dir,
            local_entries,
            selected_source: Some(0),
            dialog: BrowserFileDialog::Closed,
            search_query: String::new(),
            submitted_query: None,
            page_idx: 0,
            page_size: DEFAULT_YOUTUBE_PAGE_SIZE,
            is_searching: false,
            search_error: None,
            has_next_page: false,
            youtube_focus: YoutubeBrowserFocus::Search,
            youtube_entries: Vec::new(),
            latest_search_request: 0,
        }
    }

    /// The selected source; local files when nothing is selected.
    pub fn current_source(&self) -> (r: BrowserSource)
        ensures
            r == spec_source_at(self.selected_source),
    {
        match self.selected_source {
            Some(i) => {
                if i == 1 {
                    BrowserSource::YouTube
                } else if i == 2 {
                    BrowserSource::Playlists
                } else {
                    BrowserSource::LocalFiles
                }
            },
            None => BrowserSource::LocalFiles,
        }
    }

    /// Select a row of the source list.
    pub fn select_source(&mut self, selected: Option<usize>)
        ensures
            *final(self) == (BrowserState { selected_source: selected, ..*old(self) }),
    {
        self.selected_source = selected;
    }

    /// Send out a request for page `page_idx` of `query`.
    fn request_youtube_page(&mut self, query: String, page_idx: usize) -> (r: YoutubeSearchRequest)
        ensures
            spec_requested(*old(self), *final(self)),
            is_request_for(r, *old(self), query@, page_idx),
    {
        self.latest_search_request = if self.latest_search_request == u64::MAX {
            0
        } else {
            self.latest_search_request + 1
        };
        let page_size = if self.page_size < 1 {
            1
        } else if self.page_size > MAX_YOUTUBE_SEARCH_RESULTS {
            MAX_YOUTUBE_SEARCH_RESULTS
        } else {
            self.page_size
        };
        self.is_searching = true;
        self.search_error = None;
        YoutubeSearchRequest { request_id: self.latest_search_request, query, page_size, page_idx }
    }

    /// Submit the typed query, without its surrounding white space, and ask
    /// for its first page.  An empty query asks for nothing and says so.  A
    /// submitted query clears the previous results, so the rows on show must
    /// be rebuilt.
    pub fn search_youtube(&mut self) -> (r: Option<YoutubeSearchRequest>)
        ensures
            spec_submitted(*old(self), *final(self), r),
    {
        let query = trim(self.search_query.as_str());
        if query.as_str().is_empty() {
            self.search_error = Some(String::from_str("Enter a search query"));
            return None;
        }
        self.submitted_query = Some(query.clone());
        self.page_idx = 0;
        self.has_next_page = false;
        self.youtube_focus = YoutubeBrowserFocus::Search;
        self.youtube_entries = Vec::new();
        Some(self.request_youtube_page(query, 0))
    }

    /// Ask for the page after the current one, unless a search is running,
    /// there is no later page, or nothing was submitted.
    pub fn next_youtube_page(&mut self) -> (r: Option<YoutubeSearchRequest>)
        ensures
            spec_paged_forward(*old(self), *final(self), r),
    {
        if self.is_searching || !self.has_next_page {
            return None;
        }
        match &self.submitted_query {
            Some(q) => {
                let query = q.clone();
                let page = if self.page_idx == usize::MAX {
                    usize::MAX
                } else {
                    self.page_idx + 1
                };
                Some(self.request_youtube_page(query, page))
            },
            None => None,
        }
    }

    /// Ask for the page before the current one, unless a search is running,
    /// this is the first page, or nothing was submitted.
    pub fn previous_youtube_page(&mut self) -> (r: Option<YoutubeSearchRequest>)
        ensures
            spec_paged_back(*old(self), *final(self), r),
    {
        if self.is_searching || self.page_idx == 0 {
            return None;
        }
        match &self.submitted_query {
            Some(q) => {
                let query = q.clone();
                let page = self.page_idx - 1;
                Some(self.request_youtube_page(query, page))
            },
            None => None,
        }
    }

    /// Take in the answer to a search request.  Answers to any request but
    /// the latest are ignored.  A page of results becomes the current page;
    /// no results on the first page clear the results and say so; an error is
    /// shown.  Returns whether the rows on show must be rebuilt: YouTube is
    /// the selected source and its results changed.
    pub fn apply_search_response(&mut self, response: YoutubeSearchResponse<Y>) -> (rebuild: bool)
        ensures
            response.request_id != old(self).latest_search_request ==> *final(self) == *old(self) && !rebuild,
            response.request_id == old(self).latest_search_request ==> {
                &&& same_browsing(*old(self), *final(self))
                &&& final(self).latest_search_request == old(self).latest_search_request
                &&& final(self).submitted_query == old(self).submitted_query
                &&& !final(self).is_searching
                &&& match response.outcome {
                    YoutubeSearchOutcome::Entries(es) => {
                        &&& final(self).page_idx == response.page_idx
                        &&& final(self).has_next_page == spec_has_next_page(
                            es@.len(),
                            response.page_idx,
                            old(self).page_size,
                        )
                        &&& final(self).search_error is None
                        &&& final(self).youtube_entries@ == es@
                        &&& final(self).youtube_focus == (if es@.len() > 0 {
                            YoutubeBrowserFocus::Entries
                        } else {
                            old(self).youtube_focus
                        })
                        &&& rebuild == (spec_source_at(old(self).selected_source) == BrowserSource::YouTube)
                    },
                    YoutubeSearchOutcome::NoResults => {
                        &&& final(self).page_idx == old(self).page_idx
                        &&& !final(self).has_next_page
                        &&& if response.page_idx == 0 {
                            &&& final(self).youtube_entries@.len() == 0
                            &&& final(self).search_error matches Some(e) && e@ == "No YouTube results found"@
                            &&& final(self).youtube_focus == YoutubeBrowserFocus::Search
                            &&& rebuild == (spec_source_at(old(self).selected_source) == BrowserSource::YouTube)
                        } else {
                            &&& final(self).youtube_entries == old(self).youtube_entries
                            &&& final(self).search_error == old(self).search_error
                            &&& final(self).youtube_focus == old(self).youtube_focus
                            &&& !rebuild
                        }
                    },
                    YoutubeSearchOutcome::Error(e) => {
                        &&& final(self).page_idx == old(self).page_idx
                        &&& final(self).has_next_page == old(self).has_next_page
                        &&& final(self).youtube_entries == old(self).youtube_entries
                        &&& final(self).youtube_focus == old(self).youtube_focus
                        &&& final(self).search_error == Some(e)
                        &&& !rebuild
                    },
                }
            },
    {
        if response.request_id != self.latest_search_request {
            return false;
        }
        self.is_searching = false;
        let youtube_shown = match self.current_source() {
            BrowserSource::YouTube => true,
            _ => false,
        };
        match response.outcome {
            YoutubeSearchOutcome::Entries(entries) => {
                self.page_idx = response.page_idx;
                let next_start = if response.page_idx == usize::MAX {
                    usize::MAX
                } else {
                    response.page_idx + 1
                };
                let reach = saturating_mul_usize(next_start, self.page_size);
                self.has_next_page = entries.len() == self.page_size && reach < MAX_YOUTUBE_SEARCH_RESULTS;
                self.search_error = None;
                let found = entries.len() > 0;
                self.youtube_entries = entries;
                if found {
                    self.youtube_focus = YoutubeBrowserFocus::Entries;
                }
                youtube_shown
            },
            YoutubeSearchOutcome::NoResults => {
                self.has_next_page = false;
                if response.page_idx == 0 {
                    self.youtube_entries = Vec::new();
                    self.search_error = Some(String::from_str("No YouTube results found"));
                    self.youtube_focus = YoutubeBrowserFocus::Search;
                    youtube_shown
                } else {
                    false
                }
            },
            YoutubeSearchOutcome::Error(error) => {
                self.search_error = Some(error);
                false
            },
        }
    }

    /// Show a new local directory.  Returns whether the rows on show must be
    /// rebuilt: local files are the selected source.
    pub fn replace_local_entries(&mut self, current_dir: String, entries: Vec<FileEntry>) -> (rebuild: bool)
        ensures
            *final(self) == (BrowserState { current_dir, local_entries: entries, ..*old(self) }),
            rebuild == (spec_source_at(old(self).selected_source) == BrowserSource::LocalFiles),
    {
        self.current_dir = current_dir;
        self.local_entries = entries;
        match self.current_source() {
            BrowserSource::LocalFiles => true,
            _ => false,
        }
    }

    /// Open the dialog on a local file, titled by its file name, or "Unknown
    /// File" when the path has none.
    pub fn open_dialog(&mut self, path: String)
        ensures
            *final(self) == (BrowserState { dialog: final(self).dialog, ..*old(self) }),
            match final(self).dialog {
                BrowserFileDialog::Open { source, title, selected } => {
                    &&& selected == 0
                    &&& source == AudioSource::Local { path }
                    &&& title@ == match spec_file_name(path@) {
                        Some(name) => name,
                        None => "Unknown File"@,
                    }
                    &&& is_plain_base(path@) && (path@ == ".."@ || "/.."@.is_suffix_of(path@)) ==> title@
                        == "Unknown File"@
                    &&& is_plain_base(path@) ==> title@.len() > 0
                },
                BrowserFileDialog::Closed => false,
            },
    {
        proof {
            reveal_strlit("Unknown File");
        }
        let title = match path_file_name(path.as_str()) {
            Some(name) => name,
            None => String::from_str("Unknown File"),
        };
        self.dialog = BrowserFileDialog::Open { source: AudioSource::Local { path }, title, selected: 0 };
    }

    /// Switch the dialog between its two choices.
    pub fn dialog_toggle(&mut self)
        ensures
            *final(self) == (BrowserState { dialog: spec_toggled(old(self).dialog), ..*old(self) }),
    {
        match &mut self.dialog {
            BrowserFileDialog::Open { selected, .. } => {
                *selected = if *selected == 0 {
                    1
                } else {
                    0
                };
            },
            BrowserFileDialog::Closed => {},
        }
    }

    /// Close the dialog.
    pub fn close_dialog(&mut self)
        ensures
            *final(self) == (BrowserState { dialog: BrowserFileDialog::Closed, ..*old(self) }),
    {
        self.dialog = BrowserFileDialog::Closed;
    }

    /// Whether the dialog is open.
    pub fn is_dialog_open(&self) -> (r: bool)
        ensures
            r == self.dialog is Open,
    {
        match self.dialog {
            BrowserFileDialog::Open { .. } => true,
            BrowserFileDialog::Closed => false,
        }
    }

    /// Handle a key on the browser screen.
    pub fn handle_key(&mut self, key: Key, pane: ActiveBrowserPane, entries_empty: bool) -> (cmd: BrowserCommand)
        ensures
            browser_key_effect(*old(self), *final(self), key, pane, entries_empty, cmd),
    {
        if self.is_dialog_open() {
            return self.handle_dialog_key(key);
        }
        let youtube = match pane {
            ActiveBrowserPane::Entries => match self.current_source() {
                BrowserSource::YouTube => true,
                _ => false,
            },
            ActiveBrowserPane::Sources => false,
        };
        if youtube {
            self.handle_youtube_key(key, entries_empty)
        } else {
            self.handle_pane_key(key, pane)
        }
    }

    fn handle_dialog_key(&mut self, key: Key) -> (cmd: BrowserCommand)
        ensures
            dialog_key_effect(*old(self), *final(self), key, cmd),
    {
        match key {
            Key::Up | Key::Down => {
                self.dialog_toggle();
                BrowserCommand::Nothing
            },
            Key::Enter => {
                let mut dialog = BrowserFileDialog::Closed;
                std::mem::swap(&mut dialog, &mut self.dialog);
                match dialog {
                    BrowserFileDialog::Open { source, selected, .. } => {
                        if selected == 0 {
                            BrowserCommand::PlayNow(source)
                        } else {
                            BrowserCommand::AddToQueue(source)
                        }
                    },
                    BrowserFileDialog::Closed => BrowserCommand::Nothing,
                }
            },
            Key::Esc => {
                self.close_dialog();
                BrowserCommand::Nothing
            },
            _ => BrowserCommand::Nothing,
        }
    }

    fn handle_pane_key(&mut self, key: Key, pane: ActiveBrowserPane) -> (cmd: BrowserCommand)
        ensures
            pane_key_effect(*old(self), *final(self), key, pane, cmd),
    {
        match key {
            Key::Up => match pane {
                ActiveBrowserPane::Sources => {
                    self.selected_source = queue_prev(self.selected_source, 3);
                    BrowserCommand::RebuildEntries
                },
                ActiveBrowserPane::Entries => BrowserCommand::PrevEntry,
            },
            Key::Down => match pane {
                ActiveBrowserPane::Sources => {
                    self.selected_source = queue_next(self.selected_source, 3);
                    BrowserCommand::RebuildEntries
                },
                ActiveBrowserPane::Entries => BrowserCommand::NextEntry,
            },
            Key::Left => BrowserCommand::FocusSources,
            Key::Right => BrowserCommand::FocusEntries,
            Key::Enter => match pane {
                ActiveBrowserPane::Entries => match self.current_source() {
                    BrowserSource::LocalFiles => BrowserCommand::EnterSelected,
                    _ => BrowserCommand::Nothing,
                },
                ActiveBrowserPane::Sources => BrowserCommand::FocusEntries,
            },
            _ => BrowserCommand::Nothing,
        }
    }

    fn handle_youtube_key(&mut self, key: Key, entries_empty: bool) -> (cmd: BrowserCommand)
        requires
            !(old(self).dialog is Open),
        ensures
            youtube_key_effect(*old(self), *final(self), key, entries_empty, cmd),
    {
        let searching = match self.youtube_focus {
            YoutubeBrowserFocus::Search => true,
            YoutubeBrowserFocus::Entries => false,
        };
        match key {
            Key::Char(c) => {
                self.youtube_focus = YoutubeBrowserFocus::Search;
                push_char(&mut self.search_query, c);
                BrowserCommand::Nothing
            },
            Key::Backspace => {
                self.youtube_focus = YoutubeBrowserFocus::Search;
                let _ = pop_char(&mut self.search_query);
                BrowserCommand::Nothing
            },
            Key::Delete => {
                self.youtube_focus = YoutubeBrowserFocus::Search;
                self.search_query = String::new();
                BrowserCommand::Nothing
            },
            Key::Enter => {
                if searching {
                    match self.search_youtube() {
                        Some(request) => BrowserCommand::Search { request, rebuild: true },
                        None => BrowserCommand::Nothing,
                    }
                } else {
                    BrowserCommand::OpenSelectedYoutube
                }
            },
            Key::Down => {
                if searching {
                    if !entries_empty {
                        self.youtube_focus = YoutubeBrowserFocus::Entries;
                    }
                    BrowserCommand::Nothing
                } else {
                    BrowserCommand::NextEntry
                }
            },
            Key::Up => {
                if searching {
                    BrowserCommand::Nothing
                } else {
                    BrowserCommand::PrevEntry
                }
            },
            Key::Esc => {
                if !searching {
                    self.youtube_focus = YoutubeBrowserFocus::Search;
                }
                BrowserCommand::Nothing
            },
            Key::PageDown => match self.next_youtube_page() {
                Some(request) => BrowserCommand::Search { request, rebuild: false },
                None => BrowserCommand::Nothing,
            },
            Key::PageUp => match self.previous_youtube_page() {
                Some(request) => BrowserCommand::Search { request, rebuild: false },
                None => BrowserCommand::Nothing,
            },
            _ => self.handle_pane_key(key, ActiveBrowserPane::Entries),
        }
    }

    /// Whether the browser takes a key before the program-wide keys: always
    /// while the dialog is open, and the typing and paging keys while the
    /// YouTube results have the keyboard.
    pub fn intercepts_key(&self, key: Key, pane: ActiveBrowserPane) -> (r: bool)
        ensures
            r == (self.dialog is Open || (youtube_active(*self, pane) && (key is Char || key == Key::Backspace
                || key == Key::Delete || key == Key::Enter || key == Key::PageDown || key == Key::PageUp
                || key == Key::Esc))),
    {
        if self.is_dialog_open() {
            return true;
        }
        let youtube = match pane {
            ActiveBrowserPane::Entries => match self.current_source() {
                BrowserSource::YouTube => true,
                _ => false,
            },
            ActiveBrowserPane::Sources => false,
        };
        youtube && match key {
            Key::Char(_) | Key::Backspace | Key::Delete | Key::Enter | Key::PageDown | Key::PageUp | Key::Esc => true,
            _ => false,
        }
    }
}

impl BrowserState<YoutubeVideo> {
    /// Open the dialog on the YouTube result at row `selected` of the entry
    /// list.  The rows show the YouTube results only while YouTube is the
    /// current source; otherwise, or without a result at that row, nothing
    /// changes.  Returns whether the dialog was opened.
    pub fn open_selected_youtube_dialog(&mut self, selected: Option<usize>) -> (opened: bool)
        ensures
            opened == (spec_source_at(old(self).selected_source) == BrowserSource::YouTube && selected is Some
                && selected->0 < old(self).youtube_entries@.len()),
            opened ==> *final(self) == (BrowserState {
                dialog: BrowserFileDialog::Open {
                    source: AudioSource::Youtube { url: old(self).youtube_entries@[selected->0 as int].url },
                    title: old(self).youtube_entries@[selected->0 as int].title,
                    selected: 0,
                },
                ..*old(self)
            }),
            !opened ==> *final(self) == *old(self),
    {
        if self.current_source() != BrowserSource::YouTube {
            return false;
        }
        match selected {
            Some(i) => {
                if i < self.youtube_entries.len() {
                    let url = self.youtube_entries[i].url.clone();
                    let title = self.youtube_entries[i].title.clone();
                    self.dialog = BrowserFileDialog::Open { source: AudioSource::Youtube { url }, title, selected: 0 };
                    true
                } else {
                    false
                }
            },
            None => false,
        }
    }
}

} // verus!

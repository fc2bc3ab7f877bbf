use vstd::prelude::*;

use crate::cache::opt_string_view;
use crate::text::{
    ascii_lower, contains_text, debug_quoted, parse_whole_seconds, spec_debug_quoted, spec_parse_whole_seconds,
    spec_split_tabs, split_tabs, str_contains, str_eq, to_ascii_lowercase,
};

verus! {

/// A YouTube search result: the video's identifier, title and address, its
/// uploader and its length in whole seconds, where known.
#[derive(Debug, Clone)]
pub struct YoutubeVideo {
    pub id: String,
    pub title: String,
    pub url: String,
    pub uploader: Option<String>,
    pub duration_secs: Option<u64>,
}

/// Most search results ever fetched for one query.
pub const MAX_SEARCH_FETCH: usize = 50;

/// Milliseconds of decoded audio wanted before a stream starts playing.
pub const STARTUP_BUFFER_MILLIS: usize = 500;

/// Size of each DSP processing chunk in samples.
pub const CHUNK_SIZE: usize = 512;

/// Why a YouTube search produced no page.
#[derive(Debug, Clone)]
pub enum YoutubeSearchError {
    DownloaderBuildFailed(String),
    SearchRequestFailed(String),
    NoResults { query: String },
}

impl YoutubeSearchError {
    /// The message shown for the error.
    pub fn message(&self) -> (r: String)
        ensures
            r@ == match *self {
                YoutubeSearchError::DownloaderBuildFailed(e) => "Failed to build yt-dlp downloader: "@ + e@,
                YoutubeSearchError::SearchRequestFailed(e) => "YouTube search request failed: "@ + e@,
                YoutubeSearchError::NoResults { query } => "Search succeeded but returned no entries for query "@
                    + spec_debug_quoted(query@),
            },
    {
        match self {
            YoutubeSearchError::DownloaderBuildFailed(e) => {
                let mut text = String::from_str("Failed to build yt-dlp downloader: ");
                text.append(e.as_str());
                text
            },
            YoutubeSearchError::SearchRequestFailed(e) => {
                let mut text = String::from_str("YouTube search request failed: ");
                text.append(e.as_str());
                text
            },
            YoutubeSearchError::NoResults { query } => {
                let mut text = String::from_str("Search succeeded but returned no entries for query ");
                let quoted = debug_quoted(query.as_str());
                text.append(quoted.as_str());
                text
            },
        }
    }
}

/// A stream format is played when its audio codec, ignoring ASCII case,
/// names AAC (`aac` or `mp4a`).
pub open spec fn is_streamable_codec_name(codec: Option<Seq<char>>) -> bool {
    match codec {
        Some(c) => {
            let lower = c.map_values(|x: char| ascii_lower(x));
            contains_text(lower, "aac"@) || contains_text(lower, "mp4a"@)
        },
        None => false,
    }
}

/// Whether a stream format with audio codec `codec` can be played.
pub fn is_streamable_codec(codec: Option<&str>) -> (r: bool)
    ensures
        r == is_streamable_codec_name(match codec {
            Some(c) => Some(c@),
            None => None,
        }),
{
    match codec {
        Some(c) => {
            let lower = to_ascii_lowercase(c);
            str_contains(lower.as_str(), "aac") || str_contains(lower.as_str(), "mp4a")
        },
        None => false,
    }
}

/// `a * b`, saturating at `usize::MAX`.
pub open spec fn sat_mul(a: int, b: int) -> int {
    if a * b > usize::MAX { usize::MAX as int } else { a * b }
}

/// `a + b`, saturating at `usize::MAX`.
pub open spec fn sat_add(a: int, b: int) -> int {
    if a + b > usize::MAX { usize::MAX as int } else { a + b }
}

/// `a * b`, or `usize::MAX` when the product does not fit.
pub(crate) fn saturating_mul_usize(a: usize, b: usize) -> (r: usize)
    ensures
        r == sat_mul(a as int, b as int),
{
    if a == 0 || b <= usize::MAX / a {
        proof {
            if a > 0 {
                vstd::arithmetic::div_mod::lemma_fundamental_div_mod(usize::MAX as int, a as int);
                vstd::arithmetic::mul::lemma_mul_inequality(b as int, (usize::MAX / a) as int, a as int);
                vstd::arithmetic::mul::lemma_mul_is_commutative(a as int, (usize::MAX / a) as int);
                vstd::arithmetic::mul::lemma_mul_is_commutative(a as int, b as int);
                vstd::arithmetic::div_mod::lemma_mod_bound(usize::MAX as int, a as int);
            }
        }
        a * b
    } else {
        proof {
            vstd::arithmetic::div_mod::lemma_fundamental_div_mod(usize::MAX as int, a as int);
            vstd::arithmetic::mul::lemma_mul_inequality((usize::MAX / a + 1) as int, b as int, a as int);
            vstd::arithmetic::mul::lemma_mul_is_commutative(a as int, (usize::MAX / a) as int);
            vstd::arithmetic::mul::lemma_mul_is_commutative(a as int, b as int);
            vstd::arithmetic::div_mod::lemma_mod_bound(usize::MAX as int, a as int);
            assert(((usize::MAX / a + 1) as int) * (a as int) == (usize::MAX / a) as int * (a as int) + a as int) by (nonlinear_arith);
        }
        usize::MAX
    }
}

/// How many results to ask the search service for so that page `page_idx`
/// can be cut from them: `(page_idx + 1) * max_items_per_page`, never more
/// than `MAX_SEARCH_FETCH`.
pub fn search_fetch_count(max_items_per_page: usize, page_idx: usize) -> (r: usize)
    ensures
        r == vstd::math::min(sat_mul(max_items_per_page as int, sat_add(page_idx as int, 1)), MAX_SEARCH_FETCH as int),
{
    let pages = if page_idx == usize::MAX { usize::MAX } else { page_idx + 1 };
    let wanted = saturating_mul_usize(max_items_per_page, pages);
    if wanted < MAX_SEARCH_FETCH { wanted } else { MAX_SEARCH_FETCH }
}

/// First result of page `page_idx`.
pub open spec fn page_start(max_items_per_page: int, page_idx: int) -> int {
    sat_mul(page_idx, max_items_per_page)
}

/// Cut page `page_idx` out of the search results: the results from
/// `page_idx * max_items_per_page` on, at most `max_items_per_page` of them.
/// No results at all, or an empty page, is `NoResults` for `query`.
pub fn select_search_page<T>(entries: Vec<T>, max_items_per_page: usize, page_idx: usize, query: &str) -> (r: Result<
    Vec<T>,
    YoutubeSearchError,
>)
    ensures
        ({
            let start = page_start(max_items_per_page as int, page_idx as int);
            let end = vstd::math::min(start + max_items_per_page, entries@.len() as int);
            if entries@.len() > 0 && start < end {
                r matches Ok(page) && page@ == entries@.subrange(start, end)
            } else {
                r matches Err(YoutubeSearchError::NoResults { query: q }) && q@ == query@
            }
        }),
{
    if entries.len() == 0 {
        return Err(YoutubeSearchError::NoResults { query: query.to_owned() });
    }
    let start = saturating_mul_usize(page_idx, max_items_per_page);
    let mut entries = entries;
    let page = if start < entries.len() {
        let mut tail = entries.split_off(start);
        if max_items_per_page < tail.len() {
            tail.truncate(max_items_per_page);
        }
        tail
    } else {
        Vec::new()
    };
    if page.len() == 0 {
        return Err(YoutubeSearchError::NoResults { query: query.to_owned() });
    }
    Ok(page)
}

/// Samples of startup audio wanted before a stream plays: half a second at
/// `sample_rate` with `channels` interleaved channels (products saturate).
pub open spec fn spec_startup_samples(sample_rate: u32, channels: u16) -> int {
    sat_mul(sat_mul(sample_rate as int, channels as int), STARTUP_BUFFER_MILLIS as int) / 1000
}

/// How many samples to buffer before a stream starts playing.
pub fn startup_samples(sample_rate: u32, channels: u16) -> (r: usize)
    ensures
        r == spec_startup_samples(sample_rate, channels),
{
    let frames = saturating_mul_usize(sample_rate as usize, channels as usize);
    saturating_mul_usize(frames, STARTUP_BUFFER_MILLIS) / 1000
}

/// What to do while waiting for a stream's first audio.
#[derive(Debug, Clone, Copy, PartialEq, Eq, Structural)]
pub enum StartupDecision {
    /// Enough audio is buffered: start playing.
    Ready,
    /// Keep waiting.
    Wait,
    /// The decoder finished without producing any audio.
    NoAudio,
    /// The deadline passed without any audio.
    TimedOut,
}

/// One check of the startup buffer: ready once `required` samples (at least
/// one chunk) are buffered; once decoding is complete or the deadline has
/// passed, ready if anything at all is buffered and a failure otherwise.
pub fn startup_decision(buffered: usize, complete: bool, deadline_passed: bool, required: usize) -> (r: StartupDecision)
    ensures
        r == (if buffered >= vstd::math::max(required as int, CHUNK_SIZE as int) {
            StartupDecision::Ready
        } else if complete {
            if buffered > 0 { StartupDecision::Ready } else { StartupDecision::NoAudio }
        } else if deadline_passed {
            if buffered > 0 { StartupDecision::Ready } else { StartupDecision::TimedOut }
        } else {
            StartupDecision::Wait
        }),
{
    let threshold = if required > CHUNK_SIZE { required } else { CHUNK_SIZE };
    if buffered >= threshold {
        StartupDecision::Ready
    } else if complete {
        if buffered > 0 { StartupDecision::Ready } else { StartupDecision::NoAudio }
    } else if deadline_passed {
        if buffered > 0 { StartupDecision::Ready } else { StartupDecision::TimedOut }
    } else {
        StartupDecision::Wait
    }
}

/// A reported video duration is usable when it is positive and below `u32::MAX` seconds.
pub fn duration_is_valid(duration_secs: i64) -> (r: bool)
    ensures
        r == (0 < duration_secs < u32::MAX),
{
    duration_secs > 0 && duration_secs < u32::MAX as i64
}

/// `a * b`, or `cap` when the product is larger.
pub open spec fn capped_mul(a: int, b: int, cap: int) -> int {
    if a * b > cap { cap } else { a * b }
}

fn capped_mul_u64(a: u64, b: u64, cap: u64) -> (r: u64)
    ensures
        r == capped_mul(a as int, b as int, cap as int),
{
    if b == 0 || a <= cap / b {
        proof {
            if b > 0 {
                vstd::arithmetic::div_mod::lemma_fundamental_div_mod(cap as int, b as int);
                vstd::arithmetic::mul::lemma_mul_inequality(a as int, (cap / b) as int, b as int);
                vstd::arithmetic::mul::lemma_mul_is_commutative(b as int, (cap / b) as int);
                vstd::arithmetic::div_mod::lemma_mod_bound(cap as int, b as int);
            }
        }
        a * b
    } else {
        proof {
            let q = (cap / b) as int;
            vstd::arithmetic::div_mod::lemma_fundamental_div_mod(cap as int, b as int);
            vstd::arithmetic::mul::lemma_mul_inequality(q + 1, a as int, b as int);
            vstd::arithmetic::mul::lemma_mul_is_commutative(b as int, q);
            vstd::arithmetic::div_mod::lemma_mod_bound(cap as int, b as int);
            assert((q + 1) * (b as int) == q * (b as int) + b as int) by (nonlinear_arith);
        }
        cap
    }
}

/// Expected interleaved samples of a whole stream: duration times rate times
/// channels, each product saturating at `i64::MAX`.
pub fn expected_stream_samples(duration_secs: i64, sample_rate: u32, channels: u16) -> (r: u64)
    requires
        0 < duration_secs < u32::MAX,
    ensures
        r == capped_mul(
            capped_mul(duration_secs as int, sample_rate as int, i64::MAX as int),
            channels as int,
            i64::MAX as int,
        ),
{
    let per_channel = capped_mul_u64(duration_secs as u64, sample_rate as u64, i64::MAX as u64);
    capped_mul_u64(per_channel, channels as u64, i64::MAX as u64)
}

/// How many leading samples of a decoded stream are silence to skip: the
/// whole frames of `channels` samples, from the start, in which no sample is
/// audible (`audible` tells which are).  A trailing partial frame is never
/// skipped.
pub fn leading_silence_len(audible: &Vec<bool>, channels: usize) -> (r: usize)
    requires
        channels > 0,
    ensures
        r <= audible@.len(),
        r % channels == 0,
        forall|j: int| 0 <= j < r ==> !audible@[j],
        r + channels <= audible@.len() ==> exists|j: int| r <= j < r + channels && audible@[j],
{
    let len = audible.len();
    let mut start: usize = 0;
    while channels <= len - start
        invariant
            len == audible@.len(),
            channels > 0,
            start <= len,
            start % channels == 0,
            forall|j: int| 0 <= j < start ==> !audible@[j],
        decreases len - start,
    {
        let mut j: usize = start;
        while j < start + channels
            invariant
                len == audible@.len(),
                start + channels <= len,
                start <= j <= start + channels,
                channels > 0,
                start % channels == 0,
                forall|i: int| 0 <= i < j ==> !audible@[i],
            decreases start + channels - j,
        {
            if audible[j] {
                return start;
            }
            j = j + 1;
        }
        proof {
            vstd::arithmetic::div_mod::lemma_mod_adds(start as int, channels as int, channels as int);
            vstd::arithmetic::div_mod::lemma_mod_self_0(channels as int);
        }
        start = start + channels;
    }
    start
}

/// What `yt-dlp` reports of one video before it is played: its title,
/// uploader, length in whole seconds and audio codec, where known.
#[derive(Debug, Clone)]
pub struct VideoInfo {
    pub title: String,
    pub uploader: Option<String>,
    pub duration_secs: Option<u64>,
    pub codec: Option<String>,
}

/// Field `i` of a `yt-dlp` line, unless it is missing or `NA` (unknown).
pub open spec fn spec_known_field(fields: Seq<Seq<char>>, i: int) -> Option<Seq<char>> {
    if 0 <= i < fields.len() && fields[i] != "NA"@ {
        Some(fields[i])
    } else {
        None
    }
}

/// Field `i` of a `yt-dlp` line read as whole seconds, if it is there and
/// reads as such.
pub open spec fn spec_seconds_field(fields: Seq<Seq<char>>, i: int) -> Option<u64> {
    if 0 <= i < fields.len() {
        spec_parse_whole_seconds(fields[i])
    } else {
        None
    }
}

fn known_field(fields: &Vec<String>, i: usize) -> (r: Option<String>)
    ensures
        opt_string_view(r) == spec_known_field(fields@.map_values(|f: String| f@), i as int),
{
    if i < fields.len() && !str_eq(fields[i].as_str(), "NA") {
        Some(fields[i].clone())
    } else {
        None
    }
}

fn seconds_field(fields: &Vec<String>, i: usize) -> (r: Option<u64>)
    ensures
        r == spec_seconds_field(fields@.map_values(|f: String| f@), i as int),
{
    if i < fields.len() {
        parse_whole_seconds(fields[i].as_str())
    } else {
        None
    }
}

/// Read one search result printed by `yt-dlp` as the tab-separated fields
/// identifier, title, address, uploader and length.  A line with fewer than
/// three fields is no result; the uploader and length are optional.
pub fn parse_video_line(line: &str) -> (r: Option<YoutubeVideo>)
    ensures
        spec_split_tabs(line@).len() < 3 ==> r is None,
        spec_split_tabs(line@).len() >= 3 ==> (r matches Some(v) && {
            let f = spec_split_tabs(line@);
            &&& v.id@ == f[0]
            &&& v.title@ == f[1]
            &&& v.url@ == f[2]
            &&& opt_string_view(v.uploader) == spec_known_field(f, 3)
            &&& v.duration_secs == spec_seconds_field(f, 4)
        }),
{
    let fields = split_tabs(line);
    proof {
        assert(fields@.map_values(|f: String| f@) =~= spec_split_tabs(line@));
    }
    if fields.len() < 3 {
        return None;
    }
    let uploader = known_field(&fields, 3);
    let duration_secs = seconds_field(&fields, 4);
    Some(
        YoutubeVideo {
            id: fields[0].clone(),
            title: fields[1].clone(),
            url: fields[2].clone(),
            uploader,
            duration_secs,
        },
    )
}

/// Read what `yt-dlp` prints of a video before playing it, as the
/// tab-separated fields title, uploader, length and audio codec.  The title
/// is the first field; the others are optional.
pub fn parse_video_info(line: &str) -> (r: VideoInfo)
    ensures
        ({
            let f = spec_split_tabs(line@);
            &&& r.title@ == f[0]
            &&& opt_string_view(r.uploader) == spec_known_field(f, 1)
            &&& r.duration_secs == spec_seconds_field(f, 2)
            &&& opt_string_view(r.codec) == spec_known_field(f, 3)
        }),
{
    let fields = split_tabs(line);
    proof {
        assert(fields@.map_values(|f: String| f@) =~= spec_split_tabs(line@));
        crate::text::lemma_split_tabs_nonempty(line@);
    }
    VideoInfo {
        title: fields[0].clone(),
        uploader: known_field(&fields, 1),
        duration_secs: seconds_field(&fields, 2),
        codec: known_field(&fields, 3),
    }
}

} // verus!

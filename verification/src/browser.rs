use vstd::prelude::*;
use vstd::utf8::*;

use crate::text::{ascii_lower, spec_lowercase, str_eq, to_lowercase};

verus! {

broadcast use vstd::seq_lib::group_to_multiset_ensures, vstd::multiset::group_multiset_axioms;

/// One row of the file browser.
#[derive(Debug, Clone)]
pub struct FileEntry {
    pub name: String,
    pub path: String,
    pub is_dir: bool,
}

/// What a directory read reports about one of its entries: the entry, and the
/// extension of its path when there is one that is valid text.
#[derive(Debug, Clone)]
pub struct DirEntryInfo {
    pub entry: FileEntry,
    pub extension: Option<String>,
}

/// The audio file extensions the browser lists, in lower case.
pub open spec fn is_supported_extension(ext: Seq<char>) -> bool {
    ||| ext == "mp3"@
    ||| ext == "wav"@
    ||| ext == "flac"@
    ||| ext == "ogg"@
    ||| ext == "m4a"@
    ||| ext == "aac"@
}

/// The browser lists exactly the audio formats mp3, wav, flac, ogg, m4a and
/// aac: each of these names is supported, and names of other formats, or
/// these with their case changed or a dot in front, are not.
pub proof fn lemma_supported_extensions()
    ensures
        is_supported_extension("mp3"@),
        is_supported_extension("wav"@),
        is_supported_extension("flac"@),
        is_supported_extension("ogg"@),
        is_supported_extension("m4a"@),
        is_supported_extension("aac"@),
        !is_supported_extension("mp4"@),
        !is_supported_extension("opus"@),
        !is_supported_extension("txt"@),
        !is_supported_extension(".mp3"@),
        !is_supported_extension("AAC"@),
        !is_supported_extension(Seq::empty()),
{
    reveal_strlit("mp3");
    reveal_strlit("wav");
    reveal_strlit("flac");
    reveal_strlit("ogg");
    reveal_strlit("m4a");
    reveal_strlit("aac");
    reveal_strlit("mp4");
    reveal_strlit("opus");
    reveal_strlit("txt");
    reveal_strlit(".mp3");
    reveal_strlit("AAC");
    assert("mp4"@[2] != "mp3"@[2] && "mp4"@[1] != "m4a"@[1] && "mp4"@[0] != "wav"@[0] && "mp4"@[0] != "ogg"@[0]
        && "mp4"@[0] != "aac"@[0]);
    assert("opus"@[0] != "flac"@[0]);
    assert("mp3"@.len() == 3 && "wav"@.len() == 3 && "ogg"@.len() == 3 && "m4a"@.len() == 3 && "aac"@.len() == 3
        && "flac"@.len() == 4 && "opus"@.len() == 4);
    assert("txt"@[0] != "mp3"@[0] && "txt"@[0] != "wav"@[0] && "txt"@[0] != "ogg"@[0] && "txt"@[0] != "m4a"@[0]
        && "txt"@[0] != "aac"@[0]);
    assert(".mp3"@[0] != "flac"@[0]);
    assert("AAC"@[0] != "mp3"@[0] && "AAC"@[0] != "wav"@[0] && "AAC"@[0] != "ogg"@[0] && "AAC"@[0] != "m4a"@[0]
        && "AAC"@[0] != "aac"@[0]);
}

/// An ASCII extension is compared after lower-casing its capital letters, so
/// each supported format is accepted in any case: `AAC`, `Aac` and `aac` alike.
pub proof fn lemma_supported_in_any_case(ext: Seq<char>)
    requires
        ext.map_values(|c: char| ascii_lower(c)) == "aac"@ || ext.map_values(|c: char| ascii_lower(c)) == "mp3"@
            || ext.map_values(|c: char| ascii_lower(c)) == "wav"@ || ext.map_values(|c: char| ascii_lower(c))
            == "flac"@ || ext.map_values(|c: char| ascii_lower(c)) == "ogg"@ || ext.map_values(
            |c: char| ascii_lower(c),
        ) == "m4a"@,
    ensures
        is_supported_extension(ext.map_values(|c: char| ascii_lower(c))),
{
    lemma_supported_extensions();
}

/// Whether an extension, compared without regard to case, is one of the
/// supported audio formats.
pub fn supported_extension(ext: &str) -> (r: bool)
    ensures
        r == is_supported_extension(spec_lowercase(ext@)),
        (forall|i: int| 0 <= i < ext@.len() ==> (#[trigger] ext@[i] as u32) < 128) ==> r == is_supported_extension(
            ext@.map_values(|c: char| ascii_lower(c)),
        ),
{
    let lower = to_lowercase(ext);
    let l = lower.as_str();
    str_eq(l, "mp3") || str_eq(l, "wav") || str_eq(l, "flac") || str_eq(l, "ogg") || str_eq(l, "m4a")
        || str_eq(l, "aac")
}

/// The browser lists directories and files with a supported extension.
pub open spec fn is_listed(info: DirEntryInfo) -> bool {
    info.entry.is_dir || match info.extension {
        Some(ext) => is_supported_extension(spec_lowercase(ext@)),
        None => false,
    }
}

/// Whether a directory entry is shown in the browser.
pub fn should_include(info: &DirEntryInfo) -> (r: bool)
    ensures
        r == is_listed(*info),
{
    if info.entry.is_dir {
        return true;
    }
    match &info.extension {
        Some(ext) => supported_extension(ext.as_str()),
        None => false,
    }
}

/// Byte-wise lexicographic order, the order of `str` comparison: `a` comes
/// no later than `b`.
pub open spec fn bytes_le(a: Seq<u8>, b: Seq<u8>) -> bool
    decreases a.len(),
{
    if a.len() == 0 {
        true
    } else if b.len() == 0 {
        false
    } else if a[0] != b[0] {
        a[0] < b[0]
    } else {
        bytes_le(a.drop_first(), b.drop_first())
    }
}

/// Any two byte strings are ordered one way or the other.
pub proof fn lemma_bytes_le_total(a: Seq<u8>, b: Seq<u8>)
    ensures
        bytes_le(a, b) || bytes_le(b, a),
    decreases a.len(),
{
    if a.len() > 0 && b.len() > 0 && a[0] == b[0] {
        lemma_bytes_le_total(a.drop_first(), b.drop_first());
    }
}

/// The byte order is transitive.
pub proof fn lemma_bytes_le_transitive(a: Seq<u8>, b: Seq<u8>, c: Seq<u8>)
    requires
        bytes_le(a, b),
        bytes_le(b, c),
    ensures
        bytes_le(a, c),
    decreases a.len(),
{
    if a.len() > 0 && b.len() > 0 && c.len() > 0 && a[0] == b[0] && b[0] == c[0] {
        lemma_bytes_le_transitive(a.drop_first(), b.drop_first(), c.drop_first());
    }
}

/// The bytes by which an entry's name is sorted: the UTF-8 form of its
/// lower-case name.
pub open spec fn sort_key(e: FileEntry) -> Seq<u8> {
    encode_utf8(spec_lowercase(e.name@))
}

/// The browser's order: directories before files, and within each group by
/// lower-case name.  `a` may stand before `b`.
pub open spec fn listed_before(a: FileEntry, b: FileEntry) -> bool {
    ||| a.is_dir && !b.is_dir
    ||| a.is_dir == b.is_dir && bytes_le(sort_key(a), sort_key(b))
}

/// Every entry stands no later than those after it.
pub open spec fn is_listing_sorted(s: Seq<FileEntry>) -> bool {
    forall|i: int, j: int| 0 <= i < j < s.len() ==> listed_before(#[trigger] s[i], #[trigger] s[j])
}

proof fn lemma_listed_before_total(a: FileEntry, b: FileEntry)
    ensures
        listed_before(a, b) || listed_before(b, a),
{
    lemma_bytes_le_total(sort_key(a), sort_key(b));
}

proof fn lemma_listed_before_transitive(a: FileEntry, b: FileEntry, c: FileEntry)
    requires
        listed_before(a, b),
        listed_before(b, c),
    ensures
        listed_before(a, c),
{
    if a.is_dir == b.is_dir && b.is_dir == c.is_dir {
        lemma_bytes_le_transitive(sort_key(a), sort_key(b), sort_key(c));
    }
}

/// Compare two byte strings in the byte-wise lexicographic order.
fn bytes_le_exec(a: &[u8], b: &[u8]) -> (r: bool)
    ensures
        r == bytes_le(a@, b@),
{
    let mut i: usize = 0;
    assert(a@.subrange(0, a.len() as int) =~= a@);
    assert(b@.subrange(0, b.len() as int) =~= b@);
    while i < a.len() && i < b.len()
        invariant
            i <= a.len(),
            i <= b.len(),
            bytes_le(a@, b@) == bytes_le(a@.subrange(i as int, a.len() as int), b@.subrange(i as int, b.len() as int)),
        decreases a.len() - i,
    {
        let x = a[i];
        let y = b[i];
        if x != y {
            return x < y;
        }
        proof {
            let sa = a@.subrange(i as int, a.len() as int);
            let sb = b@.subrange(i as int, b.len() as int);
            assert(sa.drop_first() =~= a@.subrange(i + 1, a.len() as int));
            assert(sb.drop_first() =~= b@.subrange(i + 1, b.len() as int));
        }
        i = i + 1;
    }
    i == a.len()
}

/// Whether `a` may stand before `b`, given their lower-case names.
fn listed_before_exec(a: &FileEntry, a_key: &String, b: &FileEntry, b_key: &String) -> (r: bool)
    requires
        a_key@ == spec_lowercase(a.name@),
        b_key@ == spec_lowercase(b.name@),
    ensures
        r == listed_before(*a, *b),
{
    if a.is_dir && !b.is_dir {
        return true;
    }
    if a.is_dir != b.is_dir {
        return false;
    }
    bytes_le_exec(a_key.as_str().as_bytes(), b_key.as_str().as_bytes())
}

/// `out` is `input` rearranged: the `k`th entry of `out` is the entry at
/// position `idx[k]` of `input`, no position is taken twice, and two entries
/// that rank the same keep the order they had in `input`.
pub open spec fn is_stable_arrangement(out: Seq<FileEntry>, input: Seq<FileEntry>, idx: Seq<int>) -> bool {
    &&& idx.len() == out.len()
    &&& forall|k: int| 0 <= k < out.len() ==> 0 <= #[trigger] idx[k] < input.len() && out[k] == input[idx[k]]
    &&& forall|k1: int, k2: int| 0 <= k1 < k2 < out.len() ==> #[trigger] idx[k1] != #[trigger] idx[k2]
    &&& forall|k1: int, k2: int|
        0 <= k1 < k2 < out.len() && listed_before(#[trigger] out[k2], #[trigger] out[k1]) ==> idx[k1] < idx[k2]
}

/// Put entries in the browser's order: directories first, then by lower-case
/// name; entries that rank the same keep their order.  The result holds the
/// same entries.
pub fn sort_entries(entries: Vec<FileEntry>) -> (r: Vec<FileEntry>)
    ensures
        r@.to_multiset() == entries@.to_multiset(),
        is_listing_sorted(r@),
        r@.len() == entries@.len(),
        exists|idx: Seq<int>| is_stable_arrangement(r@, entries@, idx),
{
    let ghost original = entries@;
    let mut rest = entries;
    let mut out: Vec<FileEntry> = Vec::new();
    let mut keys: Vec<String> = Vec::new();
    let ghost mut idx: Seq<int> = Seq::empty();
    assert(out@.to_multiset().add(rest@.to_multiset()) =~= original.to_multiset());
    assert(rest@ =~= original.subrange(0, original.len() as int));
    while rest.len() > 0
        invariant
            out@.to_multiset().add(rest@.to_multiset()) == original.to_multiset(),
            is_listing_sorted(out@),
            keys.len() == out.len(),
            forall|k: int| 0 <= k < out.len() ==> (#[trigger] keys@[k])@ == spec_lowercase(out@[k].name@),
            out@.len() + rest@.len() == original.len(),
            rest@ == original.subrange(out@.len() as int, original.len() as int),
            is_stable_arrangement(out@, original, idx),
            forall|k: int| 0 <= k < out@.len() ==> #[trigger] idx[k] < out@.len(),
        decreases rest.len(),
    {
        let ghost before_rest = rest@;
        let ghost taken = out@.len() as int;
        let e = rest.remove(0);
        let k = to_lowercase(e.name.as_str());
        let mut p = out.len();
        while p > 0 && !listed_before_exec(&out[p - 1], &keys[p - 1], &e, &k)
            invariant
                p <= out.len(),
                keys.len() == out.len(),
                forall|k2: int| 0 <= k2 < out.len() ==> (#[trigger] keys@[k2])@ == spec_lowercase(out@[k2].name@),
                k@ == spec_lowercase(e.name@),
                forall|q: int| p <= q < out.len() ==> !listed_before(#[trigger] out@[q], e),
            decreases p,
        {
            p = p - 1;
        }
        proof {
            assert forall|q: int| p <= q < out.len() implies listed_before(e, #[trigger] out@[q]) by {
                lemma_listed_before_total(out@[q], e);
            }
            if p > 0 {
                assert(listed_before(out@[p - 1], e));
                assert forall|q: int| 0 <= q < p implies listed_before(#[trigger] out@[q], e) by {
                    if q < p - 1 {
                        lemma_listed_before_transitive(out@[q], out@[p - 1], e);
                    }
                }
            }
        }
        let ghost before_out = out@;
        let ghost before_idx = idx;
        out.insert(p, e);
        keys.insert(p, k);
        proof {
            assert(before_rest.remove(0) == rest@);
            assert(before_rest[0] == e);
            assert(e == original[taken]);
            assert(rest@ =~= original.subrange(taken + 1, original.len() as int));
            idx = before_idx.insert(p as int, taken);
            assert forall|k2: int| 0 <= k2 < out@.len() implies 0 <= #[trigger] idx[k2] < original.len() && out@[k2]
                == original[idx[k2]] && idx[k2] < out@.len() by {
                if k2 < p {
                    assert(idx[k2] == before_idx[k2] && out@[k2] == before_out[k2]);
                } else if k2 > p {
                    assert(idx[k2] == before_idx[k2 - 1] && out@[k2] == before_out[k2 - 1]);
                }
            }
            assert forall|k1: int, k2: int| 0 <= k1 < k2 < out@.len() implies #[trigger] idx[k1] != #[trigger] idx[k2] by {
                if k1 < p && k2 < p {
                    assert(idx[k1] == before_idx[k1] && idx[k2] == before_idx[k2]);
                } else if k1 < p && k2 == p {
                    assert(idx[k1] == before_idx[k1]);
                } else if k1 < p {
                    assert(idx[k1] == before_idx[k1] && idx[k2] == before_idx[k2 - 1]);
                } else if k1 == p {
                    assert(idx[k2] == before_idx[k2 - 1]);
                } else {
                    assert(idx[k1] == before_idx[k1 - 1] && idx[k2] == before_idx[k2 - 1]);
                }
            }
            assert forall|k1: int, k2: int|
                0 <= k1 < k2 < out@.len() && listed_before(#[trigger] out@[k2], #[trigger] out@[k1]) implies idx[k1]
                < idx[k2] by {
                if k1 < p && k2 < p {
                    assert(idx[k1] == before_idx[k1] && idx[k2] == before_idx[k2]);
                    assert(out@[k1] == before_out[k1] && out@[k2] == before_out[k2]);
                } else if k1 < p && k2 == p {
                    assert(idx[k1] == before_idx[k1]);
                } else if k1 < p {
                    assert(idx[k1] == before_idx[k1] && idx[k2] == before_idx[k2 - 1]);
                    assert(out@[k1] == before_out[k1] && out@[k2] == before_out[k2 - 1]);
                } else if k1 == p {
                    assert(out@[k2] == before_out[k2 - 1]);
                    assert(!listed_before(before_out[k2 - 1], e));
                } else {
                    assert(idx[k1] == before_idx[k1 - 1] && idx[k2] == before_idx[k2 - 1]);
                    assert(out@[k1] == before_out[k1 - 1] && out@[k2] == before_out[k2 - 1]);
                }
            }
            assert(out@ == before_out.insert(p as int, e));
            assert(out@.to_multiset().add(rest@.to_multiset()) =~= original.to_multiset());
            assert forall|i: int, j: int| 0 <= i < j < out@.len() implies listed_before(
                #[trigger] out@[i],
                #[trigger] out@[j],
            ) by {
                if i < p && j < p {
                    assert(out@[i] == before_out[i] && out@[j] == before_out[j]);
                } else if i < p && j == p {
                    assert(out@[i] == before_out[i]);
                } else if i < p {
                    assert(out@[i] == before_out[i] && out@[j] == before_out[j - 1]);
                    assert(listed_before(before_out[i], before_out[j - 1]));
                } else if i == p {
                    assert(out@[j] == before_out[j - 1]);
                } else {
                    assert(out@[i] == before_out[i - 1] && out@[j] == before_out[j - 1]);
                }
            }
            assert forall|k2: int| 0 <= k2 < out.len() implies (#[trigger] keys@[k2])@ == spec_lowercase(
                out@[k2].name@,
            ) by {
                if k2 < p {
                } else if k2 > p {
                    assert(keys@[k2] == keys@[k2]);
                }
            }
        }
    }
    proof {
        assert(is_stable_arrangement(out@, original, idx));
        assert(rest@.len() == 0);
        assert(rest@.to_multiset().len() == 0);
        assert(rest@.to_multiset() =~= vstd::multiset::Multiset::empty());
        assert(out@.to_multiset().add(vstd::multiset::Multiset::empty()) =~= out@.to_multiset());
    }
    out
}

/// The rows a directory listing holds besides the parent row: the listed
/// entries of the directory read, in the order they were read.
pub open spec fn listed_entries(found: Seq<DirEntryInfo>) -> Seq<FileEntry> {
    found.filter(|d: DirEntryInfo| is_listed(d)).map_values(|d: DirEntryInfo| d.entry)
}

/// The listing that stands for the whole machine: the file-system root.
pub fn get_system_drives() -> (r: Vec<FileEntry>)
    ensures
        r.len() == 1,
        r@[0].name@ == "/"@,
        r@[0].path@ == "/"@,
        r@[0].is_dir,
{
    let mut drives: Vec<FileEntry> = Vec::new();
    drives.push(FileEntry { name: String::from_str("/"), path: String::from_str("/"), is_dir: true });
    drives
}

/// The browser's listing of the directory `dir`, given what reading it found
/// and the directory's parent.  An empty `dir` stands for the whole machine
/// and lists the file-system root.  Otherwise the first row leads to the
/// parent (to the empty path when there is none), and the directories and
/// supported audio files follow, directories first, then by lower-case name;
/// entries that rank the same keep the order in which they were read.
pub fn directory_listing(dir: &str, parent: Option<String>, found: Vec<DirEntryInfo>) -> (r: Vec<FileEntry>)
    ensures
        dir@.len() == 0 ==> r.len() == 1 && r@[0].name@ == "/"@ && r@[0].path@ == "/"@ && r@[0].is_dir,
        dir@.len() > 0 ==> {
            &&& r.len() >= 1
            &&& r@[0].name@ == ".."@
            &&& r@[0].path@ == (match parent {
                Some(p) => p@,
                None => Seq::<char>::empty(),
            })
            &&& r@[0].is_dir
            &&& r@.drop_first().to_multiset() == listed_entries(found@).to_multiset()
            &&& is_listing_sorted(r@.drop_first())
            &&& exists|idx: Seq<int>| is_stable_arrangement(r@.drop_first(), listed_entries(found@), idx)
        },
{
    if dir.is_empty() {
        return get_system_drives();
    }
    let ghost all = found@;
    let mut rest = found;
    let mut kept: Vec<FileEntry> = Vec::new();
    let ghost mut taken: int = 0;
    while rest.len() > 0
        invariant
            0 <= taken <= all.len(),
            rest@ == all.subrange(taken, all.len() as int),
            kept@ == listed_entries(all.take(taken)),
        decreases rest.len(),
    {
        let info = rest.remove(0);
        proof {
            assert(info == all[taken]);
            assert(all.take(taken + 1) =~= all.take(taken).push(info));
            all.take(taken).lemma_filter_push(info, |d: DirEntryInfo| is_listed(d));
            taken = taken + 1;
            assert(rest@ =~= all.subrange(taken, all.len() as int));
        }
        if should_include(&info) {
            kept.push(info.entry);
            proof {
                let f = |d: DirEntryInfo| d.entry;
                let filtered = all.take(taken - 1).filter(|d: DirEntryInfo| is_listed(d));
                assert(filtered.push(info).map_values(f) =~= filtered.map_values(f).push(info.entry));
            }
        }
    }
    proof {
        assert(all.take(taken) =~= all);
    }
    let sorted = sort_entries(kept);
    let parent_path = match parent {
        Some(p) => p,
        None => String::new(),
    };
    let mut listing: Vec<FileEntry> = Vec::new();
    listing.push(FileEntry { name: String::from_str(".."), path: parent_path, is_dir: true });
    let mut sorted_rows = sorted;
    listing.append(&mut sorted_rows);
    proof {
        assert(listing@.drop_first() =~= sorted@);
    }
    listing
}

} // verus!

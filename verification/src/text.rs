use vstd::prelude::*;
use vstd::utf8::*;

use crate::cache::opt_string_view;

verus! {

broadcast use vstd::utf8::encode_utf8_decode_utf8;

/// Whether two strings hold the same characters, compared byte by byte.
pub fn str_eq(a: &str, b: &str) -> (r: bool)
    ensures
        r == (a@ == b@),
{
    let x = a.as_bytes();
    let y = b.as_bytes();
    if x.len() != y.len() {
        proof {
            if a@ == b@ {
                assert(x@ == y@);
            }
        }
        return false;
    }
    let mut i: usize = 0;
    while i < x.len()
        invariant
            x.len() == y.len(),
            i <= x.len(),
            x@ == encode_utf8(a@),
            y@ == encode_utf8(b@),
            forall|j: int| 0 <= j < i ==> x@[j] == y@[j],
        decreases x.len() - i,
    {
        if x[i] != y[i] {
            return false;
        }
        i = i + 1;
    }
    proof {
        assert(x@ =~= y@);
        assert(decode_utf8(encode_utf8(a@)) == a@);
        assert(decode_utf8(encode_utf8(b@)) == b@);
    }
    true
}

/// Decodes `bytes` with `String::from_utf8`: the bytes become a string when
/// they are valid UTF-8, and the string holds the characters they encode.
#[verifier::external_body]
pub(crate) fn string_from_utf8(bytes: Vec<u8>) -> (r: Option<String>)
    ensures
        r is Some <==> valid_utf8(bytes@),
        r matches Some(s) ==> s@ == decode_utf8(bytes@),
{
    String::from_utf8(bytes).ok()
}

/// `name` holds no path separator or drive marker, so a path library treats it
/// as one relative component.
pub open spec fn is_plain_component(name: Seq<char>) -> bool {
    &&& name.len() > 0
    &&& forall|i: int| 0 <= i < name.len() ==> name[i] != '/' && name[i] != '\\' && name[i] != ':'
}

/// `name` is `.` or `..`: a component that stands for a directory rather than
/// naming an entry.
pub open spec fn is_dot_component(name: Seq<char>) -> bool {
    name.len() <= 2 && forall|i: int| 0 <= i < name.len() ==> name[i] == '.'
}

/// `base` holds no `?`, so it is no Windows verbatim path (`\\?\...`), onto
/// which a join normalizes `.` and `..` away.
pub open spec fn is_plain_base(base: Seq<char>) -> bool {
    !base.contains('?')
}

/// Joins `name` onto the directory `base` with `std::path::Path::join`, and
/// gives the result back as text.  For a plain component other than `.` and
/// `..`, joined onto a base that is no Windows verbatim path, the result
/// starts with `base` and ends with `name`; the separator placed between them
/// (none, `/` or `\`) depends on the platform and is not stated.  On a
/// verbatim base the standard library normalizes the joined path, and
/// nothing is stated.
#[verifier::external_body]
pub(crate) fn join_path(base: &str, name: &str) -> (r: String)
    ensures
        is_plain_base(base@) && is_plain_component(name@) && !is_dot_component(name@) ==> base@.is_prefix_of(r@)
            && name@.is_suffix_of(r@),
{
    std::path::Path::new(base).join(name).to_string_lossy().into_owned()
}

/// The name for `std::path::Path::file_name` on a text path: the path's
/// final component as text, or none when the path ends in `..` or has no
/// final component (such as `/`), by the standard library's path rules for
/// the platform the program is built for.
pub uninterp spec fn spec_file_name(path: Seq<char>) -> Option<Seq<char>>;

/// The final component of `path`, if there is one, from
/// `std::path::Path::file_name`, converted to text (losslessly, since the
/// path is already text).  The result is named by `spec_file_name`.  For a
/// path that is no Windows verbatim path (on which `/` is no separator): a
/// path whose last component is `..` has none, and a component, when there
/// is one, is non-empty and holds no `/`.  Which component it is in other
/// cases (trailing separators, `.` components, platform separators) is left
/// to the standard library and not restated here.
#[verifier::external_body]
pub(crate) fn path_file_name(path: &str) -> (r: Option<String>)
    ensures
        opt_string_view(r) == spec_file_name(path@),
        is_plain_base(path@) && (path@ == ".."@ || "/.."@.is_suffix_of(path@)) ==> r is None,
        is_plain_base(path@) ==> (r matches Some(n) ==> n@.len() > 0 && !n@.contains('/')),
{
    std::path::Path::new(path).file_name().map(|name| name.to_string_lossy().into_owned())
}

/// The name for `spec_trim`: `str::trim`, the text without its leading and
/// trailing Unicode white space.
pub uninterp spec fn spec_trim(s: Seq<char>) -> Seq<char>;

/// A character the ASCII range prints as a visible mark (`!` to `~`); none of
/// them is white space.
pub open spec fn is_ascii_graphic(c: char) -> bool {
    '!' <= c && c <= '~'
}

/// Space, tab, line feed or carriage return: white space in every reading.
pub open spec fn is_common_white_space(c: char) -> bool {
    c == ' ' || c == '\t' || c == '\n' || c == '\r'
}

/// `r` is a run `s[i..j]` of `s` with only non-graphic characters cut off
/// before and after it, and no space, tab or line break left at either end.
pub open spec fn is_trimmed_piece(s: Seq<char>, r: Seq<char>) -> bool {
    exists|i: int, j: int|
        {
            &&& 0 <= i <= j <= s.len()
            &&& r == s.subrange(i, j)
            &&& forall|k: int| 0 <= k < i ==> !is_ascii_graphic(#[trigger] s[k])
            &&& forall|k: int| j <= k < s.len() ==> !is_ascii_graphic(#[trigger] s[k])
        }
}

/// `str::trim` from the standard library: removes leading and trailing white
/// space.  The result is named by `spec_trim`; it is a piece of the input,
/// what was cut off holds no visible ASCII character, and no space, tab or
/// line break is left at either end.  Which other Unicode characters count
/// as white space is not restated here.
#[verifier::external_body]
pub(crate) fn trim(s: &str) -> (r: String)
    ensures
        r@ == spec_trim(s@),
        is_trimmed_piece(s@, r@),
        r@.len() > 0 ==> !is_common_white_space(r@[0]) && !is_common_white_space(r@.last()),
{
    s.trim().to_owned()
}

/// The name for `str::to_lowercase`: the text with every character replaced
/// by its Unicode lower-case mapping.
pub uninterp spec fn spec_lowercase(s: Seq<char>) -> Seq<char>;

/// `str::to_lowercase` from the standard library.  The result is named by
/// `spec_lowercase`; on ASCII text it lower-cases `A` to `Z` and keeps every
/// other character.  What the Unicode case tables map other characters to is
/// not restated here.
#[verifier::external_body]
pub(crate) fn to_lowercase(s: &str) -> (r: String)
    ensures
        r@ == spec_lowercase(s@),
        (forall|i: int| 0 <= i < s@.len() ==> (#[trigger] s@[i] as u32) < 128) ==> r@ == s@.map_values(
            |c: char| ascii_lower(c),
        ),
{
    s.to_lowercase()
}

/// `String::push` from the standard library: appends one character.
#[verifier::external_body]
pub(crate) fn push_char(s: &mut String, c: char)
    ensures
        final(s)@ == old(s)@.push(c),
{
    s.push(c);
}

/// `String::pop` from the standard library: removes the last character and
/// returns it, or returns `None` for an empty string.
#[verifier::external_body]
pub(crate) fn pop_char(s: &mut String) -> (r: Option<char>)
    ensures
        old(s)@.len() == 0 ==> r is None && final(s)@ == old(s)@,
        old(s)@.len() > 0 ==> r == Some(old(s)@.last()) && final(s)@ == old(s)@.drop_last(),
{
    s.pop()
}

/// ASCII lower-casing of one character: `A` to `Z` become `a` to `z`,
/// every other character is kept.
pub open spec fn ascii_lower(c: char) -> char {
    if 'A' <= c && c <= 'Z' {
        ((c as u32) + 32) as char
    } else {
        c
    }
}

/// Lower-case the ASCII capital letters of `s`, keeping every other
/// character (what `str::to_ascii_lowercase` does).
pub fn to_ascii_lowercase(s: &str) -> (r: String)
    ensures
        r@ == s@.map_values(|c: char| ascii_lower(c)),
{
    let mut out = String::new();
    for c in it: s.chars()
        invariant
            it.seq() == s@,
            out@ == s@.take(it.index() as int).map_values(|c: char| ascii_lower(c)),
    {
        let lower = if 'A' <= c && c <= 'Z' {
            let code = (c as u8) + 32;
            proof {
                assert((c as u8) as u32 == c as u32);
            }
            code as char
        } else {
            c
        };
        proof {
            assert(s@.take(it.index() + 1) =~= s@.take(it.index() as int).push(c));
            assert(s@.take(it.index() as int).push(c).map_values(|c: char| ascii_lower(c)) =~= s@.take(
                it.index() as int,
            ).map_values(|c: char| ascii_lower(c)).push(ascii_lower(c)));
        }
        push_char(&mut out, lower);
    }
    proof {
        assert(s@.take(s@.len() as int) =~= s@);
    }
    out
}

/// `pattern` occurs in `text` as a run of consecutive characters.
pub open spec fn contains_text(text: Seq<char>, pattern: Seq<char>) -> bool {
    exists|i: int| 0 <= i && i + pattern.len() <= text.len() && #[trigger] text.subrange(i, i + pattern.len()) == pattern
}

/// The characters of `s`, in order.
fn chars_of(s: &str) -> (r: Vec<char>)
    ensures
        r@ == s@,
{
    let mut out: Vec<char> = Vec::new();
    for c in it: s.chars()
        invariant
            it.seq() == s@,
            out@ == s@.take(it.index() as int),
    {
        proof {
            assert(s@.take(it.index() + 1) =~= s@.take(it.index() as int).push(c));
        }
        out.push(c);
    }
    proof {
        assert(s@.take(s@.len() as int) =~= s@);
    }
    out
}

/// Whether `pattern` occurs in `text` as a run of consecutive characters
/// (what `str::contains` does with a text pattern).
pub fn str_contains(text: &str, pattern: &str) -> (r: bool)
    ensures
        r == contains_text(text@, pattern@),
{
    let t = chars_of(text);
    let p = chars_of(pattern);
    let n = t.len();
    let m = p.len();
    if m > n {
        return false;
    }
    let mut i: usize = 0;
    while i <= n - m
        invariant
            t@ == text@,
            p@ == pattern@,
            n == t@.len(),
            m == p@.len(),
            m <= n,
            i <= n - m + 1,
            forall|k: int| 0 <= k < i ==> #[trigger] t@.subrange(k, k + m) != p@,
        decreases n - m + 1 - i,
    {
        let mut j: usize = 0;
        let mut same = true;
        while j < m
            invariant
                t@ == text@,
                p@ == pattern@,
                n == t@.len(),
                m == p@.len(),
                i + m <= n,
                j <= m,
                same == (forall|q: int| 0 <= q < j ==> t@[i + q] == p@[q]),
            decreases m - j,
        {
            if t[i + j] != p[j] {
                same = false;
            }
            j = j + 1;
        }
        if same {
            proof {
                assert(t@.subrange(i as int, i + m) =~= p@);
            }
            return true;
        }
        proof {
            assert(t@.subrange(i as int, i + m) != p@) by {
                let q = choose|q: int| 0 <= q < m && t@[i + q] != p@[q];
                assert(t@.subrange(i as int, i + m)[q] == t@[i + q]);
            }
        }
        i = i + 1;
    }
    false
}

/// The name for the `Debug` form of a text: the text in double quotes, with
/// quotes, backslashes and control characters escaped.
pub uninterp spec fn spec_debug_quoted(s: Seq<char>) -> Seq<char>;

/// A visible ASCII character or a space, other than a double quote or a
/// backslash: the `Debug` form writes it as it is.
pub open spec fn is_plain_debug_char(c: char) -> bool {
    ' ' <= c && c <= '~' && c != '"' && c != '\\'
}

/// The `Debug` form of a text, written with `format!("{:?}")`.  The result is
/// named by `spec_debug_quoted`; it starts and ends with a double quote, and a
/// text of plain characters comes back whole between the two quotes.
#[verifier::external_body]
pub(crate) fn debug_quoted(s: &str) -> (r: String)
    ensures
        r@ == spec_debug_quoted(s@),
        r@.len() >= 2,
        r@[0] == '"',
        r@.last() == '"',
        (forall|i: int| 0 <= i < s@.len() ==> is_plain_debug_char(#[trigger] s@[i])) ==> r@ == seq!['"'] + s@
            + seq!['"'],
{
    format!("{:?}", s)
}

/// The fields of `s` between tab characters, in order: one more field than
/// there are tabs, each possibly empty.
pub open spec fn spec_split_tabs(s: Seq<char>) -> Seq<Seq<char>>
    decreases s.len(),
{
    if s.len() == 0 {
        seq![Seq::empty()]
    } else {
        let fields = spec_split_tabs(s.drop_last());
        if s.last() == '\t' {
            fields.push(Seq::empty())
        } else {
            fields.update(fields.len() - 1, fields.last().push(s.last()))
        }
    }
}

/// A line always has at least one field.
pub(crate) proof fn lemma_split_tabs_nonempty(s: Seq<char>)
    ensures
        spec_split_tabs(s).len() >= 1,
    decreases s.len(),
{
    if s.len() > 0 {
        lemma_split_tabs_nonempty(s.drop_last());
    }
}

/// Split a line into its tab-separated fields.
pub fn split_tabs(line: &str) -> (r: Vec<String>)
    ensures
        r@.len() == spec_split_tabs(line@).len(),
        forall|i: int| 0 <= i < r@.len() ==> #[trigger] r@[i]@ == spec_split_tabs(line@)[i],
{
    let mut done: Vec<String> = Vec::new();
    let mut current = String::new();
    let ghost mut seen: Seq<char> = Seq::empty();
    for c in it: line.chars()
        invariant
            it.seq() == line@,
            seen == line@.take(it.index() as int),
            done@.len() + 1 == spec_split_tabs(seen).len(),
            forall|i: int| 0 <= i < done@.len() ==> #[trigger] done@[i]@ == spec_split_tabs(seen)[i],
            current@ == spec_split_tabs(seen).last(),
    {
        proof {
            lemma_split_tabs_nonempty(seen);
            assert(line@.take(it.index() + 1).drop_last() =~= seen);
            seen = line@.take(it.index() + 1);
        }
        if c == '\t' {
            let field = current;
            done.push(field);
            current = String::new();
        } else {
            push_char(&mut current, c);
        }
    }
    proof {
        lemma_split_tabs_nonempty(seen);
        assert(seen =~= line@);
    }
    done.push(current);
    done
}

/// The part of `s` before its first `.` (all of it when there is none).
pub open spec fn whole_part(s: Seq<char>) -> Seq<char>
    decreases s.len(),
{
    if s.len() == 0 {
        Seq::empty()
    } else if s.drop_last().contains('.') || s.last() == '.' {
        whole_part(s.drop_last())
    } else {
        whole_part(s.drop_last()).push(s.last())
    }
}

/// `c` is one of the digits `0` to `9`.
pub open spec fn is_ascii_digit(c: char) -> bool {
    '0' <= c && c <= '9'
}

/// The number the decimal digits `s` write.
pub open spec fn digits_value(s: Seq<char>) -> nat
    decreases s.len(),
{
    if s.len() == 0 {
        0
    } else {
        digits_value(s.drop_last()) * 10 + ((s.last() as u32 - '0' as u32) as nat)
    }
}

/// A count of whole seconds written as decimal digits, with anything after a
/// `.` ignored: none when the whole part is empty, holds another character
/// or does not fit in a `u64`.
pub open spec fn spec_parse_whole_seconds(s: Seq<char>) -> Option<u64> {
    let w = whole_part(s);
    if w.len() > 0 && (forall|i: int| 0 <= i < w.len() ==> is_ascii_digit(#[trigger] w[i])) && digits_value(w)
        <= u64::MAX {
        Some(digits_value(w) as u64)
    } else {
        None
    }
}

/// Read a count of whole seconds such as `213` or `213.0` (see
/// `spec_parse_whole_seconds`).
pub fn parse_whole_seconds(text: &str) -> (r: Option<u64>)
    ensures
        r == spec_parse_whole_seconds(text@),
{
    let mut value: u64 = 0;
    let mut any = false;
    let mut ok = true;
    let mut stopped = false;
    let ghost mut seen: Seq<char> = Seq::empty();
    for c in it: text.chars()
        invariant
            it.seq() == text@,
            seen == text@.take(it.index() as int),
            stopped == seen.contains('.'),
            any == (whole_part(seen).len() > 0),
            ok == ((forall|i: int| 0 <= i < whole_part(seen).len() ==> is_ascii_digit(#[trigger] whole_part(seen)[i]))
                && digits_value(whole_part(seen)) <= u64::MAX),
            ok ==> value == digits_value(whole_part(seen)),
    {
        let ghost before = seen;
        proof {
            assert(text@.take(it.index() + 1).drop_last() =~= before);
            seen = text@.take(it.index() + 1);
            assert(seen.last() == c);
            assert(seen.contains('.') == (before.contains('.') || c == '.')) by {
                if c == '.' {
                    assert(seen[seen.len() - 1] == '.');
                }
                if before.contains('.') {
                    let k = choose|k: int| 0 <= k < before.len() && before[k] == '.';
                    assert(seen[k] == '.');
                }
                if seen.contains('.') && c != '.' {
                    let k = choose|k: int| 0 <= k < seen.len() && seen[k] == '.';
                    assert(before[k] == '.');
                }
            }
        }
        if !stopped {
            if c == '.' {
                stopped = true;
            } else {
                let ghost w = whole_part(before);
                proof {
                    assert(whole_part(seen) == w.push(c));
                    assert(w.push(c).drop_last() =~= w);
                }
                any = true;
                if ok {
                    if '0' <= c && c <= '9' {
                        let d = (c as u32 - '0' as u32) as u64;
                        if value <= (u64::MAX - d) / 10 {
                            value = value * 10 + d;
                        } else {
                            ok = false;
                        }
                    } else {
                        ok = false;
                    }
                } else {
                    proof {
                        if digits_value(w) > u64::MAX {
                            assert(digits_value(w.push(c)) >= digits_value(w) * 10) by (nonlinear_arith)
                                requires
                                    digits_value(w.push(c)) == digits_value(w) * 10 + ((c as u32 - '0' as u32) as nat),
                            ;
                        } else {
                            let j = choose|j: int| 0 <= j < w.len() && !is_ascii_digit(w[j]);
                            assert(w.push(c)[j] == w[j]);
                        }
                    }
                }
            }
        }
    }
    proof {
        assert(seen =~= text@);
    }
    if ok && any {
        Some(value)
    } else {
        None
    }
}

} // verus!

use vstd::prelude::*;
use vstd::utf8::*;

use crate::text::{join_path, str_eq, string_from_utf8};

verus! {

broadcast use vstd::utf8::encode_utf8_decode_utf8, vstd::utf8::encode_utf8_valid_utf8;

/// Longest text field, in bytes, that the metadata format stores.
pub const MAX_TEXT_BYTES: usize = 1048576;

/// Length marker written in place of a length for an absent text field.
pub const ABSENT_TEXT: u32 = 0xffff_ffff;

/// FNV-1a 64-bit offset basis.
pub const FNV_OFFSET_BASIS: u64 = 0xcbf2_9ce4_8422_2325;

/// FNV-1a 64-bit prime.
pub const FNV_PRIME: u64 = 0x0000_0100_0000_01b3;

/// Why cached PCM data or its metadata was rejected.
#[derive(Debug, Clone, Copy, PartialEq, Eq, Structural)]
pub enum CacheError {
    /// A text field is longer than `MAX_TEXT_BYTES`.
    TextTooLarge,
    /// The data ends before a field is complete.
    Truncated,
    /// The data does not start with the format's magic bytes.
    UnsupportedFormat,
    /// A text field is not valid UTF-8.
    InvalidUtf8,
    /// The metadata holds no source URL.
    MissingUrl,
    /// A sample count does not fit the platform's sizes.
    SampleCountOverflow,
    /// The cached entry belongs to another URL.
    UrlMismatch,
    /// The cached entry was decoded at another sample rate.
    SampleRateMismatch,
    /// The cached entry has no audio channels.
    NoChannels,
    /// The cached entry has no sample rate.
    NoSampleRate,
    /// The cached entry's duration is not a positive, finite number of seconds.
    NoDuration,
}

/// The bit pattern of positive infinity as an `f32`: every positive finite
/// `f32` has a bit pattern that is nonzero and smaller.
pub const F32_POSITIVE_INFINITY_BITS: u32 = 0x7f80_0000;

// ------------------------------------------------------------------
// Little-endian integers
// ------------------------------------------------------------------

/// The two bytes of `v`, least significant first.
pub open spec fn le_u16(v: u16) -> Seq<u8> {
    seq![(v & 0xff) as u8, ((v >> 8u16) & 0xff) as u8]
}

/// The four bytes of `v`, least significant first.
pub open spec fn le_u32(v: u32) -> Seq<u8> {
    seq![(v & 0xff) as u8, ((v >> 8u32) & 0xff) as u8, ((v >> 16u32) & 0xff) as u8, ((v >> 24u32) & 0xff) as u8]
}

/// The eight bytes of `v`, least significant first.
pub open spec fn le_u64(v: u64) -> Seq<u8> {
    seq![
        (v & 0xff) as u8,
        ((v >> 8u64) & 0xff) as u8,
        ((v >> 16u64) & 0xff) as u8,
        ((v >> 24u64) & 0xff) as u8,
        ((v >> 32u64) & 0xff) as u8,
        ((v >> 40u64) & 0xff) as u8,
        ((v >> 48u64) & 0xff) as u8,
        ((v >> 56u64) & 0xff) as u8,
    ]
}

/// The `u16` stored least significant byte first at `pos`.
pub open spec fn read_le_u16(b: Seq<u8>, pos: int) -> u16 {
    (b[pos] as u16) | ((b[pos + 1] as u16) << 8u16)
}

/// The `u32` stored least significant byte first at `pos`.
pub open spec fn read_le_u32(b: Seq<u8>, pos: int) -> u32 {
    (b[pos] as u32) | ((b[pos + 1] as u32) << 8u32) | ((b[pos + 2] as u32) << 16u32) | ((b[pos + 3] as u32) << 24u32)
}

/// The `u64` stored least significant byte first at `pos`.
pub open spec fn read_le_u64(b: Seq<u8>, pos: int) -> u64 {
    (b[pos] as u64) | ((b[pos + 1] as u64) << 8u64) | ((b[pos + 2] as u64) << 16u64) | ((b[pos + 3] as u64) << 24u64)
        | ((b[pos + 4] as u64) << 32u64) | ((b[pos + 5] as u64) << 40u64) | ((b[pos + 6] as u64) << 48u64)
        | ((b[pos + 7] as u64) << 56u64)
}

proof fn lemma_le_u16_round_trip(v: u16)
    ensures
        read_le_u16(le_u16(v), 0) == v,
{
    let b = le_u16(v);
    assert(((v & 0xff) as u8 as u16) | ((((v >> 8u16) & 0xff) as u8 as u16) << 8u16) == v) by (bit_vector);
}

proof fn lemma_le_u32_round_trip(v: u32)
    ensures
        read_le_u32(le_u32(v), 0) == v,
{
    let b = le_u32(v);
    assert(((v & 0xff) as u8 as u32) | ((((v >> 8u32) & 0xff) as u8 as u32) << 8u32) | ((((v >> 16u32) & 0xff) as u8 as u32) << 16u32)
        | ((((v >> 24u32) & 0xff) as u8 as u32) << 24u32) == v) by (bit_vector);
}

proof fn lemma_le_u64_round_trip(v: u64)
    ensures
        read_le_u64(le_u64(v), 0) == v,
{
    let b = le_u64(v);
    assert(((v & 0xff) as u8 as u64) | ((((v >> 8u64) & 0xff) as u8 as u64) << 8u64) | ((((v >> 16u64) & 0xff) as u8 as u64) << 16u64)
        | ((((v >> 24u64) & 0xff) as u8 as u64) << 24u64) | ((((v >> 32u64) & 0xff) as u8 as u64) << 32u64)
        | ((((v >> 40u64) & 0xff) as u8 as u64) << 40u64) | ((((v >> 48u64) & 0xff) as u8 as u64) << 48u64)
        | ((((v >> 56u64) & 0xff) as u8 as u64) << 56u64) == v) by (bit_vector);
}

fn push_le_u16(out: &mut Vec<u8>, v: u16)
    ensures
        final(out)@ == old(out)@ + le_u16(v),
{
    out.push((v & 0xff) as u8);
    out.push(((v >> 8) & 0xff) as u8);
    assert(final(out)@ =~= old(out)@ + le_u16(v));
}

fn push_le_u32(out: &mut Vec<u8>, v: u32)
    ensures
        final(out)@ == old(out)@ + le_u32(v),
{
    out.push((v & 0xff) as u8);
    out.push(((v >> 8) & 0xff) as u8);
    out.push(((v >> 16) & 0xff) as u8);
    out.push(((v >> 24) & 0xff) as u8);
    assert(final(out)@ =~= old(out)@ + le_u32(v));
}

fn push_le_u64(out: &mut Vec<u8>, v: u64)
    ensures
        final(out)@ == old(out)@ + le_u64(v),
{
    out.push((v & 0xff) as u8);
    out.push(((v >> 8) & 0xff) as u8);
    out.push(((v >> 16) & 0xff) as u8);
    out.push(((v >> 24) & 0xff) as u8);
    out.push(((v >> 32) & 0xff) as u8);
    out.push(((v >> 40) & 0xff) as u8);
    out.push(((v >> 48) & 0xff) as u8);
    out.push(((v >> 56) & 0xff) as u8);
    assert(final(out)@ =~= old(out)@ + le_u64(v));
}

fn get_le_u16(b: &[u8], pos: usize) -> (r: u16)
    requires
        pos + 2 <= b@.len(),
    ensures
        r == read_le_u16(b@, pos as int),
{
    (b[pos] as u16) | ((b[pos + 1] as u16) << 8)
}

fn get_le_u32(b: &[u8], pos: usize) -> (r: u32)
    requires
        pos + 4 <= b@.len(),
    ensures
        r == read_le_u32(b@, pos as int),
{
    (b[pos] as u32) | ((b[pos + 1] as u32) << 8) | ((b[pos + 2] as u32) << 16) | ((b[pos + 3] as u32) << 24)
}

fn get_le_u64(b: &[u8], pos: usize) -> (r: u64)
    requires
        pos + 8 <= b@.len(),
    ensures
        r == read_le_u64(b@, pos as int),
{
    (b[pos] as u64) | ((b[pos + 1] as u64) << 8) | ((b[pos + 2] as u64) << 16) | ((b[pos + 3] as u64) << 24)
        | ((b[pos + 4] as u64) << 32) | ((b[pos + 5] as u64) << 40) | ((b[pos + 6] as u64) << 48) | ((b[pos + 7] as u64) << 56)
}

// ------------------------------------------------------------------
// Text fields
// ------------------------------------------------------------------

/// A text field fits the format when its UTF-8 encoding is at most `MAX_TEXT_BYTES` long.
pub open spec fn text_fits(value: Option<Seq<char>>) -> bool {
    match value {
        Some(s) => encode_utf8(s).len() <= MAX_TEXT_BYTES,
        None => true,
    }
}

/// A present text is its UTF-8 length as a little-endian `u32` followed by
/// its bytes; an absent text is the marker `ABSENT_TEXT` alone.
pub open spec fn encode_text(value: Option<Seq<char>>) -> Seq<u8> {
    match value {
        Some(s) => le_u32(encode_utf8(s).len() as u32) + encode_utf8(s),
        None => le_u32(ABSENT_TEXT),
    }
}

/// The text field starting at `pos`, and the position just after it.
pub open spec fn spec_decode_text(b: Seq<u8>, pos: int) -> Result<(Option<Seq<char>>, int), CacheError> {
    if pos + 4 > b.len() {
        Err(CacheError::Truncated)
    } else {
        let len = read_le_u32(b, pos);
        if len == ABSENT_TEXT {
            Ok((None, pos + 4))
        } else if len > MAX_TEXT_BYTES {
            Err(CacheError::TextTooLarge)
        } else if pos + 4 + len > b.len() {
            Err(CacheError::Truncated)
        } else if valid_utf8(b.subrange(pos + 4, pos + 4 + len)) {
            Ok((Some(decode_utf8(b.subrange(pos + 4, pos + 4 + len))), pos + 4 + len))
        } else {
            Err(CacheError::InvalidUtf8)
        }
    }
}

/// An optional string taken as characters.
pub open spec fn opt_string_view(s: Option<String>) -> Option<Seq<char>> {
    match s {
        Some(t) => Some(t@),
        None => None,
    }
}

/// An optional text slice taken as characters.
pub open spec fn opt_str_view(s: Option<&str>) -> Option<Seq<char>> {
    match s {
        Some(t) => Some(t@),
        None => None,
    }
}

/// Append a text field: its length as a little-endian `u32` and its bytes,
/// or the absent marker.  Refuses text longer than `MAX_TEXT_BYTES`.
pub fn write_string(out: &mut Vec<u8>, value: Option<&str>) -> (r: Result<(), CacheError>)
    ensures
        r is Ok <==> text_fits(opt_str_view(value)),
        r is Ok ==> final(out)@ == old(out)@ + encode_text(opt_str_view(value)),
        r is Err ==> r == Err::<(), CacheError>(CacheError::TextTooLarge) && final(out)@ == old(out)@,
{
    match value {
        Some(text) => {
            let bytes = text.as_bytes();
            if bytes.len() > MAX_TEXT_BYTES {
                return Err(CacheError::TextTooLarge);
            }
            let ghost start = out@;
            push_le_u32(out, bytes.len() as u32);
            let mut i: usize = 0;
            while i < bytes.len()
                invariant
                    i <= bytes@.len(),
                    out@ == start + le_u32(bytes@.len() as u32) + bytes@.take(i as int),
                decreases bytes@.len() - i,
            {
                out.push(bytes[i]);
                i = i + 1;
                assert(out@ =~= start + le_u32(bytes@.len() as u32) + bytes@.take(i as int));
            }
            assert(bytes@.take(bytes@.len() as int) =~= bytes@);
            Ok(())
        }
        None => {
            push_le_u32(out, ABSENT_TEXT);
            Ok(())
        }
    }
}

/// Read the text field starting at `pos`; returns the text and the position
/// just after the field.
pub fn read_string(b: &[u8], pos: usize) -> (r: Result<(Option<String>, usize), CacheError>)
    requires
        pos <= b@.len(),
    ensures
        match (r, spec_decode_text(b@, pos as int)) {
            (Ok((s, next)), Ok((t, n))) => opt_string_view(s) == t && next == n,
            (Err(e), Err(f)) => e == f,
            _ => false,
        },
{
    if b.len() - pos < 4 {
        return Err(CacheError::Truncated);
    }
    let len = get_le_u32(b, pos);
    if len == ABSENT_TEXT {
        return Ok((None, pos + 4));
    }
    let len = len as usize;
    if len > MAX_TEXT_BYTES {
        return Err(CacheError::TextTooLarge);
    }
    if b.len() - pos - 4 < len {
        return Err(CacheError::Truncated);
    }
    let start = pos + 4;
    let mut bytes: Vec<u8> = Vec::with_capacity(len);
    let mut i: usize = 0;
    while i < len
        invariant
            i <= len,
            start + len <= b@.len(),
            b@.len() == b.len(),
            bytes@ == b@.subrange(start as int, start + i),
        decreases len - i,
    {
        bytes.push(b[start + i]);
        i = i + 1;
        assert(bytes@ =~= b@.subrange(start as int, start + i));
    }
    match string_from_utf8(bytes) {
        Some(text) => Ok((Some(text), start + len)),
        None => Err(CacheError::InvalidUtf8),
    }
}

/// A text field decodes back to the text that was encoded, wherever it
/// stands in the data.
pub proof fn lemma_text_round_trip(prefix: Seq<u8>, value: Option<Seq<char>>, rest: Seq<u8>)
    requires
        text_fits(value),
    ensures
        spec_decode_text(prefix + encode_text(value) + rest, prefix.len() as int) == Ok::<(Option<Seq<char>>, int), CacheError>(
            (value, (prefix.len() + encode_text(value).len()) as int),
        ),
{
    let b = prefix + encode_text(value) + rest;
    let p = prefix.len() as int;
    match value {
        Some(s) => {
            let e = encode_utf8(s);
            let n = e.len() as u32;
            lemma_le_u32_round_trip(n);
            assert(b.subrange(p, p + 4) =~= le_u32(n));
            assert(read_le_u32(b, p) == read_le_u32(le_u32(n), 0));
            assert(b.subrange(p + 4, p + 4 + e.len()) =~= e);
        }
        None => {
            lemma_le_u32_round_trip(ABSENT_TEXT);
            assert(b.subrange(p, p + 4) =~= le_u32(ABSENT_TEXT));
            assert(read_le_u32(b, p) == read_le_u32(le_u32(ABSENT_TEXT), 0));
        }
    }
}

// ------------------------------------------------------------------
// Cached PCM metadata
// ------------------------------------------------------------------

/// The magic bytes "AUDPCM01" that open every metadata file.
pub open spec fn spec_magic() -> Seq<u8> {
    seq![0x41u8, 0x55u8, 0x44u8, 0x50u8, 0x43u8, 0x4du8, 0x30u8, 0x31u8]
}

fn magic() -> (r: Vec<u8>)
    ensures
        r@ == spec_magic(),
{
    let r: Vec<u8> = vec![0x41u8, 0x55u8, 0x44u8, 0x50u8, 0x43u8, 0x4du8, 0x30u8, 0x31u8];
    assert(r@ =~= spec_magic());
    r
}

/// Metadata stored beside a cached PCM stream.  The duration is kept as the
/// bit pattern of its `f32` value.
#[derive(Debug, Clone)]
pub struct CachedPcmMetadata {
    pub url: String,
    pub sample_rate: u32,
    pub channels: u16,
    pub duration_bits: u32,
    pub title: Option<String>,
    pub author: Option<String>,
    pub sample_count: usize,
}

/// The metadata with its text fields taken as character sequences.
pub struct CachedPcmMetadataView {
    pub url: Seq<char>,
    pub sample_rate: u32,
    pub channels: u16,
    pub duration_bits: u32,
    pub title: Option<Seq<char>>,
    pub author: Option<Seq<char>>,
    pub sample_count: usize,
}

impl View for CachedPcmMetadata {
    type V = CachedPcmMetadataView;

    open spec fn view(&self) -> CachedPcmMetadataView {
        CachedPcmMetadataView {
            url: self.url@,
            sample_rate: self.sample_rate,
            channels: self.channels,
            duration_bits: self.duration_bits,
            title: opt_string_view(self.title),
            author: opt_string_view(self.author),
            sample_count: self.sample_count,
        }
    }
}

/// Every text field of `m` fits the format.
pub open spec fn metadata_fits(m: CachedPcmMetadataView) -> bool {
    &&& text_fits(Some(m.url))
    &&& text_fits(m.title)
    &&& text_fits(m.author)
}

/// Number of bytes before the first text field: magic, sample rate, channel
/// count, duration and sample count.
pub open spec fn fixed_header_len() -> int {
    26
}

/// The metadata file: magic, sample rate, channel count, duration bits and
/// sample count (little-endian), then the URL, title and author text fields.
pub open spec fn spec_encode_metadata(m: CachedPcmMetadataView) -> Seq<u8> {
    spec_magic() + le_u32(m.sample_rate) + le_u16(m.channels) + le_u32(m.duration_bits) + le_u64(m.sample_count as u64)
        + encode_text(Some(m.url)) + encode_text(m.title) + encode_text(m.author)
}

/// What reading a metadata file gives back.
pub open spec fn spec_decode_metadata(b: Seq<u8>) -> Result<CachedPcmMetadataView, CacheError> {
    if b.len() < 8 {
        Err(CacheError::Truncated)
    } else if b.subrange(0, 8) != spec_magic() {
        Err(CacheError::UnsupportedFormat)
    } else if b.len() < fixed_header_len() {
        Err(CacheError::Truncated)
    } else if read_le_u64(b, 18) > usize::MAX {
        Err(CacheError::SampleCountOverflow)
    } else {
        match spec_decode_text(b, fixed_header_len()) {
            Err(e) => Err(e),
            Ok((None, _)) => Err(CacheError::MissingUrl),
            Ok((Some(url), p1)) => match spec_decode_text(b, p1) {
                Err(e) => Err(e),
                Ok((title, p2)) => match spec_decode_text(b, p2) {
                    Err(e) => Err(e),
                    Ok((author, _)) => Ok(
                        CachedPcmMetadataView {
                            url,
                            sample_rate: read_le_u32(b, 8),
                            channels: read_le_u16(b, 12),
                            duration_bits: read_le_u32(b, 14),
                            title,
                            author,
                            sample_count: read_le_u64(b, 18) as usize,
                        },
                    ),
                },
            },
        }
    }
}

/// Encode `metadata` in the metadata file format; fails when a text field is
/// longer than `MAX_TEXT_BYTES`.
pub fn write_metadata(metadata: &CachedPcmMetadata) -> (r: Result<Vec<u8>, CacheError>)
    ensures
        r is Ok <==> metadata_fits(metadata@),
        r matches Ok(bytes) ==> bytes@ == spec_encode_metadata(metadata@),
        r is Err ==> r == Err::<Vec<u8>, CacheError>(CacheError::TextTooLarge),
{
    let mut out = magic();
    push_le_u32(&mut out, metadata.sample_rate);
    push_le_u16(&mut out, metadata.channels);
    push_le_u32(&mut out, metadata.duration_bits);
    push_le_u64(&mut out, metadata.sample_count as u64);
    write_string(&mut out, Some(metadata.url.as_str()))?;
    let title = match &metadata.title {
        Some(t) => Some(t.as_str()),
        None => None,
    };
    write_string(&mut out, title)?;
    let author = match &metadata.author {
        Some(a) => Some(a.as_str()),
        None => None,
    };
    write_string(&mut out, author)?;
    Ok(out)
}

/// Decode a metadata file.
pub fn read_metadata(b: &[u8]) -> (r: Result<CachedPcmMetadata, CacheError>)
    ensures
        match (r, spec_decode_metadata(b@)) {
            (Ok(m), Ok(v)) => m@ == v,
            (Err(e), Err(f)) => e == f,
            _ => false,
        },
{
    if b.len() < 8 {
        return Err(CacheError::Truncated);
    }
    let expected = magic();
    let mut i: usize = 0;
    while i < 8
        invariant
            i <= 8,
            8 <= b@.len(),
            expected@ == spec_magic(),
            forall|j: int| 0 <= j < i ==> b@[j] == spec_magic()[j],
        decreases 8 - i,
    {
        if b[i] != expected[i] {
            proof {
                assert(b@.subrange(0, 8)[i as int] != spec_magic()[i as int]);
            }
            return Err(CacheError::UnsupportedFormat);
        }
        i = i + 1;
    }
    assert(b@.subrange(0, 8) =~= spec_magic());
    if b.len() < 26 {
        return Err(CacheError::Truncated);
    }
    let sample_rate = get_le_u32(b, 8);
    let channels = get_le_u16(b, 12);
    let duration_bits = get_le_u32(b, 14);
    let count = get_le_u64(b, 18);
    if count > usize::MAX as u64 {
        return Err(CacheError::SampleCountOverflow);
    }
    let sample_count = count as usize;
    let (url, p1) = read_string(b, 26)?;
    let url = match url {
        Some(u) => u,
        None => return Err(CacheError::MissingUrl),
    };
    let (title, p2) = read_string(b, p1)?;
    let (author, _) = read_string(b, p2)?;
    Ok(CachedPcmMetadata { url, sample_rate, channels, duration_bits, title, author, sample_count })
}

/// Reading back a written metadata file gives the metadata that was written.
#[verifier::rlimit(40)]
#[verifier::spinoff_prover]
pub proof fn lemma_metadata_round_trip(m: CachedPcmMetadataView)
    requires
        metadata_fits(m),
    ensures
        spec_decode_metadata(spec_encode_metadata(m)) == Ok::<CachedPcmMetadataView, CacheError>(m),
{
    let header = spec_magic() + le_u32(m.sample_rate) + le_u16(m.channels) + le_u32(m.duration_bits) + le_u64(m.sample_count as u64);
    let t_url = encode_text(Some(m.url));
    let t_title = encode_text(m.title);
    let t_author = encode_text(m.author);
    let b = spec_encode_metadata(m);
    assert(b =~= header + t_url + t_title + t_author);
    assert(header.len() == 26);
    assert(b.subrange(0, 8) =~= spec_magic());
    lemma_le_u32_round_trip(m.sample_rate);
    lemma_le_u16_round_trip(m.channels);
    lemma_le_u32_round_trip(m.duration_bits);
    lemma_le_u64_round_trip(m.sample_count as u64);
    assert(b.subrange(8, 12) =~= le_u32(m.sample_rate));
    assert(read_le_u32(b, 8) == read_le_u32(le_u32(m.sample_rate), 0));
    assert(b.subrange(12, 14) =~= le_u16(m.channels));
    assert(read_le_u16(b, 12) == read_le_u16(le_u16(m.channels), 0));
    assert(b.subrange(14, 18) =~= le_u32(m.duration_bits));
    assert(read_le_u32(b, 14) == read_le_u32(le_u32(m.duration_bits), 0));
    assert(b.subrange(18, 26) =~= le_u64(m.sample_count as u64));
    assert(read_le_u64(b, 18) == read_le_u64(le_u64(m.sample_count as u64), 0));
    lemma_text_round_trip(header, Some(m.url), t_title + t_author);
    assert(header + t_url + (t_title + t_author) =~= b);
    let p1 = header.len() + t_url.len();
    lemma_text_round_trip(header + t_url, m.title, t_author);
    assert(header + t_url + t_title + t_author =~= b);
    let p2 = p1 + t_title.len();
    lemma_text_round_trip(header + t_url + t_title, m.author, Seq::empty());
    assert(header + t_url + t_title + t_author + Seq::<u8>::empty() =~= b);
}

// ------------------------------------------------------------------
// Cache keys and file names
// ------------------------------------------------------------------

/// One FNV-1a step: mix in a byte, then multiply by the prime (wrapping).
pub open spec fn fnv1a_step(h: u64, byte: u8) -> u64 {
    (h ^ (byte as u64)).wrapping_mul(FNV_PRIME)
}

/// FNV-1a over `bytes`, starting from the hash state `h`.
pub open spec fn fnv1a_from(h: u64, bytes: Seq<u8>) -> u64
    decreases bytes.len(),
{
    if bytes.len() == 0 {
        h
    } else {
        fnv1a_from(fnv1a_step(h, bytes[0]), bytes.drop_first())
    }
}

/// The bytes a cache key hashes: the URL's UTF-8 bytes, a zero byte, and the
/// target sample rate (0 when none is given) as a little-endian `u32`.
pub open spec fn key_input(url: Seq<char>, target_sample_rate: Option<u32>) -> Seq<u8> {
    encode_utf8(url) + seq![0u8] + le_u32(
        match target_sample_rate {
            Some(rate) => rate,
            None => 0u32,
        },
    )
}

/// The lower-case hexadecimal digit for a value below 16.
pub open spec fn hex_digit(d: u64) -> char {
    if d < 10 {
        (48 + d) as char
    } else {
        (87 + d) as char
    }
}

/// `h` as 16 lower-case hexadecimal digits, most significant first.
pub open spec fn hex16(h: u64) -> Seq<char> {
    Seq::new(16, |i: int| hex_digit((h >> ((60 - 4 * i) as u64)) & 0xf))
}

/// The cache key of a URL at a target sample rate.
pub open spec fn spec_cache_key(url: Seq<char>, target_sample_rate: Option<u32>) -> Seq<char> {
    hex16(fnv1a_from(FNV_OFFSET_BASIS, key_input(url, target_sample_rate)))
}

fn hex_digit_str(d: u64) -> (r: &'static str)
    requires
        d < 16,
    ensures
        r@ == seq![hex_digit(d)],
{
    proof {
        reveal_strlit("0");
        reveal_strlit("1");
        reveal_strlit("2");
        reveal_strlit("3");
        reveal_strlit("4");
        reveal_strlit("5");
        reveal_strlit("6");
        reveal_strlit("7");
        reveal_strlit("8");
        reveal_strlit("9");
        reveal_strlit("a");
        reveal_strlit("b");
        reveal_strlit("c");
        reveal_strlit("d");
        reveal_strlit("e");
        reveal_strlit("f");
    }
    match d {
        0 => "0",
        1 => "1",
        2 => "2",
        3 => "3",
        4 => "4",
        5 => "5",
        6 => "6",
        7 => "7",
        8 => "8",
        9 => "9",
        10 => "a",
        11 => "b",
        12 => "c",
        13 => "d",
        14 => "e",
        _ => "f",
    }
}

fn fnv1a_absorb(h: u64, bytes: &[u8]) -> (r: u64)
    ensures
        r == fnv1a_from(h, bytes@),
{
    let mut hash = h;
    let mut i: usize = 0;
    assert(bytes@.skip(0) =~= bytes@);
    while i < bytes.len()
        invariant
            i <= bytes@.len(),
            fnv1a_from(hash, bytes@.skip(i as int)) == fnv1a_from(h, bytes@),
        decreases bytes@.len() - i,
    {
        proof {
            assert(bytes@.skip(i as int).drop_first() =~= bytes@.skip(i + 1));
        }
        hash = (hash ^ (bytes[i] as u64)).wrapping_mul(FNV_PRIME);
        i = i + 1;
    }
    proof {
        assert(bytes@.skip(i as int).len() == 0);
    }
    hash
}

proof fn lemma_fnv1a_concat(h: u64, a: Seq<u8>, b: Seq<u8>)
    ensures
        fnv1a_from(h, a + b) == fnv1a_from(fnv1a_from(h, a), b),
    decreases a.len(),
{
    if a.len() > 0 {
        assert((a + b).drop_first() =~= a.drop_first() + b);
        lemma_fnv1a_concat(fnv1a_step(h, a[0]), a.drop_first(), b);
    } else {
        assert(a + b =~= b);
    }
}

/// Directory that holds the cached PCM streams and their metadata.
#[derive(Debug, Clone)]
pub struct PcmCache {
    pub directory: String,
}

/// The four files of one cache entry.
#[derive(Debug, Clone)]
pub struct CachePaths {
    pub metadata: String,
    pub metadata_partial: String,
    pub samples: String,
    pub samples_partial: String,
}

fn file_name(key: &str, suffix: &str) -> (r: String)
    ensures
        r@ == key@ + suffix@,
{
    let mut name = String::from_str(key);
    name.append(suffix);
    name
}

impl PcmCache {
    /// The cache lives in the `pcm` directory inside the stream cache directory
    /// (stated for a directory that is no Windows verbatim path).
    pub fn new(stream_cache_directory: &str) -> (r: PcmCache)
        ensures
            crate::text::is_plain_base(stream_cache_directory@) ==> stream_cache_directory@.is_prefix_of(r.directory@)
                && "pcm"@.is_suffix_of(r.directory@),
    {
        proof {
            reveal_strlit("pcm");
            assert("pcm"@[0] != '.');
        }
        PcmCache { directory: join_path(stream_cache_directory, "pcm") }
    }

    /// Stable key for a URL and target sample rate: FNV-1a (64 bit) over the
    /// URL bytes, a zero byte and the rate, written as 16 hexadecimal digits.
    /// Unlike a per-process hasher it stays the same between runs.
    pub fn key(url: &str, target_sample_rate: Option<u32>) -> (r: String)
        ensures
            r@ == spec_cache_key(url@, target_sample_rate),
    {
        let rate: u32 = match target_sample_rate {
            Some(rate) => rate,
            None => 0,
        };
        let h1 = fnv1a_absorb(FNV_OFFSET_BASIS, url.as_bytes());
        let mut tail: Vec<u8> = Vec::with_capacity(5);
        tail.push(0u8);
        push_le_u32(&mut tail, rate);
        let hash = fnv1a_absorb(h1, tail.as_slice());
        proof {
            assert(tail@ =~= seq![0u8] + le_u32(rate));
            assert(key_input(url@, target_sample_rate) =~= encode_utf8(url@) + tail@);
            lemma_fnv1a_concat(FNV_OFFSET_BASIS, encode_utf8(url@), tail@);
        }
        let mut out = String::new();
        let mut i: u64 = 0;
        while i < 16
            invariant
                i <= 16,
                out@ == hex16(hash).take(i as int),
            decreases 16 - i,
        {
            let shift: u64 = 60 - 4 * i;
            let d = (hash >> shift) & 0xf;
            assert(d < 16) by {
                assert(((hash >> shift) & 0xf) < 16) by (bit_vector);
            }
            out.append(hex_digit_str(d));
            i = i + 1;
            assert(out@ =~= hex16(hash).take(i as int));
        }
        assert(hex16(hash).take(16) =~= hex16(hash));
        out
    }

    /// The metadata, sample and in-progress files of the entry `key` (their
    /// places stated for a cache directory that is no Windows verbatim path).
    pub fn paths(&self, key: &str) -> (r: CachePaths)
        ensures
            crate::text::is_plain_base(self.directory@) && crate::text::is_plain_component(key@ + ".meta"@) ==> self.directory@.is_prefix_of(r.metadata@) && (key@
                + ".meta"@).is_suffix_of(r.metadata@),
            crate::text::is_plain_base(self.directory@) && crate::text::is_plain_component(key@ + ".meta.part"@) ==> self.directory@.is_prefix_of(r.metadata_partial@) && (key@
                + ".meta.part"@).is_suffix_of(r.metadata_partial@),
            crate::text::is_plain_base(self.directory@) && crate::text::is_plain_component(key@ + ".f32"@) ==> self.directory@.is_prefix_of(r.samples@) && (key@
                + ".f32"@).is_suffix_of(r.samples@),
            crate::text::is_plain_base(self.directory@) && crate::text::is_plain_component(key@ + ".f32.part"@) ==> self.directory@.is_prefix_of(r.samples_partial@) && (key@
                + ".f32.part"@).is_suffix_of(r.samples_partial@),
    {
        proof {
            reveal_strlit(".meta");
            reveal_strlit(".meta.part");
            reveal_strlit(".f32");
            reveal_strlit(".f32.part");
        }
        let meta = file_name(key, ".meta");
        let meta_part = file_name(key, ".meta.part");
        let samples = file_name(key, ".f32");
        let samples_part = file_name(key, ".f32.part");
        CachePaths {
            metadata: join_path(self.directory.as_str(), meta.as_str()),
            metadata_partial: join_path(self.directory.as_str(), meta_part.as_str()),
            samples: join_path(self.directory.as_str(), samples.as_str()),
            samples_partial: join_path(self.directory.as_str(), samples_part.as_str()),
        }
    }

    /// Check cached metadata against the entry that was asked for, and give the
    /// length in bytes that its sample file must have (four bytes per sample).
    pub fn validate(metadata: &CachedPcmMetadata, expected_url: &str, target_sample_rate: Option<u32>) -> (r: Result<
        u64,
        CacheError,
    >)
        ensures
            r == spec_validate(metadata@, expected_url@, target_sample_rate),
    {
        if !str_eq(metadata.url.as_str(), expected_url) {
            return Err(CacheError::UrlMismatch);
        }
        if let Some(rate) = target_sample_rate {
            if metadata.sample_rate != rate {
                return Err(CacheError::SampleRateMismatch);
            }
        }
        if metadata.channels == 0 {
            return Err(CacheError::NoChannels);
        }
        if metadata.sample_rate == 0 {
            return Err(CacheError::NoSampleRate);
        }
        // The bit patterns of the positive, finite `f32` values are exactly
        // those from 1 up to that of positive infinity, exclusive.
        if !(0 < metadata.duration_bits && metadata.duration_bits < F32_POSITIVE_INFINITY_BITS) {
            return Err(CacheError::NoDuration);
        }
        match metadata.sample_count.checked_mul(4) {
            Some(bytes) => Ok(bytes as u64),
            None => Err(CacheError::SampleCountOverflow),
        }
    }
}

/// The checks made on cached metadata before its samples are used, in order,
/// and the sample file length they lead to.  The duration, kept as the bit
/// pattern of an `f32`, must be a positive finite number: a bit pattern from
/// 1 up to, not including, that of positive infinity.
pub open spec fn spec_validate(m: CachedPcmMetadataView, expected_url: Seq<char>, target_sample_rate: Option<u32>) -> Result<u64, CacheError> {
    if m.url != expected_url {
        Err(CacheError::UrlMismatch)
    } else if target_sample_rate matches Some(rate) && m.sample_rate != rate {
        Err(CacheError::SampleRateMismatch)
    } else if m.channels == 0 {
        Err(CacheError::NoChannels)
    } else if m.sample_rate == 0 {
        Err(CacheError::NoSampleRate)
    } else if !(0 < m.duration_bits < F32_POSITIVE_INFINITY_BITS) {
        Err(CacheError::NoDuration)
    } else if m.sample_count * 4 > usize::MAX {
        Err(CacheError::SampleCountOverflow)
    } else {
        Ok((m.sample_count * 4) as u64)
    }
}

/// A decoded stream is kept in the disk cache only when at least nine tenths
/// of the expected samples arrived (the expected count saturating at the
/// largest `usize`).
pub fn stream_complete_enough(decoded: usize, expected: usize) -> (r: bool)
    ensures
        r == (decoded >= (if expected * 9 > usize::MAX { usize::MAX as int } else { expected * 9 }) / 10),
{
    let scaled = if expected > usize::MAX / 9 {
        usize::MAX
    } else {
        expected * 9
    };
    decoded >= scaled / 10
}

} // verus!

use audido::cache::PcmCache;

#[test]
fn cache_key_changes_with_url_and_output_rate() {
    let url = "https://youtube.test/watch?v=one";
    assert_eq!(
        PcmCache::key(url, Some(48_000)),
        PcmCache::key(url, Some(48_000))
    );
    assert_ne!(
        PcmCache::key(url, Some(44_100)),
        PcmCache::key(url, Some(48_000))
    );
    assert_ne!(
        PcmCache::key(url, Some(48_000)),
        PcmCache::key("https://youtube.test/watch?v=two", Some(48_000))
    );
}

use audido::cache::{read_metadata, read_string, stream_complete_enough, write_metadata, write_string, CacheError, CachedPcmMetadata};

fn sample_metadata() -> CachedPcmMetadata {
    CachedPcmMetadata {
        url: "https://youtube.test/watch?v=cache-me".to_string(),
        sample_rate: 48_000,
        channels: 2,
        duration_bits: 1.0f32.to_bits(),
        title: Some("Cached title".to_string()),
        author: Some("Cached author".to_string()),
        sample_count: 4,
    }
}

#[test]
fn cache_key_is_fnv1a_in_hex() {
    assert_eq!(PcmCache::key("https://youtube.test/watch?v=one", Some(48_000)), "b8717e5f98f89cc4");
    assert_eq!(PcmCache::key("", None), "e4bc4fd9252be94f");
    assert_eq!(PcmCache::key("", None), PcmCache::key("", Some(0)));
}

#[test]
fn metadata_round_trips() {
    let metadata = sample_metadata();
    let bytes = write_metadata(&metadata).unwrap();
    assert_eq!(&bytes[..8], b"AUDPCM01");
    let loaded = read_metadata(&bytes).unwrap();
    assert_eq!(loaded.url, metadata.url);
    assert_eq!(loaded.sample_rate, 48_000);
    assert_eq!(loaded.channels, 2);
    assert_eq!(f32::from_bits(loaded.duration_bits), 1.0);
    assert_eq!(loaded.title.as_deref(), Some("Cached title"));
    assert_eq!(loaded.author.as_deref(), Some("Cached author"));
    assert_eq!(loaded.sample_count, 4);
}

#[test]
fn absent_fields_round_trip() {
    let mut metadata = sample_metadata();
    metadata.title = None;
    metadata.author = None;
    let loaded = read_metadata(&write_metadata(&metadata).unwrap()).unwrap();
    assert!(loaded.title.is_none());
    assert!(loaded.author.is_none());
}

#[test]
fn damaged_metadata_is_rejected() {
    let bytes = write_metadata(&sample_metadata()).unwrap();
    assert_eq!(read_metadata(&bytes[..5]).err(), Some(CacheError::Truncated));
    assert_eq!(read_metadata(&bytes[..20]).err(), Some(CacheError::Truncated));
    assert_eq!(read_metadata(&bytes[..bytes.len() - 1]).err(), Some(CacheError::Truncated));
    let mut wrong = bytes.clone();
    wrong[0] = b'X';
    assert_eq!(read_metadata(&wrong).err(), Some(CacheError::UnsupportedFormat));
    let mut no_url = bytes[..26].to_vec();
    no_url.extend_from_slice(&u32::MAX.to_le_bytes());
    assert_eq!(read_metadata(&no_url).err(), Some(CacheError::MissingUrl));
    let mut bad_text = bytes[..26].to_vec();
    bad_text.extend_from_slice(&2u32.to_le_bytes());
    bad_text.extend_from_slice(&[0xff, 0xfe]);
    assert_eq!(read_metadata(&bad_text).err(), Some(CacheError::InvalidUtf8));
    let mut huge = bytes[..26].to_vec();
    huge.extend_from_slice(&(2u32 << 20).to_le_bytes());
    assert_eq!(read_metadata(&huge).err(), Some(CacheError::TextTooLarge));
}

#[test]
fn text_fields_are_length_prefixed() {
    let mut out = Vec::new();
    write_string(&mut out, Some("hé")).unwrap();
    assert_eq!(out, vec![3, 0, 0, 0, b'h', 0xc3, 0xa9]);
    write_string(&mut out, None).unwrap();
    assert_eq!(&out[7..], &[0xff, 0xff, 0xff, 0xff]);
    let (first, next) = read_string(&out, 0).unwrap();
    assert_eq!(first.as_deref(), Some("hé"));
    assert_eq!(next, 7);
    let (second, end) = read_string(&out, next).unwrap();
    assert!(second.is_none());
    assert_eq!(end, 11);
    let long = "x".repeat((1 << 20) + 1);
    assert_eq!(write_string(&mut Vec::new(), Some(&long)).err(), Some(CacheError::TextTooLarge));
}

#[test]
fn validation_checks_url_rate_and_layout() {
    let metadata = sample_metadata();
    let url = metadata.url.clone();
    assert_eq!(PcmCache::validate(&metadata, &url, Some(48_000)), Ok(16));
    assert_eq!(PcmCache::validate(&metadata, &url, None), Ok(16));
    assert_eq!(PcmCache::validate(&metadata, "https://other", None), Err(CacheError::UrlMismatch));
    assert_eq!(PcmCache::validate(&metadata, &url, Some(44_100)), Err(CacheError::SampleRateMismatch));
    let mut silent = sample_metadata();
    silent.channels = 0;
    assert_eq!(PcmCache::validate(&silent, &url, None), Err(CacheError::NoChannels));
    let mut no_rate = sample_metadata();
    no_rate.sample_rate = 0;
    assert_eq!(PcmCache::validate(&no_rate, &url, None), Err(CacheError::NoSampleRate));
    let mut huge = sample_metadata();
    huge.sample_count = usize::MAX;
    assert_eq!(PcmCache::validate(&huge, &url, None), Err(CacheError::SampleCountOverflow));
    for bad in [0.0f32, -0.0, -1.0, f32::INFINITY, f32::NAN] {
        let mut timeless = sample_metadata();
        timeless.duration_bits = bad.to_bits();
        assert_eq!(PcmCache::validate(&timeless, &url, None), Err(CacheError::NoDuration));
    }
    let mut tiny = sample_metadata();
    tiny.duration_bits = f32::MIN_POSITIVE.to_bits();
    assert_eq!(PcmCache::validate(&tiny, &url, None), Ok(16));
}

#[test]
fn cache_paths_live_in_pcm_directory() {
    let cache = PcmCache::new("cache");
    assert_ne!(cache.directory, "cache");
    assert!(cache.directory.starts_with("cache"));
    assert!(cache.directory.ends_with("pcm"));
    let paths = cache.paths("abc");
    assert!(paths.metadata.starts_with(&cache.directory));
    assert!(paths.metadata.ends_with("abc.meta"));
    assert!(paths.metadata_partial.ends_with("abc.meta.part"));
    assert!(paths.samples.ends_with("abc.f32"));
    assert!(paths.samples_partial.ends_with("abc.f32.part"));
}

#[test]
fn nine_tenths_of_a_stream_is_enough() {
    assert!(stream_complete_enough(90, 100));
    assert!(!stream_complete_enough(89, 100));
    assert!(stream_complete_enough(0, 0));
    assert!(!stream_complete_enough(0, 2));
}

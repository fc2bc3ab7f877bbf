use audido::source::{seek_target_sample, AudioSource, ChannelLayout, DspNode, PositionTracker};

#[test]
fn source_names() {
    let local = AudioSource::Local { path: "/music/album/track.flac".to_string() };
    assert_eq!(local.get_path(), Some("track.flac".to_string()));
    let remote = AudioSource::Youtube { url: "https://youtube.test/watch?v=a".to_string() };
    assert_eq!(remote.get_path(), Some("https://youtube.test/watch?v=a".to_string()));
    assert_eq!(AudioSource::Local { path: "..".to_string() }.get_path(), None);
    assert_eq!(AudioSource::Local { path: "/music/song.mp3".to_string() }.get_path(), Some("song.mp3".to_string()));
    assert_eq!(AudioSource::Local { path: "/".to_string() }.get_path(), None);
}

#[test]
fn channel_layouts() {
    assert_eq!(ChannelLayout::from_channels(1), ChannelLayout::Mono);
    assert_eq!(ChannelLayout::from_channels(2), ChannelLayout::Stereo);
    assert_eq!(ChannelLayout::from_channels(6), ChannelLayout::Unsupported);
    assert_eq!(ChannelLayout::from_channels(0), ChannelLayout::Unsupported);
}

#[test]
fn seeks_land_on_buffered_frame_boundaries() {
    assert_eq!(seek_target_sample(100, 2, 1_000, 1_000), 200);
    assert_eq!(seek_target_sample(900, 2, 1_000, 1_000), 1_000);
    assert_eq!(seek_target_sample(100, 2, 1_000, 151), 150);
    assert_eq!(seek_target_sample(100, 2, 999, 999), 200);
    assert_eq!(seek_target_sample(700, 2, 999, 999), 998);
    assert_eq!(seek_target_sample(usize::MAX, 3, 10, 10), 9);
    assert_eq!(seek_target_sample(5, 0, 10, 10), 0);
}

#[test]
fn dsp_nodes_start_as_asked() {
    let node = DspNode::new(7u8);
    assert!(!node.on);
    assert_eq!(node.instance, 7);
    let on = DspNode::new_with_state("eq", true);
    assert!(on.on);
    assert_eq!(on.instance, "eq");
}

use audido::source::{next_feed_step, FeedStep};

#[test]
fn feed_plays_chunks_of_whole_frames() {
    assert_eq!(next_feed_step(0, 10_000, 2, true, false), FeedStep::Play { start: 0, len: 512 });
    assert_eq!(next_feed_step(9_900, 10_000, 2, true, false), FeedStep::Play { start: 9_900, len: 100 });
    assert_eq!(next_feed_step(10_000, 10_000, 2, true, false), FeedStep::EndOfTrack);
    assert_eq!(next_feed_step(100, 105, 2, false, false), FeedStep::Play { start: 100, len: 4 });
    assert_eq!(next_feed_step(100, 101, 2, false, false), FeedStep::Wait);
    assert_eq!(next_feed_step(100, 101, 2, false, true), FeedStep::StreamExhausted);
    assert_eq!(next_feed_step(0, 3_000, 3, false, false), FeedStep::Play { start: 0, len: 512 });
    assert_eq!(next_feed_step(200, 100, 2, false, false), FeedStep::Wait);
    assert_eq!(next_feed_step(0, 7, 0, false, false), FeedStep::Play { start: 0, len: 7 });
}

#[test]
fn position_tracker_starts_at_zero_and_clamps_seeks() {
    let tracker = PositionTracker::new(44_100 * 2 * 10, 44_100, 2);
    assert_eq!(tracker.position_frames(), 0);
    assert_eq!(tracker.duration_frames(), 441_000);
    assert_eq!(tracker.sample_rate(), 44_100);
    assert_eq!(tracker.seek_to_frame(44_100), 88_200);
    assert_eq!(tracker.position_frames(), 44_100);
    let shared = tracker.clone();
    assert_eq!(shared.position_frames(), 44_100);
    assert_eq!(tracker.seek_to_frame(10_000_000), 882_000);
    assert_eq!(shared.position_frames(), 441_000);
    shared.reset();
    assert_eq!(tracker.position_frames(), 0);
    assert_eq!(tracker.seek_to_frame(usize::MAX), 882_000);
}

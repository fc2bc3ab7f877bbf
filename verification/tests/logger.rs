use std::collections::VecDeque;

use audido::key_detection::{analysis_frames, key_for, pitch_class, KeyDetectionError, MusicalSongKey, HOP_SIZE, WINDOW_SIZE};
use audido::layout::{dialog_area, modal_area, Area, DialogProperties};
use audido::logger::{push_log_record, LogLevel, LogRecord, LOG_BUFFER_CAPACITY};
use audido::source::ChannelLayout;

fn record(i: usize) -> LogRecord {
    LogRecord { level: LogLevel::Info, message: format!("line {i}"), timestamp: "12:00:00".to_string() }
}

#[test]
fn log_keeps_the_newest_thousand_lines() {
    let mut buffer = VecDeque::new();
    for i in 0..LOG_BUFFER_CAPACITY {
        push_log_record(&mut buffer, record(i));
    }
    assert_eq!(buffer.len(), 1000);
    assert_eq!(buffer.front().unwrap().message, "line 0");
    push_log_record(&mut buffer, record(1000));
    assert_eq!(buffer.len(), 1000);
    assert_eq!(buffer.front().unwrap().message, "line 1");
    assert_eq!(buffer.back().unwrap().message, "line 1000");
    assert_eq!(buffer.back().unwrap().level, LogLevel::Info);
}

#[test]
fn dialog_is_centred() {
    let area = Area { x: 0, y: 0, width: 100, height: 30 };
    let props = DialogProperties { title: "song.mp3", options: vec!["Play Now", "Add to Queue"], selected_index: 0 };
    let dialog = dialog_area(area, props.options.len());
    assert_eq!(dialog, Area { x: 30, y: 12, width: 40, height: 6 });
    let small = dialog_area(Area { x: 5, y: 2, width: 20, height: 3 }, 2);
    assert_eq!(small, Area { x: 5, y: 2, width: 40, height: 6 });
    assert_eq!(props.title, "song.mp3");
    assert_eq!(props.selected_index, 0);
}

#[test]
fn modal_is_centred_and_capped() {
    assert_eq!(modal_area(Area { x: 0, y: 0, width: 200, height: 60 }), Area { x: 70, y: 20, width: 60, height: 20 });
    assert_eq!(modal_area(Area { x: 2, y: 1, width: 50, height: 20 }), Area { x: 12, y: 6, width: 30, height: 10 });
    assert_eq!(modal_area(Area { x: 0, y: 0, width: 10, height: 5 }), Area { x: 5, y: 2, width: 0, height: 0 });
}

#[test]
fn key_detection_windows_and_errors() {
    assert_eq!(HOP_SIZE, WINDOW_SIZE / 4);
    assert_eq!(analysis_frames(WINDOW_SIZE, ChannelLayout::Mono).ok(), Some(1));
    assert_eq!(analysis_frames(WINDOW_SIZE + HOP_SIZE, ChannelLayout::Mono).ok(), Some(2));
    assert_eq!(analysis_frames(2 * (WINDOW_SIZE + 2 * HOP_SIZE), ChannelLayout::Stereo).ok(), Some(3));
    assert!(matches!(analysis_frames(5, ChannelLayout::Stereo), Err(KeyDetectionError::InvalidBufferLength)));
    match analysis_frames(100, ChannelLayout::Mono) {
        Err(e) => assert_eq!(e.message(), "error when doing the DSP: Buffer too short for analysis"),
        Ok(_) => panic!("too short"),
    }
    match analysis_frames(100_000, ChannelLayout::Unsupported) {
        Err(e) => assert_eq!(e.message(), "error when doing the DSP: Unsupported channel layout"),
        Ok(_) => panic!("unsupported"),
    }
    assert_eq!(KeyDetectionError::EmptyBuffer.message(), "empty buffer");
    assert_eq!(KeyDetectionError::InvalidSampleRate.message(), "sample rate must be positive");
    assert_eq!(KeyDetectionError::InvalidBufferLength.message(), "buffer length incompatible with channel layout");
}

#[test]
fn keys_follow_the_chromatic_scale_from_c() {
    assert_eq!(key_for(0, false), MusicalSongKey::CMaj);
    assert_eq!(key_for(1, false), MusicalSongKey::CSharpMaj);
    assert_eq!(key_for(9, true), MusicalSongKey::AMin);
    assert_eq!(key_for(11, true), MusicalSongKey::BMin);
    assert_eq!(key_for(6, false), MusicalSongKey::FSharpMaj);
}

#[test]
fn pitch_classes_wrap_below_and_above_the_octave() {
    assert_eq!(pitch_class(69), 9);
    assert_eq!(pitch_class(60), 0);
    assert_eq!(pitch_class(-1), 11);
    assert_eq!(pitch_class(-12), 0);
    assert_eq!(pitch_class(131), 11);
}

use vstd::prelude::*;

use crate::source::ChannelLayout;

verus! {

/// Samples in one analysis window of the key detector.
pub const WINDOW_SIZE: usize = 4095;

/// Samples between the starts of two analysis windows.
pub const HOP_SIZE: usize = 1023;

/// Why the song key could not be detected.
#[derive(Debug, Clone)]
pub enum KeyDetectionError {
    DSPError(String),
    EmptyBuffer,
    InvalidSampleRate,
    InvalidBufferLength,
}

impl KeyDetectionError {
    /// The message shown for the error.
    pub fn message(&self) -> (r: String)
        ensures
            r@ == match *self {
                KeyDetectionError::DSPError(detail) => "error when doing the DSP: "@ + detail@,
                KeyDetectionError::EmptyBuffer => "empty buffer"@,
                KeyDetectionError::InvalidSampleRate => "sample rate must be positive"@,
                KeyDetectionError::InvalidBufferLength => "buffer length incompatible with channel layout"@,
            },
    {
        match self {
            KeyDetectionError::DSPError(detail) => {
                let mut text = String::from_str("error when doing the DSP: ");
                text.append(detail.as_str());
                text
            },
            KeyDetectionError::EmptyBuffer => String::from_str("empty buffer"),
            KeyDetectionError::InvalidSampleRate => String::from_str("sample rate must be positive"),
            KeyDetectionError::InvalidBufferLength => String::from_str(
                "buffer length incompatible with channel layout",
            ),
        }
    }
}

/// A musical key: a tonic of the chromatic scale, major or minor.
#[derive(Debug, Clone, Copy, PartialEq, Eq, Structural)]
pub enum MusicalSongKey {
    CMaj,
    CSharpMaj,
    DMaj,
    DSharpMaj,
    EMaj,
    FMaj,
    FSharpMaj,
    GMaj,
    GSharpMaj,
    AMaj,
    ASharpMaj,
    BMaj,
    CMin,
    CSharpMin,
    DMin,
    DSharpMin,
    EMin,
    FMin,
    FSharpMin,
    GMin,
    GSharpMin,
    AMin,
    ASharpMin,
    BMin,
}

/// The major key whose tonic lies `semitone` semitones above C (B major from 11 on).
pub open spec fn spec_major_key(semitone: usize) -> MusicalSongKey {
    match semitone {
        0 => MusicalSongKey::CMaj,
        1 => MusicalSongKey::CSharpMaj,
        2 => MusicalSongKey::DMaj,
        3 => MusicalSongKey::DSharpMaj,
        4 => MusicalSongKey::EMaj,
        5 => MusicalSongKey::FMaj,
        6 => MusicalSongKey::FSharpMaj,
        7 => MusicalSongKey::GMaj,
        8 => MusicalSongKey::GSharpMaj,
        9 => MusicalSongKey::AMaj,
        10 => MusicalSongKey::ASharpMaj,
        _ => MusicalSongKey::BMaj,
    }
}

/// The minor key whose tonic lies `semitone` semitones above C (B minor from 11 on).
pub open spec fn spec_minor_key(semitone: usize) -> MusicalSongKey {
    match semitone {
        0 => MusicalSongKey::CMin,
        1 => MusicalSongKey::CSharpMin,
        2 => MusicalSongKey::DMin,
        3 => MusicalSongKey::DSharpMin,
        4 => MusicalSongKey::EMin,
        5 => MusicalSongKey::FMin,
        6 => MusicalSongKey::FSharpMin,
        7 => MusicalSongKey::GMin,
        8 => MusicalSongKey::GSharpMin,
        9 => MusicalSongKey::AMin,
        10 => MusicalSongKey::ASharpMin,
        _ => MusicalSongKey::BMin,
    }
}

/// The key whose tonic lies `semitone` semitones above C, minor or major.
pub fn key_for(semitone: usize, minor: bool) -> (r: MusicalSongKey)
    requires
        semitone < 12,
    ensures
        r == (if minor {
            spec_minor_key(semitone)
        } else {
            spec_major_key(semitone)
        }),
{
    if minor {
        match semitone {
            0 => MusicalSongKey::CMin,
            1 => MusicalSongKey::CSharpMin,
            2 => MusicalSongKey::DMin,
            3 => MusicalSongKey::DSharpMin,
            4 => MusicalSongKey::EMin,
            5 => MusicalSongKey::FMin,
            6 => MusicalSongKey::FSharpMin,
            7 => MusicalSongKey::GMin,
            8 => MusicalSongKey::GSharpMin,
            9 => MusicalSongKey::AMin,
            10 => MusicalSongKey::ASharpMin,
            _ => MusicalSongKey::BMin,
        }
    } else {
        match semitone {
            0 => MusicalSongKey::CMaj,
            1 => MusicalSongKey::CSharpMaj,
            2 => MusicalSongKey::DMaj,
            3 => MusicalSongKey::DSharpMaj,
            4 => MusicalSongKey::EMaj,
            5 => MusicalSongKey::FMaj,
            6 => MusicalSongKey::FSharpMaj,
            7 => MusicalSongKey::GMaj,
            8 => MusicalSongKey::GSharpMaj,
            9 => MusicalSongKey::AMaj,
            10 => MusicalSongKey::ASharpMaj,
            _ => MusicalSongKey::BMaj,
        }
    }
}

/// The pitch class, 0 for C up to 11 for B, of the MIDI note `midi_note`.
pub fn pitch_class(midi_note: i32) -> (r: usize)
    ensures
        r < 12,
        r as int == (midi_note as int) % 12,
{
    let m = midi_note % 12;
    let r = if m < 0 {
        m + 12
    } else {
        m
    };
    r as usize
}

/// Channels of a layout the detector can mix down: one or two.
pub open spec fn layout_channels(layout: ChannelLayout) -> int {
    match layout {
        ChannelLayout::Mono => 1,
        ChannelLayout::Stereo => 2,
        ChannelLayout::Unsupported => 0,
    }
}

/// `r` is the DSP error with message `msg`.
pub open spec fn is_dsp_error<T>(r: Result<T, KeyDetectionError>, msg: Seq<char>) -> bool {
    match r {
        Err(KeyDetectionError::DSPError(m)) => m@ == msg,
        _ => false,
    }
}

/// How many analysis windows fit in `frames` frames.
pub open spec fn spec_window_count(frames: int) -> int {
    if frames >= WINDOW_SIZE {
        (frames - WINDOW_SIZE) / (HOP_SIZE as int) + 1
    } else {
        0
    }
}

/// The analysis windows of an interleaved buffer of `buffer_len` samples:
/// an unsupported layout, a length that is not a whole number of frames, or
/// a buffer shorter than one window is refused.
pub fn analysis_frames(buffer_len: usize, layout: ChannelLayout) -> (r: Result<usize, KeyDetectionError>)
    ensures
        layout == ChannelLayout::Unsupported ==> is_dsp_error(r, "Unsupported channel layout"@),
        layout != ChannelLayout::Unsupported && (buffer_len as int) % layout_channels(layout) != 0 ==> r matches Err(
            KeyDetectionError::InvalidBufferLength,
        ),
        layout != ChannelLayout::Unsupported && (buffer_len as int) % layout_channels(layout) == 0 ==> {
            let windows = spec_window_count((buffer_len as int) / layout_channels(layout));
            if windows == 0 {
                is_dsp_error(r, "Buffer too short for analysis"@)
            } else {
                r matches Ok(n) && n == windows
            }
        },
{
    let channels: usize = match layout {
        ChannelLayout::Mono => 1,
        ChannelLayout::Stereo => 2,
        ChannelLayout::Unsupported => {
            return Err(KeyDetectionError::DSPError(String::from_str("Unsupported channel layout")));
        },
    };
    if buffer_len % channels != 0 {
        return Err(KeyDetectionError::InvalidBufferLength);
    }
    let frames = buffer_len / channels;
    let windows = if frames >= WINDOW_SIZE {
        (frames - WINDOW_SIZE) / HOP_SIZE + 1
    } else {
        0
    };
    if windows == 0 {
        return Err(KeyDetectionError::DSPError(String::from_str("Buffer too short for analysis")));
    }
    Ok(windows)
}

} // verus!

use vstd::prelude::*;

use std::sync::atomic::AtomicUsize;
use std::sync::Arc;

use crate::cache::opt_string_view;
use crate::text::{is_plain_base, path_file_name, spec_file_name};

verus! {

/// Where a track comes from.
#[derive(Debug, Clone, PartialEq, Eq)]
pub enum AudioSource {
    Local { path: String },
    Youtube { url: String },
}

impl AudioSource {
    /// A short name for the source: the file name of a local path, or the
    /// URL of a YouTube video.
    pub fn get_path(&self) -> (r: Option<String>)
        ensures
            self matches AudioSource::Youtube { url } ==> r matches Some(s) && s@ == url@,
            self matches AudioSource::Local { path } ==> {
                &&& opt_string_view(r) == spec_file_name(path@)
                &&& is_plain_base(path@) && (path@ == ".."@ || "/.."@.is_suffix_of(path@)) ==> r is None
                &&& is_plain_base(path@) ==> (r matches Some(n) ==> n@.len() > 0 && !n@.contains('/'))
            },
    {
        match self {
            AudioSource::Local { path } => path_file_name(path.as_str()),
            AudioSource::Youtube { url } => Some(url.clone()),
        }
    }
}

/// Speaker layout, known from the channel count.
#[derive(Debug, Clone, Copy, PartialEq, Eq, Structural)]
pub enum ChannelLayout {
    Mono,
    Stereo,
    Unsupported,
}

impl ChannelLayout {
    /// One channel is mono, two are stereo, anything else is unsupported.
    pub fn from_channels(channels: u16) -> (r: ChannelLayout)
        ensures
            r == (if channels == 1 {
                ChannelLayout::Mono
            } else if channels == 2 {
                ChannelLayout::Stereo
            } else {
                ChannelLayout::Unsupported
            }),
    {
        match channels {
            1 => ChannelLayout::Mono,
            2 => ChannelLayout::Stereo,
            _ => ChannelLayout::Unsupported,
        }
    }
}

/// The play position of a track, shared between the audio feed and the
/// interface: a sample counter behind an atomic, beside the track's length in
/// interleaved samples, its sample rate and its channel count.
#[derive(Clone, Debug)]
pub struct PositionTracker {
    position: Arc<AtomicUsize>,
    total_samples: usize,
    sample_rate: u32,
    channels: u16,
}

/// Sample position of a seek to `frames` frames of `channels` samples,
/// clamped to the track length `total`.
pub open spec fn spec_clamped_frame_position(frames: int, channels: int, total: int) -> int {
    vstd::math::min(frames * channels, total)
}

impl PositionTracker {
    /// The track's length in interleaved samples.
    pub closed spec fn spec_total_samples(&self) -> usize {
        self.total_samples
    }

    /// The track's sample rate.
    pub closed spec fn spec_sample_rate(&self) -> u32 {
        self.sample_rate
    }

    /// The track's channel count.
    pub closed spec fn spec_channels(&self) -> u16 {
        self.channels
    }

    /// A tracker for a track of `total_samples` interleaved samples, at its
    /// start.
    pub fn new(total_samples: usize, sample_rate: u32, channels: u16) -> (r: Self)
        ensures
            r.spec_total_samples() == total_samples,
            r.spec_sample_rate() == sample_rate,
            r.spec_channels() == channels,
    {
        PositionTracker { position: Arc::new(AtomicUsize::new(0)), total_samples, sample_rate, channels }
    }

    fn load_position(&self) -> usize {
        self.position.load(std::sync::atomic::Ordering::Relaxed)
    }

    fn store_position(&self, value: usize) {
        self.position.store(value, std::sync::atomic::Ordering::Relaxed);
    }

    /// The track's sample rate.
    pub fn sample_rate(&self) -> (r: u32)
        ensures
            r == self.spec_sample_rate(),
    {
        self.sample_rate
    }

    /// The current position in whole frames: the sample counter divided by
    /// the channel count.
    pub fn position_frames(&self) -> usize
        requires
            self.spec_channels() > 0,
    {
        let position = self.load_position();
        position / (self.channels as usize)
    }

    /// The track's length in whole frames.
    pub fn duration_frames(&self) -> (r: usize)
        requires
            self.spec_channels() > 0,
        ensures
            r == self.spec_total_samples() / (self.spec_channels() as usize),
    {
        self.total_samples / (self.channels as usize)
    }

    /// Move the position to `frames` frames from the start, no further than
    /// the end of the track; returns the sample position stored.
    pub fn seek_to_frame(&self, frames: usize) -> (stored: usize)
        ensures
            stored == spec_clamped_frame_position(
                frames as int,
                self.spec_channels() as int,
                self.spec_total_samples() as int,
            ),
            stored <= self.spec_total_samples(),
    {
        let channels = self.channels as usize;
        let total = self.total_samples;
        let target = if channels == 0 {
            0
        } else if frames > total / channels {
            proof {
                vstd::arithmetic::div_mod::lemma_fundamental_div_mod(total as int, channels as int);
                vstd::arithmetic::div_mod::lemma_mod_bound(total as int, channels as int);
                vstd::arithmetic::mul::lemma_mul_inequality(
                    (total / channels + 1) as int,
                    frames as int,
                    channels as int,
                );
                assert(((total / channels + 1) as int) * (channels as int) == (total / channels) as int * (
                channels as int) + channels as int) by (nonlinear_arith);
            }
            total
        } else {
            proof {
                vstd::arithmetic::div_mod::lemma_fundamental_div_mod(total as int, channels as int);
                vstd::arithmetic::div_mod::lemma_mod_bound(total as int, channels as int);
                vstd::arithmetic::mul::lemma_mul_inequality(frames as int, (total / channels) as int, channels as int);
                vstd::arithmetic::mul::lemma_mul_is_commutative(channels as int, (total / channels) as int);
            }
            frames * channels
        };
        self.store_position(target);
        target
    }

    /// Move the position back to the start of the track.
    pub fn reset(&self) {
        self.store_position(0);
    }
}

/// Sample position of a seek: `requested_frames` frames of `channels`
/// interleaved samples, clamped to the track length `total` and to the
/// `buffered` samples available, then moved back to a frame boundary.
pub open spec fn spec_seek_target(requested_frames: int, channels: int, total: int, buffered: int) -> int {
    let requested = vstd::math::min(requested_frames * channels, total);
    let target = vstd::math::min(requested, buffered);
    if channels > 0 {
        target - target % channels
    } else {
        target
    }
}

/// Where a seek lands, in interleaved samples (see `spec_seek_target`).
pub fn seek_target_sample(requested_frames: usize, channels: usize, total: usize, buffered: usize) -> (r: usize)
    ensures
        r == spec_seek_target(requested_frames as int, channels as int, total as int, buffered as int),
        r <= total,
        r <= buffered,
        channels > 0 ==> r % channels == 0,
{
    let requested = if channels == 0 {
        0
    } else if requested_frames > total / channels {
        proof {
            vstd::arithmetic::div_mod::lemma_fundamental_div_mod(total as int, channels as int);
            vstd::arithmetic::mul::lemma_mul_inequality(
                (total / channels + 1) as int,
                requested_frames as int,
                channels as int,
            );
            assert(((total / channels + 1) as int) * (channels as int) == (total / channels) as int * (channels as int)
                + channels as int) by (nonlinear_arith);
        }
        total
    } else {
        proof {
            vstd::arithmetic::div_mod::lemma_fundamental_div_mod(total as int, channels as int);
            vstd::arithmetic::mul::lemma_mul_inequality(requested_frames as int, (total / channels) as int, channels as int);
            vstd::arithmetic::mul::lemma_mul_is_commutative(channels as int, (total / channels) as int);
            vstd::arithmetic::div_mod::lemma_mod_bound(total as int, channels as int);
            assert(requested_frames as int * channels as int <= total as int);
        }
        let samples = requested_frames * channels;
        if samples < total { samples } else { total }
    };
    let mut target = if requested < buffered { requested } else { buffered };
    if channels > 0 {
        proof {
            vstd::arithmetic::div_mod::lemma_mod_bound(target as int, channels as int);
            vstd::arithmetic::div_mod::lemma_fundamental_div_mod(target as int, channels as int);
            vstd::arithmetic::div_mod::lemma_mod_multiples_basic((target / channels) as int, channels as int);
            assert(target as int - target as int % channels as int == (channels as int) * ((target / channels) as int));
            vstd::arithmetic::mul::lemma_mul_is_commutative(channels as int, (target / channels) as int);
        }
        target = target - target % channels;
    }
    target
}

/// How many retained samples a read of up to `max_samples` samples starting
/// at `position` copies, when `available` samples are retained: none from
/// past the end, and never more than are retained.
pub fn retained_copy_len(position: usize, max_samples: usize, available: usize) -> (r: usize)
    ensures
        r == (if position >= available {
            0
        } else {
            vstd::math::min(crate::youtube::sat_add(position as int, max_samples as int), available as int)
                - position
        }),
        position + r <= available || r == 0,
{
    if position >= available {
        return 0;
    }
    let end = if max_samples > usize::MAX - position {
        usize::MAX
    } else {
        position + max_samples
    };
    let end = if end < available {
        end
    } else {
        available
    };
    end - position
}

/// What the audio feed does next with a track buffer.
#[derive(Debug, Clone, Copy, PartialEq, Eq, Structural)]
pub enum FeedStep {
    /// Process and play `len` samples starting at `start`.
    Play { start: usize, len: usize },
    /// The stream has not decoded past the cursor yet: try again shortly.
    Wait,
    /// The decoded track is fully played.
    EndOfTrack,
    /// The stream finished decoding and is fully played: move the cursor to
    /// the track's end.
    StreamExhausted,
}

/// The next step of the audio feed with its cursor at `position` and
/// `buffered` samples decoded.  A decoded track plays at most one chunk and
/// ends at its last sample.  A stream plays at most one chunk of whole
/// frames of `channels` samples; with none available it waits, or ends once
/// decoding is `complete`.
pub open spec fn spec_feed_step(position: usize, buffered: usize, channels: usize, in_memory: bool, complete: bool) -> FeedStep {
    if in_memory {
        if position >= buffered {
            FeedStep::EndOfTrack
        } else {
            FeedStep::Play {
                start: position,
                len: (vstd::math::min(position + crate::youtube::CHUNK_SIZE, buffered as int) - position) as usize,
            }
        }
    } else {
        let available = if buffered >= position {
            buffered - position
        } else {
            0
        };
        let whole = if channels > 0 {
            available / (channels as int) * channels
        } else {
            available
        };
        let len = if position >= buffered {
            0
        } else {
            vstd::math::min(vstd::math::min(crate::youtube::CHUNK_SIZE as int, whole), buffered - position)
        };
        if len > 0 {
            FeedStep::Play { start: position, len: len as usize }
        } else if complete {
            FeedStep::StreamExhausted
        } else {
            FeedStep::Wait
        }
    }
}

/// Decide the next step of the audio feed (see `spec_feed_step`).
pub fn next_feed_step(position: usize, buffered: usize, channels: usize, in_memory: bool, complete: bool) -> (r: FeedStep)
    ensures
        r == spec_feed_step(position, buffered, channels, in_memory, complete),
        r matches FeedStep::Play { start, len } ==> start == position && len > 0 && position + len <= buffered,
{
    let chunk = crate::youtube::CHUNK_SIZE;
    if in_memory {
        if position >= buffered {
            return FeedStep::EndOfTrack;
        }
        let end = if buffered - position > chunk {
            position + chunk
        } else {
            buffered
        };
        return FeedStep::Play { start: position, len: end - position };
    }
    let available = if buffered >= position {
        buffered - position
    } else {
        0
    };
    let whole = if channels > 0 {
        proof {
            vstd::arithmetic::div_mod::lemma_fundamental_div_mod(available as int, channels as int);
            vstd::arithmetic::div_mod::lemma_mod_bound(available as int, channels as int);
            vstd::arithmetic::mul::lemma_mul_is_commutative(channels as int, (available / channels) as int);
        }
        available / channels * channels
    } else {
        available
    };
    let wanted = if chunk < whole {
        chunk
    } else {
        whole
    };
    let len = retained_copy_len(position, wanted, buffered);
    if len > 0 {
        FeedStep::Play { start: position, len }
    } else if complete {
        FeedStep::StreamExhausted
    } else {
        FeedStep::Wait
    }
}

/// A processing stage that can be switched on and off.
pub struct DspNode<T> {
    pub on: bool,
    pub instance: T,
}

impl<T> DspNode<T> {
    /// A stage wrapping `instance`, switched off.
    pub fn new(instance: T) -> (r: Self)
        ensures
            !r.on,
            r.instance == instance,
    {
        DspNode { on: false, instance }
    }

    /// A stage wrapping `instance`, switched on or off as `on` says.
    pub fn new_with_state(instance: T, on: bool) -> (r: Self)
        ensures
            r.on == on,
            r.instance == instance,
    {
        DspNode { on, instance }
    }
}

} // verus!

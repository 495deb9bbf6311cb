//! Core of a voice-assistant audio pipeline: sample conversion, capture-side
//! feed decisions, a visualization aggregator, and a speech-recognition
//! coordinator with silence-based endpointing.
use vstd::prelude::*;

mod helpers;
pub mod cli;
pub mod config;
pub mod events;
pub mod gui;
pub mod intents;
pub mod recognition;
pub mod stream;
pub mod stt_sources;

pub use helpers::stereo_to_mono;

verus! {

/// Target sample rate of the transcription feed, in Hz.
pub const SAMPLE_RATE: u32 = 16000;

/// Tuning of the visualization aggregator. Replaceable at runtime through a
/// `SendConfig` event; every field is a positive integer. `volume` is an
/// amplitude scale in hundredths (a value of 320 scales by 3.2), and
/// `frequency_scale_start..frequency_scale_end` is a half-open interval.
#[derive(Clone, Copy, Debug, PartialEq, Eq, Structural)]
pub struct Config {
    pub buffering: usize,
    pub smoothing_size: usize,
    pub smoothing_amount: usize,
    pub resolution: usize,
    pub refresh_rate: usize,
    pub frequency_scale_start: usize,
    pub frequency_scale_end: usize,
    pub frequency_scale_amount: usize,
    pub density_reduction: usize,
    pub max_frequency: usize,
    pub volume: u32,
}

impl Config {
    /// Every tunable is positive and the frequency interval is ordered; the
    /// aggregator requires this of the configuration it runs under.
    pub open spec fn valid(self) -> bool {
        &&& self.buffering >= 1
        &&& self.smoothing_size >= 1
        &&& self.smoothing_amount >= 1
        &&& self.resolution >= 1
        &&& self.refresh_rate >= 1
        &&& self.frequency_scale_start < self.frequency_scale_end
        &&& self.frequency_scale_amount >= 1
        &&& self.density_reduction >= 1
        &&& self.max_frequency >= 1
        &&& self.volume >= 1
    }
}

/// The sample value of the idle placeholder frame shown while the pipeline
/// is still getting ready (about one percent of full scale).
pub const PLACEHOLDER_AMPLITUDE: i16 = 327;

/// What the capture callback does with one hardware frame, decided from the
/// two shared session flags.
#[derive(Clone, Copy, Debug, PartialEq, Eq, Structural)]
pub enum FeedPlan {
    /// Not ready yet: show a constant low-amplitude placeholder, feed no
    /// transcription.
    Placeholder,
    /// Ready, but a command is still being acted on: keep visualizing, but
    /// suppress the transcription feed.
    VisualiseOnly,
    /// Ready and idle: feed both the visualizer and the transcriber.
    VisualiseAndTranscribe,
}

/// The capture callback's branching rule over the shared flags.
pub open spec fn plan_of(is_ready: bool, is_processing: bool) -> FeedPlan {
    if !is_ready {
        FeedPlan::Placeholder
    } else if !is_processing {
        FeedPlan::VisualiseAndTranscribe
    } else {
        FeedPlan::VisualiseOnly
    }
}

/// Decides, once per hardware callback, where this frame's samples go.
pub fn plan_callback(is_ready: bool, is_processing: bool) -> (p: FeedPlan)
    ensures
        p == plan_of(is_ready, is_processing),
{
    if !is_ready {
        FeedPlan::Placeholder
    } else if !is_processing {
        FeedPlan::VisualiseAndTranscribe
    } else {
        FeedPlan::VisualiseOnly
    }
}

/// The constant placeholder frame sent to the visualizer while the pipeline
/// is not ready: the same length as the dropped hardware frame, every sample
/// at the low placeholder amplitude.
pub fn write_silence(len: usize) -> (out: Vec<i16>)
    ensures
        out@ == Seq::new(len as nat, |i: int| PLACEHOLDER_AMPLITUDE),
{
    let out: Vec<i16> = vec![PLACEHOLDER_AMPLITUDE; len];
    proof {
        assert(out@ =~= Seq::new(len as nat, |i: int| PLACEHOLDER_AMPLITUDE));
    }
    out
}

/// The transcription feed derived from a rate-adjusted frame: downmixed to
/// mono when the device is not already mono, otherwise taken as is.
pub open spec fn transcription_spec(adjusted: Seq<i16>, channel_count: u8) -> Seq<i16> {
    if channel_count != 1 {
        helpers::downmix(adjusted)
    } else {
        adjusted
    }
}

/// Builds the chunk handed to the recognition coordinator from a frame that
/// was already resampled to the target rate.
pub fn transcription_feed(adjusted: &Vec<i16>, channel_count: u8) -> (out: Vec<i16>)
    ensures
        out@ == transcription_spec(adjusted@, channel_count),
{
    if channel_count != 1 {
        helpers::stereo_to_mono(adjusted.as_slice())
    } else {
        let out = helpers::copy_range(adjusted, 0, adjusted.len());
        proof {
            assert(out@ =~= adjusted@);
        }
        out
    }
}

impl Default for Config {
    /// The stock configuration: a 3000-sample analysis window, five windows of
    /// smoothing history, sixty refreshes per second, and a 3.2x volume scale.
    fn default() -> (c: Config)
        ensures
            c == (Config {
                buffering: 5,
                smoothing_size: 10,
                smoothing_amount: 5,
                resolution: 3000,
                refresh_rate: 60,
                frequency_scale_start: 50,
                frequency_scale_end: 1000,
                frequency_scale_amount: 1,
                density_reduction: 5,
                max_frequency: 12500,
                volume: 320,
            }),
            c.valid(),
    {
        Config {
            buffering: 5,
            smoothing_size: 10,
            smoothing_amount: 5,
            resolution: 3000,
            refresh_rate: 60,
            frequency_scale_start: 50,
            frequency_scale_end: 1000,
            frequency_scale_amount: 1,
            density_reduction: 5,
            max_frequency: 12500,
            volume: 320,
        }
    }
}

} // verus!

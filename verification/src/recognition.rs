//! The recognition coordinator: the decision core of the background loop
//! that consumes transcription chunks, performs silence-based endpointing,
//! and drives the external decoder through a wake-word / command session.
//!
//! The loop around it performs the outside work (receiving chunks, calling
//! the decoder, sending events); every decision it takes is a verified
//! function here, from plain values to plain values.
use vstd::prelude::*;

use crate::events::{event_view, KaraEvents, KaraEventsModel};
use crate::stream::processing::{peak, peak_of_range};

verus! {

/// A chunk whose peak amplitude is below this is silence.
pub const SILENCE_THRESHOLD: u16 = 200;

/// Continuous silence longer than this ends the current utterance.
pub const SILENCE_TIMEOUT_MS: u32 = 1500;

/// Samples per millisecond of a 16 kHz transcription chunk.
pub const SAMPLES_PER_MS: usize = 16;

/// What the external decoder reports after accepting a waveform chunk.
#[derive(Clone, Copy, Debug, PartialEq, Eq, Structural)]
pub enum DecodingState {
    Running,
    Finalized,
    Failed,
}

/// What the coordinator decides to do with one transcription chunk.
#[derive(Clone, Copy, Debug, PartialEq, Eq, Structural)]
pub enum ChunkVerdict {
    /// The session is not ready, or a command is still being acted on:
    /// the chunk is dropped.
    Ignore,
    /// Feed the chunk to the decoder.
    Feed,
    /// Continuous silence exceeded the timeout: the utterance is over; feed
    /// the chunk, then finalize the decoder session.
    Endpoint,
}

/// The coordinator's session state: the three flags shared with the capture
/// callback and the external consumer, and the running silence clock.
#[derive(Clone, Copy, Debug, PartialEq, Eq, Structural)]
pub struct Coordinator {
    /// False while listening for the wake word, true while listening for a
    /// command.
    pub is_awake: bool,
    /// True from the moment a command transcript is emitted until the
    /// external consumer finished acting on it.
    pub is_processing: bool,
    /// False until the surrounding program finished loading its models;
    /// nothing is decoded before that.
    pub is_ready: bool,
    /// How long the current run of silence has lasted, in milliseconds;
    /// never exceeds `SILENCE_TIMEOUT_MS`.
    pub silence_ms: u32,
}

/// The duration of a 16 kHz chunk in whole milliseconds.
pub open spec fn chunk_millis(len: nat) -> nat {
    len / (SAMPLES_PER_MS as nat)
}

/// Whether the coordinator is allowed to do decoder work at all.
pub open spec fn listening(c: Coordinator) -> bool {
    c.is_ready && !c.is_processing
}

/// The decision taken on one chunk of `len` samples whose peak amplitude is
/// `pk`: ignored unless listening; silence advances the silence clock and
/// ends the utterance once the clock passes the timeout (which restarts the
/// clock, so a second endpoint needs another full run of silence); any
/// louder chunk restarts the clock.
pub open spec fn chunk_step(c: Coordinator, len: nat, pk: int) -> (Coordinator, ChunkVerdict) {
    if !listening(c) {
        (c, ChunkVerdict::Ignore)
    } else if pk < SILENCE_THRESHOLD {
        let run = c.silence_ms + chunk_millis(len);
        if run > SILENCE_TIMEOUT_MS {
            (Coordinator { silence_ms: 0, ..c }, ChunkVerdict::Endpoint)
        } else {
            (Coordinator { silence_ms: run as u32, ..c }, ChunkVerdict::Feed)
        }
    } else {
        (Coordinator { silence_ms: 0, ..c }, ChunkVerdict::Feed)
    }
}

/// The transition taken on one decoder report. `partial` and `final_text`
/// are the decoder's in-progress and final transcripts; the result is the
/// new state, the event to emit (if any), and whether the decoder session
/// must be reset.
pub open spec fn decode_step(
    c: Coordinator,
    outcome: DecodingState,
    partial: Seq<char>,
    final_text: Seq<char>,
) -> (Coordinator, Option<KaraEventsModel>, bool) {
    match outcome {
        DecodingState::Running => {
            if partial == "unknown"@ {
                // the decoder's sentinel for unrecognizable speech: start a
                // fresh session, no state transition
                (c, Option::None, true)
            } else if c.is_awake {
                (c, Option::Some(KaraEventsModel::SpeechFeed(partial)), false)
            } else {
                (c, Option::None, false)
            }
        },
        DecodingState::Finalized => {
            if c.is_awake {
                (
                    Coordinator { is_processing: true, silence_ms: 0, ..c },
                    Option::Some(KaraEventsModel::ProcessCommand(final_text)),
                    true,
                )
            } else {
                (
                    Coordinator { is_awake: true, silence_ms: 0, ..c },
                    Option::Some(KaraEventsModel::WakeWordDetected(true)),
                    true,
                )
            }
        },
        DecodingState::Failed => (Coordinator { silence_ms: 0, ..c }, Option::None, true),
    }
}

impl Coordinator {
    /// A fresh session: not ready, asleep, not processing, no silence run.
    pub fn new() -> (c: Coordinator)
        ensures
            c == (Coordinator {
                is_awake: false,
                is_processing: false,
                is_ready: false,
                silence_ms: 0,
            }),
    {
        Coordinator { is_awake: false, is_processing: false, is_ready: false, silence_ms: 0 }
    }

    /// Whether decoder work is allowed right now.
    pub fn should_listen(&self) -> (r: bool)
        ensures
            r == listening(*self),
    {
        self.is_ready && !self.is_processing
    }

    /// Decides what to do with one transcription chunk and advances the
    /// silence clock; exactly the `chunk_step` transition.
    pub fn on_chunk(&mut self, chunk: &Vec<i16>) -> (v: ChunkVerdict)
        ensures
            ({
                let (c2, verdict) = chunk_step(*old(self), chunk@.len(), peak(chunk@));
                &&& *final(self) == c2
                &&& v == verdict
                &&& (old(self).silence_ms <= SILENCE_TIMEOUT_MS ==> final(self).silence_ms
                    <= SILENCE_TIMEOUT_MS)
            }),
    {
        if !self.should_listen() {
            return ChunkVerdict::Ignore;
        }
        let pk = chunk_peak(chunk);
        if pk < SILENCE_THRESHOLD {
            let run: u64 = (self.silence_ms as u64) + ((chunk.len() / SAMPLES_PER_MS) as u64);
            if run > SILENCE_TIMEOUT_MS as u64 {
                self.silence_ms = 0;
                ChunkVerdict::Endpoint
            } else {
                self.silence_ms = run as u32;
                ChunkVerdict::Feed
            }
        } else {
            self.silence_ms = 0;
            ChunkVerdict::Feed
        }
    }

    /// Reacts to one decoder report; exactly the `decode_step` transition.
    /// The caller must only decode while `should_listen` holds.
    pub fn on_decode(&mut self, outcome: DecodingState, partial: String, final_text: String) -> (r:
        (Option<KaraEvents>, bool))
        requires
            listening(*old(self)),
        ensures
            ({
                let (c2, ev, reset) = decode_step(*old(self), outcome, partial@, final_text@);
                &&& *final(self) == c2
                &&& event_view(r.0) == ev
                &&& r.1 == reset
            }),
    {
        match outcome {
            DecodingState::Running => {
                let unknown: String = "unknown".to_owned();
                if partial == unknown {
                    (Option::None, true)
                } else if self.is_awake {
                    (Option::Some(KaraEvents::SpeechFeed(partial)), false)
                } else {
                    (Option::None, false)
                }
            },
            DecodingState::Finalized => {
                self.silence_ms = 0;
                if self.is_awake {
                    self.is_processing = true;
                    (Option::Some(KaraEvents::ProcessCommand(final_text)), true)
                } else {
                    self.is_awake = true;
                    (Option::Some(KaraEvents::WakeWordDetected(true)), true)
                }
            },
            DecodingState::Failed => {
                self.silence_ms = 0;
                (Option::None, true)
            },
        }
    }
}

/// Peak amplitude of a transcription chunk (the absolute value of its
/// loudest sample; 0 for an empty chunk).
pub fn chunk_peak(chunk: &Vec<i16>) -> (p: u16)
    ensures
        p as int == peak(chunk@),
{
    let p = peak_of_range(chunk, 0, chunk.len());
    proof {
        assert(chunk@.subrange(0, chunk@.len() as int) =~= chunk@);
    }
    p
}

/// Law (silence endpointing): while listening, a louder-than-threshold
/// chunk restarts the silence clock and never ends the utterance; a silent
/// chunk ends the utterance exactly when the accumulated run of silence
/// passes the timeout, and doing so restarts the clock — so one sustained
/// run of silence ends the utterance exactly once.
pub proof fn lemma_silence_endpoint(c: Coordinator, len: nat, pk: int)
    requires
        listening(c),
    ensures
        ({
            let (c2, v) = chunk_step(c, len, pk);
            &&& (v == ChunkVerdict::Endpoint <==> pk < SILENCE_THRESHOLD && c.silence_ms
                + chunk_millis(len) > SILENCE_TIMEOUT_MS)
            &&& (v == ChunkVerdict::Endpoint ==> c2.silence_ms == 0)
            &&& (pk >= SILENCE_THRESHOLD ==> v == ChunkVerdict::Feed && c2.silence_ms == 0)
            &&& (pk < SILENCE_THRESHOLD && c.silence_ms + chunk_millis(len)
                <= SILENCE_TIMEOUT_MS ==> v == ChunkVerdict::Feed && c2.silence_ms
                == c.silence_ms + chunk_millis(len))
        }),
{
}

/// Law (wake-word state machine): a finalized decode while asleep wakes the
/// session and does not emit a command; a finalized decode while awake
/// emits exactly one command and suspends consumption until the consumer
/// re-arms the session.
pub proof fn lemma_wake_then_command(
    c: Coordinator,
    p1: Seq<char>,
    f1: Seq<char>,
    p2: Seq<char>,
    f2: Seq<char>,
)
    requires
        listening(c),
        !c.is_awake,
    ensures
        ({
            let (c1, e1, r1) = decode_step(c, DecodingState::Finalized, p1, f1);
            let (c2, e2, r2) = decode_step(c1, DecodingState::Finalized, p2, f2);
            &&& c1.is_awake
            &&& !c1.is_processing
            &&& e1 == Option::Some(KaraEventsModel::WakeWordDetected(true))
            &&& !(e1 matches Option::Some(KaraEventsModel::ProcessCommand(_)))
            &&& e2 == Option::Some(KaraEventsModel::ProcessCommand(f2))
            &&& c2.is_processing
            &&& !listening(c2)
        }),
{
}

} // verus!

use kara::events::KaraEvents;
use kara::recognition::{chunk_peak, ChunkVerdict, Coordinator, DecodingState};

fn listening_coordinator() -> Coordinator {
    let mut c = Coordinator::new();
    c.is_ready = true;
    c
}

/// A 10 ms chunk (160 samples at 16 kHz) of the given constant amplitude.
fn chunk(amplitude: i16) -> Vec<i16> {
    vec![amplitude; 160]
}

#[test]
fn peak_is_the_largest_absolute_sample() {
    assert_eq!(chunk_peak(&vec![0, -5, 3]), 5);
    assert_eq!(chunk_peak(&Vec::new()), 0);
    assert_eq!(chunk_peak(&vec![i16::MIN, 100]), 32768);
    assert_eq!(chunk_peak(&vec![199]), 199);
}

#[test]
fn fresh_session_is_asleep_and_not_ready() {
    let c = Coordinator::new();
    assert!(!c.is_awake);
    assert!(!c.is_processing);
    assert!(!c.is_ready);
    assert_eq!(c.silence_ms, 0);
    assert!(!c.should_listen());
}

#[test]
fn chunks_are_ignored_until_ready_or_while_processing() {
    let mut c = Coordinator::new();
    assert_eq!(c.on_chunk(&chunk(50)), ChunkVerdict::Ignore);
    c.is_ready = true;
    c.is_processing = true;
    assert_eq!(c.on_chunk(&chunk(50)), ChunkVerdict::Ignore);
    c.is_processing = false;
    assert_eq!(c.on_chunk(&chunk(50)), ChunkVerdict::Feed);
}

#[test]
fn sustained_silence_ends_the_utterance_exactly_once() {
    let mut c = listening_coordinator();
    let mut endpoints: usize = 0;
    // 1.6 s of silence in 10 ms chunks of amplitude 50
    for _ in 0..160 {
        if c.on_chunk(&chunk(50)) == ChunkVerdict::Endpoint {
            endpoints += 1;
        }
    }
    assert_eq!(endpoints, 1);
}

#[test]
fn a_spike_above_threshold_resets_the_silence_timer() {
    let mut c = listening_coordinator();
    // 1.0 s of silence...
    for _ in 0..100 {
        assert_eq!(c.on_chunk(&chunk(50)), ChunkVerdict::Feed);
    }
    // ...then one loud chunk resets the clock
    assert_eq!(c.on_chunk(&chunk(1000)), ChunkVerdict::Feed);
    assert_eq!(c.silence_ms, 0);
    // a fresh 1.5 s of silence does not yet pass the timeout...
    for _ in 0..150 {
        assert_eq!(c.on_chunk(&chunk(50)), ChunkVerdict::Feed);
    }
    // ...and the next silent chunk ends the utterance
    assert_eq!(c.on_chunk(&chunk(50)), ChunkVerdict::Endpoint);
    assert_eq!(c.silence_ms, 0);
}

#[test]
fn amplitude_at_the_threshold_is_not_silence() {
    let mut c = listening_coordinator();
    for _ in 0..200 {
        assert_eq!(c.on_chunk(&chunk(200)), ChunkVerdict::Feed);
        assert_eq!(c.silence_ms, 0);
    }
}

#[test]
fn finalized_while_asleep_wakes_without_a_command() {
    let mut c = listening_coordinator();
    let (event, reset) = c.on_decode(
        DecodingState::Finalized,
        String::new(),
        String::from("hey kara"),
    );
    assert!(matches!(event, Some(KaraEvents::WakeWordDetected(true))));
    assert!(reset);
    assert!(c.is_awake);
    assert!(!c.is_processing);
}

#[test]
fn finalized_while_awake_emits_one_command_and_halts_consumption() {
    let mut c = listening_coordinator();
    c.on_decode(DecodingState::Finalized, String::new(), String::from("hey kara"));
    let (event, reset) = c.on_decode(
        DecodingState::Finalized,
        String::new(),
        String::from("turn on the lights"),
    );
    match event {
        Some(KaraEvents::ProcessCommand(text)) => assert_eq!(text, "turn on the lights"),
        _ => panic!("expected a process-command event"),
    }
    assert!(reset);
    assert!(c.is_processing);
    assert!(!c.should_listen());
}

#[test]
fn running_partials_feed_speech_only_while_awake() {
    let mut c = listening_coordinator();
    let (event, reset) = c.on_decode(DecodingState::Running, String::from("hey"), String::new());
    assert!(event.is_none());
    assert!(!reset);

    c.is_awake = true;
    let (event, reset) = c.on_decode(DecodingState::Running, String::from("turn"), String::new());
    match event {
        Some(KaraEvents::SpeechFeed(text)) => assert_eq!(text, "turn"),
        _ => panic!("expected a speech-feed event"),
    }
    assert!(!reset);
}

#[test]
fn unknown_partial_resets_the_decoder_without_a_transition() {
    let mut c = listening_coordinator();
    c.is_awake = true;
    let before = c;
    let (event, reset) = c.on_decode(
        DecodingState::Running,
        String::from("unknown"),
        String::new(),
    );
    assert!(event.is_none());
    assert!(reset);
    assert_eq!(c, before);
}

#[test]
fn failed_decode_resets_the_session_without_escalating() {
    let mut c = listening_coordinator();
    c.is_awake = true;
    c.silence_ms = 900;
    let (event, reset) = c.on_decode(DecodingState::Failed, String::new(), String::new());
    assert!(event.is_none());
    assert!(reset);
    assert!(c.is_awake);
    assert!(!c.is_processing);
    assert_eq!(c.silence_ms, 0);
}

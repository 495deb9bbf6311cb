//! Events the recognition coordinator emits toward the external consumer
//! (the GUI / command layer).
use vstd::prelude::*;

verus! {

/// An outbound event of the recognition coordinator.
#[derive(Debug, Clone)]
pub enum KaraEvents {
    /// The wake word was confirmed (or the consumer toggled wakefulness).
    WakeWordDetected(bool),
    /// An in-progress partial transcript while a command is being spoken.
    SpeechFeed(String),
    /// A finished command transcript, ready for intent handling.
    ProcessCommand(String),
}

/// The abstract form of an outbound event.
pub enum KaraEventsModel {
    WakeWordDetected(bool),
    SpeechFeed(Seq<char>),
    ProcessCommand(Seq<char>),
}

impl View for KaraEvents {
    type V = KaraEventsModel;

    open spec fn view(&self) -> KaraEventsModel {
        match self {
            KaraEvents::WakeWordDetected(b) => KaraEventsModel::WakeWordDetected(*b),
            KaraEvents::SpeechFeed(s) => KaraEventsModel::SpeechFeed(s@),
            KaraEvents::ProcessCommand(s) => KaraEventsModel::ProcessCommand(s@),
        }
    }
}

/// The abstract form of an optional outbound event.
pub open spec fn event_view(e: Option<KaraEvents>) -> Option<KaraEventsModel> {
    match e {
        Option::None => Option::None,
        Option::Some(x) => Option::Some(x@),
    }
}

} // verus!

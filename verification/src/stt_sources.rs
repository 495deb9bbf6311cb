//! Selection of the speech-to-text backend. Only the local (Kara) backend
//! is implemented; the remote backends are named but explicitly refused
//! rather than silently panicking.
use vstd::prelude::*;

verus! {

/// The configured speech-to-text service: the local model (with the path it
/// is loaded from) or one of the unimplemented remote services.
#[derive(Debug, Clone, PartialEq, Eq)]
pub enum STTConfig {
    Kara(String),
    Gcp,
    Watson,
}

impl STTConfig {
    /// The local backend rooted at `path`.
    pub fn base(path: &str) -> (s: STTConfig)
        ensures
            s matches STTConfig::Kara(p) && p@ == path@,
    {
        STTConfig::Kara(path.to_owned())
    }
}

/// A selected speech-to-text source. The surrounding program loads the
/// decoder models for the local backend from the carried path; the value
/// here records which backend the session runs on.
#[derive(Debug, Clone, PartialEq, Eq)]
pub enum STTSource {
    Kara(String),
    Gcp,
    Watson,
}

/// Why a speech-to-text source could not be selected.
#[derive(Debug, Clone, Copy, PartialEq, Eq, Structural)]
pub enum SttError {
    /// The configured backend exists in name only.
    NotImplemented,
}

/// Selects the speech-to-text source for a configuration: the local backend
/// is selected with its model path; the remote backends are refused with
/// `NotImplemented`.
pub fn stt_source(source: &STTConfig) -> (r: Result<STTSource, SttError>)
    ensures
        ({
            match source {
                STTConfig::Kara(m) => r matches Result::Ok(STTSource::Kara(p)) && p@ == m@,
                STTConfig::Gcp => r == Result::<STTSource, SttError>::Err(SttError::NotImplemented),
                STTConfig::Watson => r == Result::<STTSource, SttError>::Err(
                    SttError::NotImplemented,
                ),
            }
        }),
{
    match source {
        STTConfig::Kara(model) => Result::Ok(STTSource::Kara(model.clone())),
        STTConfig::Gcp => Result::Err(SttError::NotImplemented),
        STTConfig::Watson => Result::Err(SttError::NotImplemented),
    }
}

} // verus!

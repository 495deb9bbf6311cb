//! The message the GUI layer's controls react to. The rendering itself is
//! the windowing framework's business and stays outside the library.
use vstd::prelude::*;

verus! {

/// A message for the on-screen controls.
#[derive(Debug, Clone)]
pub enum Message {
    /// Replace the displayed transcript text.
    TextChanged(String),
}

} // verus!

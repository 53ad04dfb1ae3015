//! Readiness orchestration for unattended video playback in a browser tab.
//!
//! The library holds the decision logic of the orchestration: a boolean
//! poll primitive, a consent-interstitial resolver, and the staged
//! readiness sequencer, each modelled as a state machine over plain
//! values. A thin driver outside the library performs the browser calls
//! (script evaluation, navigation, cookie injection, sleeping) and feeds
//! the observed outcomes back into these machines as events.

pub mod consent;
pub mod errors;
pub mod poll;
pub mod stages;
pub mod text;

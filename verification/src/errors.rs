//! The terminal failures of the readiness orchestration, and their
//! human-readable descriptions. Every timeout message embeds the
//! configured timeout; the playback failure also embeds the diagnostic
//! snapshot captured when it was decided.

use crate::text::{spec_decimal, u64_to_decimal};
use vstd::prelude::*;

verus! {

/// Why a `prepare` run failed. The timeout kinds carry the configured
/// timeout in seconds; the playback kind also carries the diagnostic
/// snapshot read from the page when the timeout was decided.
#[derive(Debug, PartialEq, Eq)]
pub enum PrepareError {
    ConsentCookieInjectionFailed,
    ConsentRenavigationFailed,
    AdsTimedOut { timeout_secs: u64 },
    MediaElementTimedOut { timeout_secs: u64 },
    PlaybackTimedOut { timeout_secs: u64, snapshot: String },
}

impl PrepareError {
    /// The text of the failure's description.
    pub open spec fn message_spec(self) -> Seq<char> {
        match self {
            PrepareError::ConsentCookieInjectionFailed => "Failed to write consent cookies into the page"@,
            PrepareError::ConsentRenavigationFailed => "Failed to re-navigate after injecting consent cookies"@,
            PrepareError::AdsTimedOut { timeout_secs } => "Timed out waiting for YouTube ads to finish ("@
                + spec_decimal(timeout_secs as int) + "s)"@,
            PrepareError::MediaElementTimedOut { timeout_secs } => "Timed out after "@
                + spec_decimal(timeout_secs as int) + "s waiting for a <video> element"@,
            PrepareError::PlaybackTimedOut { timeout_secs, snapshot } => "Timed out after "@
                + spec_decimal(timeout_secs as int) + "s waiting for video to play. State: "@
                + snapshot@,
        }
    }

    /// Describe the failure, embedding the configured timeout and, for
    /// the playback stage, the diagnostic snapshot.
    pub fn message(&self) -> (m: String)
        ensures
            m@ == self.message_spec(),
    {
        match self {
            PrepareError::ConsentCookieInjectionFailed => String::from_str(
                "Failed to write consent cookies into the page",
            ),
            PrepareError::ConsentRenavigationFailed => String::from_str(
                "Failed to re-navigate after injecting consent cookies",
            ),
            PrepareError::AdsTimedOut { timeout_secs } => {
                let mut m = String::from_str("Timed out waiting for YouTube ads to finish (");
                let d = u64_to_decimal(*timeout_secs);
                m.append(d.as_str());
                m.append("s)");
                m
            },
            PrepareError::MediaElementTimedOut { timeout_secs } => {
                let mut m = String::from_str("Timed out after ");
                let d = u64_to_decimal(*timeout_secs);
                m.append(d.as_str());
                m.append("s waiting for a <video> element");
                m
            },
            PrepareError::PlaybackTimedOut { timeout_secs, snapshot } => {
                let mut m = String::from_str("Timed out after ");
                let d = u64_to_decimal(*timeout_secs);
                m.append(d.as_str());
                m.append("s waiting for video to play. State: ");
                m.append(snapshot.as_str());
                m
            },
        }
    }
}

} // verus!

//! The consent resolver: pre-seeded consent cookie records, and the
//! detect-and-reinject state machine that eliminates a consent
//! interstitial after navigation.
//!
//! The machine decides, from plain observations (the detection script's
//! boolean, the current URL, navigation and cookie-write outcomes), which
//! browser action comes next. The driver performs the actions and feeds
//! the outcomes back through [`consent_step`].

use crate::poll::{tick_matches, tick_meets_expectation, TickValue};
use crate::text::{spec_contains, str_contains};
use vstd::prelude::*;

verus! {

/// One cookie to inject through the browser's cookie-setting capability.
pub struct CookieRecord {
    pub name: String,
    pub value: String,
    pub url: String,
    pub domain: String,
    pub path: String,
    pub secure: bool,
    pub expires_epoch_secs: u64,
}

/// How long the pre-seeded consent cookies live: about one year, in
/// seconds.
pub const CONSENT_COOKIE_LIFETIME_SECS: u64 = 31557600;

/// The fixed token that satisfies the target site's consent check.
pub open spec fn socs_value() -> Seq<char> {
    "CAISHAgCEhJnd3NfMjAyNDAxMTAtMF9SQzIaAmVuIAEaBgiA_LyaBg"@
}

/// The two consent cookie records to inject before navigation: the fixed
/// token, for the site's own domain and for its parent company's, both
/// secure, rooted at `/`, expiring about one year from `now_epoch_secs`.
pub fn consent_preseed_cookies(now_epoch_secs: u64) -> (r: Vec<CookieRecord>)
    requires
        now_epoch_secs + CONSENT_COOKIE_LIFETIME_SECS <= u64::MAX,
    ensures
        r@.len() == 2,
        r@[0].name@ == "SOCS"@,
        r@[0].value@ == socs_value(),
        r@[0].domain@ == ".youtube.com"@,
        r@[0].url@ == "https://www.youtube.com"@,
        r@[0].path@ == "/"@,
        r@[0].secure,
        r@[0].expires_epoch_secs == now_epoch_secs + CONSENT_COOKIE_LIFETIME_SECS,
        r@[1].name@ == "SOCS"@,
        r@[1].value@ == socs_value(),
        r@[1].domain@ == ".google.com"@,
        r@[1].url@ == "https://www.google.com"@,
        r@[1].path@ == "/"@,
        r@[1].secure,
        r@[1].expires_epoch_secs == now_epoch_secs + CONSENT_COOKIE_LIFETIME_SECS,
{
    let expires = now_epoch_secs + CONSENT_COOKIE_LIFETIME_SECS;
    let mut r: Vec<CookieRecord> = Vec::new();
    r.push(
        CookieRecord {
            name: String::from_str("SOCS"),
            value: String::from_str("CAISHAgCEhJnd3NfMjAyNDAxMTAtMF9SQzIaAmVuIAEaBgiA_LyaBg"),
            url: String::from_str("https://www.youtube.com"),
            domain: String::from_str(".youtube.com"),
            path: String::from_str("/"),
            secure: true,
            expires_epoch_secs: expires,
        },
    );
    r.push(
        CookieRecord {
            name: String::from_str("SOCS"),
            value: String::from_str("CAISHAgCEhJnd3NfMjAyNDAxMTAtMF9SQzIaAmVuIAEaBgiA_LyaBg"),
            url: String::from_str("https://www.google.com"),
            domain: String::from_str(".google.com"),
            path: String::from_str("/"),
            secure: true,
            expires_epoch_secs: expires,
        },
    );
    r
}

/// Whether a URL still belongs to the target site's domain, or the tab
/// was redirected elsewhere (for instance to a standalone consent
/// domain).
pub open spec fn spec_url_on_site(url: Seq<char>) -> bool {
    spec_contains(url, "youtube.com"@)
}

/// Whether the tab's current URL is still on the target site.
pub fn url_on_site(url: &str) -> (b: bool)
    ensures
        b == spec_url_on_site(url@),
{
    str_contains(url, "youtube.com")
}

/// How a resolver run ended.
#[derive(Clone, Copy, PartialEq, Eq, Structural, Debug)]
pub enum ConsentOutcome {
    /// No dialog was present, or the cookies were written and the tab was
    /// navigated back to the target URL.
    Resolved,
    /// The cookie-writing script evaluation failed.
    CookieWriteFailed,
    /// A navigation (home, or back to the target) failed.
    NavigationFailed,
}

/// Where the resolver stands.
#[derive(Clone, Copy, PartialEq, Eq, Structural, Debug)]
pub enum ConsentStage {
    /// Evaluate the detection script.
    Detect,
    /// A dialog is present: read the current URL to see whether the tab
    /// was redirected off the site.
    CheckLocation,
    /// Off-site redirect: navigate to the site's home page first, so the
    /// cookie write is scoped to the site's domain.
    GoHome,
    /// Write both consent cookies through a script-level assignment.
    WriteCookies,
    /// Navigate back to the originally requested target URL.
    Renavigate,
    /// Terminal.
    Done(ConsentOutcome),
}

/// What the driver observed while performing the current stage's action.
#[derive(PartialEq, Eq, Debug)]
pub enum ConsentEvent {
    /// The detection script's result (a failure counts as "no dialog").
    DialogProbed(TickValue),
    /// The tab's current URL.
    LocationRead(String),
    /// A navigation, waited to completion, succeeded or failed.
    Navigated(bool),
    /// The cookie-writing script evaluation succeeded or failed.
    CookiesWritten(bool),
}

/// The browser action the driver performs for each stage.
#[derive(Clone, Copy, PartialEq, Eq, Structural, Debug)]
pub enum ConsentAction {
    ProbeDialog,
    ReadLocation,
    NavigateHome,
    WriteCookieScript,
    NavigateTarget,
    Stop,
}

/// The action each stage asks of the driver.
pub open spec fn consent_action_spec(s: ConsentStage) -> ConsentAction {
    match s {
        ConsentStage::Detect => ConsentAction::ProbeDialog,
        ConsentStage::CheckLocation => ConsentAction::ReadLocation,
        ConsentStage::GoHome => ConsentAction::NavigateHome,
        ConsentStage::WriteCookies => ConsentAction::WriteCookieScript,
        ConsentStage::Renavigate => ConsentAction::NavigateTarget,
        ConsentStage::Done(_) => ConsentAction::Stop,
    }
}

/// What the driver does next for the given resolver stage.
pub fn consent_action(s: &ConsentStage) -> (a: ConsentAction)
    ensures
        a == consent_action_spec(*s),
{
    match s {
        ConsentStage::Detect => ConsentAction::ProbeDialog,
        ConsentStage::CheckLocation => ConsentAction::ReadLocation,
        ConsentStage::GoHome => ConsentAction::NavigateHome,
        ConsentStage::WriteCookies => ConsentAction::WriteCookieScript,
        ConsentStage::Renavigate => ConsentAction::NavigateTarget,
        ConsentStage::Done(_) => ConsentAction::Stop,
    }
}

/// The resolver's transition relation. A probe that reports no dialog (or
/// fails) resolves at once; an off-site URL inserts the home-page hop; a
/// failed cookie write or navigation is terminal; a successful
/// re-navigation to the target resolves. An event that does not belong to
/// the stage changes nothing.
pub open spec fn consent_step_spec(s: ConsentStage, e: ConsentEvent) -> ConsentStage {
    match (s, e) {
        (ConsentStage::Detect, ConsentEvent::DialogProbed(t)) => if tick_matches(t, true) {
            ConsentStage::CheckLocation
        } else {
            ConsentStage::Done(ConsentOutcome::Resolved)
        },
        (ConsentStage::CheckLocation, ConsentEvent::LocationRead(url)) => if spec_url_on_site(
            url@,
        ) {
            ConsentStage::WriteCookies
        } else {
            ConsentStage::GoHome
        },
        (ConsentStage::GoHome, ConsentEvent::Navigated(ok)) => if ok {
            ConsentStage::WriteCookies
        } else {
            ConsentStage::Done(ConsentOutcome::NavigationFailed)
        },
        (ConsentStage::WriteCookies, ConsentEvent::CookiesWritten(ok)) => if ok {
            ConsentStage::Renavigate
        } else {
            ConsentStage::Done(ConsentOutcome::CookieWriteFailed)
        },
        (ConsentStage::Renavigate, ConsentEvent::Navigated(ok)) => if ok {
            ConsentStage::Done(ConsentOutcome::Resolved)
        } else {
            ConsentStage::Done(ConsentOutcome::NavigationFailed)
        },
        (s0, _) => s0,
    }
}

/// Advance the resolver by one observed event.
pub fn consent_step(s: ConsentStage, e: ConsentEvent) -> (r: ConsentStage)
    ensures
        r == consent_step_spec(s, e),
{
    match (s, e) {
        (ConsentStage::Detect, ConsentEvent::DialogProbed(t)) => {
            if tick_meets_expectation(&t, true) {
                ConsentStage::CheckLocation
            } else {
                ConsentStage::Done(ConsentOutcome::Resolved)
            }
        },
        (ConsentStage::CheckLocation, ConsentEvent::LocationRead(url)) => {
            if url_on_site(url.as_str()) {
                ConsentStage::WriteCookies
            } else {
                ConsentStage::GoHome
            }
        },
        (ConsentStage::GoHome, ConsentEvent::Navigated(ok)) => {
            if ok {
                ConsentStage::WriteCookies
            } else {
                ConsentStage::Done(ConsentOutcome::NavigationFailed)
            }
        },
        (ConsentStage::WriteCookies, ConsentEvent::CookiesWritten(ok)) => {
            if ok {
                ConsentStage::Renavigate
            } else {
                ConsentStage::Done(ConsentOutcome::CookieWriteFailed)
            }
        },
        (ConsentStage::Renavigate, ConsentEvent::Navigated(ok)) => {
            if ok {
                ConsentStage::Done(ConsentOutcome::Resolved)
            } else {
                ConsentStage::Done(ConsentOutcome::NavigationFailed)
            }
        },
        (s0, _) => s0,
    }
}

/// The resolver after a sequence of observed events, from stage `s`.
pub open spec fn consent_run_from(s: ConsentStage, events: Seq<ConsentEvent>) -> ConsentStage
    decreases events.len(),
{
    if events.len() == 0 {
        s
    } else {
        consent_run_from(consent_step_spec(s, events[0]), events.drop_first())
    }
}

/// Replay the resolver over a recorded sequence of events.
pub fn run_consent_trace(events: Vec<ConsentEvent>) -> (r: ConsentStage)
    ensures
        r == consent_run_from(ConsentStage::Detect, events@),
{
    let ghost all = events@;
    let mut events = events;
    let mut s = ConsentStage::Detect;
    while events.len() > 0
        invariant
            consent_run_from(s, events@) == consent_run_from(ConsentStage::Detect, all),
        decreases events.len(),
    {
        let ghost pre = events@;
        let e = events.remove(0);
        proof {
            assert(events@ =~= pre.drop_first());
        }
        s = consent_step(s, e);
    }
    s
}

/// A terminal stage absorbs every further event.
pub proof fn lemma_consent_done_absorbs(o: ConsentOutcome, events: Seq<ConsentEvent>)
    ensures
        consent_run_from(ConsentStage::Done(o), events) == ConsentStage::Done(o),
    decreases events.len(),
{
    if events.len() > 0 {
        lemma_consent_done_absorbs(o, events.drop_first());
    }
}

/// Law: detect-and-reinject is a no-op when no dialog marker is present.
/// If the first probe reports no dialog (or its evaluation fails), the
/// resolver is resolved at once and stays so: after that probe it never
/// asks the driver for anything again — zero navigations, zero cookie
/// writes.
pub proof fn lemma_no_dialog_is_noop(events: Seq<ConsentEvent>)
    requires
        events.len() > 0,
        events[0] matches ConsentEvent::DialogProbed(t) && !tick_matches(t, true),
    ensures
        forall|k: int|
            1 <= k <= events.len() ==> consent_run_from(ConsentStage::Detect, #[trigger] events.take(k))
                == ConsentStage::Done(ConsentOutcome::Resolved),
        forall|k: int|
            1 <= k <= events.len() ==> consent_action_spec(
                consent_run_from(ConsentStage::Detect, #[trigger] events.take(k)),
            ) == ConsentAction::Stop,
{
    assert forall|k: int|
        1 <= k <= events.len() implies consent_run_from(ConsentStage::Detect, #[trigger] events.take(k))
        == ConsentStage::Done(ConsentOutcome::Resolved) by {
        let taken = events.take(k);
        assert(taken[0] == events[0]);
        assert(consent_step_spec(ConsentStage::Detect, taken[0]) == ConsentStage::Done(
            ConsentOutcome::Resolved,
        ));
        lemma_consent_done_absorbs(ConsentOutcome::Resolved, taken.drop_first());
    }
}

/// Law: once a dialog was detected, the resolver reaches the `Resolved`
/// outcome only through a successful navigation back to the target URL —
/// whatever intermediate hops occurred, the step that resolves it is the
/// re-navigation succeeding.
pub proof fn lemma_resolved_only_by_renavigation(s: ConsentStage, e: ConsentEvent)
    requires
        !(s is Done),
        !(s is Detect),
        consent_step_spec(s, e) == ConsentStage::Done(ConsentOutcome::Resolved),
    ensures
        s == ConsentStage::Renavigate,
        e == ConsentEvent::Navigated(true),
{
}

} // verus!

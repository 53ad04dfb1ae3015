//! The readiness sequencer: the fixed forward order of stages that takes
//! a freshly navigated tab to a stable, unattended playback state —
//! consent, ad-wait, media-wait, playback-kick, playback-confirm, and the
//! settle steps for the player's chrome.
//!
//! The machine decides, from the outcome the driver observed for the
//! current stage's action, which stage and action come next. The driver
//! performs the actions (consent resolution, polls under the shared
//! deadline, best-effort scripts, sleeps) and feeds outcomes back through
//! [`prepare_step`]. The wait stages' polls are the model of
//! [`crate::poll`]; all of them share one deadline, fixed at entry and
//! never extended.

use crate::consent::ConsentOutcome;
use crate::errors::PrepareError;
use crate::poll::PollOutcome;
use crate::text::{matches_at, spec_contains};
use vstd::prelude::*;

verus! {

/// The page scripts the driver evaluates, one identifier per script.
#[derive(Clone, Copy, PartialEq, Eq, Structural, Debug)]
pub enum ScriptId {
    /// Detection: is a consent dialog or marker present?
    ConsentDetect,
    /// Write both consent cookies through a script-level assignment.
    ConsentCookieWrite,
    /// Is the player container carrying the ad marker?
    AdShowing,
    /// Does a playable media element exist?
    VideoExists,
    /// Best-effort: mute and start playback.
    KickPlayback,
    /// Is the media element buffered enough and not paused?
    PlayingConfirm,
    /// Read the diagnostic snapshot of the media element's state.
    PlaybackDiag,
    /// Best-effort: click the theater-layout toggle.
    TheaterToggle,
    /// Best-effort: synthetic mouse events to fade the controls out.
    HideControls,
}

/// The text of each page script, character for character.
pub open spec fn spec_script_text(id: ScriptId) -> Seq<char> {
    match id {
        ScriptId::ConsentDetect => r#"(function(){
            if (window.location.href.indexOf('consent') !== -1) return true;
            if (document.querySelector('ytd-consent-bump-v2-lightbox')) return true;
            if (document.querySelector('tp-yt-paper-dialog')) return true;
            var btns = document.querySelectorAll('button');
            for (var i = 0; i < btns.length; i++) {
                var t = btns[i].textContent.trim();
                if (t === 'Reject all' || t === 'Accept all') return true;
            }
            return false;
        })()"#@,
        ScriptId::ConsentCookieWrite => r#"(function(){
            var d = ';domain=.youtube.com;path=/;secure;max-age=31536000';
            document.cookie = 'SOCS=CAISHAgCEhJnd3NfMjAyNDAxMTAtMF9SQzIaAmVuIAEaBgiA_LyaBg' + d;
            document.cookie = 'CONSENT=YES+cb.20210420-17-p0.en+FX+920' + d;
        })()"#@,
        ScriptId::AdShowing => r#"(function(){
            var p=document.getElementById('movie_player');
            return p ? p.classList.contains('ad-showing') : false;
        })()"#@,
        ScriptId::VideoExists => "document.querySelector('video') !== null"@,
        ScriptId::KickPlayback => r#"(function(){
            var v=document.querySelector('video');
            if(v && v.paused){ v.muted=true; v.play().catch(function(){}); }
            var p=document.getElementById('movie_player');
            if(p && typeof p.playVideo==='function') p.playVideo();
        })()"#@,
        ScriptId::PlayingConfirm => r#"(function(){
            var v=document.querySelector('video');
            return v && v.readyState>=3 && !v.paused;
        })()"#@,
        ScriptId::PlaybackDiag => r#"(function(){
            var v=document.querySelector('video');
            if(!v) return 'no video element';
            return 'readyState='+v.readyState+' paused='+v.paused+' src='+(v.src||v.currentSrc||'none');
        })()"#@,
        ScriptId::TheaterToggle => r#"(function(){
            var btn=document.querySelector('.ytp-size-button');
            if(btn) btn.click();
        })()"#@,
        ScriptId::HideControls => r#"(function(){
            var p=document.getElementById('movie_player');
            if(p) p.dispatchEvent(new MouseEvent('mouseleave',{bubbles:true}));
            document.body.dispatchEvent(new MouseEvent('mousemove',{clientX:0,clientY:0,bubbles:true}));
        })()"#@,
    }
}

/// The text of a page script.
pub fn script_text(id: &ScriptId) -> (r: &'static str)
    ensures
        r@ == spec_script_text(*id),
{
    match id {
        ScriptId::ConsentDetect => r#"(function(){
            if (window.location.href.indexOf('consent') !== -1) return true;
            if (document.querySelector('ytd-consent-bump-v2-lightbox')) return true;
            if (document.querySelector('tp-yt-paper-dialog')) return true;
            var btns = document.querySelectorAll('button');
            for (var i = 0; i < btns.length; i++) {
                var t = btns[i].textContent.trim();
                if (t === 'Reject all' || t === 'Accept all') return true;
            }
            return false;
        })()"#,
        ScriptId::ConsentCookieWrite => r#"(function(){
            var d = ';domain=.youtube.com;path=/;secure;max-age=31536000';
            document.cookie = 'SOCS=CAISHAgCEhJnd3NfMjAyNDAxMTAtMF9SQzIaAmVuIAEaBgiA_LyaBg' + d;
            document.cookie = 'CONSENT=YES+cb.20210420-17-p0.en+FX+920' + d;
        })()"#,
        ScriptId::AdShowing => r#"(function(){
            var p=document.getElementById('movie_player');
            return p ? p.classList.contains('ad-showing') : false;
        })()"#,
        ScriptId::VideoExists => "document.querySelector('video') !== null",
        ScriptId::KickPlayback => r#"(function(){
            var v=document.querySelector('video');
            if(v && v.paused){ v.muted=true; v.play().catch(function(){}); }
            var p=document.getElementById('movie_player');
            if(p && typeof p.playVideo==='function') p.playVideo();
        })()"#,
        ScriptId::PlayingConfirm => r#"(function(){
            var v=document.querySelector('video');
            return v && v.readyState>=3 && !v.paused;
        })()"#,
        ScriptId::PlaybackDiag => r#"(function(){
            var v=document.querySelector('video');
            if(!v) return 'no video element';
            return 'readyState='+v.readyState+' paused='+v.paused+' src='+(v.src||v.currentSrc||'none');
        })()"#,
        ScriptId::TheaterToggle => r#"(function(){
            var btn=document.querySelector('.ytp-size-button');
            if(btn) btn.click();
        })()"#,
        ScriptId::HideControls => r#"(function(){
            var p=document.getElementById('movie_player');
            if(p) p.dispatchEvent(new MouseEvent('mouseleave',{bubbles:true}));
            document.body.dispatchEvent(new MouseEvent('mousemove',{clientX:0,clientY:0,bubbles:true}));
        })()"#,
    }
}

/// `needle` stands verbatim at position `k` of `hay`.
proof fn lemma_contains_from_subrange(hay: Seq<char>, needle: Seq<char>, k: int)
    requires
        0 <= k,
        k + needle.len() <= hay.len(),
        hay.subrange(k, k + needle.len()) == needle,
    ensures
        spec_contains(hay, needle),
{
    assert forall|j: int| 0 <= j < needle.len() implies hay[k + j] == needle[j] by {
        assert(hay.subrange(k, k + needle.len())[j] == hay[k + j]);
    }
    assert(matches_at(hay, needle, k));
}

/// Law: the reinjection script writes both consent cookies as fixed
/// literal assignments — SOCS and CONSENT — and scopes them to the
/// site's domain, path `/`, secure, with a one-year max-age.
pub proof fn lemma_cookie_script_writes_both_cookies()
    ensures
        spec_contains(spec_script_text(ScriptId::ConsentCookieWrite), "document.cookie = 'SOCS="@),
        spec_contains(
            spec_script_text(ScriptId::ConsentCookieWrite),
            "document.cookie = 'CONSENT=YES"@,
        ),
        spec_contains(
            spec_script_text(ScriptId::ConsentCookieWrite),
            ";domain=.youtube.com;path=/;secure;max-age=31536000"@,
        ),
{
    reveal_strlit(
        r#"(function(){
            var d = ';domain=.youtube.com;path=/;secure;max-age=31536000';
            document.cookie = 'SOCS=CAISHAgCEhJnd3NfMjAyNDAxMTAtMF9SQzIaAmVuIAEaBgiA_LyaBg' + d;
            document.cookie = 'CONSENT=YES+cb.20210420-17-p0.en+FX+920' + d;
        })()"#,
    );
    reveal_strlit("document.cookie = 'SOCS=");
    reveal_strlit("document.cookie = 'CONSENT=YES");
    reveal_strlit(";domain=.youtube.com;path=/;secure;max-age=31536000");
    let hay = spec_script_text(ScriptId::ConsentCookieWrite);
    assert(hay.subrange(100, 124) =~= "document.cookie = 'SOCS="@);
    lemma_contains_from_subrange(hay, "document.cookie = 'SOCS="@, 100);
    assert(hay.subrange(197, 227) =~= "document.cookie = 'CONSENT=YES"@);
    lemma_contains_from_subrange(hay, "document.cookie = 'CONSENT=YES"@, 197);
    assert(hay.subrange(34, 85) =~= ";domain=.youtube.com;path=/;secure;max-age=31536000"@);
    lemma_contains_from_subrange(
        hay,
        ";domain=.youtube.com;path=/;secure;max-age=31536000"@,
        34,
    );
}

/// Law: the detection script checks the three independent signals the
/// heuristic combines — the consent URL token, the two known dialog
/// elements, and the two consent button texts.
pub proof fn lemma_detect_script_checks_known_markers()
    ensures
        spec_contains(spec_script_text(ScriptId::ConsentDetect), "indexOf('consent')"@),
        spec_contains(spec_script_text(ScriptId::ConsentDetect), "ytd-consent-bump-v2-lightbox"@),
        spec_contains(spec_script_text(ScriptId::ConsentDetect), "tp-yt-paper-dialog"@),
        spec_contains(spec_script_text(ScriptId::ConsentDetect), "'Reject all'"@),
        spec_contains(spec_script_text(ScriptId::ConsentDetect), "'Accept all'"@),
{
    reveal_strlit(
        r#"(function(){
            if (window.location.href.indexOf('consent') !== -1) return true;
            if (document.querySelector('ytd-consent-bump-v2-lightbox')) return true;
            if (document.querySelector('tp-yt-paper-dialog')) return true;
            var btns = document.querySelectorAll('button');
            for (var i = 0; i < btns.length; i++) {
                var t = btns[i].textContent.trim();
                if (t === 'Reject all' || t === 'Accept all') return true;
            }
            return false;
        })()"#,
    );
    reveal_strlit("indexOf('consent')");
    reveal_strlit("ytd-consent-bump-v2-lightbox");
    reveal_strlit("tp-yt-paper-dialog");
    reveal_strlit("'Reject all'");
    reveal_strlit("'Accept all'");
    let hay = spec_script_text(ScriptId::ConsentDetect);
    assert(hay.subrange(50, 68) =~= "indexOf('consent')"@);
    lemma_contains_from_subrange(hay, "indexOf('consent')"@, 50);
    assert(hay.subrange(130, 158) =~= "ytd-consent-bump-v2-lightbox"@);
    lemma_contains_from_subrange(hay, "ytd-consent-bump-v2-lightbox"@, 130);
    assert(hay.subrange(215, 233) =~= "tp-yt-paper-dialog"@);
    lemma_contains_from_subrange(hay, "tp-yt-paper-dialog"@, 215);
    assert(hay.subrange(440, 452) =~= "'Reject all'"@);
    lemma_contains_from_subrange(hay, "'Reject all'"@, 440);
    assert(hay.subrange(462, 474) =~= "'Accept all'"@);
    lemma_contains_from_subrange(hay, "'Accept all'"@, 462);
}

/// Law: the ad-wait poll watches the player container's ad marker.
pub proof fn lemma_ad_script_checks_ad_marker()
    ensures
        spec_contains(spec_script_text(ScriptId::AdShowing), "ad-showing"@),
{
    reveal_strlit(
        r#"(function(){
            var p=document.getElementById('movie_player');
            return p ? p.classList.contains('ad-showing') : false;
        })()"#,
    );
    reveal_strlit("ad-showing");
    let hay = spec_script_text(ScriptId::AdShowing);
    assert(hay.subrange(117, 127) =~= "ad-showing"@);
    lemma_contains_from_subrange(hay, "ad-showing"@, 117);
}

/// Where the sequencer stands.
#[derive(PartialEq, Eq, Debug)]
pub enum Stage {
    /// Run the consent resolver once more, post-navigation.
    ConsentCheck,
    /// Poll until the ad marker is gone.
    AdWait,
    /// Poll until a media element exists.
    MediaWait,
    /// One best-effort script to start playback; cannot fail.
    PlaybackKick,
    /// Poll until the media is buffered enough and not paused.
    PlaybackConfirm,
    /// The confirm poll timed out: capture the diagnostic snapshot.
    PlaybackDiag,
    /// Short pause for the frame to render.
    FrameSettle,
    /// Best-effort click on the theater-layout toggle.
    TheaterToggle,
    /// Short pause after the toggle.
    TheaterSettle,
    /// Best-effort mouse events to fade the control overlay out.
    ControlsHide,
    /// Pause for the fade-out animation.
    ControlsSettle,
    /// Terminal: all stages passed.
    Ready,
    /// Terminal: a fallible stage failed.
    Failed(PrepareError),
}

/// What the driver observed while performing the current stage's action.
#[derive(PartialEq, Eq, Debug)]
pub enum StageEvent {
    /// The consent resolver finished with this outcome.
    ConsentResolved(ConsentOutcome),
    /// A deadline-bounded poll finished.
    PollFinished(PollOutcome),
    /// A best-effort script evaluation came back, succeeded or failed.
    ScriptRan,
    /// The diagnostic snapshot, already defaulted by [`diag_snapshot`].
    DiagCaptured(String),
    /// A timed pause elapsed.
    Slept,
}

/// The action the driver performs for each stage.
#[derive(Clone, Copy, PartialEq, Eq, Structural, Debug)]
pub enum StageAction {
    /// Run the consent resolver of [`crate::consent`].
    ResolveConsent,
    /// Poll the script until it yields the given boolean, no later than
    /// the given deadline (milliseconds from the orchestration's entry).
    PollScript(ScriptId, bool, u64),
    /// Evaluate the script once, best-effort, result discarded.
    RunScript(ScriptId),
    /// Evaluate the script once and capture its string result.
    CaptureDiag(ScriptId),
    /// Sleep for the given number of milliseconds.
    SleepMs(u64),
    /// Terminal: nothing more to do.
    Finish,
}

/// The action each stage asks of the driver. `deadline_ms` is the one
/// deadline fixed at the orchestration's entry: every poll action
/// carries it unchanged.
pub open spec fn stage_action_spec(s: Stage, deadline_ms: u64) -> StageAction {
    match s {
        Stage::ConsentCheck => StageAction::ResolveConsent,
        Stage::AdWait => StageAction::PollScript(ScriptId::AdShowing, false, deadline_ms),
        Stage::MediaWait => StageAction::PollScript(ScriptId::VideoExists, true, deadline_ms),
        Stage::PlaybackKick => StageAction::RunScript(ScriptId::KickPlayback),
        Stage::PlaybackConfirm => StageAction::PollScript(
            ScriptId::PlayingConfirm,
            true,
            deadline_ms,
        ),
        Stage::PlaybackDiag => StageAction::CaptureDiag(ScriptId::PlaybackDiag),
        Stage::FrameSettle => StageAction::SleepMs(500),
        Stage::TheaterToggle => StageAction::RunScript(ScriptId::TheaterToggle),
        Stage::TheaterSettle => StageAction::SleepMs(500),
        Stage::ControlsHide => StageAction::RunScript(ScriptId::HideControls),
        Stage::ControlsSettle => StageAction::SleepMs(3000),
        Stage::Ready => StageAction::Finish,
        Stage::Failed(_) => StageAction::Finish,
    }
}

/// What the driver does next for the given stage, under the one deadline
/// fixed at entry.
pub fn stage_action(s: &Stage, deadline_ms: u64) -> (a: StageAction)
    ensures
        a == stage_action_spec(*s, deadline_ms),
{
    match s {
        Stage::ConsentCheck => StageAction::ResolveConsent,
        Stage::AdWait => StageAction::PollScript(ScriptId::AdShowing, false, deadline_ms),
        Stage::MediaWait => StageAction::PollScript(ScriptId::VideoExists, true, deadline_ms),
        Stage::PlaybackKick => StageAction::RunScript(ScriptId::KickPlayback),
        Stage::PlaybackConfirm => StageAction::PollScript(
            ScriptId::PlayingConfirm,
            true,
            deadline_ms,
        ),
        Stage::PlaybackDiag => StageAction::CaptureDiag(ScriptId::PlaybackDiag),
        Stage::FrameSettle => StageAction::SleepMs(500),
        Stage::TheaterToggle => StageAction::RunScript(ScriptId::TheaterToggle),
        Stage::TheaterSettle => StageAction::SleepMs(500),
        Stage::ControlsHide => StageAction::RunScript(ScriptId::HideControls),
        Stage::ControlsSettle => StageAction::SleepMs(3000),
        Stage::Ready => StageAction::Finish,
        Stage::Failed(_) => StageAction::Finish,
    }
}

/// The diagnostic text embedded on a playback-confirm failure: the
/// snapshot the page reported, or a fixed placeholder when the diagnostic
/// evaluation itself failed.
pub open spec fn diag_text(d: Option<String>) -> Seq<char> {
    match d {
        Some(s) => s@,
        None => "unknown"@,
    }
}

/// Default the diagnostic snapshot when its evaluation failed.
pub fn diag_snapshot(d: Option<String>) -> (s: String)
    ensures
        s@ == diag_text(d),
{
    match d {
        Some(s) => s,
        None => String::from_str("unknown"),
    }
}

/// The sequencer's transition relation: strict forward order. Consent
/// failures map to their error kinds; each wait stage's timeout maps to
/// its error kind carrying the configured timeout; the kick and the
/// settle steps advance whatever happened; the diagnostic is requested,
/// and embedded into the playback error, only after the confirm poll
/// timed out. An event that does not belong to the stage changes nothing.
pub open spec fn prepare_step_spec(s: Stage, e: StageEvent, timeout_secs: u64) -> Stage {
    match (s, e) {
        (Stage::ConsentCheck, StageEvent::ConsentResolved(o)) => match o {
            ConsentOutcome::Resolved => Stage::AdWait,
            ConsentOutcome::CookieWriteFailed => Stage::Failed(
                PrepareError::ConsentCookieInjectionFailed,
            ),
            ConsentOutcome::NavigationFailed => Stage::Failed(
                PrepareError::ConsentRenavigationFailed,
            ),
        },
        (Stage::AdWait, StageEvent::PollFinished(p)) => if p is Met {
            Stage::MediaWait
        } else {
            Stage::Failed(PrepareError::AdsTimedOut { timeout_secs })
        },
        (Stage::MediaWait, StageEvent::PollFinished(p)) => if p is Met {
            Stage::PlaybackKick
        } else {
            Stage::Failed(PrepareError::MediaElementTimedOut { timeout_secs })
        },
        (Stage::PlaybackKick, StageEvent::ScriptRan) => Stage::PlaybackConfirm,
        (Stage::PlaybackConfirm, StageEvent::PollFinished(p)) => if p is Met {
            Stage::FrameSettle
        } else {
            Stage::PlaybackDiag
        },
        (Stage::PlaybackDiag, StageEvent::DiagCaptured(snapshot)) => Stage::Failed(
            PrepareError::PlaybackTimedOut { timeout_secs, snapshot },
        ),
        (Stage::FrameSettle, StageEvent::Slept) => Stage::TheaterToggle,
        (Stage::TheaterToggle, StageEvent::ScriptRan) => Stage::TheaterSettle,
        (Stage::TheaterSettle, StageEvent::Slept) => Stage::ControlsHide,
        (Stage::ControlsHide, StageEvent::ScriptRan) => Stage::ControlsSettle,
        (Stage::ControlsSettle, StageEvent::Slept) => Stage::Ready,
        (s0, _) => s0,
    }
}

/// Advance the sequencer by one observed event.
pub fn prepare_step(s: Stage, e: StageEvent, timeout_secs: u64) -> (r: Stage)
    ensures
        r == prepare_step_spec(s, e, timeout_secs),
{
    match (s, e) {
        (Stage::ConsentCheck, StageEvent::ConsentResolved(o)) => match o {
            ConsentOutcome::Resolved => Stage::AdWait,
            ConsentOutcome::CookieWriteFailed => Stage::Failed(
                PrepareError::ConsentCookieInjectionFailed,
            ),
            ConsentOutcome::NavigationFailed => Stage::Failed(
                PrepareError::ConsentRenavigationFailed,
            ),
        },
        (Stage::AdWait, StageEvent::PollFinished(p)) => {
            if p == PollOutcome::Met {
                Stage::MediaWait
            } else {
                Stage::Failed(PrepareError::AdsTimedOut { timeout_secs })
            }
        },
        (Stage::MediaWait, StageEvent::PollFinished(p)) => {
            if p == PollOutcome::Met {
                Stage::PlaybackKick
            } else {
                Stage::Failed(PrepareError::MediaElementTimedOut { timeout_secs })
            }
        },
        (Stage::PlaybackKick, StageEvent::ScriptRan) => Stage::PlaybackConfirm,
        (Stage::PlaybackConfirm, StageEvent::PollFinished(p)) => {
            if p == PollOutcome::Met {
                Stage::FrameSettle
            } else {
                Stage::PlaybackDiag
            }
        },
        (Stage::PlaybackDiag, StageEvent::DiagCaptured(snapshot)) => Stage::Failed(
            PrepareError::PlaybackTimedOut { timeout_secs, snapshot },
        ),
        (Stage::FrameSettle, StageEvent::Slept) => Stage::TheaterToggle,
        (Stage::TheaterToggle, StageEvent::ScriptRan) => Stage::TheaterSettle,
        (Stage::TheaterSettle, StageEvent::Slept) => Stage::ControlsHide,
        (Stage::ControlsHide, StageEvent::ScriptRan) => Stage::ControlsSettle,
        (Stage::ControlsSettle, StageEvent::Slept) => Stage::Ready,
        (s0, _) => s0,
    }
}

/// Whether the sequencer is finished.
pub open spec fn stage_is_terminal(s: Stage) -> bool {
    s is Ready || s is Failed
}

/// Whether the driver's loop ends at this stage.
pub fn is_terminal(s: &Stage) -> (b: bool)
    ensures
        b == stage_is_terminal(*s),
{
    match s {
        Stage::Ready => true,
        Stage::Failed(_) => true,
        _ => false,
    }
}

/// The sequencer after a sequence of observed events, from stage `s`.
pub open spec fn prepare_run_from(s: Stage, events: Seq<StageEvent>, timeout_secs: u64) -> Stage
    decreases events.len(),
{
    if events.len() == 0 {
        s
    } else {
        prepare_run_from(prepare_step_spec(s, events[0], timeout_secs), events.drop_first(), timeout_secs)
    }
}

/// Replay the sequencer over a recorded sequence of events.
pub fn run_prepare_trace(events: Vec<StageEvent>, timeout_secs: u64) -> (r: Stage)
    ensures
        r == prepare_run_from(Stage::ConsentCheck, events@, timeout_secs),
{
    let ghost all = events@;
    let mut events = events;
    let mut s = Stage::ConsentCheck;
    while events.len() > 0
        invariant
            prepare_run_from(s, events@, timeout_secs) == prepare_run_from(
                Stage::ConsentCheck,
                all,
                timeout_secs,
            ),
        decreases events.len(),
    {
        let ghost pre = events@;
        let e = events.remove(0);
        proof {
            assert(events@ =~= pre.drop_first());
        }
        s = prepare_step(s, e, timeout_secs);
    }
    s
}

/// Each stage's position in the fixed forward order. The two terminal
/// stages share the last position; the diagnostic capture stands between
/// the confirm poll and its terminal failure.
pub open spec fn stage_rank(s: Stage) -> nat {
    match s {
        Stage::ConsentCheck => 0,
        Stage::AdWait => 1,
        Stage::MediaWait => 2,
        Stage::PlaybackKick => 3,
        Stage::PlaybackConfirm => 4,
        Stage::PlaybackDiag => 5,
        Stage::FrameSettle => 5,
        Stage::TheaterToggle => 6,
        Stage::TheaterSettle => 7,
        Stage::ControlsHide => 8,
        Stage::ControlsSettle => 9,
        Stage::Ready => 10,
        Stage::Failed(_) => 10,
    }
}

/// Law: the sequencer only moves forward — no step returns to an earlier
/// stage, and a terminal stage absorbs every further event.
pub proof fn lemma_stage_order_forward(s: Stage, e: StageEvent, timeout_secs: u64)
    ensures
        stage_rank(prepare_step_spec(s, e, timeout_secs)) >= stage_rank(s),
        stage_is_terminal(s) ==> prepare_step_spec(s, e, timeout_secs) == s,
{
}

/// Law: one total budget. Every poll the sequencer ever asks for — the
/// ad wait, the media wait, and the playback confirmation — carries the
/// same deadline, the one fixed at the orchestration's entry; no stage's
/// action extends or resets it. A slow ad therefore leaves less budget
/// for the later waits.
pub proof fn lemma_polls_share_one_deadline(s: Stage, deadline_ms: u64)
    ensures
        stage_action_spec(s, deadline_ms) matches StageAction::PollScript(_, _, d) ==> d
            == deadline_ms,
{
}

/// The stages reachable while the ad-wait poll has not cleared.
pub open spec fn pre_media_stage(s: Stage) -> bool {
    s is ConsentCheck || s is AdWait || s is Failed
}

/// Whether an event reports a poll that met its expectation.
pub open spec fn poll_met_event(e: StageEvent) -> bool {
    e == StageEvent::PollFinished(PollOutcome::Met)
}

/// From a pre-media stage, a trace without a met poll stays pre-media.
proof fn lemma_stalled_ads_from(s: Stage, events: Seq<StageEvent>, timeout_secs: u64)
    requires
        pre_media_stage(s),
        forall|i: int| 0 <= i < events.len() ==> !poll_met_event(#[trigger] events[i]),
    ensures
        pre_media_stage(prepare_run_from(s, events, timeout_secs)),
    decreases events.len(),
{
    if events.len() > 0 {
        assert(!poll_met_event(events[0]));
        assert(forall|i: int|
            0 <= i < events.drop_first().len() ==> #[trigger] events.drop_first()[i] == events[i
                + 1]);
        lemma_stalled_ads_from(
            prepare_step_spec(s, events[0], timeout_secs),
            events.drop_first(),
            timeout_secs,
        );
    }
}

/// Law: stage ordering is strictly respected. If the ad-wait predicate
/// never clears — no observed poll ever meets its expectation — then no
/// prefix of the run ever reaches the media-wait stage or any later one:
/// every reachable stage is the consent check, the ad wait, or a failure.
pub proof fn lemma_stalled_ads_block_later_stages(events: Seq<StageEvent>, timeout_secs: u64)
    requires
        forall|i: int| 0 <= i < events.len() ==> !poll_met_event(#[trigger] events[i]),
    ensures
        forall|k: int|
            0 <= k <= events.len() ==> pre_media_stage(
                prepare_run_from(Stage::ConsentCheck, #[trigger] events.take(k), timeout_secs),
            ),
{
    assert forall|k: int|
        0 <= k <= events.len() implies pre_media_stage(
        prepare_run_from(Stage::ConsentCheck, #[trigger] events.take(k), timeout_secs),
    ) by {
        let taken = events.take(k);
        assert(forall|i: int| 0 <= i < taken.len() ==> #[trigger] taken[i] == events[i]);
        lemma_stalled_ads_from(Stage::ConsentCheck, taken, timeout_secs);
    }
}

} // verus!

use ytprep::consent::ConsentOutcome;
use ytprep::errors::PrepareError;
use ytprep::poll::PollOutcome;
use ytprep::stages::{
    diag_snapshot, is_terminal, prepare_step, run_prepare_trace, script_text, stage_action,
    ScriptId, Stage, StageAction, StageEvent,
};

#[test]
fn all_clear_scenario_reaches_ready() {
    // Ad flag false, media element present, media buffered and playing
    // from the first tick: every stage passes, no timeout.
    let end = run_prepare_trace(
        vec![
            StageEvent::ConsentResolved(ConsentOutcome::Resolved),
            StageEvent::PollFinished(PollOutcome::Met),
            StageEvent::PollFinished(PollOutcome::Met),
            StageEvent::ScriptRan,
            StageEvent::PollFinished(PollOutcome::Met),
            StageEvent::Slept,
            StageEvent::ScriptRan,
            StageEvent::Slept,
            StageEvent::ScriptRan,
            StageEvent::Slept,
        ],
        300,
    );
    assert_eq!(end, Stage::Ready);
    assert!(is_terminal(&end));
}

#[test]
fn stalled_ads_fail_with_timeout_in_message() {
    // The ad flag stays true through the whole deadline window.
    let end = run_prepare_trace(
        vec![
            StageEvent::ConsentResolved(ConsentOutcome::Resolved),
            StageEvent::PollFinished(PollOutcome::TimedOut),
        ],
        300,
    );
    assert_eq!(end, Stage::Failed(PrepareError::AdsTimedOut { timeout_secs: 300 }));
    // The media-wait and playback stages were never reached: the run is
    // terminal and asks for nothing further.
    assert_eq!(stage_action(&end, 300_000), StageAction::Finish);
    match end {
        Stage::Failed(e) => {
            let m = e.message();
            assert_eq!(m, "Timed out waiting for YouTube ads to finish (300s)");
            assert!(m.contains("300"));
        },
        _ => unreachable!(),
    }
}

#[test]
fn media_never_appears_fails_with_media_timeout() {
    let end = run_prepare_trace(
        vec![
            StageEvent::ConsentResolved(ConsentOutcome::Resolved),
            StageEvent::PollFinished(PollOutcome::Met),
            StageEvent::PollFinished(PollOutcome::TimedOut),
        ],
        120,
    );
    assert_eq!(end, Stage::Failed(PrepareError::MediaElementTimedOut { timeout_secs: 120 }));
    match end {
        Stage::Failed(e) => {
            assert_eq!(e.message(), "Timed out after 120s waiting for a <video> element");
        },
        _ => unreachable!(),
    }
}

#[test]
fn permanently_paused_playback_embeds_diagnostic() {
    // Media buffered but paused through the deadline: the confirm poll
    // times out, the diagnostic is captured, and the failure embeds it.
    let snapshot = "readyState=4 paused=true src=https://example.test/v.mp4";
    let end = run_prepare_trace(
        vec![
            StageEvent::ConsentResolved(ConsentOutcome::Resolved),
            StageEvent::PollFinished(PollOutcome::Met),
            StageEvent::PollFinished(PollOutcome::Met),
            StageEvent::ScriptRan,
            StageEvent::PollFinished(PollOutcome::TimedOut),
            StageEvent::DiagCaptured(String::from(snapshot)),
        ],
        60,
    );
    assert_eq!(
        end,
        Stage::Failed(
            PrepareError::PlaybackTimedOut { timeout_secs: 60, snapshot: String::from(snapshot) },
        ),
    );
    match end {
        Stage::Failed(e) => {
            let m = e.message();
            assert!(m.contains("paused=true"));
            assert!(m.contains("readyState=4"));
            assert_eq!(
                m,
                "Timed out after 60s waiting for video to play. State: \
                 readyState=4 paused=true src=https://example.test/v.mp4",
            );
        },
        _ => unreachable!(),
    }
}

#[test]
fn consent_failures_map_to_their_error_kinds() {
    let cookie = run_prepare_trace(
        vec![StageEvent::ConsentResolved(ConsentOutcome::CookieWriteFailed)],
        30,
    );
    assert_eq!(cookie, Stage::Failed(PrepareError::ConsentCookieInjectionFailed));
    let nav = run_prepare_trace(
        vec![StageEvent::ConsentResolved(ConsentOutcome::NavigationFailed)],
        30,
    );
    assert_eq!(nav, Stage::Failed(PrepareError::ConsentRenavigationFailed));
}

#[test]
fn stage_actions_follow_the_fixed_order() {
    let d = 90_000;
    assert_eq!(stage_action(&Stage::ConsentCheck, d), StageAction::ResolveConsent);
    assert_eq!(
        stage_action(&Stage::AdWait, d),
        StageAction::PollScript(ScriptId::AdShowing, false, d),
    );
    assert_eq!(
        stage_action(&Stage::MediaWait, d),
        StageAction::PollScript(ScriptId::VideoExists, true, d),
    );
    assert_eq!(stage_action(&Stage::PlaybackKick, d), StageAction::RunScript(ScriptId::KickPlayback));
    assert_eq!(
        stage_action(&Stage::PlaybackConfirm, d),
        StageAction::PollScript(ScriptId::PlayingConfirm, true, d),
    );
    assert_eq!(
        stage_action(&Stage::PlaybackDiag, d),
        StageAction::CaptureDiag(ScriptId::PlaybackDiag),
    );
    assert_eq!(stage_action(&Stage::FrameSettle, d), StageAction::SleepMs(500));
    assert_eq!(
        stage_action(&Stage::TheaterToggle, d),
        StageAction::RunScript(ScriptId::TheaterToggle),
    );
    assert_eq!(stage_action(&Stage::TheaterSettle, d), StageAction::SleepMs(500));
    assert_eq!(stage_action(&Stage::ControlsHide, d), StageAction::RunScript(ScriptId::HideControls));
    assert_eq!(stage_action(&Stage::ControlsSettle, d), StageAction::SleepMs(3000));
    assert_eq!(stage_action(&Stage::Ready, d), StageAction::Finish);
}

#[test]
fn every_poll_action_carries_the_entry_deadline() {
    // The three wait stages ask for polls bounded by the same deadline,
    // the one fixed at entry — never a fresh or extended one.
    for stage in [Stage::AdWait, Stage::MediaWait, Stage::PlaybackConfirm] {
        match stage_action(&stage, 42_000) {
            StageAction::PollScript(_, _, d) => assert_eq!(d, 42_000),
            a => panic!("expected a poll action, got {:?}", a),
        }
    }
}

#[test]
fn kick_and_settle_stages_cannot_fail() {
    // The kick advances whatever the evaluation did; so do the settle
    // steps: the driver reports ScriptRan for success and failure alike.
    let s = prepare_step(Stage::PlaybackKick, StageEvent::ScriptRan, 30);
    assert_eq!(s, Stage::PlaybackConfirm);
    let s = prepare_step(Stage::TheaterToggle, StageEvent::ScriptRan, 30);
    assert_eq!(s, Stage::TheaterSettle);
    let s = prepare_step(Stage::ControlsHide, StageEvent::ScriptRan, 30);
    assert_eq!(s, Stage::ControlsSettle);
}

#[test]
fn mismatched_events_change_nothing() {
    assert_eq!(prepare_step(Stage::AdWait, StageEvent::Slept, 30), Stage::AdWait);
    assert_eq!(
        prepare_step(Stage::Ready, StageEvent::PollFinished(PollOutcome::TimedOut), 30),
        Stage::Ready,
    );
}

#[test]
fn diag_snapshot_defaults_on_failure() {
    assert_eq!(diag_snapshot(Some(String::from("readyState=1 paused=false"))), "readyState=1 paused=false");
    assert_eq!(diag_snapshot(None), "unknown");
}

#[test]
fn script_texts_target_their_markers() {
    assert!(script_text(&ScriptId::AdShowing).contains("ad-showing"));
    assert!(script_text(&ScriptId::VideoExists).contains("video"));
    assert!(script_text(&ScriptId::KickPlayback).contains("playVideo"));
    assert!(script_text(&ScriptId::PlayingConfirm).contains("readyState>=3"));
    assert!(script_text(&ScriptId::PlaybackDiag).contains("readyState"));
    assert!(script_text(&ScriptId::TheaterToggle).contains("ytp-size-button"));
    assert!(script_text(&ScriptId::HideControls).contains("mouseleave"));
    assert!(script_text(&ScriptId::ConsentDetect).contains("consent"));
    assert!(script_text(&ScriptId::ConsentDetect).contains("Reject all"));
    assert!(script_text(&ScriptId::ConsentCookieWrite).contains("SOCS="));
    assert!(script_text(&ScriptId::ConsentCookieWrite).contains("CONSENT=YES"));
}

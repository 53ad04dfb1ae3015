use ytprep::consent::{
    consent_action, consent_preseed_cookies, consent_step, run_consent_trace, url_on_site,
    ConsentAction, ConsentEvent, ConsentOutcome, ConsentStage, CONSENT_COOKIE_LIFETIME_SECS,
};
use ytprep::poll::TickValue;

#[test]
fn no_dialog_is_a_noop() {
    // The probe reports no dialog: resolved at once, nothing asked of the
    // driver afterwards.
    let end = run_consent_trace(vec![ConsentEvent::DialogProbed(TickValue::Value(false))]);
    assert_eq!(end, ConsentStage::Done(ConsentOutcome::Resolved));
    assert_eq!(consent_action(&end), ConsentAction::Stop);
}

#[test]
fn failed_probe_counts_as_no_dialog() {
    let end = run_consent_trace(vec![ConsentEvent::DialogProbed(TickValue::Failure)]);
    assert_eq!(end, ConsentStage::Done(ConsentOutcome::Resolved));
}

#[test]
fn on_site_reinjection_navigates_exactly_once() {
    // Dialog present, URL still on the site: write cookies, then a single
    // navigation back to the target — no home-page hop.
    let s = ConsentStage::Detect;
    assert_eq!(consent_action(&s), ConsentAction::ProbeDialog);
    let s = consent_step(s, ConsentEvent::DialogProbed(TickValue::Value(true)));
    assert_eq!(consent_action(&s), ConsentAction::ReadLocation);
    let s = consent_step(
        s,
        ConsentEvent::LocationRead(String::from("https://www.youtube.com/watch?v=abc")),
    );
    assert_eq!(consent_action(&s), ConsentAction::WriteCookieScript);
    let s = consent_step(s, ConsentEvent::CookiesWritten(true));
    assert_eq!(consent_action(&s), ConsentAction::NavigateTarget);
    let s = consent_step(s, ConsentEvent::Navigated(true));
    assert_eq!(s, ConsentStage::Done(ConsentOutcome::Resolved));
}

#[test]
fn off_site_redirect_goes_home_first() {
    let s = consent_step(ConsentStage::Detect, ConsentEvent::DialogProbed(TickValue::Value(true)));
    let s = consent_step(
        s,
        ConsentEvent::LocationRead(String::from("https://consent.google.com/m?continue=x")),
    );
    assert_eq!(consent_action(&s), ConsentAction::NavigateHome);
    let s = consent_step(s, ConsentEvent::Navigated(true));
    assert_eq!(consent_action(&s), ConsentAction::WriteCookieScript);
}

#[test]
fn reinjection_always_ends_on_target() {
    // With or without the off-site hop, the resolved run's last action
    // was the navigation back to the target.
    let direct = run_consent_trace(vec![
        ConsentEvent::DialogProbed(TickValue::Value(true)),
        ConsentEvent::LocationRead(String::from("https://www.youtube.com/watch?v=abc")),
        ConsentEvent::CookiesWritten(true),
        ConsentEvent::Navigated(true),
    ]);
    assert_eq!(direct, ConsentStage::Done(ConsentOutcome::Resolved));
    let hopped = run_consent_trace(vec![
        ConsentEvent::DialogProbed(TickValue::Value(true)),
        ConsentEvent::LocationRead(String::from("https://consent.youtube.example")),
        ConsentEvent::Navigated(true),
        ConsentEvent::CookiesWritten(true),
        ConsentEvent::Navigated(true),
    ]);
    assert_eq!(hopped, ConsentStage::Done(ConsentOutcome::Resolved));
}

#[test]
fn failed_cookie_write_is_terminal() {
    let end = run_consent_trace(vec![
        ConsentEvent::DialogProbed(TickValue::Value(true)),
        ConsentEvent::LocationRead(String::from("https://www.youtube.com/watch?v=abc")),
        ConsentEvent::CookiesWritten(false),
    ]);
    assert_eq!(end, ConsentStage::Done(ConsentOutcome::CookieWriteFailed));
}

#[test]
fn failed_navigation_is_terminal() {
    let end = run_consent_trace(vec![
        ConsentEvent::DialogProbed(TickValue::Value(true)),
        ConsentEvent::LocationRead(String::from("https://www.youtube.com/watch?v=abc")),
        ConsentEvent::CookiesWritten(true),
        ConsentEvent::Navigated(false),
    ]);
    assert_eq!(end, ConsentStage::Done(ConsentOutcome::NavigationFailed));
}

#[test]
fn site_detection_by_domain_substring() {
    assert!(url_on_site("https://www.youtube.com/watch?v=abc"));
    assert!(url_on_site("https://consent.youtube.com/m"));
    assert!(!url_on_site("https://consent.google.com/m?continue=x"));
    assert!(!url_on_site(""));
}

#[test]
fn preseed_cookie_records() {
    let now = 1_700_000_000;
    let r = consent_preseed_cookies(now);
    assert_eq!(r.len(), 2);
    for c in &r {
        assert_eq!(c.name, "SOCS");
        assert_eq!(c.value, "CAISHAgCEhJnd3NfMjAyNDAxMTAtMF9SQzIaAmVuIAEaBgiA_LyaBg");
        assert_eq!(c.path, "/");
        assert!(c.secure);
        assert_eq!(c.expires_epoch_secs, now + CONSENT_COOKIE_LIFETIME_SECS);
    }
    assert_eq!(r[0].domain, ".youtube.com");
    assert_eq!(r[0].url, "https://www.youtube.com");
    assert_eq!(r[1].domain, ".google.com");
    assert_eq!(r[1].url, "https://www.google.com");
}

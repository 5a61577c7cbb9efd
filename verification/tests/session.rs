use toznyauth_pam::config::Config;
use toznyauth_pam::config::ConfigError;
use toznyauth_pam::config::TomlItem;
use toznyauth_pam::driver::Action;
use toznyauth_pam::driver::AuthError;
use toznyauth_pam::driver::Challenge;
use toznyauth_pam::driver::Driver;
use toznyauth_pam::driver::Event;
use toznyauth_pam::driver::Login;
use toznyauth_pam::driver::MessageKind;
use toznyauth_pam::driver::MessageStyle;
use toznyauth_pam::driver::Question;
use toznyauth_pam::driver::QuestionError;
use toznyauth_pam::driver::State;
use toznyauth_pam::driver::error_code;
use toznyauth_pam::driver::outcome_code;
use toznyauth_pam::driver::outcome_message;
use toznyauth_pam::driver::render_message;
use toznyauth_pam::driver::show_inline_qr;
use toznyauth_pam::driver::show_qr_url;
use toznyauth_pam::driver::PAM_AUTHINFO_UNAVAIL;
use toznyauth_pam::driver::PAM_AUTH_ERR;
use toznyauth_pam::driver::PAM_PERM_DENIED;
use toznyauth_pam::driver::PAM_SERVICE_ERR;
use toznyauth_pam::driver::PAM_SUCCESS;
use toznyauth_pam::presence::PresenceToken;

fn config(presence: bool, prompt: bool, qr: bool, mobile_url: bool) -> Config {
    Config {
        realm_key_id: "key-1".to_string(),
        api_url: "https://api.tozny.com/".to_string(),
        authorized_users: vec![TomlItem::Str("alice".to_string())],
        home_dir: "/home/u".to_string(),
        presence,
        prompt,
        qr,
        mobile_url,
    }
}

fn challenge() -> Challenge {
    Challenge {
        session_id: "sess-1".to_string(),
        presence: PresenceToken { token: "fresh-token".to_string() },
        qr_url: "https://api.tozny.com/qr".to_string(),
        mobile_url: "tozauth://challenge".to_string(),
    }
}

fn question() -> Question {
    Question { signed_data: "c2lnbmVk".to_string(), signature: "c2ln".to_string() }
}

fn login(user_id: &str) -> Login {
    Login { user_id: user_id.to_string(), user_display: "Alice Smith".to_string() }
}

/// Drives an attempt up to the polling state, visual delivery.
fn drive_to_polling(d: &mut Driver) {
    let a = d.step(Event::Begin);
    assert_eq!(
        a,
        Action::IssueChallenge {
            realm_key_id: "key-1".to_string(),
            api_url: "https://api.tozny.com/".to_string(),
        }
    );
    let a = d.step(Event::ChallengeResult(Ok(challenge())));
    assert_eq!(a, Action::Show { message: MessageKind::Visual });
    let a = d.step(Event::ShowDone(Ok(())));
    assert_eq!(a, Action::Poll { session_id: "sess-1".to_string(), wait_first: false });
}

#[test]
fn authorized_ready_response_is_granted_and_maps_to_success() {
    let mut d = Driver::new(config(false, false, true, true), 100);
    drive_to_polling(&mut d);
    let a = d.step(Event::PollResult(Ok(Some(question()))));
    assert_eq!(a, Action::Verify { signed_data: "c2lnbmVk".to_string() });
    let a = d.step(Event::VerifyResult(Ok(login("alice"))));
    assert_eq!(a, Action::Stop);
    assert_eq!(d.state, State::Done { outcome: Ok(login("alice")) });
    let outcome = Ok(login("alice"));
    assert_eq!(outcome_code(&outcome), PAM_SUCCESS);
    assert_eq!(
        outcome_message(&outcome, false),
        Some("Authenticated as Alice Smith".to_string())
    );
    assert_eq!(outcome_message(&outcome, true), None);
}

#[test]
fn unauthorized_identity_is_denied() {
    let mut d = Driver::new(config(false, false, true, true), 100);
    drive_to_polling(&mut d);
    d.step(Event::PollResult(Ok(Some(question()))));
    let a = d.step(Event::VerifyResult(Ok(login("mallory"))));
    assert_eq!(a, Action::Stop);
    assert_eq!(d.state, State::Done { outcome: Err(AuthError::NotAuthorized) });
    assert_eq!(outcome_code(&Err(AuthError::NotAuthorized)), PAM_PERM_DENIED);
}

#[test]
fn poll_ceiling_exhaustion_times_out() {
    let ttl: u32 = 100;
    let mut d = Driver::new(config(false, false, true, true), ttl);
    drive_to_polling(&mut d);
    // The first check spent no retry; each pending response consumes one.
    for _ in 0..ttl {
        let a = d.step(Event::PollResult(Ok(None)));
        assert_eq!(a, Action::Poll { session_id: "sess-1".to_string(), wait_first: true });
    }
    let a = d.step(Event::PollResult(Ok(None)));
    assert_eq!(a, Action::Stop);
    assert_eq!(d.state, State::Done { outcome: Err(AuthError::TimedOut) });
    assert_eq!(outcome_code(&Err(AuthError::TimedOut)), PAM_AUTHINFO_UNAVAIL);
}

#[test]
fn poll_failure_ends_the_attempt_unretried() {
    let mut d = Driver::new(config(false, false, true, true), 100);
    drive_to_polling(&mut d);
    let a = d.step(Event::PollResult(Err(QuestionError::Other("boom".to_string()))));
    assert_eq!(a, Action::Stop);
    assert_eq!(
        d.state,
        State::Done {
            outcome: Err(AuthError::QuestionError(QuestionError::Other("boom".to_string())))
        }
    );
}

#[test]
fn challenge_failure_ends_the_attempt() {
    let mut d = Driver::new(config(true, false, true, true), 100);
    d.step(Event::Begin);
    let a = d.step(Event::ChallengeResult(Err(QuestionError::Other("down".to_string()))));
    assert_eq!(a, Action::Stop);
    assert!(matches!(d.state, State::Done { .. }));
}

#[test]
fn presence_disabled_never_pushes() {
    let mut d = Driver::new(config(false, false, true, true), 100);
    d.step(Event::Begin);
    // Even though a token sits in the cache, no presence lookup and no push
    // is requested: delivery goes straight to the visual message.
    let a = d.step(Event::ChallengeResult(Ok(challenge())));
    assert_eq!(a, Action::Show { message: MessageKind::Visual });
    assert_eq!(d.state, State::Showing { challenge: challenge() });
}

#[test]
fn presence_enabled_pushes_and_refreshes_the_cache() {
    let mut d = Driver::new(config(true, false, true, true), 100);
    d.step(Event::Begin);
    let a = d.step(Event::ChallengeResult(Ok(challenge())));
    assert_eq!(a, Action::LoadPresence { home_dir: "/home/u".to_string() });
    let cached = PresenceToken { token: "old-token".to_string() };
    let a = d.step(Event::PresenceLoaded(Some(cached)));
    assert_eq!(
        a,
        Action::PushAndRefresh {
            session_id: "sess-1".to_string(),
            push_token: PresenceToken { token: "old-token".to_string() },
            refresh: PresenceToken { token: "fresh-token".to_string() },
        }
    );
    // The cache is refreshed whether or not the push succeeds.
    let a = d.step(Event::PushDone(true));
    assert_eq!(a, Action::Show { message: MessageKind::Push });
}

#[test]
fn presence_enabled_without_cached_token_still_refreshes() {
    let mut d = Driver::new(config(true, false, true, true), 100);
    d.step(Event::Begin);
    d.step(Event::ChallengeResult(Ok(challenge())));
    let a = d.step(Event::PresenceLoaded(None));
    assert_eq!(
        a,
        Action::RefreshAndShow {
            refresh: PresenceToken { token: "fresh-token".to_string() },
            message: MessageKind::Visual,
        }
    );
}

#[test]
fn failed_push_falls_back_to_visual_delivery() {
    let mut d = Driver::new(config(true, false, true, true), 100);
    d.step(Event::Begin);
    d.step(Event::ChallengeResult(Ok(challenge())));
    d.step(Event::PresenceLoaded(Some(PresenceToken { token: "old".to_string() })));
    let a = d.step(Event::PushDone(false));
    assert_eq!(a, Action::Show { message: MessageKind::Visual });
}

#[test]
fn event_that_does_not_belong_changes_nothing() {
    let mut d = Driver::new(config(false, false, true, true), 100);
    let a = d.step(Event::PushDone(true));
    assert_eq!(a, Action::Stop);
    assert_eq!(d.state, State::Start);
}

#[test]
fn error_codes_follow_the_outcome_table() {
    assert_eq!(error_code(&AuthError::ConfigError(ConfigError::ParseError)), PAM_AUTHINFO_UNAVAIL);
    assert_eq!(error_code(&AuthError::NotAuthorized), PAM_PERM_DENIED);
    assert_eq!(error_code(&AuthError::PamResult(12)), 12);
    assert_eq!(error_code(&AuthError::TimedOut), PAM_AUTHINFO_UNAVAIL);
    assert_eq!(error_code(&AuthError::QuestionError(QuestionError::InvalidSignature)), PAM_AUTH_ERR);
    assert_eq!(
        error_code(&AuthError::QuestionError(QuestionError::Other("x".to_string()))),
        PAM_SERVICE_ERR
    );
}

#[test]
fn error_messages_are_fixed() {
    assert_eq!(
        AuthError::NotAuthorized.message(),
        "You are not authorized to access this account."
    );
    assert_eq!(AuthError::TimedOut.message(), "Timed out waiting for user to authenticate.");
    assert_eq!(AuthError::PamResult(3).message(), "");
    assert_eq!(
        AuthError::QuestionError(QuestionError::InvalidSignature).message(),
        "Invalid signature."
    );
    assert_eq!(
        AuthError::ConfigError(ConfigError::NoHomeDir).message(),
        "Expected to find authorized file in home directory, but user has no home directory."
    );
}

#[test]
fn plain_url_message_names_the_qr_url() {
    let m = show_qr_url(&challenge());
    assert_eq!(
        m,
        "Open this URL, and scan the QR code with the Tozny app:\nhttps://api.tozny.com/qr"
    );
}

#[test]
fn inline_message_contains_a_rendered_code() {
    let m = show_inline_qr(&challenge());
    // A real encoding happened: the message holds half-block glyphs and the
    // fallback URL text is only the trailer.
    assert!(m.starts_with("\n"));
    assert!(m.contains("\u{2580}"));
    assert!(m.contains("\nScan the code above with the Tozny app. "));
    assert!(m.ends_with("open this URL:\nhttps://api.tozny.com/qr"));
}

#[test]
fn rendered_message_obeys_prompt_and_mobile_flags() {
    let c = config(false, true, false, true);
    let (style, text) = render_message(&c, &challenge(), MessageKind::Visual);
    assert_eq!(style, MessageStyle::MaskedPrompt);
    assert_eq!(
        text,
        "Open this URL, and scan the QR code with the Tozny app:\nhttps://api.tozny.com/qr\n\n\
         If you are on your mobile device, use this URL to invoke the Tozny app:\ntozauth://challenge\
         \n\nPress Enter at any time:"
    );
    let quiet = config(false, false, false, false);
    let (style2, text2) = render_message(&quiet, &challenge(), MessageKind::Push);
    assert_eq!(style2, MessageStyle::Info);
    assert_eq!(text2, "Check your phone for a push notification from Tozny.");
}

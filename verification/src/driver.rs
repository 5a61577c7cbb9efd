use vstd::prelude::*;

use crate::config::Config;
use crate::config::spec_is_authorized;
use crate::matrix::BitMatrix;
use crate::presence::PresenceToken;
use crate::qr_term::concat_all;
use crate::qr_term::output_unicode;
use crate::qr_term::join_lines;
use crate::qr_term::spec_uni_line;
use crate::qr_term::spec_uni_line_count;
use vstd::string::StringExecFns;

verus! {

// ---------------------------------------------------------------------------
// One authentication attempt, driven as a state machine.  Every outside
// effect — the remote API calls, the cache file, the host conversation, the
// one-second wait between polls — is performed by the calling program, which
// feeds each result back as an event; every decision between them is taken
// here and verified.
// ---------------------------------------------------------------------------

/// The decoded, signature-verified payload proving that the remote party
/// completed the challenge.
#[derive(Debug, PartialEq, Eq)]
pub struct Login {
    pub user_id: String,
    pub user_display: String,
}

/// A server-issued challenge identifying one authentication attempt.
#[derive(Debug, PartialEq, Eq)]
pub struct Challenge {
    pub session_id: String,
    pub presence: PresenceToken,
    pub qr_url: String,
    pub mobile_url: String,
}

impl Challenge {
    /// A copy equal to this challenge.
    pub fn duplicate(&self) -> (r: Challenge)
        ensures
            r == *self,
    {
        Challenge {
            session_id: self.session_id.clone(),
            presence: self.presence.duplicate(),
            qr_url: self.qr_url.clone(),
            mobile_url: self.mobile_url.clone(),
        }
    }
}

/// A signed message returned by the session-status poll.
#[derive(Debug, PartialEq, Eq)]
pub struct Question {
    pub signed_data: String,
    pub signature: String,
}

/// A failure of the remote API or of response validation.  Only a bad
/// signature is a genuine authentication failure; every other failure
/// carries its description and is treated as a service fault.
#[derive(Debug, PartialEq, Eq)]
pub enum QuestionError {
    InvalidSignature,
    Other(String),
}

/// Everything that can end an attempt without a grant.
#[derive(Debug, PartialEq, Eq)]
pub enum AuthError {
    ConfigError(crate::config::ConfigError),
    NotAuthorized,
    PamResult(i32),
    TimedOut,
    QuestionError(QuestionError),
}

pub open spec fn spec_question_error_message(e: QuestionError) -> Seq<char> {
    match e {
        QuestionError::InvalidSignature => "Invalid signature."@,
        QuestionError::Other(m) => m@,
    }
}

pub open spec fn spec_auth_error_message(e: AuthError) -> Seq<char> {
    match e {
        AuthError::ConfigError(ce) => crate::config::spec_config_error_message(ce),
        AuthError::NotAuthorized => "You are not authorized to access this account."@,
        AuthError::PamResult(_) => ""@,
        AuthError::TimedOut => "Timed out waiting for user to authenticate."@,
        AuthError::QuestionError(qe) => spec_question_error_message(qe),
    }
}

impl AuthError {
    /// The user-visible description of this error; host result codes pass
    /// through silently.
    pub fn message(&self) -> (r: String)
        ensures
            r@ == spec_auth_error_message(*self),
    {
        match self {
            AuthError::ConfigError(ce) => ce.message(),
            AuthError::NotAuthorized => String::from_str(
                "You are not authorized to access this account.",
            ),
            AuthError::PamResult(_) => {
                let r = String::new();
                proof {
                    reveal_strlit("");
                }
                r
            },
            AuthError::TimedOut => String::from_str("Timed out waiting for user to authenticate."),
            AuthError::QuestionError(qe) => match qe {
                QuestionError::InvalidSignature => String::from_str("Invalid signature."),
                QuestionError::Other(m) => m.clone(),
            },
        }
    }
}

// ---------------------------------------------------------------------------
// Host result codes
// ---------------------------------------------------------------------------

pub const PAM_SUCCESS: i32 = 0;

pub const PAM_SERVICE_ERR: i32 = 3;

pub const PAM_PERM_DENIED: i32 = 6;

pub const PAM_AUTH_ERR: i32 = 7;

pub const PAM_AUTHINFO_UNAVAIL: i32 = 9;

/// Configuration errors and timeouts are "service unavailable"; an
/// unauthorized identity is "permission denied"; a bad signature alone is an
/// authentication error, any other validation failure a generic service
/// error; host codes pass through verbatim.
pub open spec fn spec_error_code(e: AuthError) -> i32 {
    match e {
        AuthError::ConfigError(_) => PAM_AUTHINFO_UNAVAIL,
        AuthError::NotAuthorized => PAM_PERM_DENIED,
        AuthError::PamResult(code) => code,
        AuthError::TimedOut => PAM_AUTHINFO_UNAVAIL,
        AuthError::QuestionError(qe) => match qe {
            QuestionError::InvalidSignature => PAM_AUTH_ERR,
            QuestionError::Other(_) => PAM_SERVICE_ERR,
        },
    }
}

/// Maps a terminal failure to the host's result code.
pub fn error_code(err: &AuthError) -> (r: i32)
    ensures
        r == spec_error_code(*err),
{
    match err {
        AuthError::ConfigError(_) => PAM_AUTHINFO_UNAVAIL,
        AuthError::NotAuthorized => PAM_PERM_DENIED,
        AuthError::PamResult(code) => *code,
        AuthError::TimedOut => PAM_AUTHINFO_UNAVAIL,
        AuthError::QuestionError(qe) => match qe {
            QuestionError::InvalidSignature => PAM_AUTH_ERR,
            QuestionError::Other(_) => PAM_SERVICE_ERR,
        },
    }
}

pub open spec fn spec_outcome_code(o: Result<Login, AuthError>) -> i32 {
    match o {
        Result::Ok(_) => PAM_SUCCESS,
        Result::Err(e) => spec_error_code(e),
    }
}

/// Maps the attempt's outcome to the host's result code.
pub fn outcome_code(o: &Result<Login, AuthError>) -> (r: i32)
    ensures
        r == spec_outcome_code(*o),
{
    match o {
        Result::Ok(_) => PAM_SUCCESS,
        Result::Err(e) => error_code(e),
    }
}

pub open spec fn spec_success_message(l: Login) -> Seq<char> {
    "Authenticated as "@ + l.user_display@
}

/// The message shown for the attempt's outcome, suppressed entirely when
/// the host requested silence.
pub fn outcome_message(o: &Result<Login, AuthError>, silent: bool) -> (r: Option<String>)
    ensures
        silent ==> r is None,
        !silent ==> (r matches Some(m) && m@ == (match *o {
            Result::Ok(l) => spec_success_message(l),
            Result::Err(e) => spec_auth_error_message(e),
        })),
{
    if silent {
        return Option::None;
    }
    match o {
        Result::Ok(l) => {
            let mut m = String::from_str("Authenticated as ");
            m.append(l.user_display.as_str());
            Option::Some(m)
        },
        Result::Err(e) => Option::Some(e.message()),
    }
}

// ---------------------------------------------------------------------------
// The terminal message shown when delivery is visual or push
// ---------------------------------------------------------------------------

/// The module grid a QR encoding of a text yields, or nothing when the text
/// cannot be encoded.
pub uninterp spec fn qr_modules_of(data: Seq<char>) -> Option<BitMatrix>;

/// Relies on qrcode::QrCode::new and QrCode::to_colors: the module grid is
/// square (width by width, row-major) and a function of the data alone.
#[verifier::external_body]
fn qr_encode(data: &str) -> (r: Option<BitMatrix>)
    ensures
        match r {
            Option::Some(m) => qr_modules_of(data@) == Option::Some(m) && m.wf(),
            Option::None => qr_modules_of(data@) is None,
        },
{
    let code = match qrcode::QrCode::new(data.as_bytes()) {
        Ok(c) => c,
        Err(_) => return None,
    };
    let side = code.width();
    let bits: Vec<bool> = code.to_colors().into_iter().map(|c| c == qrcode::Color::Dark).collect();
    Some(BitMatrix { side, bits })
}

/// How a message is presented by the host: a plain notice, a masked prompt
/// (used when an explicit Enter is requested), or an error notice.
#[derive(Clone, Copy, Debug, PartialEq, Eq)]
pub enum MessageStyle {
    Info,
    MaskedPrompt,
    Error,
}

/// Which of the two delivery messages is to be rendered.
#[derive(Clone, Copy, Debug, PartialEq, Eq)]
pub enum MessageKind {
    Push,
    Visual,
}

pub open spec fn spec_push_text() -> Seq<char> {
    "Check your phone for a push notification from Tozny."@
}

pub open spec fn spec_qr_pad() -> Seq<char> {
    "        "@
}

/// The whole Unicode rendering of a grid, lines joined.
pub open spec fn spec_uni_render(m: BitMatrix, pad: Seq<char>) -> Seq<char> {
    concat_all(
        Seq::new(spec_uni_line_count(m.side as nat), |i: int| spec_uni_line(m, pad, i)),
    )
}

pub open spec fn spec_qr_url_text(ch: Challenge) -> Seq<char> {
    "Open this URL, and scan the QR code with the Tozny app:\n"@ + ch.qr_url@
}

/// The inline rendering of the challenge's code, or the plain URL text when
/// the challenge's data cannot be encoded.
pub open spec fn spec_inline_qr_text(ch: Challenge) -> Seq<char> {
    match qr_modules_of(ch.mobile_url@) {
        Option::Some(m) => "\n"@ + spec_uni_render(m, spec_qr_pad())
            + "\nScan the code above with the Tozny app. Or if the code does not display correctly, open this URL:\n"@
            + ch.qr_url@,
        Option::None => spec_qr_url_text(ch),
    }
}

/// The visual delivery message: the inline code or the plain URL, followed
/// by the mobile deep link when that is enabled.
pub open spec fn spec_visual_body(c: Config, ch: Challenge) -> Seq<char> {
    (if c.qr {
        spec_inline_qr_text(ch)
    } else {
        spec_qr_url_text(ch)
    }) + if c.mobile_url {
        "\n\nIf you are on your mobile device, use this URL to invoke the Tozny app:\n"@
            + ch.mobile_url@
    } else {
        Seq::<char>::empty()
    }
}

pub open spec fn spec_message_body(c: Config, ch: Challenge, kind: MessageKind) -> Seq<char> {
    match kind {
        MessageKind::Push => spec_push_text(),
        MessageKind::Visual => spec_visual_body(c, ch),
    }
}

/// A prompting configuration suffixes every message with an explicit
/// request to press Enter and presents it as a masked prompt.
pub open spec fn spec_final_message(c: Config, body: Seq<char>) -> Seq<char> {
    if c.prompt {
        body + "\n\nPress Enter at any time:"@
    } else {
        body
    }
}

pub open spec fn spec_style(c: Config) -> MessageStyle {
    if c.prompt {
        MessageStyle::MaskedPrompt
    } else {
        MessageStyle::Info
    }
}

/// The plain URL message of a challenge.
pub fn show_qr_url(ch: &Challenge) -> (r: String)
    ensures
        r@ == spec_qr_url_text(*ch),
{
    let mut m = String::from_str("Open this URL, and scan the QR code with the Tozny app:\n");
    m.append(ch.qr_url.as_str());
    m
}

/// The inline-code message of a challenge.
pub fn show_inline_qr(ch: &Challenge) -> (r: String)
    ensures
        r@ == spec_inline_qr_text(*ch),
{
    let code = match qr_encode(ch.mobile_url.as_str()) {
        Option::Some(m) => m,
        Option::None => {
            return show_qr_url(ch);
        },
    };
    let lines = output_unicode(&code, "        ");
    let rendering = join_lines(&lines);
    proof {
        assert(lines@.map_values(|l: String| l@) =~= Seq::new(
            spec_uni_line_count(code.side as nat),
            |i: int| spec_uni_line(code, spec_qr_pad(), i),
        ));
    }
    let mut m = String::from_str("\n");
    m.append(rendering.as_str());
    m.append(
        "\nScan the code above with the Tozny app. Or if the code does not display correctly, open this URL:\n",
    );
    m.append(ch.qr_url.as_str());
    m
}

/// The visual delivery message of a challenge under a configuration.
pub fn show_qr(c: &Config, ch: &Challenge) -> (r: String)
    ensures
        r@ == spec_visual_body(*c, *ch),
{
    let mut m = if c.qr {
        show_inline_qr(ch)
    } else {
        show_qr_url(ch)
    };
    if c.mobile_url {
        m.append("\n\nIf you are on your mobile device, use this URL to invoke the Tozny app:\n");
        m.append(ch.mobile_url.as_str());
    }
    assert(m@ =~= spec_visual_body(*c, *ch));
    m
}

/// The push delivery notice.
pub fn show_push() -> (r: String)
    ensures
        r@ == spec_push_text(),
{
    String::from_str("Check your phone for a push notification from Tozny.")
}

/// Finishes a message for presentation: appends the Enter request and
/// chooses the masked-prompt style when prompting is configured.
pub fn interact(c: &Config, body: String) -> (r: (MessageStyle, String))
    ensures
        r.0 == spec_style(*c),
        r.1@ == spec_final_message(*c, body@),
{
    let mut m = body;
    if c.prompt {
        m.append("\n\nPress Enter at any time:");
        (MessageStyle::MaskedPrompt, m)
    } else {
        (MessageStyle::Info, m)
    }
}

/// Renders the message an action asks to show, final form and style.
pub fn render_message(c: &Config, ch: &Challenge, kind: MessageKind) -> (r: (
    MessageStyle,
    String,
))
    ensures
        r.0 == spec_style(*c),
        r.1@ == spec_final_message(*c, spec_message_body(*c, *ch, kind)),
{
    let body = match kind {
        MessageKind::Push => show_push(),
        MessageKind::Visual => show_qr(c, ch),
    };
    interact(c, body)
}

// ---------------------------------------------------------------------------
// The state machine
// ---------------------------------------------------------------------------

/// Where one attempt stands.
#[derive(Debug, PartialEq, Eq)]
pub enum State {
    Start,
    Issuing,
    Deciding { challenge: Challenge },
    Pushing { challenge: Challenge },
    Showing { challenge: Challenge },
    Polling { challenge: Challenge, remaining: u32 },
    Verifying { challenge: Challenge },
    Done { outcome: Result<Login, AuthError> },
}

/// What the calling program reports back after performing an action.
#[derive(Debug, PartialEq, Eq)]
pub enum Event {
    Begin,
    ChallengeResult(Result<Challenge, QuestionError>),
    PresenceLoaded(Option<PresenceToken>),
    PushDone(bool),
    ShowDone(Result<(), i32>),
    PollResult(Result<Option<Question>, QuestionError>),
    VerifyResult(Result<Login, QuestionError>),
}

/// What the calling program is asked to do next.  `Stop` means the attempt
/// is over (or the event did not belong to the current state).
#[derive(Debug, PartialEq, Eq)]
pub enum Action {
    IssueChallenge { realm_key_id: String, api_url: String },
    LoadPresence { home_dir: String },
    PushAndRefresh { session_id: String, push_token: PresenceToken, refresh: PresenceToken },
    RefreshAndShow { refresh: PresenceToken, message: MessageKind },
    Show { message: MessageKind },
    Poll { session_id: String, wait_first: bool },
    Verify { signed_data: String },
    Stop,
}

/// The transition table: the next state and the action the calling program
/// is to perform, given where the attempt stands and what just happened.
/// An event that does not belong to the current state changes nothing.
pub open spec fn spec_step(c: Config, ttl: u32, s: State, e: Event) -> (State, Action) {
    match (s, e) {
        (State::Start, Event::Begin) => (
            State::Issuing,
            Action::IssueChallenge { realm_key_id: c.realm_key_id, api_url: c.api_url },
        ),
        (State::Issuing, Event::ChallengeResult(res)) => match res {
            Result::Ok(ch) => if c.presence {
                (State::Deciding { challenge: ch }, Action::LoadPresence { home_dir: c.home_dir })
            } else {
                (State::Showing { challenge: ch }, Action::Show { message: MessageKind::Visual })
            },
            Result::Err(qe) => (
                State::Done { outcome: Result::Err(AuthError::QuestionError(qe)) },
                Action::Stop,
            ),
        },
        (State::Deciding { challenge }, Event::PresenceLoaded(cached)) => match cached {
            Option::Some(tok) => (
                State::Pushing { challenge },
                Action::PushAndRefresh {
                    session_id: challenge.session_id,
                    push_token: tok,
                    refresh: challenge.presence,
                },
            ),
            Option::None => (
                State::Showing { challenge },
                Action::RefreshAndShow {
                    refresh: challenge.presence,
                    message: MessageKind::Visual,
                },
            ),
        },
        (State::Pushing { challenge }, Event::PushDone(ok)) => (
            State::Showing { challenge },
            Action::Show {
                message: if ok {
                    MessageKind::Push
                } else {
                    MessageKind::Visual
                },
            },
        ),
        (State::Showing { challenge }, Event::ShowDone(res)) => match res {
            Result::Ok(_) => (
                State::Polling { challenge, remaining: ttl },
                Action::Poll { session_id: challenge.session_id, wait_first: false },
            ),
            Result::Err(code) => (
                State::Done { outcome: Result::Err(AuthError::PamResult(code)) },
                Action::Stop,
            ),
        },
        (State::Polling { challenge, remaining }, Event::PollResult(res)) => match res {
            Result::Ok(opt) => match opt {
                Option::Some(q) => (
                    State::Verifying { challenge },
                    Action::Verify { signed_data: q.signed_data },
                ),
                Option::None => if remaining > 0 {
                    (
                        State::Polling { challenge, remaining: (remaining - 1) as u32 },
                        Action::Poll { session_id: challenge.session_id, wait_first: true },
                    )
                } else {
                    (State::Done { outcome: Result::Err(AuthError::TimedOut) }, Action::Stop)
                },
            },
            Result::Err(qe) => (
                State::Done { outcome: Result::Err(AuthError::QuestionError(qe)) },
                Action::Stop,
            ),
        },
        (State::Verifying { challenge: _ }, Event::VerifyResult(res)) => match res {
            Result::Ok(login) => if spec_is_authorized(c, login.user_id@) {
                (State::Done { outcome: Result::Ok(login) }, Action::Stop)
            } else {
                (State::Done { outcome: Result::Err(AuthError::NotAuthorized) }, Action::Stop)
            },
            Result::Err(qe) => (
                State::Done { outcome: Result::Err(AuthError::QuestionError(qe)) },
                Action::Stop,
            ),
        },
        (s0, _) => (s0, Action::Stop),
    }
}

/// One attempt's driver: its configuration, its retry ceiling, and where it
/// stands.  The default ceiling is `POLL_TTL` retries, one second apart.
#[derive(Debug, PartialEq, Eq)]
pub struct Driver {
    pub config: Config,
    pub ttl: u32,
    pub state: State,
}

/// The default poll retry ceiling.
pub const POLL_TTL: u32 = 100;

impl Driver {
    pub fn new(config: Config, ttl: u32) -> (r: Driver)
        ensures
            r.config == config,
            r.ttl == ttl,
            r.state is Start,
    {
        Driver { config, ttl, state: State::Start }
    }

    /// Advances the attempt by one event, exactly as the transition table
    /// says; the configuration and the ceiling never change.
    pub fn step(&mut self, event: Event) -> (r: Action)
        ensures
            final(self).config == old(self).config,
            final(self).ttl == old(self).ttl,
            (final(self).state, r) == spec_step(
                old(self).config,
                old(self).ttl,
                old(self).state,
                event,
            ),
    {
        let stepped: Option<(State, Action)> = match (&self.state, event) {
            (State::Start, Event::Begin) => Option::Some(
                (
                    State::Issuing,
                    Action::IssueChallenge {
                        realm_key_id: self.config.realm_key_id.clone(),
                        api_url: self.config.api_url.clone(),
                    },
                ),
            ),
            (State::Issuing, Event::ChallengeResult(res)) => Option::Some(
                match res {
                    Result::Ok(ch) => if self.config.presence {
                        (
                            State::Deciding { challenge: ch },
                            Action::LoadPresence { home_dir: self.config.home_dir.clone() },
                        )
                    } else {
                        (
                            State::Showing { challenge: ch },
                            Action::Show { message: MessageKind::Visual },
                        )
                    },
                    Result::Err(qe) => (
                        State::Done { outcome: Result::Err(AuthError::QuestionError(qe)) },
                        Action::Stop,
                    ),
                },
            ),
            (State::Deciding { challenge }, Event::PresenceLoaded(cached)) => Option::Some(
                match cached {
                    Option::Some(tok) => (
                        State::Pushing { challenge: challenge.duplicate() },
                        Action::PushAndRefresh {
                            session_id: challenge.session_id.clone(),
                            push_token: tok,
                            refresh: challenge.presence.duplicate(),
                        },
                    ),
                    Option::None => (
                        State::Showing { challenge: challenge.duplicate() },
                        Action::RefreshAndShow {
                            refresh: challenge.presence.duplicate(),
                            message: MessageKind::Visual,
                        },
                    ),
                },
            ),
            (State::Pushing { challenge }, Event::PushDone(ok)) => Option::Some(
                (
                    State::Showing { challenge: challenge.duplicate() },
                    Action::Show {
                        message: if ok {
                            MessageKind::Push
                        } else {
                            MessageKind::Visual
                        },
                    },
                ),
            ),
            (State::Showing { challenge }, Event::ShowDone(res)) => Option::Some(
                match res {
                    Result::Ok(_) => (
                        State::Polling { challenge: challenge.duplicate(), remaining: self.ttl },
                        Action::Poll {
                            session_id: challenge.session_id.clone(),
                            wait_first: false,
                        },
                    ),
                    Result::Err(code) => (
                        State::Done { outcome: Result::Err(AuthError::PamResult(code)) },
                        Action::Stop,
                    ),
                },
            ),
            (State::Polling { challenge, remaining }, Event::PollResult(res)) => Option::Some(
                match res {
                    Result::Ok(opt) => match opt {
                        Option::Some(q) => (
                            State::Verifying { challenge: challenge.duplicate() },
                            Action::Verify { signed_data: q.signed_data },
                        ),
                        Option::None => if *remaining > 0 {
                            (
                                State::Polling {
                                    challenge: challenge.duplicate(),
                                    remaining: *remaining - 1,
                                },
                                Action::Poll {
                                    session_id: challenge.session_id.clone(),
                                    wait_first: true,
                                },
                            )
                        } else {
                            (
                                State::Done { outcome: Result::Err(AuthError::TimedOut) },
                                Action::Stop,
                            )
                        },
                    },
                    Result::Err(qe) => (
                        State::Done { outcome: Result::Err(AuthError::QuestionError(qe)) },
                        Action::Stop,
                    ),
                },
            ),
            (State::Verifying { challenge: _ }, Event::VerifyResult(res)) => Option::Some(
                match res {
                    Result::Ok(login) => if self.config.is_authorized(&login) {
                        (State::Done { outcome: Result::Ok(login) }, Action::Stop)
                    } else {
                        (
                            State::Done { outcome: Result::Err(AuthError::NotAuthorized) },
                            Action::Stop,
                        )
                    },
                    Result::Err(qe) => (
                        State::Done { outcome: Result::Err(AuthError::QuestionError(qe)) },
                        Action::Stop,
                    ),
                },
            ),
            (_, _) => Option::None,
        };
        match stepped {
            Option::Some((next, act)) => {
                self.state = next;
                act
            },
            Option::None => Action::Stop,
        }
    }
}

// ---------------------------------------------------------------------------
// Runs of the machine
// ---------------------------------------------------------------------------

/// The state after feeding a sequence of events.
pub open spec fn spec_run(c: Config, ttl: u32, s: State, evs: Seq<Event>) -> State
    decreases evs.len(),
{
    if evs.len() == 0 {
        s
    } else {
        spec_run(c, ttl, spec_step(c, ttl, s, evs[0]).0, evs.drop_first())
    }
}

/// From a delivered challenge, a ready validly-signed response naming an
/// authorized identity ends the attempt granted, and the outcome maps to
/// the host's success code.
pub proof fn lemma_authorized_granted(c: Config, ttl: u32, ch: Challenge, q: Question, login: Login)
    requires
        spec_is_authorized(c, login.user_id@),
    ensures
        spec_run(
            c,
            ttl,
            State::Showing { challenge: ch },
            seq![
                Event::ShowDone(Result::Ok(())),
                Event::PollResult(Result::Ok(Option::Some(q))),
                Event::VerifyResult(Result::Ok(login)),
            ],
        ) == (State::Done { outcome: Result::Ok(login) }),
        spec_outcome_code(Result::Ok(login)) == PAM_SUCCESS,
{
    let evs = seq![
        Event::ShowDone(Result::Ok(())),
        Event::PollResult(Result::Ok(Option::Some(q))),
        Event::VerifyResult(Result::Ok(login)),
    ];
    let s0 = State::Showing { challenge: ch };
    let e1 = evs.drop_first();
    let e2 = e1.drop_first();
    let e3 = e2.drop_first();
    let s1 = spec_step(c, ttl, s0, evs[0]).0;
    let s2 = spec_step(c, ttl, s1, e1[0]).0;
    let s3 = spec_step(c, ttl, s2, e2[0]).0;
    assert(e1[0] == evs[1] && e2[0] == evs[2] && e3.len() == 0);
    assert(s1 == State::Polling { challenge: ch, remaining: ttl });
    assert(s2 == State::Verifying { challenge: ch });
    assert(s3 == State::Done { outcome: Result::Ok(login) });
    assert(spec_run(c, ttl, s0, evs) == spec_run(c, ttl, s1, e1));
    assert(spec_run(c, ttl, s1, e1) == spec_run(c, ttl, s2, e2));
    assert(spec_run(c, ttl, s2, e2) == spec_run(c, ttl, s3, e3));
    assert(spec_run(c, ttl, s3, e3) == s3);
}

/// The same run for an identity absent from the authorized set ends the
/// attempt not authorized, and the outcome maps to permission denied.
pub proof fn lemma_unauthorized_denied(c: Config, ttl: u32, ch: Challenge, q: Question, login: Login)
    requires
        !spec_is_authorized(c, login.user_id@),
    ensures
        spec_run(
            c,
            ttl,
            State::Showing { challenge: ch },
            seq![
                Event::ShowDone(Result::Ok(())),
                Event::PollResult(Result::Ok(Option::Some(q))),
                Event::VerifyResult(Result::Ok(login)),
            ],
        ) == (State::Done { outcome: Result::Err(AuthError::NotAuthorized) }),
        spec_outcome_code(Result::Err(AuthError::NotAuthorized)) == PAM_PERM_DENIED,
{
    let evs = seq![
        Event::ShowDone(Result::Ok(())),
        Event::PollResult(Result::Ok(Option::Some(q))),
        Event::VerifyResult(Result::Ok(login)),
    ];
    let s0 = State::Showing { challenge: ch };
    let e1 = evs.drop_first();
    let e2 = e1.drop_first();
    let e3 = e2.drop_first();
    let s1 = spec_step(c, ttl, s0, evs[0]).0;
    let s2 = spec_step(c, ttl, s1, e1[0]).0;
    let s3 = spec_step(c, ttl, s2, e2[0]).0;
    assert(e1[0] == evs[1] && e2[0] == evs[2] && e3.len() == 0);
    assert(s1 == State::Polling { challenge: ch, remaining: ttl });
    assert(s2 == State::Verifying { challenge: ch });
    assert(s3 == State::Done { outcome: Result::Err(AuthError::NotAuthorized) });
    assert(spec_run(c, ttl, s0, evs) == spec_run(c, ttl, s1, e1));
    assert(spec_run(c, ttl, s1, e1) == spec_run(c, ttl, s2, e2));
    assert(spec_run(c, ttl, s2, e2) == spec_run(c, ttl, s3, e3));
    assert(spec_run(c, ttl, s3, e3) == s3);
}

/// A poll with `remaining` retries left times out after exactly
/// `remaining + 1` consecutive pending responses: one more pending response
/// than retries, since the first check spends no retry.
pub proof fn lemma_poll_timeout(c: Config, ttl: u32, ch: Challenge, remaining: u32, evs: Seq<Event>)
    requires
        evs.len() == remaining + 1,
        forall|i: int|
            0 <= i < evs.len() ==> evs[i] == Event::PollResult(
                Result::Ok(Option::None::<Question>),
            ),
    ensures
        spec_run(c, ttl, State::Polling { challenge: ch, remaining }, evs) == (State::Done {
            outcome: Result::Err(AuthError::TimedOut),
        }),
    decreases remaining,
{
    let s0 = State::Polling { challenge: ch, remaining };
    let s1 = spec_step(c, ttl, s0, evs[0]).0;
    assert(evs[0] == Event::PollResult(Result::Ok(Option::None::<Question>)));
    assert(spec_run(c, ttl, s0, evs) == spec_run(c, ttl, s1, evs.drop_first()));
    if remaining == 0 {
        assert(s1 == State::Done { outcome: Result::Err(AuthError::TimedOut) });
        assert(evs.drop_first().len() == 0);
        assert(spec_run(c, ttl, s1, evs.drop_first()) == s1);
    } else {
        assert(s1 == State::Polling { challenge: ch, remaining: (remaining - 1) as u32 });
        assert(forall|i: int|
            0 <= i < evs.drop_first().len() ==> evs.drop_first()[i] == Event::PollResult(
                Result::Ok(Option::None::<Question>),
            ));
        lemma_poll_timeout(c, ttl, ch, (remaining - 1) as u32, evs.drop_first());
    }
}

/// Until the ceiling is exhausted, pending responses keep the attempt
/// polling with one retry fewer each time.
pub proof fn lemma_poll_pending_counts_down(c: Config, ttl: u32, ch: Challenge, remaining: u32)
    requires
        remaining > 0,
    ensures
        spec_step(
            c,
            ttl,
            State::Polling { challenge: ch, remaining },
            Event::PollResult(Result::Ok(Option::None::<Question>)),
        ) == (
            State::Polling { challenge: ch, remaining: (remaining - 1) as u32 },
            Action::Poll { session_id: ch.session_id, wait_first: true },
        ),
{
}

/// States from which no push can ever be requested.
pub open spec fn spec_push_free_state(s: State) -> bool {
    !(s is Deciding) && !(s is Pushing)
}

/// With presence disabled, one step from a push-free state never requests a
/// push, never enters a pushing state, and delivers a fresh challenge
/// visually.
pub proof fn lemma_no_presence_no_push_step(c: Config, ttl: u32, s: State, e: Event)
    requires
        !c.presence,
        spec_push_free_state(s),
    ensures
        spec_push_free_state(spec_step(c, ttl, s, e).0),
        !(spec_step(c, ttl, s, e).1 is PushAndRefresh),
        !(spec_step(c, ttl, s, e).1 is RefreshAndShow),
        (s is Issuing && (e matches Event::ChallengeResult(res) && res is Ok)) ==> spec_step(
            c,
            ttl,
            s,
            e,
        ).1 == (Action::Show { message: MessageKind::Visual }),
{
}

/// With presence disabled, no step of any run from the start requests a
/// push or touches the cache: delivery is always visual.
pub proof fn lemma_no_presence_no_push(c: Config, ttl: u32, s: State, evs: Seq<Event>, k: int)
    requires
        !c.presence,
        spec_push_free_state(s),
        0 <= k < evs.len(),
    ensures
        !(spec_step(c, ttl, spec_run(c, ttl, s, evs.take(k)), evs[k]).1 is PushAndRefresh),
        !(spec_step(c, ttl, spec_run(c, ttl, s, evs.take(k)), evs[k]).1 is RefreshAndShow),
    decreases k,
{
    if k == 0 {
        assert(evs.take(0).len() == 0);
        lemma_no_presence_no_push_step(c, ttl, s, evs[0]);
    } else {
        let s1 = spec_step(c, ttl, s, evs[0]).0;
        lemma_no_presence_no_push_step(c, ttl, s, evs[0]);
        lemma_no_presence_no_push(c, ttl, s1, evs.drop_first(), k - 1);
        assert(evs.take(k).drop_first() =~= evs.drop_first().take(k - 1));
        assert(spec_run(c, ttl, s, evs.take(k)) == spec_run(
            c,
            ttl,
            s1,
            evs.drop_first().take(k - 1),
        ));
        assert(evs.drop_first()[k - 1] == evs[k]);
    }
}

} // verus!

//! Tests of the PAM authentication, with the replies of PAM, of the system and of
//! the helper written out.

use std::collections::VecDeque;

use pinpam::authentication::{
    authenticate, authenticate_user, finalize_outcome, run_pinutil_status, run_pinutil_test,
    AuthReply, AuthRequest, AuthStep, Authentication, Login, Notice, PinPrompt, PinStatus,
    PinutilTestOutcome, StatusReport,
};
use pinpam::flow::Step;
use pinpam::pam::{ModuleArgs, PamCode, PamResult};
use pinpam::pindata::AttemptInfo;
use pinpam::pinerror::PinError;
use pinpam::pinpolicy::PinPolicy;
use pinpam::tokenauth::{
    authenticate_with_token, build_user_token, Derivation, TokenReply, TokenRequest,
};

fn policy() -> PinPolicy {
    PinPolicy { max_attempts: 5, ..PinPolicy::default() }
}

fn shown(request: &AuthRequest) -> String {
    match request {
        AuthRequest::Conversation => "conversation".to_string(),
        AuthRequest::Username => "username".to_string(),
        AuthRequest::Authtok => "authtok".to_string(),
        AuthRequest::FindUser { username } => format!("find {username}"),
        AuthRequest::Status { username } => format!("status {username}"),
        AuthRequest::Test { username, pin } => format!("test {username} {}", pin.as_str()),
        AuthRequest::Prompt { prompt } => format!("prompt {prompt:?}"),
        AuthRequest::Tell { notice } => format!("tell {}", notice.key()),
    }
}

/// Answers the requests one after the other, and returns them with the outcome.
fn play(mut step: AuthStep, replies: Vec<AuthReply>) -> (Vec<String>, PamResult) {
    let mut replies: VecDeque<AuthReply> = replies.into();
    let mut log = Vec::new();
    loop {
        match step {
            Step::Ask(request, paused) => {
                log.push(shown(&request));
                let reply = replies.pop_front().expect("another reply");
                step = Authentication::resume(paused, reply);
            }
            Step::Done(outcome) => {
                assert!(replies.is_empty(), "unused replies: {replies:?}");
                return (log, outcome);
            }
        }
    }
}

fn login(args: &[&str], authtok: Option<&str>) -> AuthStep {
    authenticate_user(Login {
        username: "alice".to_string(),
        args: ModuleArgs::from_strs(args),
        authtok: authtok.map(str::to_string),
        policy: policy(),
    })
}

fn status(used: u32, limit: u32) -> AuthReply {
    AuthReply::Status(StatusReport::Report(Ok(Some(AttemptInfo { used, limit }))))
}

fn entered(text: &str) -> AuthReply {
    AuthReply::Entered(Ok(text.to_string()))
}

fn tested(report: Result<(), PinError>) -> AuthReply {
    AuthReply::Tested(Ok(report))
}

const TOLD: AuthReply = AuthReply::Told(Ok(()));

#[test]
fn a_correct_pin_authenticates() {
    let (log, outcome) = play(
        authenticate(ModuleArgs::default(), policy()),
        vec![
            AuthReply::Opened(Ok(())),
            AuthReply::Named(Ok("alice".to_string())),
            AuthReply::Found(true),
            status(0, 5),
            entered(" 1234 "),
            tested(Ok(())),
        ],
    );
    assert_eq!(outcome, Ok(()));
    assert_eq!(
        log,
        vec![
            "conversation",
            "username",
            "find alice",
            "status alice",
            "prompt Plain",
            "test alice 1234",
        ],
    );
}

#[test]
fn a_wrong_pin_is_refused() {
    let (log, outcome) = play(
        login(&[], None),
        vec![
            AuthReply::Found(true),
            status(3, 5),
            entered("1234"),
            tested(Err(PinError::IncorrectPin { locked: false })),
            TOLD,
        ],
    );
    assert_eq!(outcome, Err(PamCode::AuthErr));
    assert_eq!(
        log[2..],
        ["prompt Remaining(2)", "test alice 1234", "tell auth_failure"].map(String::from),
    );
}

#[test]
fn the_last_attempt_is_announced() {
    let (log, outcome) = play(
        login(&[], None),
        vec![
            AuthReply::Found(true),
            status(4, 5),
            entered("1234"),
            tested(Err(PinError::IncorrectPin { locked: true })),
            AuthReply::Told(Err(PamCode::ConvErr)),
        ],
    );
    assert_eq!(outcome, Err(PamCode::MaxTries));
    assert_eq!(log[2], "prompt Last");
    assert_eq!(log[4], "tell account_locked");
}

#[test]
fn failures_before_the_status_end_the_authentication() {
    let args = ModuleArgs::from_strs(&["use_first_pass"]);
    let (_, outcome) =
        play(authenticate(args, policy()), vec![AuthReply::Opened(Err(PamCode::ConvErr))]);
    assert_eq!(outcome, Err(PamCode::ConvErr));

    let (log, outcome) = play(
        authenticate(args, policy()),
        vec![AuthReply::Opened(Ok(())), AuthReply::Named(Err(PamCode::Other(5))), TOLD],
    );
    assert_eq!(outcome, Err(PamCode::Other(5)));
    assert_eq!(log[2], "tell auth_failure");

    let (log, outcome) = play(
        authenticate(args, policy()),
        vec![
            AuthReply::Opened(Ok(())),
            AuthReply::Named(Ok("alice".to_string())),
            AuthReply::Token(Err(PamCode::SystemErr)),
        ],
    );
    assert_eq!(outcome, Err(PamCode::SystemErr));
    assert_eq!(log[2], "authtok");

    let (log, outcome) = play(login(&[], None), vec![AuthReply::Found(false), TOLD]);
    assert_eq!(outcome, Err(PamCode::UserUnknown));
    assert_eq!(log, vec!["find alice", "tell auth_failure"]);
}

#[test]
fn without_a_usable_status_nothing_is_tested() {
    let cases: Vec<(StatusReport, &str, PamCode)> = vec![
        (
            StatusReport::NotRun("no such file".to_string()),
            "tell pin_auth_unavail",
            PamCode::AuthInfoUnavail,
        ),
        (StatusReport::Report(Ok(None)), "tell pin_not_conf_for_user", PamCode::AuthInfoUnavail),
        (
            StatusReport::Report(Ok(Some(AttemptInfo { used: 5, limit: 5 }))),
            "tell account_locked",
            PamCode::MaxTries,
        ),
        (
            StatusReport::Report(Err(PinError::PinIsLocked)),
            "tell account_locked",
            PamCode::MaxTries,
        ),
        (
            // A limit of zero is no lock, but leaves nothing to try.
            StatusReport::Report(Ok(Some(AttemptInfo { used: 0, limit: 0 }))),
            "tell account_locked",
            PamCode::MaxTries,
        ),
    ];
    for (report, told, code) in cases {
        let (log, outcome) = play(
            login(&[], None),
            vec![AuthReply::Found(true), AuthReply::Status(report), TOLD],
        );
        assert_eq!(log[2], told);
        assert_eq!(outcome, Err(code));
    }
}

#[test]
fn a_stacked_pin_is_tried_before_prompting() {
    let (log, outcome) = play(
        login(&["try_first_pass"], Some("4321")),
        vec![
            AuthReply::Found(true),
            status(2, 5),
            tested(Err(PinError::IncorrectPin { locked: false })),
            entered("1234"),
            tested(Ok(())),
        ],
    );
    assert_eq!(outcome, Ok(()));
    // The failed attempt counts.
    assert_eq!(
        log[2..],
        ["test alice 4321", "prompt Remaining(2)", "test alice 1234"].map(String::from),
    );
}

#[test]
fn a_stacked_pin_can_use_up_the_last_attempt() {
    let (log, outcome) = play(
        login(&["try_first_pass"], Some("4321")),
        vec![
            AuthReply::Found(true),
            status(4, 5),
            tested(Err(PinError::IncorrectPin { locked: false })),
            TOLD,
        ],
    );
    assert_eq!(outcome, Err(PamCode::MaxTries));
    assert_eq!(log[3], "tell account_locked");
}

#[test]
fn use_first_pass_never_prompts() {
    for (report, told, code) in [
        (
            tested(Err(PinError::IncorrectPin { locked: false })),
            "tell auth_failure",
            PamCode::AuthErr,
        ),
        (
            AuthReply::Tested(Err("no helper".to_string())),
            "tell pin_auth_unavail",
            PamCode::AuthInfoUnavail,
        ),
        (
            tested(Err(PinError::NotProvisioned(1000))),
            "tell pin_not_conf_for_user",
            PamCode::AuthInfoUnavail,
        ),
    ] {
        let (log, outcome) = play(
            login(&["use_first_pass"], Some("4321")),
            vec![AuthReply::Found(true), status(0, 5), report, TOLD],
        );
        assert_eq!(log[2], "test alice 4321");
        assert_eq!(log[3], told);
        assert_eq!(outcome, Err(code));
    }
    let (log, outcome) = play(
        login(&["use_first_pass"], Some("hunter2")),
        vec![AuthReply::Found(true), status(0, 5), TOLD],
    );
    assert_eq!(log[2], "tell auth_failure");
    assert_eq!(outcome, Err(PamCode::AuthErr));
}

#[test]
fn what_is_no_pin_is_not_tested() {
    for (text, told) in [("", "tell pin_empty"), ("  ", "tell pin_empty"), ("12", "tell pin_digits")]
    {
        let (log, outcome) = play(
            login(&[], None),
            vec![AuthReply::Found(true), status(0, 5), entered(text), TOLD],
        );
        assert_eq!(log[3], told);
        assert_eq!(outcome, Err(PamCode::AuthErr));
    }
    let (_, outcome) = play(
        login(&[], None),
        vec![
            AuthReply::Found(true),
            status(0, 5),
            entered(""),
            AuthReply::Told(Err(PamCode::ConvErr)),
        ],
    );
    assert_eq!(outcome, Err(PamCode::ConvErr));
    let (_, outcome) = play(
        login(&[], None),
        vec![
            AuthReply::Found(true),
            status(0, 5),
            AuthReply::Entered(Err(PamCode::ConvErr)),
        ],
    );
    assert_eq!(outcome, Err(PamCode::ConvErr));
}

#[test]
fn a_stray_reply_is_a_failure() {
    let (_, outcome) = play(authenticate(ModuleArgs::default(), policy()), vec![TOLD]);
    assert_eq!(outcome, Err(PamCode::SystemErr));
    let (log, outcome) = play(login(&[], None), vec![AuthReply::Found(true), TOLD, TOLD]);
    assert_eq!(log[2], "tell pin_auth_unavail");
    assert_eq!(outcome, Err(PamCode::AuthInfoUnavail));
}

#[test]
fn reports_of_the_helper() {
    let of = |report: Result<(), PinError>| PinutilTestOutcome::from(report);
    assert_eq!(of(Ok(())), PinutilTestOutcome::Success);
    assert_eq!(of(Err(PinError::PinIsLocked)), PinutilTestOutcome::LockedOut);
    assert_eq!(
        of(Err(PinError::IncorrectPin { locked: true })),
        PinutilTestOutcome::NewlyLockedOut,
    );
    assert_eq!(of(Err(PinError::IncorrectPin { locked: false })), PinutilTestOutcome::InvalidPin);
    assert_eq!(of(Err(PinError::NotProvisioned(7))), PinutilTestOutcome::NotConfigured);
    assert_eq!(of(Err(PinError::NoPinSet)), PinutilTestOutcome::Unavailable);
    assert_eq!(run_pinutil_test(tested(Ok(()))), Some(PinutilTestOutcome::Success));
    assert_eq!(run_pinutil_test(AuthReply::Tested(Err(String::new()))), None);
    assert_eq!(run_pinutil_test(TOLD), None);

    match run_pinutil_status(StatusReport::Failed("exit status: 1".to_string())) {
        PinStatus::Unavailable(PinError::IoError(text)) => {
            assert_eq!(text, "output status: exit status: 1");
        }
        other => panic!("expected Unavailable, got {other:?}"),
    }
    assert!(matches!(
        run_pinutil_status(StatusReport::Garbled("eof".to_string())),
        PinStatus::Unavailable(PinError::PinutilOutputDecodeError(text)) if text == "eof"
    ));
    assert!(matches!(
        PinStatus::from(Ok(Some(AttemptInfo { used: 1, limit: 5 }))),
        PinStatus::Available { used: 1, limit: 5 }
    ));
    assert!(matches!(
        PinStatus::from(Err(PinError::UidOverflow(9))),
        PinStatus::Unavailable(PinError::UidOverflow(9))
    ));
}

#[test]
fn outcomes_of_a_test_end_the_authentication() {
    let (log, outcome) = play(finalize_outcome(PinutilTestOutcome::Success), vec![]);
    assert!(log.is_empty());
    assert_eq!(outcome, Ok(()));
    let (log, outcome) = play(finalize_outcome(PinutilTestOutcome::Unavailable), vec![TOLD]);
    assert_eq!(log, vec!["tell pin_auth_unavail"]);
    assert_eq!(outcome, Err(PamCode::AuthInfoUnavail));
    assert!(Notice::AuthFailure.is_error());
    assert!(!Notice::NotConfigured.is_error());
    assert_ne!(PinPrompt::Remaining(2), PinPrompt::Last);
}

fn token_course(derivation: Derivation) -> PamResult {
    let Step::Ask(TokenRequest::Username, paused) = authenticate_with_token() else {
        panic!("expected the user's name to be asked for");
    };
    let Step::Ask(TokenRequest::Derive { username }, paused) =
        paused.resume(TokenReply::Named(Ok("alice".to_string())))
    else {
        panic!("expected the derivation");
    };
    assert_eq!(username, "alice");
    match paused.resume(TokenReply::Derived(derivation)) {
        Step::Ask(TokenRequest::SetAuthtok { token }, paused) => {
            assert_eq!(token, "00ff");
            match paused.resume(TokenReply::Placed(Ok(()))) {
                Step::Done(outcome) => outcome,
                Step::Ask(..) => panic!("expected the end"),
            }
        }
        Step::Done(outcome) => outcome,
        Step::Ask(..) => panic!("expected the token to be set"),
    }
}

#[test]
fn a_derived_token_is_put_on_the_stack() {
    assert_eq!(token_course(Derivation::Report(Ok("00ff".to_string()))), Ok(()));
    assert_eq!(
        token_course(Derivation::Report(Ok("0\00ff".to_string()))),
        Err(PamCode::AuthErr),
    );
    assert_eq!(
        token_course(Derivation::Report(Err(PinError::PermissionDenied))),
        Err(PamCode::AuthErr),
    );
    assert_eq!(token_course(Derivation::Failed("x".to_string())), Err(PamCode::AuthErr));
    assert_eq!(build_user_token(TokenReply::Placed(Ok(()))), None);

    let Step::Ask(_, paused) = authenticate_with_token() else {
        panic!("expected a request");
    };
    assert!(matches!(
        paused.resume(TokenReply::Named(Err(PamCode::UserUnknown))),
        Step::Done(Err(PamCode::UserUnknown))
    ));
}

//! Tests of the utility's commands, with the replies of the user, of the system
//! and of the PIN manager written out.

use std::collections::VecDeque;

use pinpam::dialogue::{means_yes, prompt_pin, Message, UtilReply, UtilRequest};
use pinpam::flow::Step;
use pinpam::master_key::Presence;
use pinpam::masterutil::{
    master_key_clear_from_disk, master_key_clear_from_tpm, master_key_import_to_tpm,
    master_key_init, ClearCommand, ImportCommand, InitCommand, KeyCommandError, KeyNotice,
    KeyPrompt, KeyReply, KeyRequest, Place, Purpose,
};
use pinpam::pindata::{AttemptInfo, PinData};
use pinpam::pinerror::{DeleteResult, PinError, PinResult, VerificationResult};
use pinpam::pinpolicy::PinPolicy;
use pinpam::pinutil::{
    change_pin, delete_pin, handle_result, require_root, resolve_username, setup_pin, show_status,
    test_pin, Caller, ChangeCommand, DeleteCommand, Job, Report, SetupCommand, StatusCommand,
    TestCommand,
};
use pinpam::sealing::{MasterKeyError, Refusal};

fn shown(request: &UtilRequest) -> String {
    match request {
        UtilRequest::FindUser { username } => format!("find {username}"),
        UtilRequest::OpenManager => "open".to_string(),
        UtilRequest::RestartManager => "restart".to_string(),
        UtilRequest::CountAttempts { uid } => format!("count {uid}"),
        UtilRequest::ReadSlot { uid } => format!("slot {uid}"),
        UtilRequest::SetUp { uid, pin } => format!("set up {uid} {}", pin.as_str()),
        UtilRequest::Verify { uid, pin } => format!("verify {uid} {}", pin.as_str()),
        UtilRequest::DeleteAdmin { uid } => format!("delete {uid}"),
        UtilRequest::DeleteWithAuth { uid, pin } => format!("delete {uid} {}", pin.as_str()),
        UtilRequest::Prompt { label, attempts } => format!("prompt {label:?} {attempts:?}"),
        UtilRequest::ReadLine => "line".to_string(),
        UtilRequest::ConfirmDeletion { username } => format!("confirm {username}"),
        UtilRequest::Say { message } => format!("say {}", message.key()),
    }
}

/// Answers the requests one after the other, and returns them with the outcome.
fn play<F, T>(
    mut step: Step<UtilRequest, F, PinResult<T>>,
    resume: fn(F, UtilReply) -> Step<UtilRequest, F, PinResult<T>>,
    replies: Vec<UtilReply>,
) -> (Vec<String>, PinResult<T>) {
    let mut replies: VecDeque<UtilReply> = replies.into();
    let mut log = Vec::new();
    loop {
        match step {
            Step::Ask(request, paused) => {
                log.push(shown(&request));
                step = resume(paused, replies.pop_front().expect("another reply"));
            }
            Step::Done(outcome) => {
                assert!(replies.is_empty(), "unused replies: {replies:?}");
                return (log, outcome);
            }
        }
    }
}

fn job(uid: u32, machine: bool) -> Job {
    Job { caller: Caller { uid, effective: uid }, username: "alice".to_string(), machine }
}

fn user(uid: u32) -> UtilReply {
    UtilReply::User(Ok(uid))
}

fn manager() -> UtilReply {
    UtilReply::Manager(Ok(PinPolicy::default()))
}

fn slot(used: i32, limit: i32) -> UtilReply {
    UtilReply::Slot(Ok(Some(PinData::new(used, limit))))
}

fn line(text: &str) -> UtilReply {
    UtilReply::Line(Ok(text.to_string()))
}

const DONE: UtilReply = UtilReply::Done(Ok(()));
const SAID: UtilReply = UtilReply::Said;

fn correct() -> UtilReply {
    UtilReply::Verdict(Ok(VerificationResult::Success(PinData::new(0, 3))))
}

#[test]
fn setup_asks_twice_and_stores() {
    let (log, outcome) = play(
        setup_pin(job(1000, false)),
        SetupCommand::resume,
        vec![
            user(1000),
            manager(),
            UtilReply::Count(Ok(None)),
            line("0042\n"),
            line(" 0042"),
            DONE,
            SAID,
        ],
    );
    assert!(outcome.is_ok());
    assert_eq!(
        log,
        vec![
            "find alice",
            "open",
            "count 1000",
            "prompt EnterNew None",
            "prompt ConfirmNew None",
            "set up 1000 0042",
            "say pin_set_for_user",
        ],
    );
}

#[test]
fn a_machine_is_asked_once_and_told_nothing() {
    let (log, outcome) = play(
        setup_pin(job(0, true)),
        SetupCommand::resume,
        vec![
            user(1000),
            manager(),
            UtilReply::Count(Err(PinError::NotProvisioned(1000))),
            line("1234"),
            DONE,
        ],
    );
    assert!(outcome.is_ok());
    assert_eq!(log[3..], ["line", "set up 1000 1234"].map(String::from));
}

#[test]
fn setup_is_refused_for_a_reason() {
    let run = |uid: u32, replies: Vec<UtilReply>| {
        play(setup_pin(job(uid, false)), SetupCommand::resume, replies).1
    };
    assert!(matches!(
        run(1000, vec![UtilReply::User(Err(PinError::UserNotFound))]),
        Err(PinError::UserNotFound)
    ));
    assert!(matches!(run(1001, vec![user(1000)]), Err(PinError::PermissionDenied)));
    assert!(matches!(
        run(1000, vec![user(1000), UtilReply::Manager(Err(PinError::TpmError("x".into())))]),
        Err(PinError::TpmError(_))
    ));
    assert!(matches!(
        run(1000, vec![user(1000), manager(), UtilReply::Count(Ok(Some(0)))]),
        Err(PinError::PinAlreadySet)
    ));
    assert!(matches!(
        run(1000, vec![user(1000), manager(), UtilReply::Count(Err(PinError::UidOverflow(1)))]),
        Err(PinError::UidOverflow(1))
    ));
    let empty = || vec![user(1000), manager(), UtilReply::Count(Ok(None))];
    let with = |mut replies: Vec<UtilReply>, more: Vec<UtilReply>| {
        replies.extend(more);
        replies
    };
    assert!(matches!(run(1000, with(empty(), vec![line(" ")])), Err(PinError::PinIsEmpty)));
    assert!(matches!(
        run(1000, with(empty(), vec![line("12")])),
        Err(PinError::PinTooShort { length: 2, limit: 4 })
    ));
    assert!(matches!(
        run(1000, with(empty(), vec![line("1234"), line("1235")])),
        Err(PinError::PinsDontMatch)
    ));
    assert!(matches!(
        run(1000, with(empty(), vec![line("1234"), line("")])),
        Err(PinError::PinIsEmpty)
    ));
    assert!(matches!(run(1000, vec![SAID]), Err(PinError::IoError(_))));
}

#[test]
fn users_change_their_pin_with_the_current_one() {
    let (log, outcome) = play(
        change_pin(job(1000, false)),
        ChangeCommand::resume,
        vec![
            user(1000),
            manager(),
            slot(1, 3),
            DONE,
            line("1234"),
            correct(),
            DONE,
            line("5678"),
            line("5678"),
            UtilReply::Deletion(Ok(DeleteResult::Success)),
            DONE,
            SAID,
        ],
    );
    assert!(outcome.is_ok());
    assert_eq!(
        log,
        vec![
            "find alice",
            "open",
            "slot 1000",
            "restart",
            "prompt Current Some((1, 3))",
            "verify 1000 1234",
            "restart",
            "prompt Replacement None",
            "prompt ConfirmReplacement None",
            "delete 1000 1234",
            "set up 1000 5678",
            "say pin_changed_for_user",
        ],
    );
}

#[test]
fn root_changes_a_pin_without_the_current_one() {
    let (log, outcome) = play(
        change_pin(job(0, true)),
        ChangeCommand::resume,
        vec![user(1000), manager(), slot(3, 3), DONE, line("5678"), DONE, DONE],
    );
    assert!(outcome.is_ok());
    assert_eq!(
        log[3..],
        ["restart", "line", "delete 1000", "set up 1000 5678"].map(String::from),
    );
}

#[test]
fn a_change_is_refused_for_a_reason() {
    let run = |replies: Vec<UtilReply>| {
        play(change_pin(job(1000, true)), ChangeCommand::resume, replies).1
    };
    assert!(matches!(
        run(vec![user(1000), manager(), UtilReply::Slot(Ok(None))]),
        Err(PinError::NoPinSet)
    ));
    assert!(matches!(
        run(vec![user(1000), manager(), slot(3, 3), DONE]),
        Err(PinError::PinIsLocked)
    ));
    let verdict = |v: VerificationResult| {
        run(vec![
            user(1000),
            manager(),
            slot(0, 3),
            DONE,
            line("1234"),
            UtilReply::Verdict(Ok(v)),
        ])
    };
    assert!(matches!(
        verdict(VerificationResult::Invalid { locked: true }),
        Err(PinError::IncorrectPin { locked: true })
    ));
    assert!(matches!(verdict(VerificationResult::LockedOut), Err(PinError::PinIsLocked)));
    assert!(matches!(
        run(vec![
            user(1000),
            manager(),
            slot(0, 3),
            DONE,
            line("1234"),
            correct(),
            DONE,
            line("5678"),
            UtilReply::Deletion(Ok(DeleteResult::Invalid { locked: false })),
        ]),
        Err(PinError::CannotDeletePin(DeleteResult::Invalid { locked: false }))
    ));
}

#[test]
fn root_deletes_after_a_confirmation() {
    let run = |answer: &str, more: Vec<UtilReply>| {
        let mut replies = vec![user(1000), manager(), slot(3, 3), line(answer)];
        replies.extend(more);
        play(delete_pin(job(0, false)), DeleteCommand::resume, replies)
    };
    let (log, outcome) = run("Yes", vec![DONE, SAID]);
    assert!(outcome.is_ok());
    assert_eq!(
        log[3..],
        ["confirm alice", "delete 1000", "say pin_deleted_for_user"].map(String::from),
    );
    let (log, outcome) = run("no", vec![SAID]);
    assert!(outcome.is_ok());
    assert_eq!(log[4], "say cancelled");
    let (log, outcome) =
        run("y", vec![UtilReply::Done(Err(PinError::TpmError("x".to_string()))), SAID]);
    assert!(matches!(outcome, Err(PinError::TpmError(text)) if text == "x"));
    assert_eq!(log[5], "say pin_delete_failed");
}

#[test]
fn users_delete_their_pin_with_it() {
    let run = |result: DeleteResult| {
        play(
            delete_pin(job(1000, false)),
            DeleteCommand::resume,
            vec![
                user(1000),
                manager(),
                slot(0, 3),
                line("1234"),
                UtilReply::Deletion(Ok(result)),
                SAID,
            ],
        )
    };
    let (log, outcome) = run(DeleteResult::Success);
    assert!(outcome.is_ok());
    assert_eq!(
        log[3..],
        ["prompt Current Some((0, 3))", "delete 1000 1234", "say pin_deleted_for_user"]
            .map(String::from),
    );
    assert_eq!(run(DeleteResult::Invalid { locked: true }).0[5], "say incorrect_pin");
    assert_eq!(run(DeleteResult::LockedOut).0[5], "say now_locked_out");
    let (_, outcome) = play(
        delete_pin(job(1000, false)),
        DeleteCommand::resume,
        vec![user(1000), manager(), slot(3, 3)],
    );
    assert!(matches!(outcome, Err(PinError::PinIsLocked)));
    let (_, outcome) =
        play(delete_pin(job(1001, false)), DeleteCommand::resume, vec![user(1000)]);
    assert!(matches!(outcome, Err(PinError::PermissionDenied)));
}

#[test]
fn a_test_reports_to_machines_and_users() {
    let run = |machine: bool, verdict: VerificationResult| {
        let mut replies = vec![
            user(1000),
            manager(),
            slot(0, 3),
            line("1234"),
            UtilReply::Verdict(Ok(verdict)),
        ];
        if !machine {
            replies.push(SAID);
        }
        play(test_pin(job(1000, machine)), TestCommand::resume, replies)
    };
    assert!(run(true, VerificationResult::Success(PinData::new(0, 3))).1.is_ok());
    assert!(matches!(
        run(true, VerificationResult::Invalid { locked: false }).1,
        Err(PinError::IncorrectPin { locked: false })
    ));
    assert!(matches!(run(true, VerificationResult::LockedOut).1, Err(PinError::PinIsLocked)));
    for (verdict, said) in [
        (VerificationResult::Success(PinData::new(0, 3)), "say pin_correct"),
        (VerificationResult::Invalid { locked: true }, "say pin_incorrect"),
        (VerificationResult::LockedOut, "say now_locked_out"),
    ] {
        let (log, outcome) = run(false, verdict);
        assert!(outcome.is_ok());
        assert_eq!(log[5], said);
    }
    let (log, outcome) = play(
        test_pin(job(1000, false)),
        TestCommand::resume,
        vec![user(1000), manager(), slot(3, 3), SAID],
    );
    assert!(matches!(outcome, Err(PinError::PinIsLocked)));
    assert_eq!(log[3], "say user_is_locked_out");
    let (log, outcome) = play(
        test_pin(job(1000, false)),
        TestCommand::resume,
        vec![user(1000), manager(), UtilReply::Slot(Ok(None)), SAID],
    );
    assert!(matches!(outcome, Err(PinError::NoPinSet)));
    assert_eq!(log[3], "say no_pin_set_for_user");
}

#[test]
fn strangers_attempt_no_pin() {
    let (log, outcome) =
        play(test_pin(job(1001, true)), TestCommand::resume, vec![user(1000)]);
    assert!(matches!(outcome, Err(PinError::PermissionDenied)));
    assert_eq!(log, vec!["find alice"]);
    // Root's rights are enough, whoever it is.
    let mut service = job(1001, true);
    service.caller.effective = 0;
    let (_, outcome) = play(
        test_pin(service),
        TestCommand::resume,
        vec![user(1000), manager(), slot(0, 3), line("1234"), correct()],
    );
    assert!(outcome.is_ok());
}

#[test]
fn anyone_sees_the_status() {
    let (log, outcome) = play(
        show_status(job(1001, false)),
        StatusCommand::resume,
        vec![user(1000), manager(), SAID, slot(1, 3), SAID],
    );
    assert_eq!(outcome.unwrap(), Some(AttemptInfo { used: 1, limit: 3 }));
    assert_eq!(
        log[2..],
        ["say status_for_user", "slot 1000", "say pin_provisioned_yes"].map(String::from),
    );
    let (log, outcome) = play(
        show_status(job(1001, false)),
        StatusCommand::resume,
        vec![user(1000), manager(), SAID, UtilReply::Slot(Ok(None)), SAID],
    );
    assert_eq!(outcome.unwrap(), None);
    assert_eq!(log[4], "say pin_provisioned_no");
    let (log, outcome) = play(
        show_status(job(1001, true)),
        StatusCommand::resume,
        vec![user(1000), manager(), slot(0, 3)],
    );
    assert_eq!(outcome.unwrap(), Some(AttemptInfo { used: 0, limit: 3 }));
    assert_eq!(log.len(), 3);
}

#[test]
fn answers_and_names() {
    assert!(means_yes("y") && means_yes(" YES\n") && !means_yes("") && !means_yes("no y"));
    assert!(prompt_pin(&PinPolicy::default(), line(" 1234 ")).unwrap().as_str() == "1234");
    assert!(matches!(
        prompt_pin(&PinPolicy::default(), UtilReply::Line(Err(PinError::IoError("x".into())))),
        Err(PinError::IoError(_))
    ));
    assert_eq!(resolve_username(Some("a".into()), 7, Some("b".into())).unwrap(), "a");
    assert_eq!(resolve_username(None, 7, Some("b".into())).unwrap(), "b");
    assert!(matches!(
        resolve_username(None, 7, None),
        Err(PinError::GetUsernameForUidFailed(7))
    ));
    assert!(require_root(0).is_ok());
    assert!(matches!(require_root(1), Err(PinError::PermissionDenied)));
    assert_eq!(Message::Cancelled.key(), "cancelled");
}

#[test]
fn outcomes_are_reported() {
    let report = |json, error_text, exit_failure| Report { json, error_text, exit_failure };
    assert_eq!(handle_result(false, false), report(false, false, false));
    assert_eq!(handle_result(true, false), report(false, true, true));
    assert_eq!(handle_result(false, true), report(true, false, false));
    assert_eq!(handle_result(true, true), report(true, false, true));
}

const ALL: Presence = Presence { sealed_file: true, rsa_parent: true, hmac_key: true };

fn key_line(text: &str) -> KeyReply {
    KeyReply::Line(Ok(text.to_string()))
}

/// Answers the requests one after the other, and returns them with the outcome.
fn play_key<F, O>(
    mut step: Step<KeyRequest, F, O>,
    resume: fn(F, KeyReply) -> Step<KeyRequest, F, O>,
    replies: Vec<KeyReply>,
) -> (Vec<String>, O) {
    let mut replies: VecDeque<KeyReply> = replies.into();
    let mut log = Vec::new();
    loop {
        match step {
            Step::Ask(request, paused) => {
                log.push(match request {
                    KeyRequest::Tell { notice: KeyNotice::Phrase { phrase } } => {
                        format!("phrase {phrase}")
                    }
                    KeyRequest::Tell { notice } => format!("tell {notice:?}"),
                    KeyRequest::Line { prompt } => format!("line {prompt:?}"),
                    KeyRequest::Initialize => "initialize".to_string(),
                    KeyRequest::Import { phrase } => format!("import {phrase}"),
                    KeyRequest::Clear { place } => format!("clear {place:?}"),
                });
                step = resume(paused, replies.pop_front().expect("another reply"));
            }
            Step::Done(outcome) => {
                assert!(replies.is_empty(), "unused replies: {replies:?}");
                return (log, outcome);
            }
        }
    }
}

#[test]
fn the_recovery_phrase_is_confirmed() {
    let initialized = || KeyReply::Initialized(Ok(("one two".to_string(), ALL)));
    let run = |confirmation: &str| {
        play_key(
            master_key_init(false),
            InitCommand::resume,
            vec![
                KeyReply::Told,
                key_line("y"),
                initialized(),
                KeyReply::Told,
                key_line(confirmation),
            ],
        )
    };
    let (log, outcome) = run(" one two\n");
    let (phrase, presence) = outcome.0.unwrap();
    assert_eq!((phrase.as_str(), presence), ("one two", ALL));
    assert_eq!(
        log,
        vec![
            "tell InitWarning",
            "line Proceed",
            "initialize",
            "phrase one two",
            "line ConfirmPhrase",
        ],
    );
    assert!(matches!(run("one").1 .0, Err(KeyCommandError::PhraseMismatch)));

    let (log, outcome) = play_key(
        master_key_init(false),
        InitCommand::resume,
        vec![KeyReply::Told, key_line("")],
    );
    assert!(matches!(outcome.0, Err(KeyCommandError::Cancelled)));
    assert_eq!(log.len(), 2);

    let (log, outcome) =
        play_key(master_key_init(true), InitCommand::resume, vec![initialized()]);
    assert!(outcome.0.is_ok());
    assert_eq!(log, vec!["initialize"]);

    let refused = KeyReply::Initialized(Err(MasterKeyError::Refused(Refusal::KeyExists)));
    let (_, outcome) = play_key(master_key_init(true), InitCommand::resume, vec![refused]);
    assert!(matches!(
        outcome.0,
        Err(KeyCommandError::Key(MasterKeyError::Refused(Refusal::KeyExists)))
    ));
}

#[test]
fn an_import_takes_the_phrase() {
    let (log, outcome) = play_key(
        master_key_import_to_tpm(false),
        ImportCommand::resume,
        vec![key_line(" one two "), KeyReply::Imported(Ok(ALL)), KeyReply::Told],
    );
    assert_eq!(outcome.unwrap(), ALL);
    assert_eq!(log, vec!["line EnterPhrase", "import one two", "tell Imported"]);
    let (log, outcome) =
        play_key(master_key_import_to_tpm(true), ImportCommand::resume, vec![]);
    assert!(matches!(outcome, Err(KeyCommandError::NotInteractive(Purpose::Import))));
    assert!(log.is_empty());
}

#[test]
fn a_removal_is_acknowledged() {
    let (log, outcome) = play_key(
        master_key_clear_from_tpm(false),
        ClearCommand::resume,
        vec![KeyReply::Told, key_line("yes\n"), KeyReply::Cleared(Ok(())), KeyReply::Told],
    );
    assert!(outcome.is_ok());
    assert_eq!(
        log,
        vec!["tell ClearWarning(Tpm)", "line Acknowledge", "clear Tpm", "tell Cleared(Tpm)"],
    );
    let (log, outcome) = play_key(
        master_key_clear_from_disk(false),
        ClearCommand::resume,
        vec![KeyReply::Told, key_line("y")],
    );
    assert!(matches!(outcome, Err(KeyCommandError::Cancelled)));
    assert_eq!(log[1], format!("line {:?}", KeyPrompt::Acknowledge));
    let (_, outcome) =
        play_key(master_key_clear_from_disk(true), ClearCommand::resume, vec![]);
    assert!(matches!(
        outcome,
        Err(KeyCommandError::NotInteractive(Purpose::Clear(Place::Disk)))
    ));
    let (_, outcome) = play_key(
        master_key_clear_from_disk(false),
        ClearCommand::resume,
        vec![KeyReply::Told, KeyReply::Told],
    );
    assert!(matches!(
        outcome,
        Err(KeyCommandError::Key(MasterKeyError::Pin(PinError::IoError(_))))
    ));
}

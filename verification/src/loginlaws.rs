//! What an authentication does, whatever PAM, the user and the helper answer: each
//! request is justified by the replies before it, and so is the code that is returned.
use crate::authentication;
use crate::authentication::{
    Ask, AuthReply, AuthRequest, Course, Login, Notice, PinPrompt, PinStatus, PinutilTestOutcome,
    StatusReport, Told,
};
use crate::flow;
use crate::flow::Prog;
use crate::pam::{ModuleArgs, PamCode, PamResult};
use crate::pinerror::PinError;
use crate::pinpolicy;
use crate::pinpolicy::PinPolicy;
use crate::text;
use vstd::prelude::*;

verus! {

/// What has come out so far in an authentication.
pub struct Record {
    /// PAM's conversation is at hand.
    pub open: bool,
    /// The name that PAM gave.
    pub name: Option<Seq<char>>,
    /// The code with which PAM refused to give the name.
    pub nameless: Option<PamCode>,
    /// The token of a module before, once it was asked for.
    pub token: Option<Option<Seq<char>>>,
    /// Whether the user exists, once that was asked.
    pub found: Option<bool>,
    /// What the helper's status command produced, if it was run.
    pub status: Option<Told>,
    /// What came of the tests before the user was asked, in order.
    pub tests: Seq<Told>,
    /// What the user has entered, and what came of its test.
    pub typed: Option<Seq<char>>,
    pub verdict: Option<Told>,
    /// What the user was told, with the reply.
    pub told: Option<(Notice, Told)>,
    /// The code of what went wrong.
    pub trouble: Option<PamCode>,
}

/// Nothing has come out yet.
pub open spec fn blank_record() -> Record {
    Record {
        open: false,
        name: None,
        nameless: None,
        token: None,
        found: None,
        status: None,
        tests: Seq::empty(),
        typed: None,
        verdict: None,
        told: None,
        trouble: None,
    }
}

/// Taking note of a request and its reply.
pub open spec fn recorded(m: Record, c: Ask, r: Told) -> Record {
    match c {
        AuthRequest::Conversation => match r {
            AuthReply::Opened(Ok(())) => Record { open: true, ..m },
            AuthReply::Opened(Err(code)) => Record { trouble: Some(code), ..m },
            _ => Record { trouble: Some(PamCode::SystemErr), ..m },
        },
        AuthRequest::Username => match r {
            AuthReply::Named(Ok(name)) => Record { name: Some(name), ..m },
            AuthReply::Named(Err(code)) => Record { nameless: Some(code), ..m },
            _ => Record { nameless: Some(PamCode::SystemErr), ..m },
        },
        AuthRequest::Authtok => match r {
            AuthReply::Token(Ok(token)) => Record { token: Some(token), ..m },
            AuthReply::Token(Err(code)) => Record { trouble: Some(code), ..m },
            _ => Record { trouble: Some(PamCode::SystemErr), ..m },
        },
        AuthRequest::FindUser { .. } => Record { found: Some(r == Told::Found(true)), ..m },
        AuthRequest::Status { .. } => Record { status: Some(r), ..m },
        AuthRequest::Test { .. } => if m.typed is Some {
            Record { verdict: Some(r), ..m }
        } else {
            Record { tests: m.tests.push(r), ..m }
        },
        AuthRequest::Prompt { .. } => match r {
            AuthReply::Entered(Ok(line)) => Record { typed: Some(line), ..m },
            AuthReply::Entered(Err(code)) => Record { trouble: Some(code), ..m },
            _ => Record { trouble: Some(PamCode::SystemErr), ..m },
        },
        AuthRequest::Tell { notice } => Record { told: Some((notice, r)), ..m },
    }
}

/// The policy accepts the line as a PIN.
pub open spec fn acceptable(policy: PinPolicy<Seq<char>>, line: Seq<char>) -> bool {
    pinpolicy::objection(policy, text::trimmed(line)) is None
}

/// The token of a module before is wanted.
pub open spec fn wants_token(args: ModuleArgs) -> bool {
    args.try_first_pass || args.use_first_pass
}

/// The PIN that the token of a module before stands for: it has to be made of digits.
pub open spec fn stacked(
    args: ModuleArgs,
    policy: PinPolicy<Seq<char>>,
    m: Record,
) -> Option<Seq<char>> {
    match m.token {
        Some(Some(t)) => if wants_token(args) && acceptable(policy, t) && (forall|i: int|
            0 <= i < text::trimmed(t).len() ==> '0' <= #[trigger] text::trimmed(t)[i] <= '9') {
            Some(text::trimmed(t))
        } else {
            None
        },
        _ => None,
    }
}

/// The helper has reported these counters, and they do not say that the PIN is locked.
pub open spec fn counters(m: Record) -> Option<(u32, u32)> {
    match m.status {
        Some(AuthReply::Status(StatusReport::Report(Ok(Some(info))))) => if info.limit > 0
            && info.used >= info.limit {
            None
        } else {
            Some((info.used, info.limit))
        },
        _ => None,
    }
}

/// How many attempts are left: a test that failed has used up one more.
pub open spec fn left(m: Record) -> int {
    match counters(m) {
        Some((used, limit)) => limit - used - m.tests.len(),
        None => 0,
    }
}

/// The helper has reported that the PIN was wrong and that it is not locked yet.
pub open spec fn rejected(test: Told) -> bool {
    test matches AuthReply::Tested(Ok(Err(PinError::IncorrectPin { locked }))) && !locked
}

/// What the user is told after a test that was not passed, and the code.
pub open spec fn verdict_due(test: Told, notice: Notice, code: PamCode) -> bool {
    match test {
        AuthReply::Tested(Ok(Ok(()))) => false,
        AuthReply::Tested(Ok(Err(PinError::PinIsLocked))) => notice == Notice::AccountLocked
            && code == PamCode::MaxTries,
        AuthReply::Tested(Ok(Err(PinError::IncorrectPin { locked }))) => if locked {
            notice == Notice::AccountLocked && code == PamCode::MaxTries
        } else {
            notice == Notice::AuthFailure && code == PamCode::AuthErr
        },
        AuthReply::Tested(Ok(Err(PinError::NotProvisioned(_)))) => notice == Notice::NotConfigured
            && code == PamCode::AuthInfoUnavail,
        _ => notice == Notice::Unavailable && code == PamCode::AuthInfoUnavail,
    }
}

/// What the user is told because of the status, and the code, if that is where the
/// authentication ends.
pub open spec fn status_due(status: Told, notice: Notice, code: PamCode) -> bool {
    match status {
        AuthReply::Status(StatusReport::Report(Err(PinError::PinIsLocked))) => notice
            == Notice::AccountLocked && code == PamCode::MaxTries,
        AuthReply::Status(StatusReport::Report(Ok(None))) => notice == Notice::NotConfigured
            && code == PamCode::AuthInfoUnavail,
        AuthReply::Status(StatusReport::Report(Ok(Some(info)))) => info.limit > 0 && info.used
            >= info.limit && notice == Notice::AccountLocked && code == PamCode::MaxTries,
        _ => notice == Notice::Unavailable && code == PamCode::AuthInfoUnavail,
    }
}

/// What the user is told before the authentication fails, and the code.
pub open spec fn due(
    args: ModuleArgs,
    policy: PinPolicy<Seq<char>>,
    m: Record,
    notice: Notice,
    code: PamCode,
) -> bool {
    match m.status {
        None => {
            ||| m.nameless == Some(code) && notice == Notice::AuthFailure
            ||| m.found == Some(false) && notice == Notice::AuthFailure && code
                == PamCode::UserUnknown
        },
        Some(status) => match m.typed {
            Some(line) => if acceptable(policy, line) {
                m.verdict is Some && verdict_due(m.verdict->0, notice, code)
            } else {
                &&& notice == if text::trimmed(line).len() == 0 {
                    Notice::PinEmpty
                } else {
                    Notice::PinDigits
                }
                &&& match m.told {
                    Some((_, AuthReply::Told(Err(other)))) => code == other,
                    Some((_, AuthReply::Told(Ok(())))) => code == PamCode::AuthErr,
                    Some(_) => code == PamCode::SystemErr,
                    None => true,
                }
            },
            None => {
                ||| status_due(status, notice, code)
                ||| {
                    &&& counters(m) is Some
                    &&& m.tests.len() == 0
                    &&& args.use_first_pass
                    &&& stacked(args, policy, m) is None
                    &&& notice == Notice::AuthFailure
                    &&& code == PamCode::AuthErr
                }
                ||| {
                    &&& m.tests.len() == 1
                    &&& !rejected(m.tests[0]) || args.use_first_pass
                    &&& verdict_due(m.tests[0], notice, code)
                }
                ||| {
                    &&& counters(m) is Some
                    &&& may_ask(args, policy, m)
                    &&& left(m) <= 0
                    &&& notice == Notice::AccountLocked
                    &&& code == PamCode::MaxTries
                }
            },
        },
    }
}

/// The user may be asked: there is no PIN of a module before to be tested first, or it
/// was tested and rejected, and it was not to be the only one.
pub open spec fn may_ask(args: ModuleArgs, policy: PinPolicy<Seq<char>>, m: Record) -> bool {
    &&& !args.use_first_pass
    &&& m.typed is None
    &&& match stacked(args, policy, m) {
        None => m.tests.len() == 0,
        Some(_) => m.tests.len() == 1 && rejected(m.tests[0]),
    }
}

/// When the authentication may make a request. What the user is told has to fit the
/// code that is returned next.
pub open spec fn login_may(
    args: ModuleArgs,
    policy: PinPolicy<Seq<char>>,
    m: Record,
    c: Ask,
) -> bool {
    &&& m.trouble is None
    &&& m.told is None
    &&& match c {
        AuthRequest::Conversation => m == blank_record(),
        AuthRequest::Username => m.open && m.name is None && m.nameless is None,
        AuthRequest::Authtok => wants_token(args) && m.name is Some && m.token is None && m.found
            is None,
        AuthRequest::FindUser { username } => m.name == Some(username) && m.found is None && (
        wants_token(args) ==> m.token is Some),
        AuthRequest::Status { username } => m.name == Some(username) && m.found == Some(true)
            && m.status is None,
        AuthRequest::Test { username, pin } => {
            &&& m.name == Some(username)
            &&& m.found == Some(true)
            &&& counters(m) is Some
            &&& match m.typed {
                Some(line) => m.verdict is None && acceptable(policy, line) && pin
                    == text::trimmed(line),
                None => m.tests.len() == 0 && stacked(args, policy, m) == Some(pin),
            }
        },
        AuthRequest::Prompt { prompt } => {
            &&& counters(m) is Some
            &&& may_ask(args, policy, m)
            &&& left(m) > 0
            &&& prompt == if left(m) == 1 {
                PinPrompt::Last
            } else if left(m) == 2 {
                PinPrompt::Remaining(2)
            } else {
                PinPrompt::Plain
            }
        },
        AuthRequest::Tell { .. } => true,
    }
}

/// How the authentication may end.
pub open spec fn login_end(
    args: ModuleArgs,
    policy: PinPolicy<Seq<char>>,
    m: Record,
    o: PamResult,
) -> bool {
    match o {
        Ok(()) => {
            &&& m.trouble is None
            &&& m.told is None
            &&& match m.typed {
                Some(_) => m.verdict matches Some(AuthReply::Tested(Ok(Ok(())))),
                None => m.tests.len() > 0 && (m.tests.last() matches AuthReply::Tested(Ok(Ok(())))),
            }
        },
        Err(code) => match m.told {
            Some((notice, _)) => due(args, policy, m, notice, code),
            None => m.trouble == Some(code),
        },
    }
}

/// The authentication keeps to the rules from here on.
pub open spec fn login_goes_on(
    args: ModuleArgs,
    policy: PinPolicy<Seq<char>>,
    course: Course,
    m: Record,
) -> bool {
    flow::watched(
        course,
        m,
        |m: Record, c: Ask, r: Told| recorded(m, c, r),
        |m: Record, c: Ask| login_may(args, policy, m, c),
        |m: Record, o: PamResult| login_end(args, policy, m, o),
    )
}

proof fn lemma_asked(login: Login<Seq<char>>, used: u32, limit: u32, m: Record)
    requires
        m.trouble is None,
        m.told is None,
        m.verdict is None,
        m.name == Some(login.username),
        m.found == Some(true),
        m.status is Some,
        counters(m) is Some,
        may_ask(login.args, login.policy, m),
        if used < limit {
            left(m) == limit - used
        } else {
            left(m) <= 0
        },
    ensures
        login_goes_on(
            login.args,
            login.policy,
            authentication::prompt(login, used, limit),
            m,
        ),
{
    reveal_with_fuel(flow::watched, 6);
}

proof fn lemma_user(login: Login<Seq<char>>, m: Record)
    requires
        m.trouble is None,
        m.told is None,
        m.typed is None,
        m.verdict is None,
        m.nameless is None,
        m.name == Some(login.username),
        m.found is None,
        m.status is None,
        m.tests.len() == 0,
        if wants_token(login.args) {
            m.token == Some(login.authtok)
        } else {
            m.token is None
        },
    ensures
        login_goes_on(login.args, login.policy, authentication::user_course(login), m),
{
    reveal_with_fuel(flow::watched, 5);
    let note = |m: Record, c: Ask, r: Told| recorded(m, c, r);
    let may = |m: Record, c: Ask| login_may(login.args, login.policy, m, c);
    let end = |m: Record, o: PamResult| login_end(login.args, login.policy, m, o);
    let find: Ask = AuthRequest::FindUser { username: login.username };
    let query: Ask = AuthRequest::Status { username: login.username };
    let found = |r: Told| authentication::after_lookup(login, r);
    assert forall|r: Told| flow::watched(#[trigger] found(r), note(m, find, r), note, may, end) by {
        let n = note(m, find, r);
        if n.found == Some(true) {
            let told = |r: Told| authentication::after_status(login, r);
            assert forall|r: Told| flow::watched(
                #[trigger] told(r),
                note(n, query, r),
                note,
                may,
                end,
            ) by {
                lemma_status_told(login, n, r);
            }
        }
    }
}

proof fn lemma_status_told(login: Login<Seq<char>>, m: Record, r: Told)
    requires
        m.trouble is None,
        m.told is None,
        m.typed is None,
        m.verdict is None,
        m.name == Some(login.username),
        m.found == Some(true),
        m.status is None,
        m.tests.len() == 0,
        if wants_token(login.args) {
            m.token == Some(login.authtok)
        } else {
            m.token is None
        },
    ensures
        login_goes_on(
            login.args,
            login.policy,
            authentication::after_status(login, r),
            recorded(m, AuthRequest::Status { username: login.username }, r),
        ),
{
    reveal_with_fuel(flow::watched, 3);
    let note = |m: Record, c: Ask, r: Told| recorded(m, c, r);
    let may = |m: Record, c: Ask| login_may(login.args, login.policy, m, c);
    let end = |m: Record, o: PamResult| login_end(login.args, login.policy, m, o);
    let n = recorded(m, AuthRequest::Status { username: login.username }, r);
    if let Some((used, limit)) = counters(n) {
        match stacked(login.args, login.policy, n) {
            None => {
                if !login.args.use_first_pass {
                    lemma_asked(login, used, limit, n);
                }
            },
            Some(pin) => {
                let c: Ask = AuthRequest::Test { username: login.username, pin };
                let first = |r: Told| authentication::after_first_pass(login, used, limit, r);
                assert forall|r: Told| flow::watched(
                    #[trigger] first(r),
                    note(n, c, r),
                    note,
                    may,
                    end,
                ) by {
                    let x = note(n, c, r);
                    assert(x.tests.last() == r);
                    if rejected(r) && !login.args.use_first_pass {
                        lemma_asked(login, authentication::one_more(used), limit, x);
                    }
                }
            },
        }
    }
}

/// A PIN is tested only for the user that PAM named, and it is the trimmed form of
/// what the user has entered, or, before that, of the token of a module before. The
/// user is asked only while attempts are left, and is told how few there are. The
/// authentication succeeds exactly when the last PIN that was to be tested has passed,
/// and otherwise the message and the code say why it did not.
pub proof fn law_login(args: ModuleArgs, policy: PinPolicy<Seq<char>>)
    ensures
        flow::watched(
            authentication::course(args, policy),
            blank_record(),
            |m: Record, c: Ask, r: Told| recorded(m, c, r),
            |m: Record, c: Ask| login_may(args, policy, m, c),
            |m: Record, o: PamResult| login_end(args, policy, m, o),
        ),
{
    reveal_with_fuel(flow::watched, 5);
    let note = |m: Record, c: Ask, r: Told| recorded(m, c, r);
    let may = |m: Record, c: Ask| login_may(args, policy, m, c);
    let end = |m: Record, o: PamResult| login_end(args, policy, m, o);
    let m = blank_record();
    let open: Ask = AuthRequest::Conversation;
    let name: Ask = AuthRequest::Username;
    let token: Ask = AuthRequest::Authtok;
    let opened = |r: Told| authentication::after_opening(args, policy, r);
    assert forall|r: Told| flow::watched(#[trigger] opened(r), note(m, open, r), note, may, end) by {
        let n = note(m, open, r);
        if n.open {
            let named = |r: Told| authentication::after_username(args, policy, r);
            assert forall|r: Told| flow::watched(
                #[trigger] named(r),
                note(n, name, r),
                note,
                may,
                end,
            ) by {
                let x = note(n, name, r);
                if x.name is Some {
                    let username = x.name->0;
                    if wants_token(args) {
                        let got = |r: Told|
                            authentication::after_authtok(username, args, policy, r);
                        assert forall|r: Told| flow::watched(
                            #[trigger] got(r),
                            note(x, token, r),
                            note,
                            may,
                            end,
                        ) by {
                            let y = note(x, token, r);
                            if y.token is Some {
                                let authtok = y.token->0;
                                lemma_user(Login { username, args, authtok, policy }, y);
                            }
                        }
                    } else {
                        lemma_user(Login { username, args, authtok: None, policy }, x);
                    }
                }
            }
        }
    }
}

/// Without a first-pass flag, what the user enters is what is tested, for the user
/// that PAM named: whenever the policy accepts it, without the white space around it,
/// its test is the next request.
pub proof fn law_the_entered_pin_is_tested(
    args: ModuleArgs,
    policy: PinPolicy<Seq<char>>,
    name: Seq<char>,
    info: crate::pindata::AttemptInfo,
    line: Seq<char>,
)
    requires
        !args.try_first_pass,
        !args.use_first_pass,
        info.used < info.limit,
        pinpolicy::objection(policy, text::trimmed(line)) is None,
    ensures
        flow::rest(
            authentication::course(args, policy),
            seq![
                AuthReply::Opened(Ok(())),
                AuthReply::Named(Ok(name)),
                AuthReply::Found(true),
                AuthReply::Status(StatusReport::Report(Ok(Some(info)))),
                AuthReply::Entered(Ok(line)),
            ],
        ) matches Prog::Ask(c, _) && c == (AuthRequest::Test {
            username: name,
            pin: text::trimmed(line),
        }),
{
    reveal_with_fuel(flow::rest, 7);
    let replies: Seq<Told> = seq![
        AuthReply::Opened(Ok(())),
        AuthReply::Named(Ok(name)),
        AuthReply::Found(true),
        AuthReply::Status(StatusReport::Report(Ok(Some(info)))),
        AuthReply::Entered(Ok(line)),
    ];
    assert(replies.skip(1).skip(1).skip(1).skip(1)[0] == replies[4]);
    assert(replies.skip(1).skip(1).skip(1)[0] == replies[3]);
    assert(replies.skip(1).skip(1)[0] == replies[2]);
    assert(replies.skip(1)[0] == replies[1]);
}

/// A status command that could not be run, failed or cannot be understood makes the PIN
/// unavailable, for that reason; a report that there is no PIN, or that it is locked, is
/// taken as it is.
pub proof fn law_status_reports(report: StatusReport<Seq<char>>)
    ensures
        match report {
            StatusReport::NotRun(e) => authentication::status_from(report)
                == PinStatus::Unavailable(PinError::IoError(e)),
            StatusReport::Failed(status) => authentication::status_from(report)
                == PinStatus::Unavailable(PinError::IoError("output status: "@ + status)),
            StatusReport::Garbled(e) => authentication::status_from(report)
                == PinStatus::Unavailable(PinError::PinutilOutputDecodeError(e)),
            StatusReport::Report(Err(e)) => authentication::status_from(report) == if e
                is PinIsLocked {
                PinStatus::<Seq<char>>::LockedOut
            } else {
                PinStatus::Unavailable(e)
            },
            StatusReport::Report(Ok(None)) => authentication::status_from(report)
                is NotProvisioned,
            StatusReport::Report(Ok(Some(info))) => match authentication::status_from(report) {
                PinStatus::LockedOut => 0 < info.limit <= info.used,
                PinStatus::Available { used, limit } => used == info.used && limit == info.limit
                    && !(0 < info.limit <= info.used),
                _ => false,
            },
        },
{
}

/// A test is passed exactly when the helper reports success, and the PIN is locked
/// exactly when it says so.
pub proof fn law_test_reports(report: Result<(), PinError<Seq<char>>>)
    ensures
        match authentication::test_outcome(report) {
            PinutilTestOutcome::Success => report is Ok,
            PinutilTestOutcome::InvalidPin => report matches Err(PinError::IncorrectPin { locked })
                && !locked,
            PinutilTestOutcome::NewlyLockedOut => report matches Err(
                PinError::IncorrectPin { locked },
            ) && locked,
            PinutilTestOutcome::LockedOut => report matches Err(PinError::PinIsLocked),
            PinutilTestOutcome::NotConfigured => report matches Err(PinError::NotProvisioned(_)),
            PinutilTestOutcome::Unavailable => report matches Err(e) && !(e is IncorrectPin) && !(e
                is PinIsLocked) && !(e is NotProvisioned),
        },
{
}

/// Each notice has a message of its own.
pub proof fn law_notice_messages(n: Notice)
    ensures
        match n {
            Notice::AuthFailure => authentication::notice_key(n) == "auth_failure"@,
            Notice::Unavailable => authentication::notice_key(n) == "pin_auth_unavail"@,
            Notice::NotConfigured => authentication::notice_key(n) == "pin_not_conf_for_user"@,
            Notice::AccountLocked => authentication::notice_key(n) == "account_locked"@,
            Notice::PinEmpty => authentication::notice_key(n) == "pin_empty"@,
            Notice::PinDigits => authentication::notice_key(n) == "pin_digits"@,
        },
{
}

} // verus!

//! The course of a PAM authentication.
use crate::flow;
use crate::flow::{Paused, Prog, Step};
use crate::pam;
use crate::pam::{decide_first_pass, FirstPassDecision, ModuleArgs, PamCode, PamResult};
use crate::pin::Pin;
use crate::pindata::AttemptInfo;
use crate::pinerror::PinError;
use crate::pinpolicy;
use crate::pinpolicy::PinPolicy;
use crate::text;
use vstd::prelude::*;

verus! {

/// What is known of a user's PIN before the authentication.
#[derive(Debug)]
pub enum PinStatus<S = String> {
    Unavailable(PinError<S>),
    LockedOut,
    NotProvisioned,
    Available { used: u32, limit: u32 },
}

/// What the helper's status report comes to. A report on a PIN that has run out
/// of attempts, and a report that the PIN is locked, are the same.
pub open spec fn status_of<S>(report: Result<Option<AttemptInfo>, PinError<S>>) -> PinStatus<S> {
    match report {
        Err(PinError::PinIsLocked) => PinStatus::LockedOut,
        Err(e) => PinStatus::Unavailable(e),
        Ok(None) => PinStatus::NotProvisioned,
        Ok(Some(info)) => if info.is_locked() {
            PinStatus::LockedOut
        } else {
            PinStatus::Available { used: info.used, limit: info.limit }
        },
    }
}

impl vstd::std_specs::convert::FromSpecImpl<Result<Option<AttemptInfo>, PinError>> for PinStatus<String> {
    open spec fn obeys_from_spec() -> bool {
        true
    }

    open spec fn from_spec(report: Result<Option<AttemptInfo>, PinError>) -> PinStatus<String> {
        status_of(report)
    }
}

impl From<Result<Option<AttemptInfo>, PinError>> for PinStatus<String> {
    fn from(report: Result<Option<AttemptInfo>, PinError>) -> (s: PinStatus<String>) {
        match report {
            Err(PinError::PinIsLocked) => PinStatus::LockedOut,
            Err(e) => PinStatus::Unavailable(e),
            Ok(None) => PinStatus::NotProvisioned,
            Ok(Some(info)) => if info.locked() {
                PinStatus::LockedOut
            } else {
                PinStatus::Available { used: info.used, limit: info.limit }
            },
        }
    }
}

/// How the helper's test of a PIN has ended.
#[derive(Debug, Clone, Copy, PartialEq, Eq, Structural)]
pub enum PinutilTestOutcome {
    Success,
    InvalidPin,
    LockedOut,
    NewlyLockedOut,
    NotConfigured,
    Unavailable,
}

/// What the helper's report on a test comes to.
pub open spec fn test_outcome<S>(report: Result<(), PinError<S>>) -> PinutilTestOutcome {
    match report {
        Ok(()) => PinutilTestOutcome::Success,
        Err(PinError::PinIsLocked) => PinutilTestOutcome::LockedOut,
        Err(PinError::IncorrectPin { locked: true }) => PinutilTestOutcome::NewlyLockedOut,
        Err(PinError::IncorrectPin { locked: false }) => PinutilTestOutcome::InvalidPin,
        Err(PinError::NotProvisioned(_)) => PinutilTestOutcome::NotConfigured,
        Err(_) => PinutilTestOutcome::Unavailable,
    }
}

impl vstd::std_specs::convert::FromSpecImpl<Result<(), PinError>> for PinutilTestOutcome {
    open spec fn obeys_from_spec() -> bool {
        true
    }

    open spec fn from_spec(report: Result<(), PinError>) -> PinutilTestOutcome {
        test_outcome(report)
    }
}

impl From<Result<(), PinError>> for PinutilTestOutcome {
    fn from(report: Result<(), PinError>) -> (o: PinutilTestOutcome) {
        match report {
            Ok(()) => PinutilTestOutcome::Success,
            Err(PinError::PinIsLocked) => PinutilTestOutcome::LockedOut,
            Err(PinError::IncorrectPin { locked }) => if locked {
                PinutilTestOutcome::NewlyLockedOut
            } else {
                PinutilTestOutcome::InvalidPin
            },
            Err(PinError::NotProvisioned(_)) => PinutilTestOutcome::NotConfigured,
            Err(_) => PinutilTestOutcome::Unavailable,
        }
    }
}

/// What the helper's status command has produced.
#[derive(Debug)]
pub enum StatusReport<S = String> {
    /// It could not be run, for this reason.
    NotRun(S),
    /// It ended with this exit status, which is not success.
    Failed(S),
    /// Its output could not be read, for this reason.
    Garbled(S),
    /// It has reported.
    Report(Result<Option<AttemptInfo>, PinError<S>>),
}

pub const EXIT_STATUS: &'static str = "output status: ";

/// What the outcome of the status command says about the PIN.
pub open spec fn status_from(report: StatusReport<Seq<char>>) -> PinStatus<Seq<char>> {
    match report {
        StatusReport::NotRun(e) => PinStatus::Unavailable(PinError::IoError(e)),
        StatusReport::Failed(status) => PinStatus::Unavailable(
            PinError::IoError(EXIT_STATUS@ + status),
        ),
        StatusReport::Garbled(e) => PinStatus::Unavailable(PinError::PinutilOutputDecodeError(e)),
        StatusReport::Report(r) => status_of(r),
    }
}

impl View for PinStatus<String> {
    type V = PinStatus<Seq<char>>;

    open spec fn view(&self) -> PinStatus<Seq<char>> {
        match *self {
            PinStatus::Unavailable(e) => PinStatus::Unavailable(e@),
            PinStatus::LockedOut => PinStatus::LockedOut,
            PinStatus::NotProvisioned => PinStatus::NotProvisioned,
            PinStatus::Available { used, limit } => PinStatus::Available { used, limit },
        }
    }
}

impl View for StatusReport<String> {
    type V = StatusReport<Seq<char>>;

    open spec fn view(&self) -> StatusReport<Seq<char>> {
        match *self {
            StatusReport::NotRun(e) => StatusReport::NotRun(e@),
            StatusReport::Failed(e) => StatusReport::Failed(e@),
            StatusReport::Garbled(e) => StatusReport::Garbled(e@),
            StatusReport::Report(r) => StatusReport::Report(crate::pinerror::outcome(r)),
        }
    }
}

/// What the outcome of the status command says about the PIN.
pub fn run_pinutil_status(report: StatusReport) -> (s: PinStatus)
    ensures
        s@ == status_from(report@),
{
    match report {
        StatusReport::NotRun(e) => PinStatus::Unavailable(PinError::IoError(e)),
        StatusReport::Failed(status) => PinStatus::Unavailable(
            PinError::IoError(text::joined(EXIT_STATUS, status.as_str())),
        ),
        StatusReport::Garbled(e) => PinStatus::Unavailable(PinError::PinutilOutputDecodeError(e)),
        StatusReport::Report(r) => PinStatus::from(r),
    }
}

/// The messages to the user.
#[derive(Debug, Clone, Copy, PartialEq, Eq, Structural)]
pub enum Notice {
    AuthFailure,
    Unavailable,
    NotConfigured,
    AccountLocked,
    PinEmpty,
    PinDigits,
}

/// The key of the localised message of a notice.
pub open spec fn notice_key(n: Notice) -> Seq<char> {
    match n {
        Notice::AuthFailure => "auth_failure"@,
        Notice::Unavailable => "pin_auth_unavail"@,
        Notice::NotConfigured => "pin_not_conf_for_user"@,
        Notice::AccountLocked => "account_locked"@,
        Notice::PinEmpty => "pin_empty"@,
        Notice::PinDigits => "pin_digits"@,
    }
}

impl Notice {
    /// The key of the localised message.
    pub fn key(&self) -> (r: &'static str)
        ensures
            r@ == notice_key(*self),
    {
        match self {
            Notice::AuthFailure => "auth_failure",
            Notice::Unavailable => "pin_auth_unavail",
            Notice::NotConfigured => "pin_not_conf_for_user",
            Notice::AccountLocked => "account_locked",
            Notice::PinEmpty => "pin_empty",
            Notice::PinDigits => "pin_digits",
        }
    }

    /// True if the message is sent as an error; it is sent as information
    /// otherwise.
    pub fn is_error(&self) -> (b: bool)
        ensures
            b == (*self != Notice::NotConfigured),
    {
        *self != Notice::NotConfigured
    }
}

/// How the user is asked for the PIN.
#[derive(Debug, Clone, Copy, PartialEq, Eq, Structural)]
pub enum PinPrompt {
    /// Without a warning.
    Plain,
    /// With the number of attempts that are left.
    Remaining(u32),
    /// With the warning that this is the last attempt.
    Last,
}

/// The prompt for a number of attempts that are left: a warning when fewer than
/// three are.
pub open spec fn prompt_for(remaining: int) -> PinPrompt {
    if remaining >= 3 {
        PinPrompt::Plain
    } else if remaining == 2 {
        PinPrompt::Remaining(2)
    } else {
        PinPrompt::Last
    }
}

/// What the authentication asks of PAM, of the system and of the helper. `S` is
/// the type of texts, `P` that of PINs.
pub enum AuthRequest<S = String, P = Pin> {
    /// Get hold of the PAM conversation.
    Conversation,
    /// Get the name of the user from PAM.
    Username,
    /// Get the token of a previously-stacked module from PAM.
    Authtok,
    /// Find the user in the system's user database.
    FindUser { username: S },
    /// Run the helper's status command.
    Status { username: S },
    /// Run the helper's test command on a PIN.
    Test { username: S, pin: P },
    /// Ask the user for the PIN, without showing what is typed.
    Prompt { prompt: PinPrompt },
    /// Send the user a message.
    Tell { notice: Notice },
}

impl View for AuthRequest<String, Pin> {
    type V = AuthRequest<Seq<char>, Seq<char>>;

    open spec fn view(&self) -> AuthRequest<Seq<char>, Seq<char>> {
        match *self {
            AuthRequest::Conversation => AuthRequest::Conversation,
            AuthRequest::Username => AuthRequest::Username,
            AuthRequest::Authtok => AuthRequest::Authtok,
            AuthRequest::FindUser { username } => AuthRequest::FindUser { username: username@ },
            AuthRequest::Status { username } => AuthRequest::Status { username: username@ },
            AuthRequest::Test { username, pin } => AuthRequest::Test {
                username: username@,
                pin: pin@,
            },
            AuthRequest::Prompt { prompt } => AuthRequest::Prompt { prompt },
            AuthRequest::Tell { notice } => AuthRequest::Tell { notice },
        }
    }
}

/// What came of a request. A reply of another sort than the request stands for
/// a failure.
#[derive(Debug)]
pub enum AuthReply<S = String> {
    Opened(Result<(), PamCode>),
    Named(Result<S, PamCode>),
    Token(Result<Option<S>, PamCode>),
    Found(bool),
    Status(StatusReport<S>),
    /// The helper's report, or why there is none.
    Tested(Result<Result<(), PinError<S>>, S>),
    Entered(Result<S, PamCode>),
    Told(Result<(), PamCode>),
}

pub open spec fn text_result<E>(r: Result<String, E>) -> Result<Seq<char>, E> {
    match r {
        Ok(t) => Ok(t@),
        Err(e) => Err(e),
    }
}

impl View for AuthReply<String> {
    type V = AuthReply<Seq<char>>;

    open spec fn view(&self) -> AuthReply<Seq<char>> {
        match *self {
            AuthReply::Opened(r) => AuthReply::Opened(r),
            AuthReply::Named(r) => AuthReply::Named(text_result(r)),
            AuthReply::Token(r) => AuthReply::Token(
                match r {
                    Ok(t) => Ok(pinpolicy::text_option(t)),
                    Err(e) => Err(e),
                },
            ),
            AuthReply::Found(b) => AuthReply::Found(b),
            AuthReply::Status(r) => AuthReply::Status(r@),
            AuthReply::Tested(r) => AuthReply::Tested(
                match r {
                    Ok(report) => Ok(crate::pinerror::outcome(report)),
                    Err(e) => Err(e@),
                },
            ),
            AuthReply::Entered(r) => AuthReply::Entered(text_result(r)),
            AuthReply::Told(r) => AuthReply::Told(r),
        }
    }
}

pub type Ask = AuthRequest<Seq<char>, Seq<char>>;

pub type Told = AuthReply<Seq<char>>;

/// A course of the authentication.
pub type Course = Prog<Ask, Told, PamResult>;

/// Who is to be authenticated, and how.
pub struct Login<S = String> {
    pub username: S,
    pub args: ModuleArgs,
    pub authtok: Option<S>,
    pub policy: PinPolicy<S>,
}

impl View for Login<String> {
    type V = Login<Seq<char>>;

    open spec fn view(&self) -> Login<Seq<char>> {
        Login {
            username: self.username@,
            args: self.args,
            authtok: pinpolicy::text_option(self.authtok),
            policy: self.policy@,
        }
    }
}

/// Sending a message and then failing with `code`, whether it was received or
/// not.
pub open spec fn tell(notice: Notice, code: PamCode) -> Course {
    Prog::Ask(AuthRequest::Tell { notice }, |r: Told| Prog::Return(Err(code)))
}

/// How a test of a PIN ends the authentication.
pub open spec fn finalize(outcome: PinutilTestOutcome) -> Course {
    match outcome {
        PinutilTestOutcome::Success => Prog::Return(Ok(())),
        PinutilTestOutcome::InvalidPin => tell(Notice::AuthFailure, PamCode::AuthErr),
        PinutilTestOutcome::NewlyLockedOut | PinutilTestOutcome::LockedOut => tell(
            Notice::AccountLocked,
            PamCode::MaxTries,
        ),
        PinutilTestOutcome::NotConfigured => tell(Notice::NotConfigured, PamCode::AuthInfoUnavail),
        PinutilTestOutcome::Unavailable => tell(Notice::Unavailable, PamCode::AuthInfoUnavail),
    }
}

/// The report on a test.
pub open spec fn tested(r: Told) -> Option<PinutilTestOutcome> {
    match r {
        AuthReply::Tested(Ok(report)) => Some(test_outcome(report)),
        _ => None,
    }
}

/// What follows the test of a PIN that the user has typed.
pub open spec fn after_test(r: Told) -> Course {
    match tested(r) {
        Some(outcome) => finalize(outcome),
        None => tell(Notice::Unavailable, PamCode::AuthInfoUnavail),
    }
}

/// Complaining about what the user has typed. If even that fails, its code is
/// returned.
pub open spec fn complain(notice: Notice) -> Course {
    Prog::Ask(AuthRequest::Tell { notice }, |r: Told| Prog::Return(Err(complained(r))))
}

pub open spec fn complained(r: Told) -> PamCode {
    match r {
        AuthReply::Told(Ok(())) => PamCode::AuthErr,
        AuthReply::Told(Err(code)) => code,
        _ => PamCode::SystemErr,
    }
}

/// What follows the user's answer to the prompt.
pub open spec fn entered(login: Login<Seq<char>>, r: Told) -> Course {
    match r {
        AuthReply::Entered(Ok(t)) => {
            let pin = text::trimmed(t);
            match pinpolicy::objection(login.policy, pin) {
                None => Prog::Ask(
                    AuthRequest::Test { username: login.username, pin },
                    |r: Told| after_test(r),
                ),
                Some(PinError::PinIsEmpty) => complain(Notice::PinEmpty),
                Some(_) => complain(Notice::PinDigits),
            }
        },
        AuthReply::Entered(Err(code)) => Prog::Return(Err(code)),
        _ => Prog::Return(Err(PamCode::SystemErr)),
    }
}

/// Asking the user, if there is an attempt left.
pub open spec fn prompt(login: Login<Seq<char>>, used: u32, limit: u32) -> Course {
    if used >= limit {
        tell(Notice::AccountLocked, PamCode::MaxTries)
    } else {
        Prog::Ask(
            AuthRequest::Prompt { prompt: prompt_for(limit - used) },
            |r: Told| entered(login, r),
        )
    }
}

/// One attempt more.
pub open spec fn one_more(used: u32) -> u32 {
    if used == u32::MAX {
        used
    } else {
        (used + 1) as u32
    }
}

/// What follows the test of a stacked PIN. A rejected PIN has used up an
/// attempt; the user is asked then, unless the stacked PIN is the only one to be
/// used.
pub open spec fn after_first_pass(
    login: Login<Seq<char>>,
    used: u32,
    limit: u32,
    r: Told,
) -> Course {
    match tested(r) {
        None => tell(Notice::Unavailable, PamCode::AuthInfoUnavail),
        Some(outcome) => if outcome == PinutilTestOutcome::InvalidPin
            && !login.args.use_first_pass {
            prompt(login, one_more(used), limit)
        } else {
            finalize(outcome)
        },
    }
}

/// What follows a status that leaves attempts.
pub open spec fn available(login: Login<Seq<char>>, used: u32, limit: u32) -> Course {
    match pam::decision(login.args, login.authtok, login.policy) {
        FirstPassDecision::Deny => tell(Notice::AuthFailure, PamCode::AuthErr),
        FirstPassDecision::TryFirstPass(pin) => Prog::Ask(
            AuthRequest::Test { username: login.username, pin },
            |r: Told| after_first_pass(login, used, limit, r),
        ),
        FirstPassDecision::PromptUser => prompt(login, used, limit),
    }
}

/// The status that a reply reports.
pub open spec fn reported(r: Told) -> PinStatus<Seq<char>> {
    match r {
        AuthReply::Status(report) => status_from(report),
        _ => PinStatus::Unavailable(PinError::IoError(Seq::empty())),
    }
}

/// What follows the status report.
pub open spec fn after_status(login: Login<Seq<char>>, r: Told) -> Course {
    match reported(r) {
        PinStatus::Unavailable(_) => tell(Notice::Unavailable, PamCode::AuthInfoUnavail),
        PinStatus::NotProvisioned => tell(Notice::NotConfigured, PamCode::AuthInfoUnavail),
        PinStatus::LockedOut => tell(Notice::AccountLocked, PamCode::MaxTries),
        PinStatus::Available { used, limit } => available(login, used, limit),
    }
}

/// What follows the lookup of the user.
pub open spec fn after_lookup(login: Login<Seq<char>>, r: Told) -> Course {
    if r == Told::Found(true) {
        Prog::Ask(
            AuthRequest::Status { username: login.username },
            |r: Told| after_status(login, r),
        )
    } else {
        tell(Notice::AuthFailure, PamCode::UserUnknown)
    }
}

/// Authenticating a user whose name is known.
pub open spec fn user_course(login: Login<Seq<char>>) -> Course {
    Prog::Ask(
        AuthRequest::FindUser { username: login.username },
        |r: Told| after_lookup(login, r),
    )
}

/// What follows the reading of the token.
pub open spec fn after_authtok(
    username: Seq<char>,
    args: ModuleArgs,
    policy: PinPolicy<Seq<char>>,
    r: Told,
) -> Course {
    match r {
        AuthReply::Token(Ok(authtok)) => user_course(Login { username, args, authtok, policy }),
        AuthReply::Token(Err(code)) => Prog::Return(Err(code)),
        _ => Prog::Return(Err(PamCode::SystemErr)),
    }
}

/// What follows the reading of the user's name. The token is read only if it is
/// wanted.
pub open spec fn after_username(
    args: ModuleArgs,
    policy: PinPolicy<Seq<char>>,
    r: Told,
) -> Course {
    match r {
        AuthReply::Named(Ok(username)) => if args.first_pass() {
            Prog::Ask(
                AuthRequest::Authtok,
                |r: Told| after_authtok(username, args, policy, r),
            )
        } else {
            user_course(Login { username, args, authtok: None, policy })
        },
        AuthReply::Named(Err(code)) => tell(Notice::AuthFailure, code),
        _ => tell(Notice::AuthFailure, PamCode::SystemErr),
    }
}

/// What follows the opening of the PAM conversation.
pub open spec fn after_opening(args: ModuleArgs, policy: PinPolicy<Seq<char>>, r: Told) -> Course {
    match r {
        AuthReply::Opened(Ok(())) => Prog::Ask(
            AuthRequest::Username,
            |r: Told| after_username(args, policy, r),
        ),
        AuthReply::Opened(Err(code)) => Prog::Return(Err(code)),
        _ => Prog::Return(Err(PamCode::SystemErr)),
    }
}

/// The authentication.
pub open spec fn course(args: ModuleArgs, policy: PinPolicy<Seq<char>>) -> Course {
    Prog::Ask(AuthRequest::Conversation, |r: Told| after_opening(args, policy, r))
}

/// An authentication that waits for a reply.
pub enum Authentication {
    Opening { args: ModuleArgs, policy: PinPolicy },
    Naming { args: ModuleArgs, policy: PinPolicy },
    ReadingToken { username: String, args: ModuleArgs, policy: PinPolicy },
    Finding(Login),
    Querying(Login),
    TestingFirst { login: Login, used: u32, limit: u32 },
    Prompting(Login),
    Testing,
    /// Sending the last message before `code` is returned.
    Telling(PamCode),
    /// Complaining about what the user has typed.
    Complaining,
}

impl Paused<Ask, Told, PamResult> for Authentication {
    open spec fn after(self, r: Told) -> Prog<Ask, Told, PamResult> {
        match self {
            Authentication::Opening { args, policy } => after_opening(args, policy@, r),
            Authentication::Naming { args, policy } => after_username(args, policy@, r),
            Authentication::ReadingToken { username, args, policy } => after_authtok(
                username@,
                args,
                policy@,
                r,
            ),
            Authentication::Finding(login) => after_lookup(login@, r),
            Authentication::Querying(login) => after_status(login@, r),
            Authentication::TestingFirst { login, used, limit } => after_first_pass(
                login@,
                used,
                limit,
                r,
            ),
            Authentication::Prompting(login) => entered(login@, r),
            Authentication::Testing => after_test(r),
            Authentication::Telling(code) => Prog::Return(Err(code)),
            Authentication::Complaining => Prog::Return(Err(complained(r))),
        }
    }
}

pub type AuthStep = Step<AuthRequest, Authentication, PamResult>;

/// Starts the authentication.
pub fn authenticate(args: ModuleArgs, policy: PinPolicy) -> (s: AuthStep)
    ensures
        flow::performs(s, course(args, policy@)),
{
    Step::Ask(AuthRequest::Conversation, Authentication::Opening { args, policy })
}

fn telling(notice: Notice, code: PamCode) -> (s: AuthStep)
    ensures
        flow::performs(s, tell(notice, code)),
{
    Step::Ask(AuthRequest::Tell { notice }, Authentication::Telling(code))
}

/// Ends the authentication with the outcome of a test.
pub fn finalize_outcome(outcome: PinutilTestOutcome) -> (s: AuthStep)
    ensures
        flow::performs(s, finalize(outcome)),
{
    match outcome {
        PinutilTestOutcome::Success => Step::Done(Ok(())),
        PinutilTestOutcome::InvalidPin => telling(Notice::AuthFailure, PamCode::AuthErr),
        PinutilTestOutcome::NewlyLockedOut | PinutilTestOutcome::LockedOut => telling(
            Notice::AccountLocked,
            PamCode::MaxTries,
        ),
        PinutilTestOutcome::NotConfigured => telling(
            Notice::NotConfigured,
            PamCode::AuthInfoUnavail,
        ),
        PinutilTestOutcome::Unavailable => telling(Notice::Unavailable, PamCode::AuthInfoUnavail),
    }
}

/// The outcome of the helper's test, if it has reported.
pub fn run_pinutil_test(reply: AuthReply) -> (o: Option<PinutilTestOutcome>)
    ensures
        o == tested(reply@),
{
    match reply {
        AuthReply::Tested(Ok(report)) => Some(PinutilTestOutcome::from(report)),
        _ => None,
    }
}

/// Asks the user for the PIN, if there is an attempt left.
fn prompt_user(login: Login, used: u32, limit: u32) -> (s: AuthStep)
    ensures
        flow::performs(s, prompt(login@, used, limit)),
{
    if used >= limit {
        return telling(Notice::AccountLocked, PamCode::MaxTries);
    }
    let remaining: u32 = limit - used;
    let prompt = if remaining >= 3 {
        PinPrompt::Plain
    } else if remaining == 2 {
        PinPrompt::Remaining(2)
    } else {
        PinPrompt::Last
    };
    Step::Ask(AuthRequest::Prompt { prompt }, Authentication::Prompting(login))
}

/// Takes what the user has typed for a PIN.
fn prompt_for_pin(login: Login, typed: &str) -> (s: AuthStep)
    ensures
        flow::performs(s, entered(login@, AuthReply::Entered(Ok(typed@)))),
{
    match Pin::new(typed, &login.policy) {
        Ok(pin) => Step::Ask(
            AuthRequest::Test { username: login.username, pin },
            Authentication::Testing,
        ),
        Err(PinError::PinIsEmpty) => Step::Ask(
            AuthRequest::Tell { notice: Notice::PinEmpty },
            Authentication::Complaining,
        ),
        Err(_) => Step::Ask(
            AuthRequest::Tell { notice: Notice::PinDigits },
            Authentication::Complaining,
        ),
    }
}

/// Authenticates a user whose name is known.
pub fn authenticate_user(login: Login) -> (s: AuthStep)
    ensures
        flow::performs(s, user_course(login@)),
{
    let username = login.username.clone();
    Step::Ask(AuthRequest::FindUser { username }, Authentication::Finding(login))
}

/// Goes on with a user whose PIN has attempts left.
fn with_attempts(login: Login, used: u32, limit: u32) -> (s: AuthStep)
    ensures
        flow::performs(s, available(login@, used, limit)),
{
    let token = match &login.authtok {
        Some(t) => Some(t.as_str()),
        None => None,
    };
    assert(pam::token_view(token) == login@.authtok);
    match decide_first_pass(login.args, token, &login.policy) {
        FirstPassDecision::Deny => telling(Notice::AuthFailure, PamCode::AuthErr),
        FirstPassDecision::TryFirstPass(pin) => {
            let username = login.username.clone();
            Step::Ask(
                AuthRequest::Test { username, pin },
                Authentication::TestingFirst { login, used, limit },
            )
        },
        FirstPassDecision::PromptUser => prompt_user(login, used, limit),
    }
}

impl Authentication {
    pub fn resume(self, reply: AuthReply) -> (s: Step<AuthRequest, Authentication, PamResult>)
        ensures
            flow::performs(s, self.after(reply@)),
    {
        match self {
            Authentication::Opening { args, policy } => match reply {
                AuthReply::Opened(Ok(())) => Step::Ask(
                    AuthRequest::Username,
                    Authentication::Naming { args, policy },
                ),
                AuthReply::Opened(Err(code)) => Step::Done(Err(code)),
                _ => Step::Done(Err(PamCode::SystemErr)),
            },
            Authentication::Naming { args, policy } => match reply {
                AuthReply::Named(Ok(username)) => if args.wants_first_pass() {
                    Step::Ask(
                        AuthRequest::Authtok,
                        Authentication::ReadingToken { username, args, policy },
                    )
                } else {
                    authenticate_user(Login { username, args, authtok: None, policy })
                },
                AuthReply::Named(Err(code)) => telling(Notice::AuthFailure, code),
                _ => telling(Notice::AuthFailure, PamCode::SystemErr),
            },
            Authentication::ReadingToken { username, args, policy } => match reply {
                AuthReply::Token(Ok(authtok)) => authenticate_user(
                    Login { username, args, authtok, policy },
                ),
                AuthReply::Token(Err(code)) => Step::Done(Err(code)),
                _ => Step::Done(Err(PamCode::SystemErr)),
            },
            Authentication::Finding(login) => match reply {
                AuthReply::Found(true) => {
                    let username = login.username.clone();
                    Step::Ask(AuthRequest::Status { username }, Authentication::Querying(login))
                },
                _ => telling(Notice::AuthFailure, PamCode::UserUnknown),
            },
            Authentication::Querying(login) => match reply {
                AuthReply::Status(report) => match run_pinutil_status(report) {
                    PinStatus::Unavailable(_) => telling(
                        Notice::Unavailable,
                        PamCode::AuthInfoUnavail,
                    ),
                    PinStatus::NotProvisioned => telling(
                        Notice::NotConfigured,
                        PamCode::AuthInfoUnavail,
                    ),
                    PinStatus::LockedOut => telling(Notice::AccountLocked, PamCode::MaxTries),
                    PinStatus::Available { used, limit } => with_attempts(login, used, limit),
                },
                _ => telling(Notice::Unavailable, PamCode::AuthInfoUnavail),
            },
            Authentication::TestingFirst { login, used, limit } => match run_pinutil_test(reply) {
                None => telling(Notice::Unavailable, PamCode::AuthInfoUnavail),
                Some(outcome) => if outcome == PinutilTestOutcome::InvalidPin
                    && !login.args.use_first_pass {
                    // The attempt has used up one of those that were left.
                    prompt_user(login, used.saturating_add(1), limit)
                } else {
                    finalize_outcome(outcome)
                },
            },
            Authentication::Prompting(login) => match reply {
                AuthReply::Entered(Ok(typed)) => prompt_for_pin(login, typed.as_str()),
                AuthReply::Entered(Err(code)) => Step::Done(Err(code)),
                _ => Step::Done(Err(PamCode::SystemErr)),
            },
            Authentication::Testing => match run_pinutil_test(reply) {
                Some(outcome) => finalize_outcome(outcome),
                None => telling(Notice::Unavailable, PamCode::AuthInfoUnavail),
            },
            Authentication::Telling(code) => Step::Done(Err(code)),
            Authentication::Complaining => match reply {
                AuthReply::Told(Ok(())) => Step::Done(Err(PamCode::AuthErr)),
                AuthReply::Told(Err(code)) => Step::Done(Err(code)),
                _ => Step::Done(Err(PamCode::SystemErr)),
            },
        }
    }
}

} // verus!

//! What the command-line utility asks and is told.
//!
//! Each command of the utility is a conversation (see `flow`) with the user, the
//! system and the PIN manager, through whoever drives it.
use crate::flow::Prog;
use crate::pin::Pin;
use crate::pindata;
use crate::pindata::{AttemptInfo, PinData};
use crate::pinerror;
use crate::pinerror::{DeleteResult, PinError, PinResult, VerificationResult};
use crate::pinpolicy;
use crate::pinpolicy::PinPolicy;
use crate::text;
use vstd::prelude::*;

verus! {

/// What the user is asked for.
#[derive(Debug, Clone, Copy, PartialEq, Eq, Structural)]
pub enum Label {
    /// A new PIN.
    EnterNew,
    /// The new PIN once more.
    ConfirmNew,
    /// The current PIN.
    Current,
    /// The PIN that replaces the current one.
    Replacement,
    /// That PIN once more.
    ConfirmReplacement,
}

/// What the user is told.
#[derive(Debug)]
pub enum Message<S = String> {
    PinSet { username: S },
    PinChanged { username: S },
    PinDeleted { username: S },
    DeletionFailed { error: PinError<S> },
    Cancelled,
    IncorrectPin,
    NowLockedOut,
    NoPinForUser,
    UserLockedOut,
    PinCorrect,
    PinIncorrect,
    StatusOf { username: S, uid: u32 },
    Provisioned { info: AttemptInfo },
    NotProvisioned,
}

impl View for Message<String> {
    type V = Message<Seq<char>>;

    open spec fn view(&self) -> Message<Seq<char>> {
        match *self {
            Message::PinSet { username } => Message::PinSet { username: username@ },
            Message::PinChanged { username } => Message::PinChanged { username: username@ },
            Message::PinDeleted { username } => Message::PinDeleted { username: username@ },
            Message::DeletionFailed { error } => Message::DeletionFailed { error: error@ },
            Message::Cancelled => Message::Cancelled,
            Message::IncorrectPin => Message::IncorrectPin,
            Message::NowLockedOut => Message::NowLockedOut,
            Message::NoPinForUser => Message::NoPinForUser,
            Message::UserLockedOut => Message::UserLockedOut,
            Message::PinCorrect => Message::PinCorrect,
            Message::PinIncorrect => Message::PinIncorrect,
            Message::StatusOf { username, uid } => Message::StatusOf { username: username@, uid },
            Message::Provisioned { info } => Message::Provisioned { info },
            Message::NotProvisioned => Message::NotProvisioned,
        }
    }
}

/// The key of the localised text of a message.
pub open spec fn message_key(m: Message<Seq<char>>) -> Seq<char> {
    match m {
        Message::PinSet { .. } => "pin_set_for_user"@,
        Message::PinChanged { .. } => "pin_changed_for_user"@,
        Message::PinDeleted { .. } => "pin_deleted_for_user"@,
        Message::DeletionFailed { .. } => "pin_delete_failed"@,
        Message::Cancelled => "cancelled"@,
        Message::IncorrectPin => "incorrect_pin"@,
        Message::NowLockedOut => "now_locked_out"@,
        Message::NoPinForUser => "no_pin_set_for_user"@,
        Message::UserLockedOut => "user_is_locked_out"@,
        Message::PinCorrect => "pin_correct"@,
        Message::PinIncorrect => "pin_incorrect"@,
        Message::StatusOf { .. } => "status_for_user"@,
        Message::Provisioned { .. } => "pin_provisioned_yes"@,
        Message::NotProvisioned => "pin_provisioned_no"@,
    }
}

impl Message<String> {
    /// The key of the localised text.
    pub fn key(&self) -> (r: &'static str)
        ensures
            r@ == message_key(self@),
    {
        match self {
            Message::PinSet { .. } => "pin_set_for_user",
            Message::PinChanged { .. } => "pin_changed_for_user",
            Message::PinDeleted { .. } => "pin_deleted_for_user",
            Message::DeletionFailed { .. } => "pin_delete_failed",
            Message::Cancelled => "cancelled",
            Message::IncorrectPin => "incorrect_pin",
            Message::NowLockedOut => "now_locked_out",
            Message::NoPinForUser => "no_pin_set_for_user",
            Message::UserLockedOut => "user_is_locked_out",
            Message::PinCorrect => "pin_correct",
            Message::PinIncorrect => "pin_incorrect",
            Message::StatusOf { .. } => "status_for_user",
            Message::Provisioned { .. } => "pin_provisioned_yes",
            Message::NotProvisioned => "pin_provisioned_no",
        }
    }
}

/// What a command asks for. `S` is the type of texts, `P` that of PINs.
pub enum UtilRequest<S = String, P = Pin> {
    /// Find the uid of a user.
    FindUser { username: S },
    /// Load the policy and connect a PIN manager to the TPM.
    OpenManager,
    /// Open the manager's connection afresh.
    RestartManager,
    /// Read the failed-attempt counter of a user.
    CountAttempts { uid: u32 },
    /// Read the slot of a user.
    ReadSlot { uid: u32 },
    /// Set a PIN up.
    SetUp { uid: u32, pin: P },
    /// Verify a PIN.
    Verify { uid: u32, pin: P },
    /// Delete a PIN without being asked for it.
    DeleteAdmin { uid: u32 },
    /// Delete a PIN by its own authority.
    DeleteWithAuth { uid: u32, pin: P },
    /// Ask the user for a PIN at the terminal, without showing what is typed;
    /// with the attempts used and allowed, if they are to be mentioned.
    Prompt { label: Label, attempts: Option<(u32, u32)> },
    /// Read a line from the standard input, without a prompt.
    ReadLine,
    /// Ask the user whether the PIN of `username` is really to be deleted.
    ConfirmDeletion { username: S },
    /// Tell the user something.
    Say { message: Message<S> },
}

impl View for UtilRequest<String, Pin> {
    type V = UtilRequest<Seq<char>, Seq<char>>;

    open spec fn view(&self) -> UtilRequest<Seq<char>, Seq<char>> {
        match *self {
            UtilRequest::FindUser { username } => UtilRequest::FindUser { username: username@ },
            UtilRequest::OpenManager => UtilRequest::OpenManager,
            UtilRequest::RestartManager => UtilRequest::RestartManager,
            UtilRequest::CountAttempts { uid } => UtilRequest::CountAttempts { uid },
            UtilRequest::ReadSlot { uid } => UtilRequest::ReadSlot { uid },
            UtilRequest::SetUp { uid, pin } => UtilRequest::SetUp { uid, pin: pin@ },
            UtilRequest::Verify { uid, pin } => UtilRequest::Verify { uid, pin: pin@ },
            UtilRequest::DeleteAdmin { uid } => UtilRequest::DeleteAdmin { uid },
            UtilRequest::DeleteWithAuth { uid, pin } => UtilRequest::DeleteWithAuth {
                uid,
                pin: pin@,
            },
            UtilRequest::Prompt { label, attempts } => UtilRequest::Prompt { label, attempts },
            UtilRequest::ReadLine => UtilRequest::ReadLine,
            UtilRequest::ConfirmDeletion { username } => UtilRequest::ConfirmDeletion {
                username: username@,
            },
            UtilRequest::Say { message } => UtilRequest::Say { message: message@ },
        }
    }
}

/// What came of a request. A reply of another sort than the request stands for
/// an I/O error.
#[derive(Debug)]
pub enum UtilReply<S = String> {
    User(Result<u32, PinError<S>>),
    Manager(Result<PinPolicy<S>, PinError<S>>),
    Count(Result<Option<u32>, PinError<S>>),
    Slot(Result<Option<PinData>, PinError<S>>),
    Done(Result<(), PinError<S>>),
    Verdict(Result<VerificationResult, PinError<S>>),
    Deletion(Result<DeleteResult, PinError<S>>),
    Line(Result<S, PinError<S>>),
    Said,
}

pub type Wish = UtilRequest<Seq<char>, Seq<char>>;

pub type Heard = UtilReply<Seq<char>>;

pub type Failure = PinError<Seq<char>>;

/// A conversation of the utility.
pub type Dialogue<T> = Prog<Wish, Heard, Result<T, Failure>>;

impl View for UtilReply<String> {
    type V = UtilReply<Seq<char>>;

    open spec fn view(&self) -> UtilReply<Seq<char>> {
        match *self {
            UtilReply::User(r) => UtilReply::User(pinerror::outcome(r)),
            UtilReply::Manager(r) => UtilReply::Manager(
                match r {
                    Ok(p) => Ok(p@),
                    Err(e) => Err(e@),
                },
            ),
            UtilReply::Count(r) => UtilReply::Count(pinerror::outcome(r)),
            UtilReply::Slot(r) => UtilReply::Slot(pinerror::outcome(r)),
            UtilReply::Done(r) => UtilReply::Done(pinerror::outcome(r)),
            UtilReply::Verdict(r) => UtilReply::Verdict(pinerror::outcome(r)),
            UtilReply::Deletion(r) => UtilReply::Deletion(pinerror::outcome(r)),
            UtilReply::Line(r) => UtilReply::Line(
                match r {
                    Ok(t) => Ok(t@),
                    Err(e) => Err(e@),
                },
            ),
            UtilReply::Said => UtilReply::Said,
        }
    }
}

/// The error that a reply of the wrong sort stands for.
pub const UNEXPECTED: &'static str = "unexpected reply";

pub open spec fn unexpected() -> Failure {
    PinError::IoError(UNEXPECTED@)
}

pub open spec fn user_of(r: Heard) -> Result<u32, Failure> {
    match r {
        UtilReply::User(u) => u,
        _ => Err(unexpected()),
    }
}

pub open spec fn policy_of(r: Heard) -> Result<PinPolicy<Seq<char>>, Failure> {
    match r {
        UtilReply::Manager(p) => p,
        _ => Err(unexpected()),
    }
}

pub open spec fn count_of(r: Heard) -> Result<Option<u32>, Failure> {
    match r {
        UtilReply::Count(c) => c,
        _ => Err(unexpected()),
    }
}

/// The attempt counters that a reply reports.
pub open spec fn info_of(r: Heard) -> Result<Option<AttemptInfo>, Failure> {
    match r {
        UtilReply::Slot(Ok(Some(slot))) => Ok(Some(pindata::attempts_of(slot))),
        UtilReply::Slot(Ok(None)) => Ok(None),
        UtilReply::Slot(Err(e)) => Err(e),
        _ => Err(unexpected()),
    }
}

pub open spec fn done_of(r: Heard) -> Result<(), Failure> {
    match r {
        UtilReply::Done(d) => d,
        _ => Err(unexpected()),
    }
}

pub open spec fn verdict_of(r: Heard) -> Result<VerificationResult, Failure> {
    match r {
        UtilReply::Verdict(v) => v,
        _ => Err(unexpected()),
    }
}

pub open spec fn deletion_of(r: Heard) -> Result<DeleteResult, Failure> {
    match r {
        UtilReply::Deletion(d) => d,
        _ => Err(unexpected()),
    }
}

/// What was typed, without the white space around it. Nothing is an error.
pub open spec fn typed_of(r: Heard) -> Result<Seq<char>, Failure> {
    match r {
        UtilReply::Line(Ok(line)) => {
            let t = text::trimmed(line);
            if t.len() == 0 {
                Err(PinError::PinIsEmpty)
            } else {
                Ok(t)
            }
        },
        UtilReply::Line(Err(e)) => Err(e),
        _ => Err(unexpected()),
    }
}

/// The PIN that was typed, if the policy accepts it.
pub open spec fn pin_of(policy: PinPolicy<Seq<char>>, r: Heard) -> Result<Seq<char>, Failure> {
    match typed_of(r) {
        Ok(pin) => match pinpolicy::objection(policy, pin) {
            None => Ok(pin),
            Some(e) => Err(e),
        },
        Err(e) => Err(e),
    }
}

/// True of an answer that means yes.
pub open spec fn affirmative(line: Seq<char>) -> bool {
    let t = text::trimmed(line);
    t.len() > 0 && (t[0] == 'y' || t[0] == 'Y')
}

/// Whether the user has agreed.
pub open spec fn consent_of(r: Heard) -> Result<bool, Failure> {
    match r {
        UtilReply::Line(Ok(line)) => Ok(affirmative(line)),
        UtilReply::Line(Err(e)) => Err(e),
        _ => Err(unexpected()),
    }
}

pub(crate) fn unexpected_error() -> (e: PinError)
    ensures
        e@ == unexpected(),
{
    PinError::IoError(UNEXPECTED.to_owned())
}

pub(crate) fn take_user(reply: UtilReply) -> (r: PinResult<u32>)
    ensures
        pinerror::outcome(r) == user_of(reply@),
{
    match reply {
        UtilReply::User(u) => u,
        _ => Err(unexpected_error()),
    }
}

pub(crate) fn take_policy(reply: UtilReply) -> (r: PinResult<PinPolicy>)
    ensures
        match r {
            Ok(p) => policy_of(reply@) == Ok::<PinPolicy<Seq<char>>, Failure>(p@),
            Err(e) => policy_of(reply@) == Err::<PinPolicy<Seq<char>>, Failure>(e@),
        },
{
    match reply {
        UtilReply::Manager(p) => p,
        _ => Err(unexpected_error()),
    }
}

pub(crate) fn take_count(reply: UtilReply) -> (r: PinResult<Option<u32>>)
    ensures
        pinerror::outcome(r) == count_of(reply@),
{
    match reply {
        UtilReply::Count(c) => c,
        _ => Err(unexpected_error()),
    }
}

/// The attempt counters that a reply reports.
pub(crate) fn get_attempt_info(reply: UtilReply) -> (r: PinResult<Option<AttemptInfo>>)
    ensures
        pinerror::outcome(r) == info_of(reply@),
{
    match reply {
        UtilReply::Slot(Ok(Some(slot))) => Ok(Some(AttemptInfo::from_pin_data(slot))),
        UtilReply::Slot(Ok(None)) => Ok(None),
        UtilReply::Slot(Err(e)) => Err(e),
        _ => Err(unexpected_error()),
    }
}

pub(crate) fn take_done(reply: UtilReply) -> (r: PinResult<()>)
    ensures
        pinerror::outcome(r) == done_of(reply@),
{
    match reply {
        UtilReply::Done(d) => d,
        _ => Err(unexpected_error()),
    }
}

pub(crate) fn take_verdict(reply: UtilReply) -> (r: PinResult<VerificationResult>)
    ensures
        pinerror::outcome(r) == verdict_of(reply@),
{
    match reply {
        UtilReply::Verdict(v) => v,
        _ => Err(unexpected_error()),
    }
}

pub(crate) fn take_deletion(reply: UtilReply) -> (r: PinResult<DeleteResult>)
    ensures
        pinerror::outcome(r) == deletion_of(reply@),
{
    match reply {
        UtilReply::Deletion(d) => d,
        _ => Err(unexpected_error()),
    }
}

/// What was typed, without the white space around it. Nothing is an error.
pub(crate) fn take_typed(reply: UtilReply) -> (r: PinResult<String>)
    ensures
        match r {
            Ok(t) => typed_of(reply@) == Ok::<Seq<char>, Failure>(t@),
            Err(e) => typed_of(reply@) == Err::<Seq<char>, Failure>(e@),
        },
{
    match reply {
        UtilReply::Line(Ok(line)) => {
            let t = text::trim(line.as_str());
            if t.is_empty() {
                Err(PinError::PinIsEmpty)
            } else {
                Ok(t.to_owned())
            }
        },
        UtilReply::Line(Err(e)) => Err(e),
        _ => Err(unexpected_error()),
    }
}

/// The PIN that was typed, if the policy accepts it.
pub fn prompt_pin(policy: &PinPolicy, reply: UtilReply) -> (r: PinResult<Pin>)
    ensures
        match r {
            Ok(pin) => pin_of(policy@, reply@) == Ok::<Seq<char>, Failure>(pin@),
            Err(e) => pin_of(policy@, reply@) == Err::<Seq<char>, Failure>(e@),
        },
{
    match reply {
        UtilReply::Line(Ok(line)) => Pin::new(line.as_str(), policy),
        UtilReply::Line(Err(e)) => Err(e),
        _ => Err(unexpected_error()),
    }
}

/// True of an answer that means yes.
pub fn means_yes(line: &str) -> (b: bool)
    ensures
        b == affirmative(line@),
{
    let t = text::trim(line);
    if t.is_empty() {
        return false;
    }
    let first = t.get_char(0);
    first == 'y' || first == 'Y'
}

/// Whether the user has agreed.
pub(crate) fn prompt_yes_no(reply: UtilReply) -> (r: PinResult<bool>)
    ensures
        pinerror::outcome(r) == consent_of(reply@),
{
    match reply {
        UtilReply::Line(Ok(line)) => Ok(means_yes(line.as_str())),
        UtilReply::Line(Err(e)) => Err(e),
        _ => Err(unexpected_error()),
    }
}

} // verus!

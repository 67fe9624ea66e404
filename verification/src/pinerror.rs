//! Errors and outcomes of PIN operations.
use crate::flow::Modelled;
use crate::pindata::PinData;
use vstd::prelude::*;

verus! {

/// What can go wrong with a PIN operation. `S` is the type of the texts that
/// some variants carry: `String` in running code, a sequence of characters in
/// specifications.
#[derive(Debug)]
pub enum PinError<S = String> {
    UserNotFound,
    PermissionDenied,
    PinAlreadySet,
    NoPinSet,
    PinsDontMatch,
    PinIsLocked,
    IncorrectPin { locked: bool },
    PinIsEmpty,
    PinContainsNonDigits,
    GetUsernameForUidFailed(u32),
    CannotDeletePin(DeleteResult),
    PinTooShort { length: usize, limit: usize },
    PinTooLong { length: usize, limit: usize },
    AlreadyProvisioned(u32),
    UidOverflow(u32),
    NotProvisioned(u32),
    TpmError(S),
    IoError(S),
    TermIoError(S),
    PinutilOutputDecodeError(S),
}

pub type PinResult<T> = Result<T, PinError>;

impl View for PinError<String> {
    type V = PinError<Seq<char>>;

    open spec fn view(&self) -> PinError<Seq<char>> {
        match *self {
            PinError::UserNotFound => PinError::UserNotFound,
            PinError::PermissionDenied => PinError::PermissionDenied,
            PinError::PinAlreadySet => PinError::PinAlreadySet,
            PinError::NoPinSet => PinError::NoPinSet,
            PinError::PinsDontMatch => PinError::PinsDontMatch,
            PinError::PinIsLocked => PinError::PinIsLocked,
            PinError::IncorrectPin { locked } => PinError::IncorrectPin { locked },
            PinError::PinIsEmpty => PinError::PinIsEmpty,
            PinError::PinContainsNonDigits => PinError::PinContainsNonDigits,
            PinError::GetUsernameForUidFailed(uid) => PinError::GetUsernameForUidFailed(uid),
            PinError::CannotDeletePin(e) => PinError::CannotDeletePin(e),
            PinError::PinTooShort { length, limit } => PinError::PinTooShort { length, limit },
            PinError::PinTooLong { length, limit } => PinError::PinTooLong { length, limit },
            PinError::AlreadyProvisioned(uid) => PinError::AlreadyProvisioned(uid),
            PinError::UidOverflow(uid) => PinError::UidOverflow(uid),
            PinError::NotProvisioned(uid) => PinError::NotProvisioned(uid),
            PinError::TpmError(e) => PinError::TpmError(e@),
            PinError::IoError(e) => PinError::IoError(e@),
            PinError::TermIoError(e) => PinError::TermIoError(e@),
            PinError::PinutilOutputDecodeError(e) => PinError::PinutilOutputDecodeError(e@),
        }
    }
}

/// Result of PIN verification.
#[derive(Debug, Clone, Copy, PartialEq, Eq, Structural)]
pub enum VerificationResult {
    /// PIN verification succeeded. Contains the current `PinData` with attempt
    /// counters.
    Success(PinData),
    /// PIN verification failed: incorrect PIN provided. If `locked` is true, the
    /// PIN is now locked and future attempts will fail with `LockedOut`.
    Invalid { locked: bool },
    /// User is locked out due to too many failed attempts.
    LockedOut,
}

/// Result of authenticated PIN deletion.
#[derive(Debug, Clone, Copy, PartialEq, Eq, Structural)]
pub enum DeleteResult {
    /// PIN deletion succeeded.
    Success,
    /// PIN deletion failed: incorrect PIN provided. If `locked` is true, the PIN
    /// is now locked and future attempts will fail with `LockedOut`.
    Invalid { locked: bool },
    /// User is locked out due to too many failed attempts.
    LockedOut,
}

/// The value that is filled into a message.
#[derive(Debug)]
pub enum MessageArgument<S = String> {
    Nothing,
    Uid(u32),
    Limit(usize),
    Error(S),
    Deletion(DeleteResult),
}

impl View for MessageArgument<String> {
    type V = MessageArgument<Seq<char>>;

    open spec fn view(&self) -> MessageArgument<Seq<char>> {
        match *self {
            MessageArgument::Nothing => MessageArgument::Nothing,
            MessageArgument::Uid(uid) => MessageArgument::Uid(uid),
            MessageArgument::Limit(limit) => MessageArgument::Limit(limit),
            MessageArgument::Error(e) => MessageArgument::Error(e@),
            MessageArgument::Deletion(d) => MessageArgument::Deletion(d),
        }
    }
}

/// The key of the localised message for an error.
pub open spec fn error_key(e: PinError<Seq<char>>) -> Seq<char> {
    match e {
        PinError::UserNotFound => "user_not_found"@,
        PinError::PermissionDenied => "permission_denied"@,
        PinError::PinAlreadySet => "pin_already_set"@,
        PinError::NoPinSet => "no_pin_set"@,
        PinError::PinsDontMatch => "pins_dont_match"@,
        PinError::PinIsLocked => "pin_is_locked"@,
        PinError::IncorrectPin { locked: false } => "incorrect_pin"@,
        PinError::IncorrectPin { locked: true } => "incorrect_pin_locked"@,
        PinError::PinIsEmpty => "pin_is_empty"@,
        PinError::PinContainsNonDigits => "pin_contains_non_digits"@,
        PinError::GetUsernameForUidFailed(_) => "get_username_failed"@,
        PinError::CannotDeletePin(_) => "cannot_delete_pin"@,
        PinError::PinTooShort { .. } => "pin_too_short"@,
        PinError::PinTooLong { .. } => "pin_too_long"@,
        PinError::AlreadyProvisioned(_) => "already_provisioned"@,
        PinError::UidOverflow(_) => "uid_overflow"@,
        PinError::NotProvisioned(_) => "not_provisioned"@,
        PinError::TpmError(_) => "tpm_error"@,
        PinError::IoError(_) => "io_error"@,
        PinError::TermIoError(_) => "term_io_error"@,
        PinError::PinutilOutputDecodeError(_) => "pinutil_decode_error"@,
    }
}

/// What is filled into the localised message for an error.
pub open spec fn error_argument(e: PinError<Seq<char>>) -> MessageArgument<Seq<char>> {
    match e {
        PinError::GetUsernameForUidFailed(uid)
        | PinError::AlreadyProvisioned(uid)
        | PinError::UidOverflow(uid)
        | PinError::NotProvisioned(uid) => MessageArgument::Uid(uid),
        PinError::CannotDeletePin(d) => MessageArgument::Deletion(d),
        PinError::PinTooShort { limit, .. } | PinError::PinTooLong { limit, .. } =>
            MessageArgument::Limit(limit),
        PinError::TpmError(e)
        | PinError::IoError(e)
        | PinError::TermIoError(e)
        | PinError::PinutilOutputDecodeError(e) => MessageArgument::Error(e),
        _ => MessageArgument::Nothing,
    }
}

impl PinError<String> {
    /// The key of the localised message for this error, and what is filled into
    /// that message.
    pub fn message(&self) -> (r: (&'static str, MessageArgument))
        ensures
            r.0@ == error_key(self@),
            r.1@ == error_argument(self@),
    {
        match self {
            PinError::UserNotFound => ("user_not_found", MessageArgument::Nothing),
            PinError::PermissionDenied => ("permission_denied", MessageArgument::Nothing),
            PinError::PinAlreadySet => ("pin_already_set", MessageArgument::Nothing),
            PinError::NoPinSet => ("no_pin_set", MessageArgument::Nothing),
            PinError::PinsDontMatch => ("pins_dont_match", MessageArgument::Nothing),
            PinError::PinIsLocked => ("pin_is_locked", MessageArgument::Nothing),
            PinError::IncorrectPin { locked } => if *locked {
                ("incorrect_pin_locked", MessageArgument::Nothing)
            } else {
                ("incorrect_pin", MessageArgument::Nothing)
            },
            PinError::PinIsEmpty => ("pin_is_empty", MessageArgument::Nothing),
            PinError::PinContainsNonDigits => ("pin_contains_non_digits", MessageArgument::Nothing),
            PinError::GetUsernameForUidFailed(uid) => (
                "get_username_failed",
                MessageArgument::Uid(*uid),
            ),
            PinError::CannotDeletePin(d) => ("cannot_delete_pin", MessageArgument::Deletion(*d)),
            PinError::PinTooShort { length: _, limit } => (
                "pin_too_short",
                MessageArgument::Limit(*limit),
            ),
            PinError::PinTooLong { length: _, limit } => (
                "pin_too_long",
                MessageArgument::Limit(*limit),
            ),
            PinError::AlreadyProvisioned(uid) => ("already_provisioned", MessageArgument::Uid(*uid)),
            PinError::UidOverflow(uid) => ("uid_overflow", MessageArgument::Uid(*uid)),
            PinError::NotProvisioned(uid) => ("not_provisioned", MessageArgument::Uid(*uid)),
            PinError::TpmError(e) => ("tpm_error", MessageArgument::Error(e.clone())),
            PinError::IoError(e) => ("io_error", MessageArgument::Error(e.clone())),
            PinError::TermIoError(e) => ("term_io_error", MessageArgument::Error(e.clone())),
            PinError::PinutilOutputDecodeError(e) => (
                "pinutil_decode_error",
                MessageArgument::Error(e.clone()),
            ),
        }
    }
}

impl PinError<String> {
    /// A second copy of the error.
    pub(crate) fn duplicate(&self) -> (r: PinError)
        ensures
            r@ == self@,
    {
        match self {
            PinError::UserNotFound => PinError::UserNotFound,
            PinError::PermissionDenied => PinError::PermissionDenied,
            PinError::PinAlreadySet => PinError::PinAlreadySet,
            PinError::NoPinSet => PinError::NoPinSet,
            PinError::PinsDontMatch => PinError::PinsDontMatch,
            PinError::PinIsLocked => PinError::PinIsLocked,
            PinError::IncorrectPin { locked } => PinError::IncorrectPin { locked: *locked },
            PinError::PinIsEmpty => PinError::PinIsEmpty,
            PinError::PinContainsNonDigits => PinError::PinContainsNonDigits,
            PinError::GetUsernameForUidFailed(uid) => PinError::GetUsernameForUidFailed(*uid),
            PinError::CannotDeletePin(d) => PinError::CannotDeletePin(*d),
            PinError::PinTooShort { length, limit } => PinError::PinTooShort {
                length: *length,
                limit: *limit,
            },
            PinError::PinTooLong { length, limit } => PinError::PinTooLong {
                length: *length,
                limit: *limit,
            },
            PinError::AlreadyProvisioned(uid) => PinError::AlreadyProvisioned(*uid),
            PinError::UidOverflow(uid) => PinError::UidOverflow(*uid),
            PinError::NotProvisioned(uid) => PinError::NotProvisioned(*uid),
            PinError::TpmError(e) => PinError::TpmError(e.clone()),
            PinError::IoError(e) => PinError::IoError(e.clone()),
            PinError::TermIoError(e) => PinError::TermIoError(e.clone()),
            PinError::PinutilOutputDecodeError(e) => PinError::PinutilOutputDecodeError(e.clone()),
        }
    }
}

/// The key of the localised message for the outcome of a deletion.
pub open spec fn deletion_key(d: DeleteResult) -> Seq<char> {
    match d {
        DeleteResult::Success => "pin_del_success"@,
        DeleteResult::Invalid { locked: false } => "pin_del_invalid"@,
        DeleteResult::Invalid { locked: true } => "pin_del_invalid_locked"@,
        DeleteResult::LockedOut => "pin_del_locked_out"@,
    }
}

impl DeleteResult {
    /// The key of the localised message for this outcome.
    pub fn message_key(&self) -> (r: &'static str)
        ensures
            r@ == deletion_key(*self),
    {
        match self {
            DeleteResult::Success => "pin_del_success",
            DeleteResult::Invalid { locked } => if *locked {
                "pin_del_invalid_locked"
            } else {
                "pin_del_invalid"
            },
            DeleteResult::LockedOut => "pin_del_locked_out",
        }
    }
}

/// Why a PIN could not be set up.
#[derive(Debug)]
pub enum SetupError<S = String> {
    /// The PIN could not be stored.
    Pin(PinError<S>),
    /// The PIN was stored but its version tag could not be written, and the PIN
    /// has been removed again. This counts as a TPM error with the message
    /// `failed to write PIN version tag: {cause}`.
    TagNotWritten { cause: PinError<S> },
    /// The PIN was stored but its version tag could not be written, and
    /// removing the PIN failed as well. This counts as a TPM error with the
    /// message `failed to write PIN version tag ({cause}) and failed to rollback
    /// PIN setup ({rollback})`.
    RollbackFailed { cause: PinError<S>, rollback: PinError<S> },
}

impl View for SetupError<String> {
    type V = SetupError<Seq<char>>;

    open spec fn view(&self) -> SetupError<Seq<char>> {
        match *self {
            SetupError::Pin(e) => SetupError::Pin(e@),
            SetupError::TagNotWritten { cause } => SetupError::TagNotWritten { cause: cause@ },
            SetupError::RollbackFailed { cause, rollback } => SetupError::RollbackFailed {
                cause: cause@,
                rollback: rollback@,
            },
        }
    }
}

/// What a result of a PIN operation stands for: its value, or its error with
/// the text taken as characters.
pub open spec fn outcome<T, E: View>(r: Result<T, E>) -> Result<T, E::V> {
    match r {
        Ok(t) => Ok(t),
        Err(e) => Err(e@),
    }
}

impl<T, E: View> Modelled for Result<T, E> {
    type Model = Result<T, E::V>;

    open spec fn model(&self) -> Result<T, E::V> {
        outcome(*self)
    }
}

/// The message for an error is filled in with what the error holds: the uid, the limit
/// that was missed, what came of the deletion, or the description of the failure.
pub proof fn law_error_arguments(e: PinError<Seq<char>>)
    ensures
        match error_argument(e) {
            MessageArgument::Uid(uid) => e == PinError::<Seq<char>>::GetUsernameForUidFailed(uid)
                || e == PinError::<Seq<char>>::AlreadyProvisioned(uid) || e == PinError::<
                Seq<char>,
            >::UidOverflow(uid) || e == PinError::<Seq<char>>::NotProvisioned(uid),
            MessageArgument::Limit(limit) => match e {
                PinError::PinTooShort { limit: l, .. } => l == limit,
                PinError::PinTooLong { limit: l, .. } => l == limit,
                _ => false,
            },
            MessageArgument::Error(text) => e == PinError::TpmError(text) || e == PinError::IoError(
                text,
            ) || e == PinError::TermIoError(text) || e == PinError::PinutilOutputDecodeError(text),
            MessageArgument::Deletion(d) => e == PinError::<Seq<char>>::CannotDeletePin(d),
            MessageArgument::Nothing => match e {
                PinError::UserNotFound
                | PinError::PermissionDenied
                | PinError::PinAlreadySet
                | PinError::NoPinSet
                | PinError::PinsDontMatch
                | PinError::PinIsLocked
                | PinError::IncorrectPin { .. }
                | PinError::PinIsEmpty
                | PinError::PinContainsNonDigits => true,
                _ => false,
            },
        },
{
}

} // verus!

//! What the commands of the utility do, whatever they are answered: each request is
//! justified by the replies before it, and so is the outcome.
use crate::dialogue;
use crate::dialogue::{Failure, Heard, Label, Message, UtilReply, UtilRequest, Wish};
use crate::flow;
use crate::flow::Prog;
use crate::pindata::{AttemptInfo, PinData};
use crate::pinerror::{DeleteResult, PinError, VerificationResult};
use crate::pinpolicy;
use crate::pinpolicy::PinPolicy;
use crate::pinutil;
use crate::pinutil::Job;
use crate::text;
use vstd::prelude::*;

verus! {

/// What has come out so far in a run of a command.
pub struct Notes {
    /// The uid that the lookup has returned.
    pub user: Option<u32>,
    /// The policy that is in force.
    pub policy: Option<PinPolicy<Seq<char>>>,
    /// The failed-attempt counter, if it was read.
    pub count: Option<Option<u32>>,
    /// The counters of the slot, if it was read.
    pub slot: Option<Option<PinData>>,
    /// How often the connection was opened afresh.
    pub restarts: nat,
    /// The lines that were entered for PINs.
    pub lines: Seq<Seq<char>>,
    /// The answer to the question whether to delete.
    pub answer: Option<Seq<char>>,
    /// The PIN that was verified last, and the verdict.
    pub verdict: Option<(Seq<char>, VerificationResult)>,
    /// What the deletion has come to.
    pub removal: Option<DeleteResult>,
    /// The PIN that was stored.
    pub stored: Option<Seq<char>>,
    /// What the user was told.
    pub said: Seq<Message<Seq<char>>>,
    /// What went wrong.
    pub trouble: Option<Failure>,
}

/// Nothing has come out yet.
pub open spec fn nothing() -> Notes {
    Notes {
        user: None,
        policy: None,
        count: None,
        slot: None,
        restarts: 0,
        lines: Seq::empty(),
        answer: None,
        verdict: None,
        removal: None,
        stored: None,
        said: Seq::empty(),
        trouble: None,
    }
}

/// Taking note of a request and its reply. A reply of the wrong sort is trouble too,
/// and that a user has no slot means that there is no counter.
pub open spec fn noted(m: Notes, c: Wish, r: Heard) -> Notes {
    match (c, r) {
        (UtilRequest::FindUser { .. }, UtilReply::User(Ok(uid))) => Notes { user: Some(uid), ..m },
        (UtilRequest::FindUser { .. }, UtilReply::User(Err(e))) => Notes { trouble: Some(e), ..m },
        (UtilRequest::OpenManager, UtilReply::Manager(Ok(p))) => Notes { policy: Some(p), ..m },
        (UtilRequest::OpenManager, UtilReply::Manager(Err(e))) => Notes { trouble: Some(e), ..m },
        (UtilRequest::RestartManager, UtilReply::Done(Ok(()))) => Notes {
            restarts: m.restarts + 1,
            ..m
        },
        (UtilRequest::RestartManager, UtilReply::Done(Err(e))) => Notes { trouble: Some(e), ..m },
        (UtilRequest::CountAttempts { .. }, UtilReply::Count(Ok(n))) => Notes {
            count: Some(n),
            ..m
        },
        (UtilRequest::CountAttempts { .. }, UtilReply::Count(Err(e))) => if e
            is NotProvisioned {
            Notes { count: Some(None), ..m }
        } else {
            Notes { trouble: Some(e), ..m }
        },
        (UtilRequest::ReadSlot { .. }, UtilReply::Slot(Ok(s))) => Notes { slot: Some(s), ..m },
        (UtilRequest::ReadSlot { .. }, UtilReply::Slot(Err(e))) => Notes {
            trouble: Some(e),
            ..m
        },
        (UtilRequest::SetUp { uid, pin }, UtilReply::Done(Ok(()))) => Notes {
            stored: Some(pin),
            ..m
        },
        (UtilRequest::SetUp { .. }, UtilReply::Done(Err(e))) => Notes { trouble: Some(e), ..m },
        (UtilRequest::Verify { uid, pin }, UtilReply::Verdict(Ok(v))) => Notes {
            verdict: Some((pin, v)),
            ..m
        },
        (UtilRequest::Verify { .. }, UtilReply::Verdict(Err(e))) => Notes {
            trouble: Some(e),
            ..m
        },
        (UtilRequest::DeleteAdmin { .. }, UtilReply::Done(Ok(()))) => Notes {
            removal: Some(DeleteResult::Success),
            ..m
        },
        (UtilRequest::DeleteAdmin { .. }, UtilReply::Done(Err(e))) => Notes {
            trouble: Some(e),
            ..m
        },
        (UtilRequest::DeleteWithAuth { .. }, UtilReply::Deletion(Ok(d))) => Notes {
            removal: Some(d),
            ..m
        },
        (UtilRequest::DeleteWithAuth { .. }, UtilReply::Deletion(Err(e))) => Notes {
            trouble: Some(e),
            ..m
        },
        (UtilRequest::Prompt { .. }, UtilReply::Line(Ok(line))) => Notes {
            lines: m.lines.push(line),
            ..m
        },
        (UtilRequest::Prompt { .. }, UtilReply::Line(Err(e))) => Notes { trouble: Some(e), ..m },
        (UtilRequest::ReadLine, UtilReply::Line(Ok(line))) => Notes {
            lines: m.lines.push(line),
            ..m
        },
        (UtilRequest::ReadLine, UtilReply::Line(Err(e))) => Notes { trouble: Some(e), ..m },
        (UtilRequest::ConfirmDeletion { .. }, UtilReply::Line(Ok(line))) => Notes {
            answer: Some(line),
            ..m
        },
        (UtilRequest::ConfirmDeletion { .. }, UtilReply::Line(Err(e))) => Notes {
            trouble: Some(e),
            ..m
        },
        (UtilRequest::Say { message }, _) => Notes { said: m.said.push(message), ..m },
        _ => Notes { trouble: Some(PinError::IoError("unexpected reply"@)), ..m },
    }
}

/// The caller is root or the user that the command is about.
pub open spec fn entitled(job: Job<Seq<char>>, m: Notes) -> bool {
    job.caller.uid == 0 || m.user == Some(job.caller.uid)
}

/// The policy in force accepts the line as a PIN.
pub open spec fn fit(m: Notes, line: Seq<char>) -> bool {
    m.policy is Some && pinpolicy::objection(m.policy->0, text::trimmed(line)) is None
}

/// The policy in force refuses the line as a PIN, with this error.
pub open spec fn unfit(m: Notes, line: Seq<char>, e: Failure) -> bool {
    m.policy is Some && pinpolicy::objection(m.policy->0, text::trimmed(line)) == Some(e)
}

/// From the `n`-th line on, an acceptable PIN was entered: once for a machine, and
/// twice in the same way at the terminal.
pub open spec fn chosen(job: Job<Seq<char>>, m: Notes, n: int, pin: Seq<char>) -> bool {
    &&& m.lines.len() == n + if job.machine {
        1int
    } else {
        2int
    }
    &&& fit(m, m.lines[n])
    &&& text::trimmed(m.lines[n]) == pin
    &&& text::trimmed(m.lines.last()) == pin
}

/// From the `n`-th line on, no PIN was entered that can be taken, for this reason.
pub open spec fn not_chosen(job: Job<Seq<char>>, m: Notes, n: int, e: Failure) -> bool {
    ||| m.lines.len() == n + 1 && unfit(m, m.lines[n], e)
    ||| {
        &&& !job.machine
        &&& m.lines.len() == n + 2
        &&& fit(m, m.lines[n])
        &&& text::trimmed(m.lines[n + 1]) != text::trimmed(m.lines[n])
        &&& e == if text::trimmed(m.lines[n + 1]).len() == 0 {
            PinError::<Seq<char>>::PinIsEmpty
        } else {
            PinError::<Seq<char>>::PinsDontMatch
        }
    }
}

/// A PIN is asked for in the way that suits the caller, with this label and these
/// counters.
pub open spec fn asks_properly(
    job: Job<Seq<char>>,
    c: Wish,
    label: Label,
    attempts: Option<(u32, u32)>,
) -> bool {
    match c {
        UtilRequest::ReadLine => job.machine,
        UtilRequest::Prompt { label: l, attempts: a } => !job.machine && l == label && a
            == attempts,
        _ => false,
    }
}

/// The counters as they are shown: a counter that is negative counts as zero.
pub open spec fn shown(slot: PinData) -> (u32, u32) {
    (
        if slot.pinCount < 0 {
            0
        } else {
            slot.pinCount as u32
        },
        if slot.pinLimit < 0 {
            0
        } else {
            slot.pinLimit as u32
        },
    )
}

/// There is a limit, and it is reached.
pub open spec fn used_up(slot: PinData) -> bool {
    slot.pinLimit > 0 && slot.pinCount >= slot.pinLimit
}

/// When the setup command may make a request.
pub open spec fn setup_may(job: Job<Seq<char>>, m: Notes, c: Wish) -> bool {
    &&& m.trouble is None
    &&& match c {
        UtilRequest::FindUser { username } => username == job.username && m == nothing(),
        UtilRequest::OpenManager => m.user is Some && entitled(job, m) && m.policy is None,
        UtilRequest::CountAttempts { uid } => m.policy is Some && m.user == Some(uid) && entitled(
            job,
            m,
        ),
        UtilRequest::Prompt { .. } | UtilRequest::ReadLine => {
            &&& m.count == Some(None::<u32>)
            &&& m.stored is None
            &&& {
                ||| m.lines.len() == 0 && asks_properly(job, c, Label::EnterNew, None)
                ||| {
                    &&& !job.machine
                    &&& m.lines.len() == 1
                    &&& fit(m, m.lines[0])
                    &&& asks_properly(job, c, Label::ConfirmNew, None)
                }
            }
        },
        UtilRequest::SetUp { uid, pin } => {
            &&& m.user == Some(uid)
            &&& entitled(job, m)
            &&& m.count == Some(None::<u32>)
            &&& m.stored is None
            &&& chosen(job, m, 0, pin)
        },
        UtilRequest::Say { message } => {
            &&& !job.machine
            &&& m.stored is Some
            &&& m.said.len() == 0
            &&& message == Message::PinSet { username: job.username }
        },
        _ => false,
    }
}

/// How the setup command may end.
pub open spec fn setup_end(job: Job<Seq<char>>, m: Notes, o: Result<(), Failure>) -> bool {
    match o {
        Ok(()) => {
            &&& m.trouble is None
            &&& m.stored is Some
            &&& chosen(job, m, 0, m.stored->0)
            &&& m.said.len() == if job.machine {
                0int
            } else {
                1int
            }
        },
        Err(e) => {
            &&& m.stored is None
            &&& m.said.len() == 0
            &&& match m.trouble {
                Some(t) => e == t,
                None => {
                    ||| m.policy is None && m.user is Some && !entitled(job, m) && e
                        is PermissionDenied
                    ||| m.count matches Some(Some(_)) && m.lines.len() == 0 && e is PinAlreadySet
                    ||| m.count == Some(None::<u32>) && not_chosen(job, m, 0, e)
                },
            }
        },
    }
}

/// The setup command stores a PIN only for the user whose uid the lookup of the name
/// has returned, only if that user has none, and only the one that was entered: once
/// by a machine, or twice in the same way at the terminal. It succeeds exactly when
/// that was done, and otherwise says why it was not.
pub proof fn law_setup_command(job: Job<Seq<char>>)
    ensures
        flow::watched(
            pinutil::setup(job),
            nothing(),
            |m: Notes, c: Wish, r: Heard| noted(m, c, r),
            |m: Notes, c: Wish| setup_may(job, m, c),
            |m: Notes, o: Result<(), Failure>| setup_end(job, m, o),
        ),
{
    reveal_with_fuel(flow::watched, 9);
}

/// The caller is root, who does not need the current PIN.
pub open spec fn by_root(job: Job<Seq<char>>) -> bool {
    job.caller.uid == 0
}

/// The position of the first line that is entered for the new PIN: users enter their
/// current PIN first.
pub open spec fn first_new(job: Job<Seq<char>>) -> int {
    if by_root(job) {
        0
    } else {
        1
    }
}

/// Root may go on, and so may users whose current PIN, as they entered it, was found
/// to be correct.
pub open spec fn cleared(job: Job<Seq<char>>, m: Notes) -> bool {
    ||| by_root(job)
    ||| {
        &&& m.lines.len() > 0
        &&& fit(m, m.lines[0])
        &&& m.verdict matches Some((pin, v)) && pin == text::trimmed(m.lines[0]) && v is Success
    }
}

/// When the change command may make a request.
pub open spec fn change_may(job: Job<Seq<char>>, m: Notes, c: Wish) -> bool {
    let n = first_new(job);
    &&& m.trouble is None
    &&& match c {
        UtilRequest::FindUser { username } => username == job.username && m == nothing(),
        UtilRequest::OpenManager => m.user is Some && entitled(job, m) && m.policy is None,
        UtilRequest::ReadSlot { uid } => m.policy is Some && m.user == Some(uid) && entitled(
            job,
            m,
        ),
        UtilRequest::RestartManager => {
            ||| m.restarts == 0 && (m.slot matches Some(Some(_)))
            ||| m.restarts == 1 && m.lines.len() == 1 && !by_root(job) && cleared(job, m)
        },
        UtilRequest::Prompt { .. } | UtilRequest::ReadLine => {
            &&& m.removal is None
            &&& m.slot matches Some(Some(slot)) && {
                ||| {
                    &&& !by_root(job)
                    &&& m.restarts == 1
                    &&& m.lines.len() == 0
                    &&& !used_up(slot)
                    &&& asks_properly(job, c, Label::Current, Some(shown(slot)))
                }
                ||| {
                    &&& m.lines.len() == n
                    &&& m.restarts == n + 1
                    &&& cleared(job, m)
                    &&& asks_properly(job, c, Label::Replacement, None)
                }
                ||| {
                    &&& !job.machine
                    &&& m.lines.len() == n + 1
                    &&& cleared(job, m)
                    &&& fit(m, m.lines[n])
                    &&& asks_properly(job, c, Label::ConfirmReplacement, None)
                }
            }
        },
        UtilRequest::Verify { uid, pin } => {
            &&& m.user == Some(uid)
            &&& m.verdict is None
            &&& m.lines.len() == 1
            &&& fit(m, m.lines[0])
            &&& pin == text::trimmed(m.lines[0])
        },
        UtilRequest::DeleteAdmin { uid } => {
            &&& by_root(job)
            &&& m.user == Some(uid)
            &&& m.removal is None
            &&& m.lines.len() > 0
            &&& chosen(job, m, 0, text::trimmed(m.lines[0]))
        },
        UtilRequest::DeleteWithAuth { uid, pin } => {
            &&& !by_root(job)
            &&& m.user == Some(uid)
            &&& cleared(job, m)
            &&& pin == text::trimmed(m.lines[0])
            &&& m.removal is None
            &&& m.lines.len() > 1
            &&& chosen(job, m, 1, text::trimmed(m.lines[1]))
        },
        UtilRequest::SetUp { uid, pin } => {
            &&& m.user == Some(uid)
            &&& cleared(job, m)
            &&& m.removal == Some(DeleteResult::Success)
            &&& m.stored is None
            &&& chosen(job, m, n, pin)
        },
        UtilRequest::Say { message } => {
            &&& !job.machine
            &&& m.stored is Some
            &&& m.said.len() == 0
            &&& message == Message::PinChanged { username: job.username }
        },
        _ => false,
    }
}

/// How the change command may end.
pub open spec fn change_end(job: Job<Seq<char>>, m: Notes, o: Result<(), Failure>) -> bool {
    match o {
        Ok(()) => {
            &&& m.trouble is None
            &&& m.removal == Some(DeleteResult::Success)
            &&& m.stored is Some
            &&& chosen(job, m, first_new(job), m.stored->0)
            &&& m.said.len() == if job.machine {
                0int
            } else {
                1int
            }
        },
        Err(e) => {
            &&& m.stored is None
            &&& m.said.len() == 0
            &&& match m.trouble {
                Some(t) => e == t,
                None => {
                    ||| m.policy is None && m.user is Some && !entitled(job, m) && e
                        is PermissionDenied
                    ||| m.slot == Some(None::<PinData>) && e is NoPinSet
                    ||| {
                        &&& !by_root(job)
                        &&& m.lines.len() == 0
                        &&& m.slot matches Some(Some(slot)) && used_up(slot)
                        &&& e is PinIsLocked
                    }
                    ||| !by_root(job) && m.lines.len() == 1 && unfit(m, m.lines[0], e)
                    ||| m.verdict matches Some((_, VerificationResult::Invalid { locked })) && e == (
                    PinError::<Seq<char>>::IncorrectPin { locked })
                    ||| m.verdict matches Some((_, VerificationResult::LockedOut)) && e
                        is PinIsLocked
                    ||| cleared(job, m) && m.removal is None && not_chosen(
                        job,
                        m,
                        first_new(job),
                        e,
                    )
                    ||| m.removal matches Some(d) && d != DeleteResult::Success && e
                        == PinError::<Seq<char>>::CannotDeletePin(d)
                },
            }
        },
    }
}

/// The change command deletes and stores PINs only of the user whose uid the lookup of
/// the name has returned. Users have to enter the current PIN, which is verified and
/// is what the deletion is authorized by. Nothing is deleted or stored before the new
/// PIN was entered, at the terminal twice in the same way: if the two differ, the
/// command ends with nothing done. It succeeds exactly when the old PIN was deleted
/// and the one that was entered was stored.
pub proof fn law_change_command(job: Job<Seq<char>>)
    ensures
        flow::watched(
            pinutil::change(job),
            nothing(),
            |m: Notes, c: Wish, r: Heard| noted(m, c, r),
            |m: Notes, c: Wish| change_may(job, m, c),
            |m: Notes, o: Result<(), Failure>| change_end(job, m, o),
        ),
{
    reveal_with_fuel(flow::watched, 14);
}

/// True of an answer whose first letter is that of "yes".
pub open spec fn says_yes(line: Seq<char>) -> bool {
    let t = text::trimmed(line);
    t.len() > 0 && (t[0] == 'y' || t[0] == 'Y')
}

/// When the delete command may make a request.
pub open spec fn delete_may(job: Job<Seq<char>>, m: Notes, c: Wish) -> bool {
    match c {
        UtilRequest::Say { message } => {
            &&& !job.machine
            &&& m.said.len() == 0
            &&& match message {
                Message::DeletionFailed { error } => {
                    &&& m.trouble == Some(error)
                    &&& by_root(job)
                    &&& m.answer matches Some(line) && says_yes(line)
                },
                Message::Cancelled => m.trouble is None && by_root(job) && (m.answer matches Some(
                    line,
                ) && !says_yes(line)),
                Message::PinDeleted { username } => username == job.username && m.trouble is None
                    && m.removal == Some(DeleteResult::Success),
                Message::IncorrectPin => m.trouble is None && m.removal matches Some(
                    DeleteResult::Invalid { .. },
                ),
                Message::NowLockedOut => m.trouble is None && m.removal == Some(
                    DeleteResult::LockedOut,
                ),
                _ => false,
            }
        },
        _ => {
            &&& m.trouble is None
            &&& m.removal is None
            &&& match c {
                UtilRequest::FindUser { username } => username == job.username && m == nothing(),
                UtilRequest::OpenManager => m.user is Some && entitled(job, m) && m.policy is None,
                UtilRequest::ReadSlot { uid } => m.policy is Some && m.user == Some(uid)
                    && entitled(job, m),
                UtilRequest::ConfirmDeletion { username } => {
                    &&& by_root(job)
                    &&& !job.machine
                    &&& m.slot matches Some(Some(_))
                    &&& m.answer is None
                    &&& username == job.username
                },
                UtilRequest::Prompt { .. } | UtilRequest::ReadLine => {
                    &&& !by_root(job)
                    &&& m.lines.len() == 0
                    &&& m.slot matches Some(Some(slot)) && !used_up(slot) && asks_properly(
                        job,
                        c,
                        Label::Current,
                        Some(shown(slot)),
                    )
                },
                UtilRequest::DeleteAdmin { uid } => {
                    &&& by_root(job)
                    &&& m.user == Some(uid)
                    &&& m.slot matches Some(Some(_))
                    &&& job.machine || (m.answer matches Some(line) && says_yes(line))
                },
                UtilRequest::DeleteWithAuth { uid, pin } => {
                    &&& !by_root(job)
                    &&& m.user == Some(uid)
                    &&& m.lines.len() == 1
                    &&& fit(m, m.lines[0])
                    &&& pin == text::trimmed(m.lines[0])
                },
                _ => false,
            }
        },
    }
}

/// How the delete command may end.
pub open spec fn delete_end(job: Job<Seq<char>>, m: Notes, o: Result<(), Failure>) -> bool {
    match o {
        Ok(()) => {
            &&& m.trouble is None
            &&& m.removal is Some || (by_root(job) && (m.answer matches Some(line) && !says_yes(
                line,
            )))
            &&& m.said.len() == if job.machine {
                0int
            } else {
                1int
            }
        },
        Err(e) => {
            &&& m.removal is None
            &&& m.said.len() == if m.answer matches Some(line) && says_yes(line) {
                1int
            } else {
                0int
            }
            &&& match m.trouble {
                Some(t) => e == t,
                None => {
                    ||| m.policy is None && m.user is Some && !entitled(job, m) && e
                        is PermissionDenied
                    ||| m.slot == Some(None::<PinData>) && e is NoPinSet
                    ||| {
                        &&& !by_root(job)
                        &&& m.lines.len() == 0
                        &&& m.slot matches Some(Some(slot)) && used_up(slot)
                        &&& e is PinIsLocked
                    }
                    ||| m.lines.len() == 1 && unfit(m, m.lines[0], e)
                },
            }
        },
    }
}

/// The delete command deletes only the PIN of the user whose uid the lookup of the
/// name has returned. Root has to agree first, unless a machine asks, and users have
/// to enter the PIN, which is what the deletion is authorized by. What the user is
/// told and the outcome are those of the deletion.
pub proof fn law_delete_command(job: Job<Seq<char>>)
    ensures
        flow::watched(
            pinutil::delete(job),
            nothing(),
            |m: Notes, c: Wish, r: Heard| noted(m, c, r),
            |m: Notes, c: Wish| delete_may(job, m, c),
            |m: Notes, o: Result<(), Failure>| delete_end(job, m, o),
        ),
{
    reveal_with_fuel(flow::watched, 8);
}

/// What runs with root's rights, and the user that the command is about, may attempt
/// the PIN.
pub open spec fn may_try(job: Job<Seq<char>>, m: Notes) -> bool {
    job.caller.effective == 0 || m.user == Some(job.caller.uid)
}

/// When the test command may make a request.
pub open spec fn test_may(job: Job<Seq<char>>, m: Notes, c: Wish) -> bool {
    &&& m.trouble is None
    &&& m.said.len() == 0
    &&& match c {
        UtilRequest::FindUser { username } => username == job.username && m == nothing(),
        UtilRequest::OpenManager => m.user is Some && may_try(job, m) && m.policy is None,
        UtilRequest::ReadSlot { uid } => m.policy is Some && m.user == Some(uid) && may_try(job, m),
        UtilRequest::Prompt { .. } | UtilRequest::ReadLine => {
            &&& m.lines.len() == 0
            &&& m.slot matches Some(Some(slot)) && !used_up(slot) && asks_properly(
                job,
                c,
                Label::Current,
                Some(shown(slot)),
            )
        },
        UtilRequest::Verify { uid, pin } => {
            &&& m.user == Some(uid)
            &&& may_try(job, m)
            &&& m.verdict is None
            &&& m.lines.len() == 1
            &&& fit(m, m.lines[0])
            &&& pin == text::trimmed(m.lines[0])
        },
        UtilRequest::Say { message } => {
            &&& !job.machine
            &&& match message {
                Message::NoPinForUser => m.slot == Some(None::<PinData>),
                Message::UserLockedOut => m.lines.len() == 0 && (m.slot matches Some(Some(slot))
                    && used_up(slot)),
                Message::PinCorrect => m.verdict matches Some((_, VerificationResult::Success(_))),
                Message::PinIncorrect => m.verdict matches Some(
                    (_, VerificationResult::Invalid { .. }),
                ),
                Message::NowLockedOut => m.verdict matches Some((_, VerificationResult::LockedOut)),
                _ => false,
            }
        },
        _ => false,
    }
}

/// How the test command may end.
pub open spec fn test_end(job: Job<Seq<char>>, m: Notes, o: Result<(), Failure>) -> bool {
    match o {
        Ok(()) => {
            &&& m.trouble is None
            &&& m.verdict matches Some((_, v)) && (job.machine ==> v is Success)
            &&& m.said.len() == if job.machine {
                0int
            } else {
                1int
            }
        },
        Err(e) => match m.trouble {
            Some(t) => e == t && m.said.len() == 0,
            None => {
                ||| {
                    &&& m.policy is None && m.user is Some && !may_try(job, m)
                    &&& e is PermissionDenied
                    &&& m.said.len() == 0
                }
                ||| {
                    &&& m.slot == Some(None::<PinData>) && e is NoPinSet
                    &&& m.said.len() == if job.machine {
                        0int
                    } else {
                        1int
                    }
                }
                ||| {
                    &&& m.slot matches Some(Some(slot)) && used_up(slot)
                    &&& e is PinIsLocked
                    &&& m.said.len() == if job.machine {
                        0int
                    } else {
                        1int
                    }
                }
                ||| m.lines.len() == 1 && unfit(m, m.lines[0], e) && m.said.len() == 0
                ||| job.machine && (m.verdict matches Some(
                    (_, VerificationResult::Invalid { locked }),
                ) && e == (PinError::<Seq<char>>::IncorrectPin { locked }))
                ||| job.machine && (m.verdict matches Some((_, VerificationResult::LockedOut)) && e
                    is PinIsLocked)
            },
        },
    }
}

/// The test command reads the slot and verifies the PIN only of the user whose uid the
/// lookup of the name has returned, and the PIN is the one that was entered. What the
/// user is told, or the outcome for a machine, is the verdict.
pub proof fn law_test_command(job: Job<Seq<char>>)
    ensures
        flow::watched(
            pinutil::test(job),
            nothing(),
            |m: Notes, c: Wish, r: Heard| noted(m, c, r),
            |m: Notes, c: Wish| test_may(job, m, c),
            |m: Notes, o: Result<(), Failure>| test_end(job, m, o),
        ),
{
    reveal_with_fuel(flow::watched, 8);
}

/// The counters of a slot as they are shown.
pub open spec fn shows(slot: PinData, info: AttemptInfo) -> bool {
    (info.used, info.limit) == shown(slot)
}

/// When the status command may make a request.
pub open spec fn status_may(job: Job<Seq<char>>, m: Notes, c: Wish) -> bool {
    &&& m.trouble is None
    &&& match c {
        UtilRequest::FindUser { username } => username == job.username && m == nothing(),
        UtilRequest::OpenManager => m.user is Some && m.policy is None,
        UtilRequest::ReadSlot { uid } => m.policy is Some && m.user == Some(uid) && m.slot is None,
        UtilRequest::Say { message } => {
            &&& !job.machine
            &&& match message {
                Message::StatusOf { username, uid } => m.policy is Some && m.slot is None
                    && username == job.username && m.user == Some(uid) && m.said.len() == 0,
                Message::Provisioned { info } => m.said.len() == 1 && (m.slot matches Some(
                    Some(slot),
                ) && shows(slot, info)),
                Message::NotProvisioned => m.said.len() == 1 && m.slot == Some(None::<PinData>),
                _ => false,
            }
        },
        _ => false,
    }
}

/// How the status command may end.
pub open spec fn status_end(
    job: Job<Seq<char>>,
    m: Notes,
    o: Result<Option<AttemptInfo>, Failure>,
) -> bool {
    match o {
        Ok(info) => {
            &&& m.trouble is None
            &&& m.said.len() == if job.machine {
                0int
            } else {
                2int
            }
            &&& m.slot matches Some(read) && match (read, info) {
                (None, None) => true,
                (Some(slot), Some(info)) => shows(slot, info),
                _ => false,
            }
        },
        Err(e) => m.trouble == Some(e),
    }
}

/// The status command reads the slot of the user whose uid the lookup of the name has
/// returned, and nothing else, whoever asks. What it shows is what it has read.
pub proof fn law_status_command(job: Job<Seq<char>>)
    ensures
        flow::watched(
            pinutil::status(job),
            nothing(),
            |m: Notes, c: Wish, r: Heard| noted(m, c, r),
            |m: Notes, c: Wish| status_may(job, m, c),
            |m: Notes, o: Result<Option<AttemptInfo>, Failure>| status_end(job, m, o),
        ),
{
    reveal_with_fuel(flow::watched, 7);
}

/// A new PIN is stored for the user whose name was looked up, as it was entered, if it was
/// entered twice in the same way; otherwise the command ends there.
pub proof fn law_new_pin_is_stored(
    job: Job<Seq<char>>,
    uid: u32,
    policy: PinPolicy<Seq<char>>,
    line: Seq<char>,
    again: Seq<char>,
)
    requires
        !job.machine,
        job.caller.uid == 0 || job.caller.uid == uid,
        pinpolicy::objection(policy, text::trimmed(line)) is None,
    ensures
        ({
            let left = flow::rest(
                pinutil::setup(job),
                seq![
                    UtilReply::User(Ok(uid)),
                    UtilReply::Manager(Ok(policy)),
                    UtilReply::Count(Ok(None)),
                    UtilReply::Line(Ok(line)),
                    UtilReply::Line(Ok(again)),
                ],
            );
            if text::trimmed(again) == text::trimmed(line) {
                left matches Prog::Ask(c, _) && c == (Wish::SetUp {
                    uid,
                    pin: text::trimmed(line),
                })
            } else {
                left matches Prog::Return(o) && o == Err::<(), Failure>(
                    if text::trimmed(again).len() == 0 {
                        PinError::PinIsEmpty
                    } else {
                        PinError::PinsDontMatch
                    },
                )
            }
        }),
{
    let replies: Seq<Heard> = seq![
        UtilReply::User(Ok(uid)),
        UtilReply::Manager(Ok(policy)),
        UtilReply::Count(Ok(None)),
        UtilReply::Line(Ok(line)),
        UtilReply::Line(Ok(again)),
    ];
    reveal_with_fuel(flow::rest, 7);
    assert(replies.skip(1)[0] == replies[1]);
    assert(replies.skip(1).skip(1)[0] == replies[2]);
    assert(replies.skip(1).skip(1).skip(1)[0] == replies[3]);
    assert(replies.skip(1).skip(1).skip(1).skip(1)[0] == replies[4]);
}

/// When root changes a PIN at the terminal, the new PIN has to be entered twice in the
/// same way. If the second line differs, nothing more is asked and the command ends with
/// the complaint that the PINs do not match; if it does not, the old PIN is deleted.
pub proof fn law_new_pin_is_confirmed(
    job: Job<Seq<char>>,
    uid: u32,
    policy: PinPolicy<Seq<char>>,
    slot: PinData,
    line: Seq<char>,
    again: Seq<char>,
)
    requires
        !job.machine,
        job.caller.uid == 0,
        pinpolicy::objection(policy, text::trimmed(line)) is None,
        text::trimmed(again).len() > 0,
    ensures
        ({
            let left = flow::rest(
                pinutil::change(job),
                seq![
                    UtilReply::User(Ok(uid)),
                    UtilReply::Manager(Ok(policy)),
                    UtilReply::Slot(Ok(Some(slot))),
                    UtilReply::Done(Ok(())),
                    UtilReply::Line(Ok(line)),
                    UtilReply::Line(Ok(again)),
                ],
            );
            if text::trimmed(again) == text::trimmed(line) {
                left matches Prog::Ask(c, _) && c == (Wish::DeleteAdmin { uid })
            } else {
                left matches Prog::Return(o) && o == Err::<(), Failure>(PinError::PinsDontMatch)
            }
        }),
{
    let replies: Seq<Heard> = seq![
        UtilReply::User(Ok(uid)),
        UtilReply::Manager(Ok(policy)),
        UtilReply::Slot(Ok(Some(slot))),
        UtilReply::Done(Ok(())),
        UtilReply::Line(Ok(line)),
        UtilReply::Line(Ok(again)),
    ];
    reveal_with_fuel(flow::rest, 8);
    assert(replies.skip(1)[0] == replies[1]);
    assert(replies.skip(1).skip(1)[0] == replies[2]);
    assert(replies.skip(1).skip(1).skip(1)[0] == replies[3]);
    assert(replies.skip(1).skip(1).skip(1).skip(1)[0] == replies[4]);
    assert(replies.skip(1).skip(1).skip(1).skip(1).skip(1)[0] == replies[5]);
}

/// A test verifies what was entered, for the user whose name was looked up.
pub proof fn law_entered_pin_is_verified(
    job: Job<Seq<char>>,
    uid: u32,
    policy: PinPolicy<Seq<char>>,
    slot: PinData,
    line: Seq<char>,
)
    requires
        job.caller.effective == 0 || job.caller.uid == uid,
        slot.pinLimit <= 0 || slot.pinCount < slot.pinLimit,
        pinpolicy::objection(policy, text::trimmed(line)) is None,
    ensures
        flow::rest(
            pinutil::test(job),
            seq![
                UtilReply::User(Ok(uid)),
                UtilReply::Manager(Ok(policy)),
                UtilReply::Slot(Ok(Some(slot))),
                UtilReply::Line(Ok(line)),
            ],
        ) matches Prog::Ask(c, _) && c == (Wish::Verify { uid, pin: text::trimmed(line) }),
{
    let replies: Seq<Heard> = seq![
        UtilReply::User(Ok(uid)),
        UtilReply::Manager(Ok(policy)),
        UtilReply::Slot(Ok(Some(slot))),
        UtilReply::Line(Ok(line)),
    ];
    reveal_with_fuel(flow::rest, 6);
    assert(replies.skip(1)[0] == replies[1]);
    assert(replies.skip(1).skip(1)[0] == replies[2]);
    assert(replies.skip(1).skip(1).skip(1)[0] == replies[3]);
}

/// Each message has a text of its own.
pub proof fn law_messages(m: Message<Seq<char>>)
    ensures
        ({
            let key = dialogue::message_key(m);
            match m {
                Message::PinSet { .. } => key == "pin_set_for_user"@,
                Message::PinChanged { .. } => key == "pin_changed_for_user"@,
                Message::PinDeleted { .. } => key == "pin_deleted_for_user"@,
                Message::DeletionFailed { .. } => key == "pin_delete_failed"@,
                Message::Cancelled => key == "cancelled"@,
                Message::IncorrectPin => key == "incorrect_pin"@,
                Message::NowLockedOut => key == "now_locked_out"@,
                Message::NoPinForUser => key == "no_pin_set_for_user"@,
                Message::UserLockedOut => key == "user_is_locked_out"@,
                Message::PinCorrect => key == "pin_correct"@,
                Message::PinIncorrect => key == "pin_incorrect"@,
                Message::StatusOf { .. } => key == "status_for_user"@,
                Message::Provisioned { .. } => key == "pin_provisioned_yes"@,
                Message::NotProvisioned => key == "pin_provisioned_no"@,
            }
        }),
{
}

} // verus!

//! How the commands of the utility relate to each other, at a desk where they are run
//! one after the other: what one of them stores, another finds.
use crate::commandlaws;
use crate::dialogue::{Failure, Heard, Message, UtilReply, UtilRequest, Wish};
use crate::flow;
use crate::flow::Prog;
use crate::pindata::{AttemptInfo, PinData};
use crate::pinerror::{DeleteResult, PinError, VerificationResult};
use crate::pinpolicy;
use crate::pinpolicy::PinPolicy;
use crate::pinutil;
use crate::pinutil::Job;
use crate::text;
use vstd::prelude::*;

verus! {

/// What surrounds the utility: the users of the system, the policy, the PINs with their
/// counters, the lines that are still to be entered, and what has been said.
#[verifier::ext_equal]
pub struct Desk {
    pub users: Map<Seq<char>, u32>,
    pub policy: PinPolicy<Seq<char>>,
    pub pins: Map<u32, (Seq<char>, PinData)>,
    pub lines: Seq<Seq<char>>,
    pub said: Seq<Message<Seq<char>>>,
}

impl Desk {
    /// The same desk with other PINs.
    pub open spec fn with(self, pins: Map<u32, (Seq<char>, PinData)>) -> Desk {
        Desk { pins, ..self }
    }

    /// The same desk with other lines to be entered.
    pub open spec fn entering(self, lines: Seq<Seq<char>>) -> Desk {
        Desk { lines, ..self }
    }
}

/// What an attempt does to the counters.
pub open spec fn counted(slot: PinData, right: bool) -> PinData {
    PinData {
        pinCount: if right {
            0
        } else {
            (slot.pinCount + 1) as i32
        },
        ..slot
    }
}

/// An attempt on the PIN of a user.
pub open spec fn tried(d: Desk, uid: u32, pin: Seq<char>) -> (Desk, VerificationResult) {
    let (stored, slot) = d.pins[uid];
    let after = counted(slot, pin == stored);
    if slot.pinCount >= slot.pinLimit {
        (d, VerificationResult::LockedOut)
    } else if pin == stored {
        (d.with(d.pins.insert(uid, (stored, after))), VerificationResult::Success(after))
    } else {
        (
            d.with(d.pins.insert(uid, (stored, after))),
            VerificationResult::Invalid { locked: after.pinCount >= after.pinLimit },
        )
    }
}

/// The next line that is entered.
pub open spec fn next_line(d: Desk) -> (Desk, Heard) {
    if d.lines.len() == 0 {
        (d, UtilReply::Line(Err(PinError::TermIoError(Seq::empty()))))
    } else {
        (d.entering(d.lines.skip(1)), UtilReply::Line(Ok(d.lines[0])))
    }
}

/// What a desk answers.
pub open spec fn desk_answers(d: Desk, c: Wish) -> (Desk, Heard) {
    match c {
        UtilRequest::FindUser { username } => (
            d,
            UtilReply::User(
                if d.users.contains_key(username) {
                    Ok(d.users[username])
                } else {
                    Err(PinError::UserNotFound)
                },
            ),
        ),
        UtilRequest::OpenManager => (d, UtilReply::Manager(Ok(d.policy))),
        UtilRequest::RestartManager => (d, UtilReply::Done(Ok(()))),
        UtilRequest::CountAttempts { uid } => (
            d,
            UtilReply::Count(
                Ok(
                    if d.pins.contains_key(uid) {
                        Some(d.pins[uid].1.pinCount as u32)
                    } else {
                        None
                    },
                ),
            ),
        ),
        UtilRequest::ReadSlot { uid } => (
            d,
            UtilReply::Slot(
                Ok(
                    if d.pins.contains_key(uid) {
                        Some(d.pins[uid].1)
                    } else {
                        None
                    },
                ),
            ),
        ),
        UtilRequest::SetUp { uid, pin } => (
            d.with(d.pins.insert(uid, (pin, new_slot(d.policy)))),
            UtilReply::Done(Ok(())),
        ),
        UtilRequest::Verify { uid, pin } => if d.pins.contains_key(uid) {
            let (after, v) = tried(d, uid, pin);
            (after, UtilReply::Verdict(Ok(v)))
        } else {
            (d, UtilReply::Verdict(Err(PinError::NotProvisioned(uid))))
        },
        UtilRequest::DeleteAdmin { uid } => if d.pins.contains_key(uid) {
            (d.with(d.pins.remove(uid)), UtilReply::Done(Ok(())))
        } else {
            (d, UtilReply::Done(Err(PinError::NotProvisioned(uid))))
        },
        UtilRequest::DeleteWithAuth { uid, pin } => if d.pins.contains_key(uid) {
            let (after, v) = tried(d, uid, pin);
            match v {
                VerificationResult::Success(_) => (
                    after.with(after.pins.remove(uid)),
                    UtilReply::Deletion(Ok(DeleteResult::Success)),
                ),
                VerificationResult::Invalid { locked } => (
                    after,
                    UtilReply::Deletion(Ok(DeleteResult::Invalid { locked })),
                ),
                VerificationResult::LockedOut => (
                    after,
                    UtilReply::Deletion(Ok(DeleteResult::LockedOut)),
                ),
            }
        } else {
            (d, UtilReply::Deletion(Err(PinError::NotProvisioned(uid))))
        },
        UtilRequest::Prompt { .. } => next_line(d),
        UtilRequest::ReadLine => next_line(d),
        UtilRequest::ConfirmDeletion { .. } => next_line(d),
        UtilRequest::Say { message } => (
            Desk { said: d.said.push(message), ..d },
            UtilReply::Said,
        ),
    }
}

/// The counters of a PIN that has just been set up.
pub open spec fn new_slot(policy: PinPolicy<Seq<char>>) -> PinData {
    PinData { pinCount: 0, pinLimit: policy.max_attempts as i32 }
}

/// A command, run at a desk.
pub open spec fn ran<T>(p: Prog<Wish, Heard, Result<T, Failure>>, d: Desk) -> (
    Result<T, Failure>,
    Desk,
) {
    flow::run(p, d, |d: Desk, c: Wish| desk_answers(d, c))
}

/// The user that a command is about is known, and this is the uid.
pub open spec fn known(d: Desk, job: Job<Seq<char>>, uid: u32) -> bool {
    d.users.contains_key(job.username) && d.users[job.username] == uid
}

/// Root or the user runs the command.
pub open spec fn managing(job: Job<Seq<char>>, uid: u32) -> bool {
    job.caller.uid == 0 || job.caller.uid == uid
}

/// The policy accepts the line as a PIN.
pub open spec fn fit(d: Desk, line: Seq<char>) -> bool {
    pinpolicy::objection(d.policy, text::trimmed(line)) is None
}

/// The lines in which a new PIN is entered: one from a machine, and two at the terminal.
pub open spec fn choice(job: Job<Seq<char>>, line: Seq<char>, again: Seq<char>) -> Seq<Seq<char>> {
    if job.machine {
        seq![line]
    } else {
        seq![line, again]
    }
}

/// Setting a PIN up stores what was entered, for the user that was named and for nobody
/// else.
pub proof fn law_setting_up(
    job: Job<Seq<char>>,
    d: Desk,
    uid: u32,
    line: Seq<char>,
    again: Seq<char>,
)
    requires
        known(d, job, uid),
        managing(job, uid),
        !d.pins.contains_key(uid),
        fit(d, line),
        text::trimmed(again) == text::trimmed(line),
        d.lines == choice(job, line, again),
    ensures
        ran(pinutil::setup(job), d).0 is Ok,
        ran(pinutil::setup(job), d).1.pins == d.pins.insert(
            uid,
            (text::trimmed(line), new_slot(d.policy)),
        ),
        ran(pinutil::setup(job), d).1.users == d.users,
        ran(pinutil::setup(job), d).1.policy == d.policy,
{
    reveal_with_fuel(flow::run, 9);
    assert(d.lines[0] == line);
    if !job.machine {
        assert(d.lines.skip(1)[0] == again);
    }
}

/// A test of a PIN that is not locked: the right one is accepted, any other is counted,
/// and nothing else changes.
pub proof fn law_testing(job: Job<Seq<char>>, d: Desk, uid: u32, line: Seq<char>)
    requires
        known(d, job, uid),
        job.caller.effective == 0 || job.caller.uid == uid,
        d.pins.contains_key(uid),
        d.pins[uid].1.pinCount < d.pins[uid].1.pinLimit,
        fit(d, line),
        d.lines == seq![line],
    ensures
        ({
            let (pin, slot) = d.pins[uid];
            let right = text::trimmed(line) == pin;
            let (outcome, after) = ran(pinutil::test(job), d);
            &&& after.pins == d.pins.insert(uid, (pin, counted(slot, right)))
            &&& job.machine && right ==> outcome is Ok
            &&& job.machine && !right ==> outcome == Err::<(), Failure>(
                PinError::IncorrectPin { locked: slot.pinCount + 1 >= slot.pinLimit },
            )
            &&& !job.machine ==> outcome is Ok && after.said.last() == if right {
                Message::<Seq<char>>::PinCorrect
            } else {
                Message::<Seq<char>>::PinIncorrect
            }
        }),
{
    reveal_with_fuel(flow::run, 7);
    assert(d.lines[0] == line);
}

/// The PIN that was set up is the one that a test accepts afterwards, and no other.
pub proof fn law_what_was_set_up_is_accepted(
    job: Job<Seq<char>>,
    tester: Job<Seq<char>>,
    d: Desk,
    uid: u32,
    line: Seq<char>,
    attempt: Seq<char>,
)
    requires
        known(d, job, uid),
        known(d, tester, uid),
        managing(job, uid),
        tester.caller.effective == 0 || tester.caller.uid == uid,
        tester.machine,
        !d.pins.contains_key(uid),
        0 < d.policy.max_attempts <= i32::MAX,
        fit(d, line),
        fit(d, attempt),
        d.lines == choice(job, line, line),
    ensures
        (ran(
            pinutil::test(tester),
            ran(pinutil::setup(job), d).1.entering(seq![attempt]),
        ).0 is Ok) == (text::trimmed(attempt) == text::trimmed(line)),
{
    law_setting_up(job, d, uid, line, line);
    law_testing(tester, ran(pinutil::setup(job), d).1.entering(seq![attempt]), uid, attempt);
}

/// The lines that are entered for a change: users start with their current PIN.
pub open spec fn replacement(
    job: Job<Seq<char>>,
    current: Seq<char>,
    line: Seq<char>,
    again: Seq<char>,
) -> Seq<Seq<char>> {
    if job.caller.uid == 0 {
        choice(job, line, again)
    } else {
        seq![current] + choice(job, line, again)
    }
}

/// Changing a PIN replaces it by what was entered, with new counters. Root does not need
/// the current PIN; users do, and if it is wrong the PIN stays and the attempt counts.
pub proof fn law_changing(
    job: Job<Seq<char>>,
    d: Desk,
    uid: u32,
    current: Seq<char>,
    line: Seq<char>,
    again: Seq<char>,
)
    requires
        known(d, job, uid),
        managing(job, uid),
        d.pins.contains_key(uid),
        0 <= d.pins[uid].1.pinCount < d.pins[uid].1.pinLimit,
        fit(d, current),
        fit(d, line),
        text::trimmed(again) == text::trimmed(line),
        d.lines == replacement(job, current, line, again),
    ensures
        ({
            let (pin, slot) = d.pins[uid];
            let (outcome, after) = ran(pinutil::change(job), d);
            if job.caller.uid == 0 || text::trimmed(current) == pin {
                &&& outcome is Ok
                &&& after.pins == d.pins.insert(
                    uid,
                    (text::trimmed(line), new_slot(d.policy)),
                )
            } else {
                &&& outcome == Err::<(), Failure>(
                    PinError::IncorrectPin { locked: slot.pinCount + 1 >= slot.pinLimit },
                )
                &&& after.pins == d.pins.insert(uid, (pin, counted(slot, false)))
            }
        }),
{
    reveal_with_fuel(flow::run, 14);
    if job.caller.uid == 0 {
        assert(d.lines[0] == line);
        if !job.machine {
            assert(d.lines.skip(1)[0] == again);
        }
    } else {
        assert(d.lines[0] == current);
        assert(d.lines.skip(1)[0] == line);
        if !job.machine {
            assert(d.lines.skip(1).skip(1)[0] == again);
        }
    }
    let (outcome, after) = ran(pinutil::change(job), d);
    assert(after.pins =~= if job.caller.uid == 0 || text::trimmed(current) == d.pins[uid].0 {
        d.pins.insert(uid, (text::trimmed(line), new_slot(d.policy)))
    } else {
        d.pins.insert(uid, (d.pins[uid].0, counted(d.pins[uid].1, false)))
    });
}

/// Deleting a PIN removes it, and the status says afterwards that there is none. Root has
/// to agree unless a machine asks; users have to enter the PIN, and if it is wrong it
/// stays.
pub proof fn law_deleting(job: Job<Seq<char>>, d: Desk, uid: u32, line: Seq<char>)
    requires
        known(d, job, uid),
        managing(job, uid),
        d.pins.contains_key(uid),
        0 <= d.pins[uid].1.pinCount < d.pins[uid].1.pinLimit,
        fit(d, line) || job.caller.uid == 0,
        d.lines == seq![line],
    ensures
        ({
            let (pin, slot) = d.pins[uid];
            let (outcome, after) = ran(pinutil::delete(job), d);
            let agreed = job.machine || commandlaws::says_yes(line);
            &&& outcome is Ok
            &&& after.pins == if job.caller.uid == 0 {
                if agreed {
                    d.pins.remove(uid)
                } else {
                    d.pins
                }
            } else if text::trimmed(line) == pin {
                d.pins.remove(uid)
            } else {
                d.pins.insert(uid, (pin, counted(slot, false)))
            }
            &&& !after.pins.contains_key(uid) ==> ran(pinutil::status(job), after).0 == Ok::<
                Option<AttemptInfo>,
                Failure,
            >(None)
        }),
{
    reveal_with_fuel(flow::run, 8);
    assert(d.lines[0] == line);
    let (outcome, after) = ran(pinutil::delete(job), d);
    if job.caller.uid != 0 && text::trimmed(line) == d.pins[uid].0 {
        assert(after.pins =~= d.pins.remove(uid));
    }
}

/// The status shows the counters that the slot holds, and changes nothing.
pub proof fn law_showing(job: Job<Seq<char>>, d: Desk, uid: u32)
    requires
        known(d, job, uid),
    ensures
        ({
            let (outcome, after) = ran(pinutil::status(job), d);
            &&& after.pins == d.pins
            &&& if d.pins.contains_key(uid) {
                outcome matches Ok(Some(info)) && commandlaws::shows(d.pins[uid].1, info)
            } else {
                outcome == Ok::<Option<AttemptInfo>, Failure>(None)
            }
        }),
{
    reveal_with_fuel(flow::run, 6);
}

} // verus!

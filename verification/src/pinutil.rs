//! The commands of the command-line utility.
use crate::dialogue;
use crate::dialogue::{
    get_attempt_info, prompt_pin, prompt_yes_no, take_count, take_deletion, take_done,
    take_policy, take_typed, take_user, take_verdict, Dialogue, Failure, Heard, Label, Message,
    UtilReply, UtilRequest, Wish,
};
use crate::flow;
use crate::flow::{Paused, Prog, Step};
use crate::pin::Pin;
use crate::pindata::AttemptInfo;
use crate::pinerror::{DeleteResult, PinError, PinResult, VerificationResult};
use crate::pinpolicy::PinPolicy;
use crate::text;
use crate::util;
use crate::util::{attempts, manages};
use vstd::prelude::*;

verus! {

/// The user who runs the utility: the real and the effective uid.
#[derive(Debug, Clone, Copy, PartialEq, Eq, Structural)]
pub struct Caller {
    pub uid: u32,
    pub effective: u32,
}

/// What a command is about: who runs it, whose PIN it is about, and whether the
/// output is for a machine.
pub struct Job<S = String> {
    pub caller: Caller,
    pub username: S,
    pub machine: bool,
}

impl View for Job<String> {
    type V = Job<Seq<char>>;

    open spec fn view(&self) -> Job<Seq<char>> {
        Job { caller: self.caller, username: self.username@, machine: self.machine }
    }
}

/// A job with the uid of the user and the policy that is in force.
pub struct Case<S = String> {
    pub job: Job<S>,
    pub uid: u32,
    pub policy: PinPolicy<S>,
}

impl View for Case<String> {
    type V = Case<Seq<char>>;

    open spec fn view(&self) -> Case<Seq<char>> {
        Case { job: self.job@, uid: self.uid, policy: self.policy@ }
    }
}

/// How a PIN is obtained: from the terminal, or from the input if the utility
/// runs for a machine.
pub open spec fn asking(machine: bool, label: Label, tries: Option<(u32, u32)>) -> Wish {
    if machine {
        UtilRequest::ReadLine
    } else {
        UtilRequest::Prompt { label, attempts: tries }
    }
}

fn ask_for(machine: bool, label: Label, tries: Option<(u32, u32)>) -> (w: UtilRequest)
    ensures
        w@ == asking(machine, label, tries),
{
    if machine {
        UtilRequest::ReadLine
    } else {
        UtilRequest::Prompt { label, attempts: tries }
    }
}

/// Ending with `end`, after telling the user unless the utility runs for a
/// machine.
pub open spec fn announce<T>(
    machine: bool,
    message: Message<Seq<char>>,
    end: Result<T, Failure>,
) -> Dialogue<T> {
    if machine {
        Prog::Return(end)
    } else {
        Prog::Ask(UtilRequest::Say { message }, |r: Heard| Prog::Return(end))
    }
}

/// Setting up a PIN.
pub open spec fn setup(job: Job<Seq<char>>) -> Dialogue<()> {
    Prog::Ask(
        UtilRequest::FindUser { username: job.username },
        |r: Heard| setup_found(job, r),
    )
}

/// Only root and the users themselves may set a PIN up.
pub open spec fn setup_found(job: Job<Seq<char>>, r: Heard) -> Dialogue<()> {
    match dialogue::user_of(r) {
        Ok(uid) => if util::may_manage(job.caller.uid, uid) {
            Prog::Ask(UtilRequest::OpenManager, |r: Heard| setup_opened(job, uid, r))
        } else {
            Prog::Return(Err(PinError::PermissionDenied))
        },
        Err(e) => Prog::Return(Err(e)),
    }
}

pub open spec fn setup_opened(job: Job<Seq<char>>, uid: u32, r: Heard) -> Dialogue<()> {
    match dialogue::policy_of(r) {
        Ok(policy) => {
            let case = Case { job, uid, policy };
            Prog::Ask(UtilRequest::CountAttempts { uid }, |r: Heard| setup_counted(case, r))
        },
        Err(e) => Prog::Return(Err(e)),
    }
}

/// A user who has a PIN does not get another.
pub open spec fn setup_counted(case: Case<Seq<char>>, r: Heard) -> Dialogue<()> {
    match dialogue::count_of(r) {
        Ok(None) | Err(PinError::NotProvisioned(_)) => Prog::Ask(
            asking(case.job.machine, Label::EnterNew, None),
            |r: Heard| setup_entered(case, r),
        ),
        Ok(Some(_)) => Prog::Return(Err(PinError::PinAlreadySet)),
        Err(e) => Prog::Return(Err(e)),
    }
}

/// A PIN that is typed at the terminal is asked for twice.
pub open spec fn setup_entered(case: Case<Seq<char>>, r: Heard) -> Dialogue<()> {
    match dialogue::pin_of(case.policy, r) {
        Ok(pin) => if case.job.machine {
            setup_store(case, pin)
        } else {
            Prog::Ask(
                asking(false, Label::ConfirmNew, None),
                |r: Heard| setup_confirmed(case, pin, r),
            )
        },
        Err(e) => Prog::Return(Err(e)),
    }
}

pub open spec fn setup_confirmed(case: Case<Seq<char>>, pin: Seq<char>, r: Heard) -> Dialogue<()> {
    match dialogue::typed_of(r) {
        Ok(again) => if again == pin {
            setup_store(case, pin)
        } else {
            Prog::Return(Err(PinError::PinsDontMatch))
        },
        Err(e) => Prog::Return(Err(e)),
    }
}

pub open spec fn setup_store(case: Case<Seq<char>>, pin: Seq<char>) -> Dialogue<()> {
    Prog::Ask(UtilRequest::SetUp { uid: case.uid, pin }, |r: Heard| setup_stored(case.job, r))
}

pub open spec fn setup_stored(job: Job<Seq<char>>, r: Heard) -> Dialogue<()> {
    match dialogue::done_of(r) {
        Ok(()) => announce(job.machine, Message::PinSet { username: job.username }, Ok(())),
        Err(e) => Prog::Return(Err(e)),
    }
}

/// The setup command, waiting for a reply.
pub enum SetupCommand {
    Finding(Job),
    Opening(Job, u32),
    Counting(Case),
    Entering(Case),
    Confirming(Case, Pin),
    Storing(Job),
    Saying,
}

impl Paused<Wish, Heard, Result<(), Failure>> for SetupCommand {
    open spec fn after(self, r: Heard) -> Prog<Wish, Heard, Result<(), Failure>> {
        match self {
            SetupCommand::Finding(job) => setup_found(job@, r),
            SetupCommand::Opening(job, uid) => setup_opened(job@, uid, r),
            SetupCommand::Counting(case) => setup_counted(case@, r),
            SetupCommand::Entering(case) => setup_entered(case@, r),
            SetupCommand::Confirming(case, pin) => setup_confirmed(case@, pin@, r),
            SetupCommand::Storing(job) => setup_stored(job@, r),
            SetupCommand::Saying => Prog::Return(Ok(())),
        }
    }
}

type SetupStep = Step<UtilRequest, SetupCommand, PinResult<()>>;

/// Sets up a new PIN.
pub fn setup_pin(job: Job) -> (s: Step<UtilRequest, SetupCommand, PinResult<()>>)
    ensures
        flow::performs(s, setup(job@)),
{
    let username = job.username.clone();
    Step::Ask(UtilRequest::FindUser { username }, SetupCommand::Finding(job))
}

fn store_new(case: Case, pin: Pin) -> (s: SetupStep)
    ensures
        flow::performs(s, setup_store(case@, pin@)),
{
    Step::Ask(UtilRequest::SetUp { uid: case.uid, pin }, SetupCommand::Storing(case.job))
}

impl SetupCommand {
    pub fn resume(self, reply: UtilReply) -> (s: Step<UtilRequest, SetupCommand, PinResult<()>>)
        ensures
            flow::performs(s, self.after(reply@)),
    {
        match self {
            SetupCommand::Finding(job) => match take_user(reply) {
                Ok(uid) => if manages(job.caller.uid, uid) {
                    Step::Ask(UtilRequest::OpenManager, SetupCommand::Opening(job, uid))
                } else {
                    Step::Done(Err(PinError::PermissionDenied))
                },
                Err(e) => Step::Done(Err(e)),
            },
            SetupCommand::Opening(job, uid) => match take_policy(reply) {
                Ok(policy) => Step::Ask(
                    UtilRequest::CountAttempts { uid },
                    SetupCommand::Counting(Case { job, uid, policy }),
                ),
                Err(e) => Step::Done(Err(e)),
            },
            SetupCommand::Counting(case) => match take_count(reply) {
                Ok(None) | Err(PinError::NotProvisioned(_)) => Step::Ask(
                    ask_for(case.job.machine, Label::EnterNew, None),
                    SetupCommand::Entering(case),
                ),
                Ok(Some(_)) => Step::Done(Err(PinError::PinAlreadySet)),
                Err(e) => Step::Done(Err(e)),
            },
            SetupCommand::Entering(case) => match prompt_pin(&case.policy, reply) {
                Ok(pin) => if case.job.machine {
                    store_new(case, pin)
                } else {
                    Step::Ask(
                        ask_for(false, Label::ConfirmNew, None),
                        SetupCommand::Confirming(case, pin),
                    )
                },
                Err(e) => Step::Done(Err(e)),
            },
            SetupCommand::Confirming(case, pin) => match take_typed(reply) {
                Ok(again) => if text::same_text(again.as_str(), pin.as_str()) {
                    store_new(case, pin)
                } else {
                    Step::Done(Err(PinError::PinsDontMatch))
                },
                Err(e) => Step::Done(Err(e)),
            },
            SetupCommand::Storing(job) => match take_done(reply) {
                Ok(()) => if job.machine {
                    Step::Done(Ok(()))
                } else {
                    Step::Ask(
                        UtilRequest::Say { message: Message::PinSet { username: job.username } },
                        SetupCommand::Saying,
                    )
                },
                Err(e) => Step::Done(Err(e)),
            },
            SetupCommand::Saying => Step::Done(Ok(())),
        }
    }
}

pub open spec fn pin_option(pin: Option<Pin>) -> Option<Seq<char>> {
    match pin {
        Some(p) => Some(p@),
        None => None,
    }
}

/// Changing a PIN.
pub open spec fn change(job: Job<Seq<char>>) -> Dialogue<()> {
    Prog::Ask(
        UtilRequest::FindUser { username: job.username },
        |r: Heard| change_found(job, r),
    )
}

/// Only root and the users themselves may change a PIN.
pub open spec fn change_found(job: Job<Seq<char>>, r: Heard) -> Dialogue<()> {
    match dialogue::user_of(r) {
        Ok(uid) => if util::may_manage(job.caller.uid, uid) {
            Prog::Ask(UtilRequest::OpenManager, |r: Heard| change_opened(job, uid, r))
        } else {
            Prog::Return(Err(PinError::PermissionDenied))
        },
        Err(e) => Prog::Return(Err(e)),
    }
}

pub open spec fn change_opened(job: Job<Seq<char>>, uid: u32, r: Heard) -> Dialogue<()> {
    match dialogue::policy_of(r) {
        Ok(policy) => {
            let case = Case { job, uid, policy };
            Prog::Ask(UtilRequest::ReadSlot { uid }, |r: Heard| change_read(case, r))
        },
        Err(e) => Prog::Return(Err(e)),
    }
}

pub open spec fn change_read(case: Case<Seq<char>>, r: Heard) -> Dialogue<()> {
    match dialogue::info_of(r) {
        Ok(Some(info)) => Prog::Ask(
            UtilRequest::RestartManager,
            |r: Heard| change_restarted(case, info, r),
        ),
        Ok(None) => Prog::Return(Err(PinError::NoPinSet)),
        Err(e) => Prog::Return(Err(e)),
    }
}

/// Users have to enter their current PIN, which must not be locked; root does
/// not.
pub open spec fn change_restarted(case: Case<Seq<char>>, info: AttemptInfo, r: Heard) -> Dialogue<
    (),
> {
    match dialogue::done_of(r) {
        Ok(()) => if case.job.caller.uid == 0 {
            change_new(case, None)
        } else if info.is_locked() {
            Prog::Return(Err(PinError::PinIsLocked))
        } else {
            Prog::Ask(
                asking(case.job.machine, Label::Current, Some((info.used, info.limit))),
                |r: Heard| change_current(case, r),
            )
        },
        Err(e) => Prog::Return(Err(e)),
    }
}

pub open spec fn change_current(case: Case<Seq<char>>, r: Heard) -> Dialogue<()> {
    match dialogue::pin_of(case.policy, r) {
        Ok(current) => Prog::Ask(
            UtilRequest::Verify { uid: case.uid, pin: current },
            |r: Heard| change_verified(case, current, r),
        ),
        Err(e) => Prog::Return(Err(e)),
    }
}

pub open spec fn change_verified(
    case: Case<Seq<char>>,
    current: Seq<char>,
    r: Heard,
) -> Dialogue<()> {
    match dialogue::verdict_of(r) {
        Ok(VerificationResult::Success(_)) => Prog::Ask(
            UtilRequest::RestartManager,
            |r: Heard| change_again(case, current, r),
        ),
        Ok(VerificationResult::Invalid { locked }) => Prog::Return(
            Err(PinError::IncorrectPin { locked }),
        ),
        Ok(VerificationResult::LockedOut) => Prog::Return(Err(PinError::PinIsLocked)),
        Err(e) => Prog::Return(Err(e)),
    }
}

pub open spec fn change_again(case: Case<Seq<char>>, current: Seq<char>, r: Heard) -> Dialogue<()> {
    match dialogue::done_of(r) {
        Ok(()) => change_new(case, Some(current)),
        Err(e) => Prog::Return(Err(e)),
    }
}

/// Asking for the new PIN. `current` is the current one, unless root does it.
pub open spec fn change_new(case: Case<Seq<char>>, current: Option<Seq<char>>) -> Dialogue<()> {
    Prog::Ask(
        asking(case.job.machine, Label::Replacement, None),
        |r: Heard| change_entered(case, current, r),
    )
}

pub open spec fn change_entered(
    case: Case<Seq<char>>,
    current: Option<Seq<char>>,
    r: Heard,
) -> Dialogue<()> {
    match dialogue::pin_of(case.policy, r) {
        Ok(pin) => if case.job.machine {
            change_delete(case, current, pin)
        } else {
            Prog::Ask(
                asking(false, Label::ConfirmReplacement, None),
                |r: Heard| change_confirmed(case, current, pin, r),
            )
        },
        Err(e) => Prog::Return(Err(e)),
    }
}

pub open spec fn change_confirmed(
    case: Case<Seq<char>>,
    current: Option<Seq<char>>,
    pin: Seq<char>,
    r: Heard,
) -> Dialogue<()> {
    match dialogue::typed_of(r) {
        Ok(again) => if again == pin {
            change_delete(case, current, pin)
        } else {
            Prog::Return(Err(PinError::PinsDontMatch))
        },
        Err(e) => Prog::Return(Err(e)),
    }
}

/// Removing the old PIN, by its own authority unless root does it.
pub open spec fn change_delete(
    case: Case<Seq<char>>,
    current: Option<Seq<char>>,
    pin: Seq<char>,
) -> Dialogue<()> {
    match current {
        Some(old) => Prog::Ask(
            UtilRequest::DeleteWithAuth { uid: case.uid, pin: old },
            |r: Heard| change_auth_deleted(case, pin, r),
        ),
        None => Prog::Ask(
            UtilRequest::DeleteAdmin { uid: case.uid },
            |r: Heard| change_deleted(case, pin, r),
        ),
    }
}

pub open spec fn change_auth_deleted(
    case: Case<Seq<char>>,
    pin: Seq<char>,
    r: Heard,
) -> Dialogue<()> {
    match dialogue::deletion_of(r) {
        Ok(DeleteResult::Success) => change_store(case, pin),
        Ok(d) => Prog::Return(Err(PinError::CannotDeletePin(d))),
        Err(e) => Prog::Return(Err(e)),
    }
}

pub open spec fn change_deleted(case: Case<Seq<char>>, pin: Seq<char>, r: Heard) -> Dialogue<()> {
    match dialogue::done_of(r) {
        Ok(()) => change_store(case, pin),
        Err(e) => Prog::Return(Err(e)),
    }
}

pub open spec fn change_store(case: Case<Seq<char>>, pin: Seq<char>) -> Dialogue<()> {
    Prog::Ask(UtilRequest::SetUp { uid: case.uid, pin }, |r: Heard| change_stored(case.job, r))
}

pub open spec fn change_stored(job: Job<Seq<char>>, r: Heard) -> Dialogue<()> {
    match dialogue::done_of(r) {
        Ok(()) => announce(job.machine, Message::PinChanged { username: job.username }, Ok(())),
        Err(e) => Prog::Return(Err(e)),
    }
}

/// The change command, waiting for a reply.
pub enum ChangeCommand {
    Finding(Job),
    Opening(Job, u32),
    Reading(Case),
    Restarting(Case, AttemptInfo),
    EnteringCurrent(Case),
    Verifying(Case, Pin),
    RestartingAgain(Case, Pin),
    EnteringNew(Case, Option<Pin>),
    ConfirmingNew(Case, Option<Pin>, Pin),
    DeletingOwn(Case, Pin),
    Deleting(Case, Pin),
    Storing(Job),
    Saying,
}

impl Paused<Wish, Heard, Result<(), Failure>> for ChangeCommand {
    open spec fn after(self, r: Heard) -> Prog<Wish, Heard, Result<(), Failure>> {
        match self {
            ChangeCommand::Finding(job) => change_found(job@, r),
            ChangeCommand::Opening(job, uid) => change_opened(job@, uid, r),
            ChangeCommand::Reading(case) => change_read(case@, r),
            ChangeCommand::Restarting(case, info) => change_restarted(case@, info, r),
            ChangeCommand::EnteringCurrent(case) => change_current(case@, r),
            ChangeCommand::Verifying(case, current) => change_verified(case@, current@, r),
            ChangeCommand::RestartingAgain(case, current) => change_again(case@, current@, r),
            ChangeCommand::EnteringNew(case, current) => change_entered(
                case@,
                pin_option(current),
                r,
            ),
            ChangeCommand::ConfirmingNew(case, current, pin) => change_confirmed(
                case@,
                pin_option(current),
                pin@,
                r,
            ),
            ChangeCommand::DeletingOwn(case, pin) => change_auth_deleted(case@, pin@, r),
            ChangeCommand::Deleting(case, pin) => change_deleted(case@, pin@, r),
            ChangeCommand::Storing(job) => change_stored(job@, r),
            ChangeCommand::Saying => Prog::Return(Ok(())),
        }
    }
}

type ChangeStep = Step<UtilRequest, ChangeCommand, PinResult<()>>;

/// Changes a PIN.
pub fn change_pin(job: Job) -> (s: Step<UtilRequest, ChangeCommand, PinResult<()>>)
    ensures
        flow::performs(s, change(job@)),
{
    let username = job.username.clone();
    Step::Ask(UtilRequest::FindUser { username }, ChangeCommand::Finding(job))
}

fn enter_replacement(case: Case, current: Option<Pin>) -> (s: ChangeStep)
    ensures
        flow::performs(s, change_new(case@, pin_option(current))),
{
    Step::Ask(
        ask_for(case.job.machine, Label::Replacement, None),
        ChangeCommand::EnteringNew(case, current),
    )
}

fn replace(case: Case, current: Option<Pin>, pin: Pin) -> (s: ChangeStep)
    ensures
        flow::performs(s, change_delete(case@, pin_option(current), pin@)),
{
    let uid: u32 = case.uid;
    match current {
        Some(old) => Step::Ask(
            UtilRequest::DeleteWithAuth { uid, pin: old },
            ChangeCommand::DeletingOwn(case, pin),
        ),
        None => Step::Ask(UtilRequest::DeleteAdmin { uid }, ChangeCommand::Deleting(case, pin)),
    }
}

fn store_replacement(case: Case, pin: Pin) -> (s: ChangeStep)
    ensures
        flow::performs(s, change_store(case@, pin@)),
{
    Step::Ask(UtilRequest::SetUp { uid: case.uid, pin }, ChangeCommand::Storing(case.job))
}

impl ChangeCommand {
    pub fn resume(self, reply: UtilReply) -> (s: Step<UtilRequest, ChangeCommand, PinResult<()>>)
        ensures
            flow::performs(s, self.after(reply@)),
    {
        match self {
            ChangeCommand::Finding(job) => match take_user(reply) {
                Ok(uid) => if manages(job.caller.uid, uid) {
                    Step::Ask(UtilRequest::OpenManager, ChangeCommand::Opening(job, uid))
                } else {
                    Step::Done(Err(PinError::PermissionDenied))
                },
                Err(e) => Step::Done(Err(e)),
            },
            ChangeCommand::Opening(job, uid) => match take_policy(reply) {
                Ok(policy) => Step::Ask(
                    UtilRequest::ReadSlot { uid },
                    ChangeCommand::Reading(Case { job, uid, policy }),
                ),
                Err(e) => Step::Done(Err(e)),
            },
            ChangeCommand::Reading(case) => match get_attempt_info(reply) {
                Ok(Some(info)) => Step::Ask(
                    UtilRequest::RestartManager,
                    ChangeCommand::Restarting(case, info),
                ),
                Ok(None) => Step::Done(Err(PinError::NoPinSet)),
                Err(e) => Step::Done(Err(e)),
            },
            ChangeCommand::Restarting(case, info) => match take_done(reply) {
                Ok(()) => if case.job.caller.uid == 0 {
                    enter_replacement(case, None)
                } else if info.locked() {
                    Step::Done(Err(PinError::PinIsLocked))
                } else {
                    Step::Ask(
                        ask_for(case.job.machine, Label::Current, Some(info.prompt_tuple())),
                        ChangeCommand::EnteringCurrent(case),
                    )
                },
                Err(e) => Step::Done(Err(e)),
            },
            ChangeCommand::EnteringCurrent(case) => match prompt_pin(&case.policy, reply) {
                Ok(current) => {
                    let pin = current.duplicate();
                    Step::Ask(
                        UtilRequest::Verify { uid: case.uid, pin },
                        ChangeCommand::Verifying(case, current),
                    )
                },
                Err(e) => Step::Done(Err(e)),
            },
            ChangeCommand::Verifying(case, current) => match take_verdict(reply) {
                Ok(VerificationResult::Success(_)) => Step::Ask(
                    UtilRequest::RestartManager,
                    ChangeCommand::RestartingAgain(case, current),
                ),
                Ok(VerificationResult::Invalid { locked }) => Step::Done(
                    Err(PinError::IncorrectPin { locked }),
                ),
                Ok(VerificationResult::LockedOut) => Step::Done(Err(PinError::PinIsLocked)),
                Err(e) => Step::Done(Err(e)),
            },
            ChangeCommand::RestartingAgain(case, current) => match take_done(reply) {
                Ok(()) => enter_replacement(case, Some(current)),
                Err(e) => Step::Done(Err(e)),
            },
            ChangeCommand::EnteringNew(case, current) => match prompt_pin(&case.policy, reply) {
                Ok(pin) => if case.job.machine {
                    replace(case, current, pin)
                } else {
                    Step::Ask(
                        ask_for(false, Label::ConfirmReplacement, None),
                        ChangeCommand::ConfirmingNew(case, current, pin),
                    )
                },
                Err(e) => Step::Done(Err(e)),
            },
            ChangeCommand::ConfirmingNew(case, current, pin) => match take_typed(reply) {
                Ok(again) => if text::same_text(again.as_str(), pin.as_str()) {
                    replace(case, current, pin)
                } else {
                    Step::Done(Err(PinError::PinsDontMatch))
                },
                Err(e) => Step::Done(Err(e)),
            },
            ChangeCommand::DeletingOwn(case, pin) => match take_deletion(reply) {
                Ok(DeleteResult::Success) => store_replacement(case, pin),
                Ok(d) => Step::Done(Err(PinError::CannotDeletePin(d))),
                Err(e) => Step::Done(Err(e)),
            },
            ChangeCommand::Deleting(case, pin) => match take_done(reply) {
                Ok(()) => store_replacement(case, pin),
                Err(e) => Step::Done(Err(e)),
            },
            ChangeCommand::Storing(job) => match take_done(reply) {
                Ok(()) => if job.machine {
                    Step::Done(Ok(()))
                } else {
                    Step::Ask(
                        UtilRequest::Say {
                            message: Message::PinChanged { username: job.username },
                        },
                        ChangeCommand::Saying,
                    )
                },
                Err(e) => Step::Done(Err(e)),
            },
            ChangeCommand::Saying => Step::Done(Ok(())),
        }
    }
}

/// Deleting a PIN.
pub open spec fn delete(job: Job<Seq<char>>) -> Dialogue<()> {
    Prog::Ask(
        UtilRequest::FindUser { username: job.username },
        |r: Heard| delete_found(job, r),
    )
}

/// Only root and the users themselves may delete a PIN.
pub open spec fn delete_found(job: Job<Seq<char>>, r: Heard) -> Dialogue<()> {
    match dialogue::user_of(r) {
        Ok(uid) => if util::may_manage(job.caller.uid, uid) {
            Prog::Ask(UtilRequest::OpenManager, |r: Heard| delete_opened(job, uid, r))
        } else {
            Prog::Return(Err(PinError::PermissionDenied))
        },
        Err(e) => Prog::Return(Err(e)),
    }
}

pub open spec fn delete_opened(job: Job<Seq<char>>, uid: u32, r: Heard) -> Dialogue<()> {
    match dialogue::policy_of(r) {
        Ok(policy) => {
            let case = Case { job, uid, policy };
            Prog::Ask(UtilRequest::ReadSlot { uid }, |r: Heard| delete_read(case, r))
        },
        Err(e) => Prog::Return(Err(e)),
    }
}

/// Root deletes after a confirmation, which a machine is not asked for; users
/// have to enter the PIN, which must not be locked.
pub open spec fn delete_read(case: Case<Seq<char>>, r: Heard) -> Dialogue<()> {
    match dialogue::info_of(r) {
        Ok(Some(info)) => if case.job.caller.uid == 0 {
            if case.job.machine {
                delete_as_root(case)
            } else {
                Prog::Ask(
                    UtilRequest::ConfirmDeletion { username: case.job.username },
                    |r: Heard| delete_consented(case, r),
                )
            }
        } else if info.is_locked() {
            Prog::Return(Err(PinError::PinIsLocked))
        } else {
            Prog::Ask(
                asking(case.job.machine, Label::Current, Some((info.used, info.limit))),
                |r: Heard| delete_entered(case, r),
            )
        },
        Ok(None) => Prog::Return(Err(PinError::NoPinSet)),
        Err(e) => Prog::Return(Err(e)),
    }
}

pub open spec fn delete_consented(case: Case<Seq<char>>, r: Heard) -> Dialogue<()> {
    match dialogue::consent_of(r) {
        Ok(yes) => if yes {
            delete_as_root(case)
        } else {
            announce(false, Message::Cancelled, Ok(()))
        },
        Err(e) => Prog::Return(Err(e)),
    }
}

pub open spec fn delete_as_root(case: Case<Seq<char>>) -> Dialogue<()> {
    Prog::Ask(
        UtilRequest::DeleteAdmin { uid: case.uid },
        |r: Heard| delete_done(case.job, r),
    )
}

pub open spec fn delete_done(job: Job<Seq<char>>, r: Heard) -> Dialogue<()> {
    match dialogue::done_of(r) {
        Ok(()) => announce(job.machine, Message::PinDeleted { username: job.username }, Ok(())),
        Err(e) => announce(job.machine, Message::DeletionFailed { error: e }, Err(e)),
    }
}

pub open spec fn delete_entered(case: Case<Seq<char>>, r: Heard) -> Dialogue<()> {
    match dialogue::pin_of(case.policy, r) {
        Ok(pin) => Prog::Ask(
            UtilRequest::DeleteWithAuth { uid: case.uid, pin },
            |r: Heard| delete_authorized(case.job, r),
        ),
        Err(e) => Prog::Return(Err(e)),
    }
}

/// What the user is told of the outcome of a deletion.
pub open spec fn deletion_message(username: Seq<char>, d: DeleteResult) -> Message<Seq<char>> {
    match d {
        DeleteResult::Success => Message::PinDeleted { username },
        DeleteResult::Invalid { .. } => Message::IncorrectPin,
        DeleteResult::LockedOut => Message::NowLockedOut,
    }
}

pub open spec fn delete_authorized(job: Job<Seq<char>>, r: Heard) -> Dialogue<()> {
    match dialogue::deletion_of(r) {
        Ok(d) => announce(job.machine, deletion_message(job.username, d), Ok(())),
        Err(e) => Prog::Return(Err(e)),
    }
}

/// The delete command, waiting for a reply.
pub enum DeleteCommand {
    Finding(Job),
    Opening(Job, u32),
    Reading(Case),
    Confirming(Case),
    Deleting(Job),
    Entering(Case),
    DeletingOwn(Job),
    Saying(PinResult<()>),
}

impl Paused<Wish, Heard, Result<(), Failure>> for DeleteCommand {
    open spec fn after(self, r: Heard) -> Prog<Wish, Heard, Result<(), Failure>> {
        match self {
            DeleteCommand::Finding(job) => delete_found(job@, r),
            DeleteCommand::Opening(job, uid) => delete_opened(job@, uid, r),
            DeleteCommand::Reading(case) => delete_read(case@, r),
            DeleteCommand::Confirming(case) => delete_consented(case@, r),
            DeleteCommand::Deleting(job) => delete_done(job@, r),
            DeleteCommand::Entering(case) => delete_entered(case@, r),
            DeleteCommand::DeletingOwn(job) => delete_authorized(job@, r),
            DeleteCommand::Saying(end) => Prog::Return(crate::pinerror::outcome(end)),
        }
    }
}

type DeleteStep = Step<UtilRequest, DeleteCommand, PinResult<()>>;

/// Deletes a PIN.
pub fn delete_pin(job: Job) -> (s: Step<UtilRequest, DeleteCommand, PinResult<()>>)
    ensures
        flow::performs(s, delete(job@)),
{
    let username = job.username.clone();
    Step::Ask(UtilRequest::FindUser { username }, DeleteCommand::Finding(job))
}

fn delete_for_root(case: Case) -> (s: DeleteStep)
    ensures
        flow::performs(s, delete_as_root(case@)),
{
    Step::Ask(UtilRequest::DeleteAdmin { uid: case.uid }, DeleteCommand::Deleting(case.job))
}

fn tell_and_end(machine: bool, message: Message, end: PinResult<()>) -> (s: DeleteStep)
    ensures
        flow::performs(s, announce(machine, message@, crate::pinerror::outcome(end))),
{
    if machine {
        Step::Done(end)
    } else {
        Step::Ask(UtilRequest::Say { message }, DeleteCommand::Saying(end))
    }
}

impl DeleteCommand {
    pub fn resume(self, reply: UtilReply) -> (s: Step<UtilRequest, DeleteCommand, PinResult<()>>)
        ensures
            flow::performs(s, self.after(reply@)),
    {
        match self {
            DeleteCommand::Finding(job) => match take_user(reply) {
                Ok(uid) => if manages(job.caller.uid, uid) {
                    Step::Ask(UtilRequest::OpenManager, DeleteCommand::Opening(job, uid))
                } else {
                    Step::Done(Err(PinError::PermissionDenied))
                },
                Err(e) => Step::Done(Err(e)),
            },
            DeleteCommand::Opening(job, uid) => match take_policy(reply) {
                Ok(policy) => Step::Ask(
                    UtilRequest::ReadSlot { uid },
                    DeleteCommand::Reading(Case { job, uid, policy }),
                ),
                Err(e) => Step::Done(Err(e)),
            },
            DeleteCommand::Reading(case) => match get_attempt_info(reply) {
                Ok(Some(info)) => if case.job.caller.uid == 0 {
                    if case.job.machine {
                        delete_for_root(case)
                    } else {
                        let username = case.job.username.clone();
                        Step::Ask(
                            UtilRequest::ConfirmDeletion { username },
                            DeleteCommand::Confirming(case),
                        )
                    }
                } else if info.locked() {
                    Step::Done(Err(PinError::PinIsLocked))
                } else {
                    Step::Ask(
                        ask_for(case.job.machine, Label::Current, Some(info.prompt_tuple())),
                        DeleteCommand::Entering(case),
                    )
                },
                Ok(None) => Step::Done(Err(PinError::NoPinSet)),
                Err(e) => Step::Done(Err(e)),
            },
            DeleteCommand::Confirming(case) => match prompt_yes_no(reply) {
                Ok(yes) => if yes {
                    delete_for_root(case)
                } else {
                    tell_and_end(false, Message::Cancelled, Ok(()))
                },
                Err(e) => Step::Done(Err(e)),
            },
            DeleteCommand::Deleting(job) => match take_done(reply) {
                Ok(()) => tell_and_end(
                    job.machine,
                    Message::PinDeleted { username: job.username },
                    Ok(()),
                ),
                Err(e) => {
                    let error = e.duplicate();
                    tell_and_end(job.machine, Message::DeletionFailed { error }, Err(e))
                },
            },
            DeleteCommand::Entering(case) => match prompt_pin(&case.policy, reply) {
                Ok(pin) => Step::Ask(
                    UtilRequest::DeleteWithAuth { uid: case.uid, pin },
                    DeleteCommand::DeletingOwn(case.job),
                ),
                Err(e) => Step::Done(Err(e)),
            },
            DeleteCommand::DeletingOwn(job) => match take_deletion(reply) {
                Ok(d) => {
                    let message = match d {
                        DeleteResult::Success => Message::PinDeleted { username: job.username },
                        DeleteResult::Invalid { .. } => Message::IncorrectPin,
                        DeleteResult::LockedOut => Message::NowLockedOut,
                    };
                    tell_and_end(job.machine, message, Ok(()))
                },
                Err(e) => Step::Done(Err(e)),
            },
            DeleteCommand::Saying(end) => Step::Done(end),
        }
    }
}

/// Testing a PIN.
pub open spec fn test(job: Job<Seq<char>>) -> Dialogue<()> {
    Prog::Ask(
        UtilRequest::FindUser { username: job.username },
        |r: Heard| test_found(job, r),
    )
}

/// Only the users themselves and what runs with root's rights may attempt a
/// PIN: an attempt can lock the user out.
pub open spec fn test_found(job: Job<Seq<char>>, r: Heard) -> Dialogue<()> {
    match dialogue::user_of(r) {
        Ok(uid) => if util::may_attempt(job.caller.uid, job.caller.effective, uid) {
            Prog::Ask(UtilRequest::OpenManager, |r: Heard| test_opened(job, uid, r))
        } else {
            Prog::Return(Err(PinError::PermissionDenied))
        },
        Err(e) => Prog::Return(Err(e)),
    }
}

pub open spec fn test_opened(job: Job<Seq<char>>, uid: u32, r: Heard) -> Dialogue<()> {
    match dialogue::policy_of(r) {
        Ok(policy) => {
            let case = Case { job, uid, policy };
            Prog::Ask(UtilRequest::ReadSlot { uid }, |r: Heard| test_read(case, r))
        },
        Err(e) => Prog::Return(Err(e)),
    }
}

pub open spec fn test_read(case: Case<Seq<char>>, r: Heard) -> Dialogue<()> {
    match dialogue::info_of(r) {
        Ok(Some(info)) => if info.is_locked() {
            announce(case.job.machine, Message::UserLockedOut, Err(PinError::PinIsLocked))
        } else {
            Prog::Ask(
                asking(case.job.machine, Label::Current, Some((info.used, info.limit))),
                |r: Heard| test_entered(case, r),
            )
        },
        Ok(None) => announce(case.job.machine, Message::NoPinForUser, Err(PinError::NoPinSet)),
        Err(e) => Prog::Return(Err(e)),
    }
}

pub open spec fn test_entered(case: Case<Seq<char>>, r: Heard) -> Dialogue<()> {
    match dialogue::pin_of(case.policy, r) {
        Ok(pin) => Prog::Ask(
            UtilRequest::Verify { uid: case.uid, pin },
            |r: Heard| test_verified(case.job, r),
        ),
        Err(e) => Prog::Return(Err(e)),
    }
}

/// What the user is told of the outcome of a test.
pub open spec fn test_message(v: VerificationResult) -> Message<Seq<char>> {
    match v {
        VerificationResult::Success(_) => Message::PinCorrect,
        VerificationResult::Invalid { .. } => Message::PinIncorrect,
        VerificationResult::LockedOut => Message::NowLockedOut,
    }
}

/// What a machine is told of the outcome of a test.
pub open spec fn test_result(v: VerificationResult) -> Result<(), Failure> {
    match v {
        VerificationResult::Success(_) => Ok(()),
        VerificationResult::Invalid { locked } => Err(PinError::IncorrectPin { locked }),
        VerificationResult::LockedOut => Err(PinError::PinIsLocked),
    }
}

pub open spec fn test_verified(job: Job<Seq<char>>, r: Heard) -> Dialogue<()> {
    match dialogue::verdict_of(r) {
        Ok(v) => if job.machine {
            Prog::Return(test_result(v))
        } else {
            announce(false, test_message(v), Ok(()))
        },
        Err(e) => Prog::Return(Err(e)),
    }
}

/// The test command, waiting for a reply.
pub enum TestCommand {
    Finding(Job),
    Opening(Job, u32),
    Reading(Case),
    Entering(Case),
    Verifying(Job),
    Saying(PinResult<()>),
}

impl Paused<Wish, Heard, Result<(), Failure>> for TestCommand {
    open spec fn after(self, r: Heard) -> Prog<Wish, Heard, Result<(), Failure>> {
        match self {
            TestCommand::Finding(job) => test_found(job@, r),
            TestCommand::Opening(job, uid) => test_opened(job@, uid, r),
            TestCommand::Reading(case) => test_read(case@, r),
            TestCommand::Entering(case) => test_entered(case@, r),
            TestCommand::Verifying(job) => test_verified(job@, r),
            TestCommand::Saying(end) => Prog::Return(crate::pinerror::outcome(end)),
        }
    }
}

/// Tests a PIN.
pub fn test_pin(job: Job) -> (s: Step<UtilRequest, TestCommand, PinResult<()>>)
    ensures
        flow::performs(s, test(job@)),
{
    let username = job.username.clone();
    Step::Ask(UtilRequest::FindUser { username }, TestCommand::Finding(job))
}

fn tell_and_end_test(machine: bool, message: Message, end: PinResult<()>) -> (s: Step<
    UtilRequest,
    TestCommand,
    PinResult<()>,
>)
    ensures
        flow::performs(s, announce(machine, message@, crate::pinerror::outcome(end))),
{
    if machine {
        Step::Done(end)
    } else {
        Step::Ask(UtilRequest::Say { message }, TestCommand::Saying(end))
    }
}

impl TestCommand {
    pub fn resume(self, reply: UtilReply) -> (s: Step<UtilRequest, TestCommand, PinResult<()>>)
        ensures
            flow::performs(s, self.after(reply@)),
    {
        match self {
            TestCommand::Finding(job) => match take_user(reply) {
                Ok(uid) => if attempts(job.caller.uid, job.caller.effective, uid) {
                    Step::Ask(UtilRequest::OpenManager, TestCommand::Opening(job, uid))
                } else {
                    Step::Done(Err(PinError::PermissionDenied))
                },
                Err(e) => Step::Done(Err(e)),
            },
            TestCommand::Opening(job, uid) => match take_policy(reply) {
                Ok(policy) => Step::Ask(
                    UtilRequest::ReadSlot { uid },
                    TestCommand::Reading(Case { job, uid, policy }),
                ),
                Err(e) => Step::Done(Err(e)),
            },
            TestCommand::Reading(case) => match get_attempt_info(reply) {
                Ok(Some(info)) => if info.locked() {
                    tell_and_end_test(
                        case.job.machine,
                        Message::UserLockedOut,
                        Err(PinError::PinIsLocked),
                    )
                } else {
                    Step::Ask(
                        ask_for(case.job.machine, Label::Current, Some(info.prompt_tuple())),
                        TestCommand::Entering(case),
                    )
                },
                Ok(None) => tell_and_end_test(
                    case.job.machine,
                    Message::NoPinForUser,
                    Err(PinError::NoPinSet),
                ),
                Err(e) => Step::Done(Err(e)),
            },
            TestCommand::Entering(case) => match prompt_pin(&case.policy, reply) {
                Ok(pin) => Step::Ask(
                    UtilRequest::Verify { uid: case.uid, pin },
                    TestCommand::Verifying(case.job),
                ),
                Err(e) => Step::Done(Err(e)),
            },
            TestCommand::Verifying(job) => match take_verdict(reply) {
                Ok(v) => if job.machine {
                    match v {
                        VerificationResult::Success(_) => Step::Done(Ok(())),
                        VerificationResult::Invalid { locked } => Step::Done(
                            Err(PinError::IncorrectPin { locked }),
                        ),
                        VerificationResult::LockedOut => Step::Done(Err(PinError::PinIsLocked)),
                    }
                } else {
                    let message = match v {
                        VerificationResult::Success(_) => Message::PinCorrect,
                        VerificationResult::Invalid { .. } => Message::PinIncorrect,
                        VerificationResult::LockedOut => Message::NowLockedOut,
                    };
                    tell_and_end_test(false, message, Ok(()))
                },
                Err(e) => Step::Done(Err(e)),
            },
            TestCommand::Saying(end) => Step::Done(end),
        }
    }
}

/// Showing the status of a PIN.
pub open spec fn status(job: Job<Seq<char>>) -> Dialogue<Option<AttemptInfo>> {
    Prog::Ask(
        UtilRequest::FindUser { username: job.username },
        |r: Heard| status_found(job, r),
    )
}

pub open spec fn status_found(job: Job<Seq<char>>, r: Heard) -> Dialogue<Option<AttemptInfo>> {
    match dialogue::user_of(r) {
        Ok(uid) => Prog::Ask(UtilRequest::OpenManager, |r: Heard| status_opened(job, uid, r)),
        Err(e) => Prog::Return(Err(e)),
    }
}

pub open spec fn status_opened(job: Job<Seq<char>>, uid: u32, r: Heard) -> Dialogue<
    Option<AttemptInfo>,
> {
    match dialogue::policy_of(r) {
        Ok(_) => if job.machine {
            status_query(job, uid)
        } else {
            Prog::Ask(
                UtilRequest::Say { message: Message::StatusOf { username: job.username, uid } },
                |r: Heard| status_query(job, uid),
            )
        },
        Err(e) => Prog::Return(Err(e)),
    }
}

pub open spec fn status_query(job: Job<Seq<char>>, uid: u32) -> Dialogue<Option<AttemptInfo>> {
    Prog::Ask(UtilRequest::ReadSlot { uid }, |r: Heard| status_read(job, r))
}

/// What the user is told of the attempt counters.
pub open spec fn status_message(info: Option<AttemptInfo>) -> Message<Seq<char>> {
    match info {
        Some(info) => Message::Provisioned { info },
        None => Message::NotProvisioned,
    }
}

pub open spec fn status_read(job: Job<Seq<char>>, r: Heard) -> Dialogue<Option<AttemptInfo>> {
    match dialogue::info_of(r) {
        Ok(info) => announce(job.machine, status_message(info), Ok(info)),
        Err(e) => Prog::Return(Err(e)),
    }
}

/// The status command, waiting for a reply.
pub enum StatusCommand {
    Finding(Job),
    Opening(Job, u32),
    Introducing(Job, u32),
    Reading(Job),
    Saying(Option<AttemptInfo>),
}

impl Paused<Wish, Heard, Result<Option<AttemptInfo>, Failure>> for StatusCommand {
    open spec fn after(self, r: Heard) -> Prog<
        Wish,
        Heard,
        Result<Option<AttemptInfo>, Failure>,
    > {
        match self {
            StatusCommand::Finding(job) => status_found(job@, r),
            StatusCommand::Opening(job, uid) => status_opened(job@, uid, r),
            StatusCommand::Introducing(job, uid) => status_query(job@, uid),
            StatusCommand::Reading(job) => status_read(job@, r),
            StatusCommand::Saying(info) => Prog::Return(Ok(info)),
        }
    }
}

/// Shows the status of a PIN.
pub fn show_status(job: Job) -> (s: Step<
    UtilRequest,
    StatusCommand,
    PinResult<Option<AttemptInfo>>,
>)
    ensures
        flow::performs(s, status(job@)),
{
    let username = job.username.clone();
    Step::Ask(UtilRequest::FindUser { username }, StatusCommand::Finding(job))
}

impl StatusCommand {
    pub fn resume(self, reply: UtilReply) -> (s: Step<
        UtilRequest,
        StatusCommand,
        PinResult<Option<AttemptInfo>>,
    >)
        ensures
            flow::performs(s, self.after(reply@)),
    {
        match self {
            StatusCommand::Finding(job) => match take_user(reply) {
                Ok(uid) => Step::Ask(UtilRequest::OpenManager, StatusCommand::Opening(job, uid)),
                Err(e) => Step::Done(Err(e)),
            },
            StatusCommand::Opening(job, uid) => match take_policy(reply) {
                Ok(_) => if job.machine {
                    Step::Ask(UtilRequest::ReadSlot { uid }, StatusCommand::Reading(job))
                } else {
                    let username = job.username.clone();
                    Step::Ask(
                        UtilRequest::Say { message: Message::StatusOf { username, uid } },
                        StatusCommand::Introducing(job, uid),
                    )
                },
                Err(e) => Step::Done(Err(e)),
            },
            StatusCommand::Introducing(job, uid) => Step::Ask(
                UtilRequest::ReadSlot { uid },
                StatusCommand::Reading(job),
            ),
            StatusCommand::Reading(job) => match get_attempt_info(reply) {
                Ok(info) => if job.machine {
                    Step::Done(Ok(info))
                } else {
                    let message = match info {
                        Some(info) => Message::Provisioned { info },
                        None => Message::NotProvisioned,
                    };
                    Step::Ask(UtilRequest::Say { message }, StatusCommand::Saying(info))
                },
                Err(e) => Step::Done(Err(e)),
            },
            StatusCommand::Saying(info) => Step::Done(Ok(info)),
        }
    }
}

/// The user that a command is about: the one that is named, or else the one who
/// runs it. `own` is the name of the latter, if it is known.
pub fn resolve_username(named: Option<String>, current_uid: u32, own: Option<String>) -> (r:
    PinResult<String>)
    ensures
        match r {
            Ok(name) => named == Some(name) || (named is None && own == Some(name)),
            Err(e) => named is None && own is None && e@ == PinError::<
                Seq<char>,
            >::GetUsernameForUidFailed(current_uid),
        },
{
    match named {
        Some(name) => Ok(name),
        None => match own {
            Some(name) => Ok(name),
            None => Err(PinError::GetUsernameForUidFailed(current_uid)),
        },
    }
}

/// Refuses everyone but root.
pub fn require_root(uid: u32) -> (r: PinResult<()>)
    ensures
        match r {
            Ok(()) => uid == 0,
            Err(e) => uid != 0 && e@ == PinError::<Seq<char>>::PermissionDenied,
        },
{
    if uid != 0 {
        return Err(PinError::PermissionDenied);
    }
    Ok(())
}

/// How the outcome of a command is reported.
#[derive(Debug, Clone, Copy, PartialEq, Eq, Structural)]
pub struct Report {
    /// Print the outcome as JSON on the standard output.
    pub json: bool,
    /// Print the error for the user on the standard error.
    pub error_text: bool,
    /// End the process with a failure.
    pub exit_failure: bool,
}

/// Decides how the outcome of a command is reported: a machine always gets the
/// outcome, a user only an error, and a failed command makes the process fail.
pub fn handle_result(failed: bool, machine: bool) -> (r: Report)
    ensures
        r.json == machine,
        r.error_text == (!machine && failed),
        r.exit_failure == failed,
{
    Report { json: machine, error_text: !machine && failed, exit_failure: failed }
}

} // verus!

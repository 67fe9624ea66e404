//! The conversations with the TPM, as specifications.
//!
//! Each function here is the whole conversation of one operation: what is asked
//! of the TPM, in which order, and what each possible reply leads to. The
//! operations of `pinmanager` perform them.
use crate::flow;
use crate::flow::Prog;
use crate::pinconstants::{
    MAX_AUTH_SIZE, PIN_VERSION_CURRENT, PIN_VERSION_TAG_SIZE, PIN_VERSION_UID_MAX,
};
use crate::pindata;
use crate::pindata::PinData;
use crate::pinerror::{DeleteResult, PinError, SetupError, VerificationResult};
use crate::pinindex;
use crate::text;
use crate::tpm;
use crate::tpm::{Answer, FailureKind, Request, TpmCommand};
use crate::util;
use vstd::prelude::*;

verus! {

/// A conversation with the TPM that ends in a result.
pub type Talk<T, E> = Prog<Request, Answer, Result<T, E>>;

pub type Failure = PinError<Seq<char>>;

/// The text of the failure to use an authorization value that is too long.
pub const WRONG_SIZE: &'static str = "parameter provided is of the wrong size";

pub const BAD_SLOT_SIZE: &'static str = "invalid PIN slot payload size: ";

pub const BAD_TAG_SIZE: &'static str = "invalid PIN version tag payload size: ";

pub const BAD_TAG: &'static str = "unsupported PIN version tag: ";

/// `text` followed by a number.
pub open spec fn numbered(text: Seq<char>, n: nat) -> Seq<char> {
    text + text::numeral(n)
}

/// A request of which only success or failure matters.
pub open spec fn done(a: Answer) -> Result<(), Failure> {
    match a {
        Ok(_) => Ok(()),
        Err(f) => Err(PinError::TpmError(f.text)),
    }
}

/// Opening the connection afresh.
pub open spec fn restart(tcti: Seq<char>) -> Talk<(), Failure> {
    Prog::Ask(TpmCommand::Restart { tcti }, |a: Answer| Prog::Return(done(a)))
}

/// What the owner's read of a slot says: its counters, or nothing if there is
/// no slot.
pub open spec fn slot_read(a: Answer) -> Result<Option<PinData>, Failure> {
    match a {
        Ok(b) => match pindata::decoded(b) {
            Some(d) => Ok(Some(d)),
            None => Err(PinError::TpmError(numbered(BAD_SLOT_SIZE@, b.len()))),
        },
        Err(f) => if f.kind.absent() {
            Ok(None)
        } else {
            Err(PinError::TpmError(f.text))
        },
    }
}

/// Reading a slot by the owner's authority.
pub open spec fn read_slot(index: u32) -> Talk<Option<PinData>, Failure> {
    Prog::Ask(TpmCommand::ReadOwner { index }, |a: Answer| Prog::Return(slot_read(a)))
}

/// `talk` about the slot of `uid`, if it can have one.
pub open spec fn with_uid<T>(uid: u32, talk: Talk<T, Failure>) -> Talk<T, Failure> {
    if uid > PIN_VERSION_UID_MAX {
        Prog::Return(Err(PinError::UidOverflow(uid)))
    } else {
        talk
    }
}

/// The counters of a user's slot.
pub open spec fn get_slot(uid: u32) -> Talk<Option<PinData>, Failure> {
    with_uid(uid, read_slot(pinindex::slot_index(uid)))
}

/// Whether a user's slot has run out of attempts.
pub open spec fn locked_out(uid: u32) -> Talk<bool, Failure> {
    flow::and_then(
        get_slot(uid),
        |s: Option<PinData>| Prog::Return(Ok(s matches Some(d) && d.exhausted())),
    )
}

/// The number of failed attempts on a user's slot.
pub open spec fn attempt_count(uid: u32) -> Talk<Option<u32>, Failure> {
    flow::and_then(
        get_slot(uid),
        |s: Option<PinData>|
            Prog::Return(
                Ok(
                    match s {
                        Some(d) => Some(d.pinCount as u32),
                        None => None,
                    },
                ),
            ),
    )
}

/// What the owner's read of a version tag says.
pub open spec fn tag_read(a: Answer) -> Result<Option<u8>, Failure> {
    match a {
        Ok(b) => if b.len() == PIN_VERSION_TAG_SIZE {
            Ok(Some(b[0]))
        } else {
            Err(PinError::TpmError(numbered(BAD_TAG_SIZE@, b.len())))
        },
        Err(f) => if f.kind.absent() {
            Ok(None)
        } else {
            Err(PinError::TpmError(f.text))
        },
    }
}

/// Reading a user's version tag.
pub open spec fn read_tag(uid: u32) -> Talk<Option<u8>, Failure> {
    with_uid(
        uid,
        Prog::Ask(
            TpmCommand::ReadOwner { index: pinindex::tag_index(uid) },
            |a: Answer| Prog::Return(tag_read(a)),
        ),
    )
}

/// Writing a version tag that is defined.
pub open spec fn put_tag(index: u32, version: u8) -> Talk<(), Failure> {
    Prog::Ask(
        TpmCommand::WriteOwner { index, data: seq![version], offset: 0 },
        |a: Answer| Prog::Return(done(a)),
    )
}

/// Defining a version tag.
pub open spec fn define_tag(index: u32) -> Talk<(), Failure> {
    Prog::Ask(
        TpmCommand::Define { template: tpm::tag_public(index), auth: None },
        |a: Answer| Prog::Return(done(a)),
    )
}

/// Writing a user's version tag, which is defined first if the write is
/// refused.
pub open spec fn write_tag(uid: u32, version: u8) -> Talk<(), Failure> {
    let index = pinindex::tag_index(uid);
    with_uid(
        uid,
        flow::bind(
            put_tag(index, version),
            |first: Result<(), Failure>| tag_put(index, version, first),
        ),
    )
}

/// What follows the first attempt to write a version tag.
pub open spec fn tag_put(index: u32, version: u8, first: Result<(), Failure>) -> Talk<
    (),
    Failure,
> {
    match first {
        Ok(()) => Prog::Return(Ok(())),
        Err(_) => flow::and_then(define_tag(index), |u: ()| put_tag(index, version)),
    }
}

/// What removing a version tag comes to: it is fine if there was none.
pub open spec fn tag_removed(a: Answer) -> Result<(), Failure> {
    match a {
        Ok(_) => Ok(()),
        Err(f) => if f.kind.absent() {
            Ok(())
        } else {
            Err(PinError::TpmError(f.text))
        },
    }
}

/// Removing a user's version tag.
pub open spec fn delete_tag(uid: u32) -> Talk<(), Failure> {
    with_uid(
        uid,
        Prog::Ask(
            TpmCommand::Undefine { index: pinindex::tag_index(uid) },
            |a: Answer| Prog::Return(tag_removed(a)),
        ),
    )
}

/// Removing a user's PIN by the owner's authority. That the version tag could
/// not be removed does not matter.
pub open spec fn delete_admin(uid: u32) -> Talk<(), Failure> {
    with_uid(
        uid,
        Prog::Ask(
            TpmCommand::Undefine { index: pinindex::slot_index(uid) },
            |a: Answer| slot_deleted(uid, a),
        ),
    )
}

/// What follows the removal of a slot.
pub open spec fn slot_deleted(uid: u32, a: Answer) -> Talk<(), Failure> {
    match a {
        Ok(_) => flow::bind(delete_tag(uid), |t: Result<(), Failure>| Prog::Return(Ok(()))),
        Err(f) => Prog::Return(
            Err(
                if f.kind.absent() {
                    PinError::NotProvisioned(uid)
                } else {
                    PinError::TpmError(f.text)
                },
            ),
        ),
    }
}

/// The counters of a slot that has just been set up.
pub open spec fn fresh(max_attempts: u32) -> PinData {
    PinData { pinCount: 0, pinLimit: max_attempts as i32 }
}

/// Defining a slot that the PIN authorizes to read and that can be written
/// once, and writing its first and only counters.
pub open spec fn define_slot(index: u32, pin: Seq<u8>, max_attempts: u32) -> Talk<(), Failure> {
    if pin.len() > MAX_AUTH_SIZE {
        Prog::Return(Err(PinError::TpmError(WRONG_SIZE@)))
    } else {
        Prog::Ask(
            TpmCommand::TrialDigest { terms: tpm::write_once() },
            |a: Answer|
                match a {
                    Ok(digest) => define_with_policy(index, pin, max_attempts, digest),
                    Err(f) => Prog::Return(Err(PinError::TpmError(f.text))),
                },
        )
    }
}

/// Defining a slot with the given policy digest, and writing its counters under
/// the terms of that policy.
pub open spec fn define_with_policy(
    index: u32,
    pin: Seq<u8>,
    max_attempts: u32,
    digest: Seq<u8>,
) -> Talk<(), Failure> {
    Prog::Ask(
        TpmCommand::Define { template: tpm::slot_public(index, digest), auth: Some(pin) },
        |a: Answer|
            match a {
                Ok(_) => write_counters(index, pin, max_attempts),
                Err(f) => Prog::Return(Err(PinError::TpmError(f.text))),
            },
    )
}

/// Writing the first counters of a slot.
pub open spec fn write_counters(index: u32, pin: Seq<u8>, max_attempts: u32) -> Talk<(), Failure> {
    Prog::Ask(
        TpmCommand::WritePolicy {
            index,
            terms: tpm::write_once(),
            auth: pin,
            data: pindata::encoded(fresh(max_attempts)),
            offset: 0,
        },
        |a: Answer| Prog::Return(done(a)),
    )
}

/// `talk`, as a part of setting a PIN up.
pub open spec fn within_setup<T>(talk: Talk<T, Failure>) -> Talk<T, SetupError<Seq<char>>> {
    flow::bind(
        talk,
        |r: Result<T, Failure>|
            Prog::Return(
                match r {
                    Ok(t) => Ok(t),
                    Err(e) => Err(SetupError::Pin(e)),
                },
            ),
    )
}

/// What is set up, and with whom it is spoken about.
pub struct Order {
    pub tcti: Seq<char>,
    pub uid: u32,
    /// The bytes of the PIN.
    pub pin: Seq<u8>,
    pub max_attempts: u32,
}

/// Setting up a PIN for a user, overwriting the slot that the user may have.
pub open spec fn setup(order: Order) -> Talk<(), SetupError<Seq<char>>> {
    if order.uid > PIN_VERSION_UID_MAX {
        Prog::Return(Err(SetupError::Pin(PinError::UidOverflow(order.uid))))
    } else {
        Prog::Ask(
            TpmCommand::ReadOwner { index: pinindex::slot_index(order.uid) },
            |a: Answer| setup_read(order, a),
        )
    }
}

/// What follows the look at the slot that is to be set up. Whatever it holds is
/// overwritten, and so is a slot that a setup which was cut short left without counters.
pub open spec fn setup_read(order: Order, a: Answer) -> Talk<(), SetupError<Seq<char>>> {
    match a {
        Ok(_) => overwrite(order),
        Err(f) => if f.kind == FailureKind::NvUninitialized {
            overwrite(order)
        } else if f.kind == FailureKind::Handle {
            setup_empty(order)
        } else {
            Prog::Return(Err(SetupError::Pin(PinError::TpmError(f.text))))
        },
    }
}

/// Removing the slot that is there, and setting the PIN up.
pub open spec fn overwrite(order: Order) -> Talk<(), SetupError<Seq<char>>> {
    flow::and_then(within_setup(delete_admin(order.uid)), |u: ()| setup_deleted(order))
}

/// What follows the removal of the slot that is overwritten.
pub open spec fn setup_deleted(order: Order) -> Talk<(), SetupError<Seq<char>>> {
    flow::and_then(within_setup(restart(order.tcti)), |u: ()| setup_empty(order))
}

/// Setting up a PIN for a user whose slot is known to be empty.
pub open spec fn setup_empty(order: Order) -> Talk<(), SetupError<Seq<char>>> {
    flow::and_then(
        within_setup(
            with_uid(
                order.uid,
                define_slot(pinindex::slot_index(order.uid), order.pin, order.max_attempts),
            ),
        ),
        |u: ()| setup_defined(order),
    )
}

/// What follows the definition of a slot.
pub open spec fn setup_defined(order: Order) -> Talk<(), SetupError<Seq<char>>> {
    flow::and_then(within_setup(restart(order.tcti)), |u: ()| setup_tag(order))
}

/// Marking a PIN that has been stored with the current version, or taking it
/// back.
pub open spec fn setup_tag(order: Order) -> Talk<(), SetupError<Seq<char>>> {
    flow::bind(
        write_tag(order.uid, PIN_VERSION_CURRENT),
        |t: Result<(), Failure>| setup_tagged(order, t),
    )
}

/// What follows the attempt to write the version tag of a new PIN.
pub open spec fn setup_tagged(order: Order, t: Result<(), Failure>) -> Talk<
    (),
    SetupError<Seq<char>>,
> {
    match t {
        Ok(()) => Prog::Return(Ok(())),
        Err(cause) => flow::and_then(
            within_setup(restart(order.tcti)),
            |u: ()| roll_back(order.uid, cause),
        ),
    }
}

/// Removing a PIN whose version tag could not be written.
pub open spec fn roll_back(uid: u32, cause: Failure) -> Talk<(), SetupError<Seq<char>>> {
    flow::bind(
        delete_admin(uid),
        |d: Result<(), Failure>| Prog::Return(Err(rolled_back(cause, d))),
    )
}

/// How a setup that was rolled back has failed.
pub open spec fn rolled_back(cause: Failure, d: Result<(), Failure>) -> SetupError<Seq<char>> {
    match d {
        Ok(()) => SetupError::TagNotWritten { cause },
        Err(rollback) => SetupError::RollbackFailed { cause, rollback },
    }
}

/// Presenting a byte string as the PIN of a user.
pub open spec fn verify_exact(uid: u32, pin: Seq<u8>) -> Talk<VerificationResult, Failure> {
    let index = pinindex::slot_index(uid);
    with_uid(
        uid,
        Prog::Ask(
            TpmCommand::Lookup { index },
            |a: Answer|
                match a {
                    Ok(_) => attempt(uid, index, pin),
                    Err(f) => Prog::Return(Err(PinError::TpmError(f.text))),
                },
        ),
    )
}

/// An attempt on a slot that is known to be there. The counters are read first: once
/// they have run out, the PIN is not even presented.
pub open spec fn attempt(uid: u32, index: u32, pin: Seq<u8>) -> Talk<VerificationResult, Failure> {
    flow::bind(
        read_slot(index),
        |s: Result<Option<PinData>, Failure>| attempt_read(uid, index, pin, s),
    )
}

/// What follows the look at the counters.
pub open spec fn attempt_read(
    uid: u32,
    index: u32,
    pin: Seq<u8>,
    s: Result<Option<PinData>, Failure>,
) -> Talk<VerificationResult, Failure> {
    if shows_lockout(s) {
        Prog::Return(Ok(VerificationResult::LockedOut))
    } else {
        present(uid, index, pin)
    }
}

/// Reading a slot that is not known to be locked by the authority of a PIN.
pub open spec fn present(uid: u32, index: u32, pin: Seq<u8>) -> Talk<VerificationResult, Failure> {
    if pin.len() > MAX_AUTH_SIZE {
        Prog::Return(Err(PinError::TpmError(WRONG_SIZE@)))
    } else {
        Prog::Ask(
            TpmCommand::ReadAuth { index, auth: pin, size: PinData::SIZE as u16, offset: 0 },
            |a: Answer| judged(uid, index, a),
        )
    }
}

/// What the TPM's answer to a PIN comes to. After a refusal the counters are
/// read to see whether that was the last attempt.
pub open spec fn judged(uid: u32, index: u32, a: Answer) -> Talk<VerificationResult, Failure> {
    match a {
        Ok(b) => Prog::Return(
            match pindata::decoded(b) {
                Some(d) => Ok(
                    if d.exhausted() {
                        VerificationResult::LockedOut
                    } else {
                        VerificationResult::Success(d)
                    },
                ),
                None => Err(PinError::TpmError(numbered(BAD_SLOT_SIZE@, b.len()))),
            },
        ),
        Err(f) => if f.kind.unauthorized() {
            flow::bind(
                read_slot(index),
                |s: Result<Option<PinData>, Failure>|
                    Prog::Return(Ok(VerificationResult::Invalid { locked: shows_lockout(s) })),
            )
        } else if f.kind.absent() {
            Prog::Return(Err(PinError::NotProvisioned(uid)))
        } else {
            Prog::Return(Err(PinError::TpmError(f.text)))
        },
    }
}

/// True if the counters could be read and have run out.
pub open spec fn shows_lockout(s: Result<Option<PinData>, Failure>) -> bool {
    match s {
        Ok(Some(d)) => d.exhausted(),
        _ => false,
    }
}

/// Giving a PIN that an early release stored its current form. `pin` is the PIN
/// as it was entered.
pub open spec fn migrate(order: Order, pin: Seq<char>) -> Talk<(), SetupError<Seq<char>>> {
    if util::legacy_form(pin) == pin {
        within_setup(write_tag(order.uid, PIN_VERSION_CURRENT))
    } else {
        flow::and_then(within_setup(delete_admin(order.uid)), |u: ()| migrate_deleted(order))
    }
}

/// What follows the removal of a PIN in its early form.
pub open spec fn migrate_deleted(order: Order) -> Talk<(), SetupError<Seq<char>>> {
    flow::and_then(within_setup(restart(order.tcti)), |u: ()| migrate_setup(order))
}

/// Setting a PIN up again in its current form.
pub open spec fn migrate_setup(order: Order) -> Talk<(), SetupError<Seq<char>>> {
    flow::and_then(setup(order), |u: ()| within_setup(restart(order.tcti)))
}

/// Verifying a PIN. A slot without a version tag was written by an early
/// release: the PIN is presented in its early form, and if it is right the slot
/// is brought up to date. That this failed does not matter.
pub open spec fn verify(order: Order, pin: Seq<char>) -> Talk<VerificationResult, Failure> {
    flow::and_then(
        read_tag(order.uid),
        |version: Option<u8>| verify_as(order, pin, version),
    )
}

/// What follows the reading of the version tag.
pub open spec fn verify_as(order: Order, pin: Seq<char>, version: Option<u8>) -> Talk<
    VerificationResult,
    Failure,
> {
    match version {
        Some(v) => if v == PIN_VERSION_CURRENT {
            verify_exact(order.uid, order.pin)
        } else {
            Prog::Return(Err(PinError::TpmError(numbered(BAD_TAG@, v as nat))))
        },
        None => flow::and_then(
            verify_exact(order.uid, vstd::utf8::encode_utf8(util::legacy_form(pin))),
            |v: VerificationResult| after_legacy(order, pin, v),
        ),
    }
}

/// What follows the verification of a PIN that an early release stored.
pub open spec fn after_legacy(
    order: Order,
    pin: Seq<char>,
    v: VerificationResult,
) -> Talk<VerificationResult, Failure> {
    match v {
        VerificationResult::Success(_) => flow::and_then(
            restart(order.tcti),
            |u: ()| bring_up_to_date(order, pin, v),
        ),
        _ => Prog::Return(Ok(v)),
    }
}

/// Bringing a slot up to date after its PIN was right.
pub open spec fn bring_up_to_date(
    order: Order,
    pin: Seq<char>,
    v: VerificationResult,
) -> Talk<VerificationResult, Failure> {
    flow::bind(
        migrate(order, pin),
        |m: Result<(), SetupError<Seq<char>>>| conclude(order.tcti, v),
    )
}

/// Opening the connection afresh and reporting the verification.
pub open spec fn conclude(tcti: Seq<char>, v: VerificationResult) -> Talk<
    VerificationResult,
    Failure,
> {
    flow::and_then(restart(tcti), |u: ()| Prog::Return(Ok(v)))
}

/// Removing a PIN by its own authority: it is verified first.
pub open spec fn delete_with_auth(order: Order, pin: Seq<char>) -> Talk<DeleteResult, Failure> {
    flow::and_then(
        verify(order, pin),
        |v: VerificationResult| delete_verified(order.uid, v),
    )
}

/// What follows the verification of a PIN that is to be removed.
pub open spec fn delete_verified(uid: u32, v: VerificationResult) -> Talk<DeleteResult, Failure> {
    match v {
        VerificationResult::Success(_) => flow::and_then(
            delete_admin(uid),
            |u: ()| Prog::Return(Ok(DeleteResult::Success)),
        ),
        VerificationResult::Invalid { locked } => Prog::Return(
            Ok(DeleteResult::Invalid { locked }),
        ),
        VerificationResult::LockedOut => Prog::Return(Ok(DeleteResult::LockedOut)),
    }
}

} // verus!

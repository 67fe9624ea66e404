//! The operations on PINs that live in the TPM.
//!
//! Every operation is a conversation (see `flow`) that performs a specification
//! of `protocol`. Its driver sends each `TpmCommand` to the TPM and hands the
//! reply back.
use crate::flow;
use crate::flow::{Paused, Prog, Step};
use crate::pin::Pin;
use crate::pinconstants::{MAX_AUTH_SIZE, PIN_VERSION_CURRENT, PIN_VERSION_TAG_SIZE};
use crate::pindata::PinData;
use crate::pinerror::{DeleteResult, PinError, PinResult, SetupError, VerificationResult};
use crate::pinindex::{nv_index_for_uid, version_nv_index_for_uid};
use crate::pinpolicy;
use crate::pinpolicy::PinPolicy;
use crate::protocol;
use crate::protocol::{Failure, Order, BAD_SLOT_SIZE, BAD_TAG, BAD_TAG_SIZE, WRONG_SIZE};
use crate::secret::KeyBytes;
use crate::text;
use crate::tpm;
use crate::tpm::{Answer, FailureKind, Reply, Request, TpmCommand};
use crate::util;
use vstd::prelude::*;

verus! {

/// `text` followed by a number, as the message of a TPM error.
fn numbered_error(message: &str, n: usize) -> (e: PinError)
    ensures
        e@ == PinError::TpmError(protocol::numbered(message@, n as nat)),
{
    PinError::TpmError(text::joined(message, text::numeral_text(n as u64).as_str()))
}

/// What a reply that carries no data comes to.
fn done(reply: Reply) -> (r: PinResult<()>)
    ensures
        crate::pinerror::outcome(r) == protocol::done(tpm::heard(reply)),
{
    match reply {
        Ok(_) => Ok(()),
        Err(f) => Err(PinError::TpmError(f.text)),
    }
}

/// The counters in a payload.
fn counters(payload: &Vec<u8>) -> (r: PinResult<PinData>)
    ensures
        match r {
            Ok(d) => crate::pindata::decoded(payload@) == Some(d),
            Err(e) => crate::pindata::decoded(payload@) is None && e@ == PinError::TpmError(
                protocol::numbered(BAD_SLOT_SIZE@, payload@.len()),
            ),
        },
{
    match PinData::from_bytes(payload.as_slice()) {
        Some(d) => Ok(d),
        None => Err(numbered_error(BAD_SLOT_SIZE, payload.len())),
    }
}

/// What the reply to the owner's read of a slot comes to.
fn slot_of(reply: Reply) -> (r: PinResult<Option<PinData>>)
    ensures
        crate::pinerror::outcome(r) == protocol::slot_read(tpm::heard(reply)),
{
    match reply {
        Ok(payload) => match counters(&payload) {
            Ok(d) => Ok(Some(d)),
            Err(e) => Err(e),
        },
        Err(f) => if f.kind.is_absent() {
            Ok(None)
        } else {
            Err(PinError::TpmError(f.text))
        },
    }
}

/// What the reply to the read of a version tag comes to.
fn tag_of(reply: Reply) -> (r: PinResult<Option<u8>>)
    ensures
        crate::pinerror::outcome(r) == protocol::tag_read(tpm::heard(reply)),
{
    match reply {
        Ok(payload) => if payload.len() == PIN_VERSION_TAG_SIZE {
            Ok(Some(payload[0]))
        } else {
            Err(numbered_error(BAD_TAG_SIZE, payload.len()))
        },
        Err(f) => if f.kind.is_absent() {
            Ok(None)
        } else {
            Err(PinError::TpmError(f.text))
        },
    }
}

/// What the reply to the removal of a version tag comes to.
fn tag_removed(reply: Reply) -> (r: PinResult<()>)
    ensures
        crate::pinerror::outcome(r) == protocol::tag_removed(tpm::heard(reply)),
{
    match reply {
        Ok(_) => Ok(()),
        Err(f) => if f.kind.is_absent() {
            Ok(())
        } else {
            Err(PinError::TpmError(f.text))
        },
    }
}

/// Opening the connection afresh.
pub struct Restarting;

impl Paused<Request, Answer, Result<(), Failure>> for Restarting {
    open spec fn after(self, a: Answer) -> Prog<Request, Answer, Result<(), Failure>> {
        Prog::Return(protocol::done(a))
    }
}

impl Restarting {
    pub fn resume(self, reply: Reply) -> (s: Step<TpmCommand, Restarting, PinResult<()>>)
        ensures
            flow::performs(s, self.after(tpm::heard(reply))),
    {
        Step::Done(done(reply))
    }
}

/// Reading a slot.
pub struct SlotRead;

impl Paused<Request, Answer, Result<Option<PinData>, Failure>> for SlotRead {
    open spec fn after(self, a: Answer) -> Prog<Request, Answer, Result<Option<PinData>, Failure>> {
        Prog::Return(protocol::slot_read(a))
    }
}

impl SlotRead {
    pub fn resume(self, reply: Reply) -> (s: Step<
        TpmCommand,
        SlotRead,
        PinResult<Option<PinData>>,
    >)
        ensures
            flow::performs(s, self.after(tpm::heard(reply))),
    {
        Step::Done(slot_of(reply))
    }
}

/// Reading a slot to see whether it is locked.
pub struct LockRead;

impl Paused<Request, Answer, Result<bool, Failure>> for LockRead {
    open spec fn after(self, a: Answer) -> Prog<Request, Answer, Result<bool, Failure>> {
        Prog::Return(
            match protocol::slot_read(a) {
                Ok(s) => Ok(s matches Some(d) && d.exhausted()),
                Err(e) => Err(e),
            },
        )
    }
}

impl LockRead {
    pub fn resume(self, reply: Reply) -> (s: Step<TpmCommand, LockRead, PinResult<bool>>)
        ensures
            flow::performs(s, self.after(tpm::heard(reply))),
    {
        match slot_of(reply) {
            Ok(Some(slot)) => Step::Done(Ok(slot.is_exhausted())),
            Ok(None) => Step::Done(Ok(false)),
            Err(e) => Step::Done(Err(e)),
        }
    }
}

/// Reading a slot for its count.
pub struct CountRead;

impl Paused<Request, Answer, Result<Option<u32>, Failure>> for CountRead {
    open spec fn after(self, a: Answer) -> Prog<Request, Answer, Result<Option<u32>, Failure>> {
        Prog::Return(
            match protocol::slot_read(a) {
                Ok(Some(d)) => Ok(Some(d.pinCount as u32)),
                Ok(None) => Ok(None),
                Err(e) => Err(e),
            },
        )
    }
}

impl CountRead {
    pub fn resume(self, reply: Reply) -> (s: Step<TpmCommand, CountRead, PinResult<Option<u32>>>)
        ensures
            flow::performs(s, self.after(tpm::heard(reply))),
    {
        match slot_of(reply) {
            Ok(Some(slot)) => Step::Done(Ok(Some(slot.pinCount as u32))),
            Ok(None) => Step::Done(Ok(None)),
            Err(e) => Step::Done(Err(e)),
        }
    }
}

/// Removing a version tag.
pub struct TagRemoval;

impl Paused<Request, Answer, Result<(), Failure>> for TagRemoval {
    open spec fn after(self, a: Answer) -> Prog<Request, Answer, Result<(), Failure>> {
        Prog::Return(protocol::tag_removed(a))
    }
}

impl TagRemoval {
    pub fn resume(self, reply: Reply) -> (s: Step<TpmCommand, TagRemoval, PinResult<()>>)
        ensures
            flow::performs(s, self.after(tpm::heard(reply))),
    {
        Step::Done(tag_removed(reply))
    }
}

/// Removes a user's version tag.
fn delete_tag(uid: u32) -> (s: Step<TpmCommand, TagRemoval, PinResult<()>>)
    ensures
        flow::performs(s, protocol::delete_tag(uid)),
{
    match version_nv_index_for_uid(uid) {
        Ok(index) => Step::Ask(TpmCommand::Undefine { index }, TagRemoval),
        Err(e) => Step::Done(Err(e)),
    }
}

/// Writing a version tag.
pub enum TagWrite {
    /// Writing to the tag as it is.
    First { index: u32, version: u8 },
    /// Defining the tag.
    Defining { index: u32, version: u8 },
    /// Writing to the tag that has just been defined.
    Second,
}

impl Paused<Request, Answer, Result<(), Failure>> for TagWrite {
    open spec fn after(self, a: Answer) -> Prog<Request, Answer, Result<(), Failure>> {
        match self {
            TagWrite::First { index, version } => protocol::tag_put(
                index,
                version,
                protocol::done(a),
            ),
            TagWrite::Defining { index, version } => match protocol::done(a) {
                Ok(()) => protocol::put_tag(index, version),
                Err(e) => Prog::Return(Err(e)),
            },
            TagWrite::Second => Prog::Return(protocol::done(a)),
        }
    }
}

fn one_byte(b: u8) -> (v: Vec<u8>)
    ensures
        v@ == seq![b],
{
    let mut v: Vec<u8> = Vec::new();
    v.push(b);
    assert(v@ =~= seq![b]);
    v
}

/// Writes a user's version tag.
fn write_tag(uid: u32, version: u8) -> (s: Step<TpmCommand, TagWrite, PinResult<()>>)
    ensures
        flow::performs(s, protocol::write_tag(uid, version)),
{
    proof {
        reveal_with_fuel(flow::bind, 2);
    }
    match version_nv_index_for_uid(uid) {
        Ok(index) => Step::Ask(
            TpmCommand::WriteOwner { index, data: one_byte(version), offset: 0 },
            TagWrite::First { index, version },
        ),
        Err(e) => Step::Done(Err(e)),
    }
}

impl TagWrite {
    pub fn resume(self, reply: Reply) -> (s: Step<TpmCommand, TagWrite, PinResult<()>>)
        ensures
            flow::performs(s, self.after(tpm::heard(reply))),
    {
        proof {
            reveal_with_fuel(flow::bind, 2);
        }
        match self {
            TagWrite::First { index, version } => match done(reply) {
                Ok(()) => Step::Done(Ok(())),
                Err(_) => Step::Ask(
                    TpmCommand::Define { template: tpm::tag_template(index), auth: None },
                    TagWrite::Defining { index, version },
                ),
            },
            TagWrite::Defining { index, version } => match done(reply) {
                Ok(()) => Step::Ask(
                    TpmCommand::WriteOwner { index, data: one_byte(version), offset: 0 },
                    TagWrite::Second,
                ),
                Err(e) => Step::Done(Err(e)),
            },
            TagWrite::Second => Step::Done(done(reply)),
        }
    }
}

/// Removing a PIN.
pub enum Deletion {
    /// Removing the slot.
    Slot { uid: u32 },
    /// Removing the version tag.
    Tag,
}

impl Paused<Request, Answer, Result<(), Failure>> for Deletion {
    open spec fn after(self, a: Answer) -> Prog<Request, Answer, Result<(), Failure>> {
        match self {
            Deletion::Slot { uid } => protocol::slot_deleted(uid, a),
            Deletion::Tag => Prog::Return(Ok(())),
        }
    }
}

/// Removes a user's PIN by the owner's authority.
fn delete_admin(uid: u32) -> (s: Step<TpmCommand, Deletion, PinResult<()>>)
    ensures
        flow::performs(s, protocol::delete_admin(uid)),
{
    match nv_index_for_uid(uid) {
        Ok(index) => Step::Ask(TpmCommand::Undefine { index }, Deletion::Slot { uid }),
        Err(e) => Step::Done(Err(e)),
    }
}

impl Deletion {
    pub fn resume(self, reply: Reply) -> (s: Step<TpmCommand, Deletion, PinResult<()>>)
        ensures
            flow::performs(s, self.after(tpm::heard(reply))),
    {
        proof {
            reveal_with_fuel(flow::bind, 2);
        }
        match self {
            Deletion::Slot { uid } => match reply {
                Ok(_) => match delete_tag(uid) {
                    Step::Ask(command, _) => Step::Ask(command, Deletion::Tag),
                    Step::Done(_) => Step::Done(Ok(())),
                },
                Err(f) => if f.kind.is_absent() {
                    Step::Done(Err(PinError::NotProvisioned(uid)))
                } else {
                    Step::Done(Err(PinError::TpmError(f.text)))
                },
            },
            Deletion::Tag => Step::Done(Ok(())),
        }
    }
}

/// Defining a slot.
pub enum SlotDefinition {
    /// Computing the digest of the write-once policy.
    Trial { index: u32, pin: KeyBytes, max_attempts: u32 },
    /// Defining the slot with that policy.
    Defining { index: u32, pin: KeyBytes, max_attempts: u32 },
    /// Writing the first counters.
    Writing,
}

impl Paused<Request, Answer, Result<(), Failure>> for SlotDefinition {
    open spec fn after(self, a: Answer) -> Prog<Request, Answer, Result<(), Failure>> {
        match self {
            SlotDefinition::Trial { index, pin, max_attempts } => match a {
                Ok(digest) => protocol::define_with_policy(index, pin@, max_attempts, digest),
                Err(f) => Prog::Return(Err(PinError::TpmError(f.text))),
            },
            SlotDefinition::Defining { index, pin, max_attempts } => match a {
                Ok(_) => protocol::write_counters(index, pin@, max_attempts),
                Err(f) => Prog::Return(Err(PinError::TpmError(f.text))),
            },
            SlotDefinition::Writing => Prog::Return(protocol::done(a)),
        }
    }
}

/// Defines the slot at `index`.
fn define_slot(index: u32, pin: &[u8], max_attempts: u32) -> (s: Step<
    TpmCommand,
    SlotDefinition,
    PinResult<()>,
>)
    ensures
        flow::performs(s, protocol::define_slot(index, pin@, max_attempts)),
{
    if pin.len() > MAX_AUTH_SIZE {
        return Step::Done(Err(PinError::TpmError(WRONG_SIZE.to_owned())));
    }
    Step::Ask(
        TpmCommand::TrialDigest { terms: tpm::write_once_terms() },
        SlotDefinition::Trial { index, pin: KeyBytes::copy_of(pin), max_attempts },
    )
}

impl SlotDefinition {
    pub fn resume(self, reply: Reply) -> (s: Step<TpmCommand, SlotDefinition, PinResult<()>>)
        ensures
            flow::performs(s, self.after(tpm::heard(reply))),
    {
        match self {
            SlotDefinition::Trial { index, pin, max_attempts } => match reply {
                Ok(digest) => {
                    let auth = KeyBytes::copy_of(pin.as_slice());
                    Step::Ask(
                        TpmCommand::Define {
                            template: tpm::slot_template(index, digest),
                            auth: Some(auth),
                        },
                        SlotDefinition::Defining { index, pin, max_attempts },
                    )
                },
                Err(f) => Step::Done(Err(PinError::TpmError(f.text))),
            },
            SlotDefinition::Defining { index, pin, max_attempts } => match reply {
                Ok(_) => {
                    let data = PinData::new(0, max_attempts as i32).to_bytes();
                    Step::Ask(
                        TpmCommand::WritePolicy {
                            index,
                            terms: tpm::write_once_terms(),
                            auth: pin,
                            data,
                            offset: 0,
                        },
                        SlotDefinition::Writing,
                    )
                },
                Err(f) => Step::Done(Err(PinError::TpmError(f.text))),
            },
            SlotDefinition::Writing => Step::Done(done(reply)),
        }
    }
}

/// A PIN that is to be set up or verified.
pub struct PinOrder {
    pub tcti: String,
    pub uid: u32,
    pub pin: Pin,
    pub max_attempts: u32,
}

impl View for PinOrder {
    type V = Order;

    open spec fn view(&self) -> Order {
        Order {
            tcti: self.tcti@,
            uid: self.uid,
            pin: vstd::utf8::encode_utf8(self.pin@),
            max_attempts: self.max_attempts,
        }
    }
}

/// Setting a PIN up.
pub enum Setup {
    /// Looking whether there is a slot already.
    Reading(PinOrder),
    /// Removing the slot that is overwritten.
    Deleting(Deletion, PinOrder),
    /// Opening the connection afresh after that.
    Reopening(PinOrder),
    /// Defining the slot.
    Defining(SlotDefinition, PinOrder),
    /// Opening the connection afresh.
    Restarting(PinOrder),
    /// Writing the version tag.
    Tagging(TagWrite, PinOrder),
    /// Opening the connection afresh because the tag could not be written.
    Retreating { uid: u32, cause: PinError },
    /// Removing the slot because the tag could not be written.
    RollingBack(Deletion, PinError),
}

impl Paused<Request, Answer, Result<(), SetupError<Seq<char>>>> for Setup {
    open spec fn after(self, a: Answer) -> Prog<Request, Answer, Result<(), SetupError<Seq<char>>>> {
        match self {
            Setup::Reading(order) => protocol::setup_read(order@, a),
            Setup::Deleting(deletion, order) => flow::and_then(
                protocol::within_setup(deletion.after(a)),
                |u: ()| protocol::setup_deleted(order@),
            ),
            Setup::Reopening(order) => match protocol::done(a) {
                Ok(()) => protocol::setup_empty(order@),
                Err(e) => Prog::Return(Err(SetupError::Pin(e))),
            },
            Setup::Defining(definition, order) => flow::and_then(
                protocol::within_setup(definition.after(a)),
                |u: ()| protocol::setup_defined(order@),
            ),
            Setup::Restarting(order) => match protocol::done(a) {
                Ok(()) => protocol::setup_tag(order@),
                Err(e) => Prog::Return(Err(SetupError::Pin(e))),
            },
            Setup::Tagging(write, order) => flow::bind(
                write.after(a),
                |t: Result<(), Failure>| protocol::setup_tagged(order@, t),
            ),
            Setup::Retreating { uid, cause } => match protocol::done(a) {
                Ok(()) => protocol::roll_back(uid, cause@),
                Err(e) => Prog::Return(Err(SetupError::Pin(e))),
            },
            Setup::RollingBack(deletion, cause) => flow::bind(
                deletion.after(a),
                |d: Result<(), Failure>| Prog::Return(Err(protocol::rolled_back(cause@, d))),
            ),
        }
    }
}

type SetupStep = Step<TpmCommand, Setup, Result<(), SetupError>>;

/// Sets a PIN up.
fn setup(order: PinOrder) -> (s: SetupStep)
    ensures
        flow::performs(s, protocol::setup(order@)),
{
    match nv_index_for_uid(order.uid) {
        Ok(index) => Step::Ask(TpmCommand::ReadOwner { index }, Setup::Reading(order)),
        Err(e) => Step::Done(Err(SetupError::Pin(e))),
    }
}

/// Goes on with the setup after a step of the removal of the slot that is
/// overwritten.
fn while_overwriting(
    step: Step<TpmCommand, Deletion, PinResult<()>>,
    order: PinOrder,
    Ghost(talk): Ghost<Prog<Request, Answer, Result<(), Failure>>>,
) -> (s: SetupStep)
    requires
        flow::performs(step, talk),
    ensures
        flow::performs(
            s,
            flow::and_then(
                protocol::within_setup(talk),
                |u: ()| protocol::setup_deleted(order@),
            ),
        ),
{
    proof {
        reveal_with_fuel(flow::bind, 3);
    }
    match step {
        Step::Ask(command, deletion) => Step::Ask(command, Setup::Deleting(deletion, order)),
        Step::Done(Ok(())) => {
            let tcti = order.tcti.clone();
            Step::Ask(TpmCommand::Restart { tcti }, Setup::Reopening(order))
        },
        Step::Done(Err(e)) => Step::Done(Err(SetupError::Pin(e))),
    }
}

/// Removes the slot that is there, and sets the PIN up.
fn overwrite(order: PinOrder) -> (s: SetupStep)
    ensures
        flow::performs(s, protocol::overwrite(order@)),
{
    let step = delete_admin(order.uid);
    while_overwriting(step, order, Ghost(protocol::delete_admin(order.uid)))
}

/// Sets a PIN up in an empty slot.
fn setup_empty(order: PinOrder) -> (s: SetupStep)
    ensures
        flow::performs(s, protocol::setup_empty(order@)),
{
    proof {
        reveal_with_fuel(flow::bind, 3);
    }
    match nv_index_for_uid(order.uid) {
        Ok(index) => {
            let step = define_slot(index, order.pin.as_bytes(), order.max_attempts);
            while_defining(
                step,
                order,
                Ghost(protocol::define_slot(index, order@.pin, order.max_attempts)),
            )
        },
        Err(e) => Step::Done(Err(SetupError::Pin(e))),
    }
}

/// Goes on with the setup after a step of the definition of the slot.
fn while_defining(
    step: Step<TpmCommand, SlotDefinition, PinResult<()>>,
    order: PinOrder,
    Ghost(talk): Ghost<Prog<Request, Answer, Result<(), Failure>>>,
) -> (s: SetupStep)
    requires
        flow::performs(step, talk),
    ensures
        flow::performs(
            s,
            flow::and_then(
                protocol::within_setup(talk),
                |u: ()| protocol::setup_defined(order@),
            ),
        ),
{
    proof {
        reveal_with_fuel(flow::bind, 3);
    }
    match step {
        Step::Ask(command, definition) => Step::Ask(command, Setup::Defining(definition, order)),
        Step::Done(Ok(())) => {
            let tcti = order.tcti.clone();
            Step::Ask(TpmCommand::Restart { tcti }, Setup::Restarting(order))
        },
        Step::Done(Err(e)) => Step::Done(Err(SetupError::Pin(e))),
    }
}

/// Goes on with the setup after a step of the writing of the tag.
fn while_tagging(
    step: Step<TpmCommand, TagWrite, PinResult<()>>,
    order: PinOrder,
    Ghost(talk): Ghost<Prog<Request, Answer, Result<(), Failure>>>,
) -> (s: SetupStep)
    requires
        flow::performs(step, talk),
    ensures
        flow::performs(
            s,
            flow::bind(talk, |t: Result<(), Failure>| protocol::setup_tagged(order@, t)),
        ),
{
    proof {
        reveal_with_fuel(flow::bind, 3);
    }
    match step {
        Step::Ask(command, write) => Step::Ask(command, Setup::Tagging(write, order)),
        Step::Done(Ok(())) => Step::Done(Ok(())),
        Step::Done(Err(cause)) => Step::Ask(
            TpmCommand::Restart { tcti: order.tcti },
            Setup::Retreating { uid: order.uid, cause },
        ),
    }
}

/// Goes on with the setup after a step of the removal of the slot.
fn while_rolling_back(
    step: Step<TpmCommand, Deletion, PinResult<()>>,
    cause: PinError,
    Ghost(talk): Ghost<Prog<Request, Answer, Result<(), Failure>>>,
) -> (s: SetupStep)
    requires
        flow::performs(step, talk),
    ensures
        flow::performs(
            s,
            flow::bind(
                talk,
                |d: Result<(), Failure>| Prog::Return(Err(protocol::rolled_back(cause@, d))),
            ),
        ),
{
    proof {
        reveal_with_fuel(flow::bind, 2);
    }
    match step {
        Step::Ask(command, deletion) => Step::Ask(command, Setup::RollingBack(deletion, cause)),
        Step::Done(Ok(())) => Step::Done(Err(SetupError::TagNotWritten { cause })),
        Step::Done(Err(rollback)) => Step::Done(
            Err(SetupError::RollbackFailed { cause, rollback }),
        ),
    }
}

impl Setup {
    pub fn resume(self, reply: Reply) -> (s: Step<TpmCommand, Setup, Result<(), SetupError>>)
        ensures
            flow::performs(s, self.after(tpm::heard(reply))),
    {
        proof {
            reveal_with_fuel(flow::bind, 3);
        }
        let ghost a = tpm::heard(reply);
        match self {
            Setup::Reading(order) => match reply {
                Ok(_) => overwrite(order),
                Err(f) => if f.kind == FailureKind::NvUninitialized {
                    overwrite(order)
                } else if f.kind == FailureKind::Handle {
                    setup_empty(order)
                } else {
                    Step::Done(Err(SetupError::Pin(PinError::TpmError(f.text))))
                },
            },
            Setup::Deleting(deletion, order) => {
                let ghost talk = deletion.after(a);
                while_overwriting(deletion.resume(reply), order, Ghost(talk))
            },
            Setup::Reopening(order) => match done(reply) {
                Ok(()) => setup_empty(order),
                Err(e) => Step::Done(Err(SetupError::Pin(e))),
            },
            Setup::Defining(definition, order) => {
                let ghost talk = definition.after(a);
                while_defining(definition.resume(reply), order, Ghost(talk))
            },
            Setup::Restarting(order) => match done(reply) {
                Ok(()) => {
                    let step = write_tag(order.uid, PIN_VERSION_CURRENT);
                    while_tagging(
                        step,
                        order,
                        Ghost(protocol::write_tag(order.uid, PIN_VERSION_CURRENT)),
                    )
                },
                Err(e) => Step::Done(Err(SetupError::Pin(e))),
            },
            Setup::Tagging(write, order) => {
                let ghost talk = write.after(a);
                while_tagging(write.resume(reply), order, Ghost(talk))
            },
            Setup::Retreating { uid, cause } => match done(reply) {
                Ok(()) => while_rolling_back(
                    delete_admin(uid),
                    cause,
                    Ghost(protocol::delete_admin(uid)),
                ),
                Err(e) => Step::Done(Err(SetupError::Pin(e))),
            },
            Setup::RollingBack(deletion, cause) => {
                let ghost talk = deletion.after(a);
                while_rolling_back(deletion.resume(reply), cause, Ghost(talk))
            },
        }
    }
}

/// Presenting a PIN.
pub enum Presentation {
    /// Finding the slot.
    Looking { uid: u32, index: u32, pin: KeyBytes },
    /// Reading the counters to see whether there are attempts left.
    Counting { uid: u32, index: u32, pin: KeyBytes },
    /// Reading the slot by the authority of the PIN.
    Presenting { uid: u32, index: u32 },
    /// Reading the counters after a refusal.
    Recounting,
}

impl Paused<Request, Answer, Result<VerificationResult, Failure>> for Presentation {
    open spec fn after(self, a: Answer) -> Prog<
        Request,
        Answer,
        Result<VerificationResult, Failure>,
    > {
        match self {
            Presentation::Looking { uid, index, pin } => match a {
                Ok(_) => protocol::attempt(uid, index, pin@),
                Err(f) => Prog::Return(Err(PinError::TpmError(f.text))),
            },
            Presentation::Counting { uid, index, pin } => protocol::attempt_read(
                uid,
                index,
                pin@,
                protocol::slot_read(a),
            ),
            Presentation::Presenting { uid, index } => protocol::judged(uid, index, a),
            Presentation::Recounting => Prog::Return(
                Ok(
                    VerificationResult::Invalid {
                        locked: protocol::shows_lockout(protocol::slot_read(a)),
                    },
                ),
            ),
        }
    }
}

type VerifyStep<F> = Step<TpmCommand, F, PinResult<VerificationResult>>;

/// Decides whether the reply to the owner's read of a slot shows that the counters
/// have run out.
fn reports_lockout(reply: Reply) -> (b: bool)
    ensures
        b == protocol::shows_lockout(protocol::slot_read(tpm::heard(reply))),
{
    match slot_of(reply) {
        Ok(Some(slot)) => slot.is_exhausted(),
        _ => false,
    }
}

/// Presents a byte string as the PIN of a user.
fn verify_exact(uid: u32, pin: KeyBytes) -> (s: VerifyStep<Presentation>)
    ensures
        flow::performs(s, protocol::verify_exact(uid, pin@)),
{
    match nv_index_for_uid(uid) {
        Ok(index) => Step::Ask(
            TpmCommand::Lookup { index },
            Presentation::Looking { uid, index, pin },
        ),
        Err(e) => Step::Done(Err(e)),
    }
}

impl Presentation {
    pub fn resume(self, reply: Reply) -> (s: Step<
        TpmCommand,
        Presentation,
        PinResult<VerificationResult>,
    >)
        ensures
            flow::performs(s, self.after(tpm::heard(reply))),
    {
        proof {
            reveal_with_fuel(flow::bind, 2);
        }
        match self {
            Presentation::Looking { uid, index, pin } => match reply {
                Ok(_) => Step::Ask(
                    TpmCommand::ReadOwner { index },
                    Presentation::Counting { uid, index, pin },
                ),
                Err(f) => Step::Done(Err(PinError::TpmError(f.text))),
            },
            Presentation::Counting { uid, index, pin } => if reports_lockout(reply) {
                Step::Done(Ok(VerificationResult::LockedOut))
            } else if pin.as_slice().len() > MAX_AUTH_SIZE {
                Step::Done(Err(PinError::TpmError(WRONG_SIZE.to_owned())))
            } else {
                Step::Ask(
                    TpmCommand::ReadAuth {
                        index,
                        auth: pin,
                        size: PinData::SIZE as u16,
                        offset: 0,
                    },
                    Presentation::Presenting { uid, index },
                )
            },
            Presentation::Presenting { uid, index } => match reply {
                Ok(payload) => match counters(&payload) {
                    Ok(slot) => if slot.is_exhausted() {
                        Step::Done(Ok(VerificationResult::LockedOut))
                    } else {
                        Step::Done(Ok(VerificationResult::Success(slot)))
                    },
                    Err(e) => Step::Done(Err(e)),
                },
                Err(f) => if f.kind.is_unauthorized() {
                    Step::Ask(TpmCommand::ReadOwner { index }, Presentation::Recounting)
                } else if f.kind.is_absent() {
                    Step::Done(Err(PinError::NotProvisioned(uid)))
                } else {
                    Step::Done(Err(PinError::TpmError(f.text)))
                },
            },
            Presentation::Recounting => Step::Done(
                Ok(VerificationResult::Invalid { locked: reports_lockout(reply) }),
            ),
        }
    }
}

/// Giving a PIN that an early release stored its current form.
pub enum Migration {
    /// Marking a PIN that has the same form now.
    Tagging(TagWrite),
    /// Removing the early form.
    Deleting(Deletion, PinOrder),
    /// Opening the connection afresh.
    Restarting(PinOrder),
    /// Setting the PIN up again.
    SettingUp(Setup, String),
    /// Opening the connection afresh at the end.
    Finishing,
}

impl Paused<Request, Answer, Result<(), SetupError<Seq<char>>>> for Migration {
    open spec fn after(self, a: Answer) -> Prog<Request, Answer, Result<(), SetupError<Seq<char>>>> {
        match self {
            Migration::Tagging(write) => protocol::within_setup(write.after(a)),
            Migration::Deleting(deletion, order) => flow::and_then(
                protocol::within_setup(deletion.after(a)),
                |u: ()| protocol::migrate_deleted(order@),
            ),
            Migration::Restarting(order) => match protocol::done(a) {
                Ok(()) => protocol::migrate_setup(order@),
                Err(e) => Prog::Return(Err(SetupError::Pin(e))),
            },
            Migration::SettingUp(setup, tcti) => flow::and_then(
                setup.after(a),
                |u: ()| protocol::within_setup(protocol::restart(tcti@)),
            ),
            Migration::Finishing => Prog::Return(
                match protocol::done(a) {
                    Ok(()) => Ok(()),
                    Err(e) => Err(SetupError::Pin(e)),
                },
            ),
        }
    }
}

type MigrationStep = Step<TpmCommand, Migration, Result<(), SetupError>>;

/// Gives a PIN that an early release stored its current form.
fn migrate(order: PinOrder) -> (s: MigrationStep)
    ensures
        flow::performs(s, protocol::migrate(order@, order.pin@)),
{
    proof {
        reveal_with_fuel(flow::bind, 2);
    }
    let legacy = util::normalize_legacy_pin(order.pin.as_str());
    if text::same_text(legacy.as_str(), order.pin.as_str()) {
        let step = write_tag(order.uid, PIN_VERSION_CURRENT);
        while_migrating_tag(step, Ghost(protocol::write_tag(order.uid, PIN_VERSION_CURRENT)))
    } else {
        let step = delete_admin(order.uid);
        while_deleting(step, order, Ghost(protocol::delete_admin(order.uid)))
    }
}

/// Goes on with the migration after a step of the writing of the tag.
fn while_migrating_tag(
    step: Step<TpmCommand, TagWrite, PinResult<()>>,
    Ghost(talk): Ghost<Prog<Request, Answer, Result<(), Failure>>>,
) -> (s: MigrationStep)
    requires
        flow::performs(step, talk),
    ensures
        flow::performs(s, protocol::within_setup(talk)),
{
    proof {
        reveal_with_fuel(flow::bind, 2);
    }
    match step {
        Step::Ask(command, write) => Step::Ask(command, Migration::Tagging(write)),
        Step::Done(Ok(())) => Step::Done(Ok(())),
        Step::Done(Err(e)) => Step::Done(Err(SetupError::Pin(e))),
    }
}

/// Goes on with the migration after a step of the removal of the early form.
fn while_deleting(
    step: Step<TpmCommand, Deletion, PinResult<()>>,
    order: PinOrder,
    Ghost(talk): Ghost<Prog<Request, Answer, Result<(), Failure>>>,
) -> (s: MigrationStep)
    requires
        flow::performs(step, talk),
    ensures
        flow::performs(
            s,
            flow::and_then(
                protocol::within_setup(talk),
                |u: ()| protocol::migrate_deleted(order@),
            ),
        ),
{
    proof {
        reveal_with_fuel(flow::bind, 3);
    }
    match step {
        Step::Ask(command, deletion) => Step::Ask(command, Migration::Deleting(deletion, order)),
        Step::Done(Ok(())) => {
            let tcti = order.tcti.clone();
            Step::Ask(TpmCommand::Restart { tcti }, Migration::Restarting(order))
        },
        Step::Done(Err(e)) => Step::Done(Err(SetupError::Pin(e))),
    }
}

/// Goes on with the migration after a step of the setup.
fn while_setting_up(
    step: SetupStep,
    tcti: String,
    Ghost(talk): Ghost<Prog<Request, Answer, Result<(), SetupError<Seq<char>>>>>,
) -> (s: MigrationStep)
    requires
        flow::performs(step, talk),
    ensures
        flow::performs(
            s,
            flow::and_then(talk, |u: ()| protocol::within_setup(protocol::restart(tcti@))),
        ),
{
    proof {
        reveal_with_fuel(flow::bind, 3);
    }
    match step {
        Step::Ask(command, setup) => Step::Ask(command, Migration::SettingUp(setup, tcti)),
        Step::Done(Ok(())) => Step::Ask(TpmCommand::Restart { tcti }, Migration::Finishing),
        Step::Done(Err(e)) => Step::Done(Err(e)),
    }
}

impl Migration {
    pub fn resume(self, reply: Reply) -> (s: Step<TpmCommand, Migration, Result<(), SetupError>>)
        ensures
            flow::performs(s, self.after(tpm::heard(reply))),
    {
        let ghost a = tpm::heard(reply);
        match self {
            Migration::Tagging(write) => {
                let ghost talk = write.after(a);
                while_migrating_tag(write.resume(reply), Ghost(talk))
            },
            Migration::Deleting(deletion, order) => {
                let ghost talk = deletion.after(a);
                while_deleting(deletion.resume(reply), order, Ghost(talk))
            },
            Migration::Restarting(order) => match done(reply) {
                Ok(()) => {
                    let tcti = order.tcti.clone();
                    let ghost talk = protocol::setup(order@);
                    while_setting_up(setup(order), tcti, Ghost(talk))
                },
                Err(e) => Step::Done(Err(SetupError::Pin(e))),
            },
            Migration::SettingUp(setup, tcti) => {
                let ghost talk = setup.after(a);
                while_setting_up(setup.resume(reply), tcti, Ghost(talk))
            },
            Migration::Finishing => match done(reply) {
                Ok(()) => Step::Done(Ok(())),
                Err(e) => Step::Done(Err(SetupError::Pin(e))),
            },
        }
    }
}

/// Verifying a PIN.
pub enum Verification {
    /// Reading the version tag.
    ReadingTag(PinOrder),
    /// Presenting the PIN in its current form.
    Current(Presentation),
    /// Presenting the PIN in its early form.
    Legacy(Presentation, PinOrder),
    /// Opening the connection afresh after a success with the early form.
    Restarting(PinOrder, VerificationResult),
    /// Bringing the slot up to date.
    Migrating(Migration, String, VerificationResult),
    /// Opening the connection afresh at the end.
    Concluding(VerificationResult),
}

impl Paused<Request, Answer, Result<VerificationResult, Failure>> for Verification {
    open spec fn after(self, a: Answer) -> Prog<
        Request,
        Answer,
        Result<VerificationResult, Failure>,
    > {
        match self {
            Verification::ReadingTag(order) => match protocol::tag_read(a) {
                Ok(version) => protocol::verify_as(order@, order.pin@, version),
                Err(e) => Prog::Return(Err(e)),
            },
            Verification::Current(presentation) => presentation.after(a),
            Verification::Legacy(presentation, order) => flow::and_then(
                presentation.after(a),
                |v: VerificationResult| protocol::after_legacy(order@, order.pin@, v),
            ),
            Verification::Restarting(order, v) => match protocol::done(a) {
                Ok(()) => protocol::bring_up_to_date(order@, order.pin@, v),
                Err(e) => Prog::Return(Err(e)),
            },
            Verification::Migrating(migration, tcti, v) => flow::bind(
                migration.after(a),
                |m: Result<(), SetupError<Seq<char>>>| protocol::conclude(tcti@, v),
            ),
            Verification::Concluding(v) => Prog::Return(
                match protocol::done(a) {
                    Ok(()) => Ok(v),
                    Err(e) => Err(e),
                },
            ),
        }
    }
}

/// Verifies a PIN.
fn verify(order: PinOrder) -> (s: VerifyStep<Verification>)
    ensures
        flow::performs(s, protocol::verify(order@, order.pin@)),
{
    proof {
        reveal_with_fuel(flow::bind, 2);
    }
    match version_nv_index_for_uid(order.uid) {
        Ok(index) => Step::Ask(
            TpmCommand::ReadOwner { index },
            Verification::ReadingTag(order),
        ),
        Err(e) => Step::Done(Err(e)),
    }
}

/// Goes on with the verification after a step of the presentation of the early
/// form.
fn while_presenting_legacy(
    step: VerifyStep<Presentation>,
    order: PinOrder,
    Ghost(talk): Ghost<Prog<Request, Answer, Result<VerificationResult, Failure>>>,
) -> (s: VerifyStep<Verification>)
    requires
        flow::performs(step, talk),
    ensures
        flow::performs(
            s,
            flow::and_then(
                talk,
                |v: VerificationResult| protocol::after_legacy(order@, order.pin@, v),
            ),
        ),
{
    proof {
        reveal_with_fuel(flow::bind, 3);
    }
    match step {
        Step::Ask(command, presentation) => Step::Ask(
            command,
            Verification::Legacy(presentation, order),
        ),
        Step::Done(Ok(v)) => match v {
            VerificationResult::Success(_) => {
                let tcti = order.tcti.clone();
                Step::Ask(
                    TpmCommand::Restart { tcti },
                    Verification::Restarting(order, v),
                )
            },
            _ => Step::Done(Ok(v)),
        },
        Step::Done(Err(e)) => Step::Done(Err(e)),
    }
}

/// Goes on with the verification after a step of the migration.
fn while_migrating(
    step: MigrationStep,
    tcti: String,
    v: VerificationResult,
    Ghost(talk): Ghost<Prog<Request, Answer, Result<(), SetupError<Seq<char>>>>>,
) -> (s: VerifyStep<Verification>)
    requires
        flow::performs(step, talk),
    ensures
        flow::performs(
            s,
            flow::bind(
                talk,
                |m: Result<(), SetupError<Seq<char>>>| protocol::conclude(tcti@, v),
            ),
        ),
{
    proof {
        reveal_with_fuel(flow::bind, 3);
    }
    match step {
        Step::Ask(command, migration) => Step::Ask(
            command,
            Verification::Migrating(migration, tcti, v),
        ),
        Step::Done(_) => Step::Ask(TpmCommand::Restart { tcti }, Verification::Concluding(v)),
    }
}

impl Verification {
    pub fn resume(self, reply: Reply) -> (s: Step<
        TpmCommand,
        Verification,
        PinResult<VerificationResult>,
    >)
        ensures
            flow::performs(s, self.after(tpm::heard(reply))),
    {
        let ghost a = tpm::heard(reply);
        match self {
            Verification::ReadingTag(order) => match tag_of(reply) {
                Ok(Some(version)) => if version == PIN_VERSION_CURRENT {
                    match verify_exact(order.uid, KeyBytes::copy_of(order.pin.as_bytes())) {
                        Step::Ask(command, presentation) => Step::Ask(
                            command,
                            Verification::Current(presentation),
                        ),
                        Step::Done(r) => Step::Done(r),
                    }
                } else {
                    Step::Done(Err(numbered_error(BAD_TAG, version as usize)))
                },
                Ok(None) => {
                    let legacy = util::normalize_legacy_pin(order.pin.as_str());
                    let bytes = KeyBytes::copy_of(legacy.as_str().as_bytes());
                    let ghost talk = protocol::verify_exact(order.uid, bytes@);
                    while_presenting_legacy(
                        verify_exact(order.uid, bytes),
                        order,
                        Ghost(talk),
                    )
                },
                Err(e) => Step::Done(Err(e)),
            },
            Verification::Current(presentation) => match presentation.resume(reply) {
                Step::Ask(command, presentation) => Step::Ask(
                    command,
                    Verification::Current(presentation),
                ),
                Step::Done(r) => Step::Done(r),
            },
            Verification::Legacy(presentation, order) => {
                let ghost talk = presentation.after(a);
                while_presenting_legacy(presentation.resume(reply), order, Ghost(talk))
            },
            Verification::Restarting(order, v) => match done(reply) {
                Ok(()) => {
                    let tcti = order.tcti.clone();
                    let ghost talk = protocol::migrate(order@, order.pin@);
                    while_migrating(migrate(order), tcti, v, Ghost(talk))
                },
                Err(e) => Step::Done(Err(e)),
            },
            Verification::Migrating(migration, tcti, v) => {
                let ghost talk = migration.after(a);
                while_migrating(migration.resume(reply), tcti, v, Ghost(talk))
            },
            Verification::Concluding(v) => match done(reply) {
                Ok(()) => Step::Done(Ok(v)),
                Err(e) => Step::Done(Err(e)),
            },
        }
    }
}

/// Removing a PIN by its own authority.
pub enum AuthorizedDeletion {
    /// Verifying the PIN.
    Verifying(Verification, u32),
    /// Removing it.
    Deleting(Deletion),
}

impl Paused<Request, Answer, Result<DeleteResult, Failure>> for AuthorizedDeletion {
    open spec fn after(self, a: Answer) -> Prog<Request, Answer, Result<DeleteResult, Failure>> {
        match self {
            AuthorizedDeletion::Verifying(verification, uid) => flow::and_then(
                verification.after(a),
                |v: VerificationResult| protocol::delete_verified(uid, v),
            ),
            AuthorizedDeletion::Deleting(deletion) => flow::and_then(
                deletion.after(a),
                |u: ()| Prog::Return(Ok(DeleteResult::Success)),
            ),
        }
    }
}

type DeletionStep = Step<TpmCommand, AuthorizedDeletion, PinResult<DeleteResult>>;

/// Goes on with the removal after a step of the verification.
fn while_verifying(
    step: VerifyStep<Verification>,
    uid: u32,
    Ghost(talk): Ghost<Prog<Request, Answer, Result<VerificationResult, Failure>>>,
) -> (s: DeletionStep)
    requires
        flow::performs(step, talk),
    ensures
        flow::performs(
            s,
            flow::and_then(talk, |v: VerificationResult| protocol::delete_verified(uid, v)),
        ),
{
    proof {
        reveal_with_fuel(flow::bind, 2);
    }
    match step {
        Step::Ask(command, verification) => Step::Ask(
            command,
            AuthorizedDeletion::Verifying(verification, uid),
        ),
        Step::Done(Ok(v)) => match v {
            VerificationResult::Success(_) => while_removing(
                delete_admin(uid),
                Ghost(protocol::delete_admin(uid)),
            ),
            VerificationResult::Invalid { locked } => Step::Done(
                Ok(DeleteResult::Invalid { locked }),
            ),
            VerificationResult::LockedOut => Step::Done(Ok(DeleteResult::LockedOut)),
        },
        Step::Done(Err(e)) => Step::Done(Err(e)),
    }
}

/// Goes on with the removal after a step of the removal proper.
fn while_removing(
    step: Step<TpmCommand, Deletion, PinResult<()>>,
    Ghost(talk): Ghost<Prog<Request, Answer, Result<(), Failure>>>,
) -> (s: DeletionStep)
    requires
        flow::performs(step, talk),
    ensures
        flow::performs(
            s,
            flow::and_then(talk, |u: ()| Prog::Return(Ok(DeleteResult::Success))),
        ),
{
    proof {
        reveal_with_fuel(flow::bind, 2);
    }
    match step {
        Step::Ask(command, deletion) => Step::Ask(
            command,
            AuthorizedDeletion::Deleting(deletion),
        ),
        Step::Done(Ok(())) => Step::Done(Ok(DeleteResult::Success)),
        Step::Done(Err(e)) => Step::Done(Err(e)),
    }
}

impl AuthorizedDeletion {
    pub fn resume(self, reply: Reply) -> (s: Step<
        TpmCommand,
        AuthorizedDeletion,
        PinResult<DeleteResult>,
    >)
        ensures
            flow::performs(s, self.after(tpm::heard(reply))),
    {
        let ghost a = tpm::heard(reply);
        match self {
            AuthorizedDeletion::Verifying(verification, uid) => {
                let ghost talk = verification.after(a);
                while_verifying(verification.resume(reply), uid, Ghost(talk))
            },
            AuthorizedDeletion::Deleting(deletion) => {
                let ghost talk = deletion.after(a);
                while_removing(deletion.resume(reply), Ghost(talk))
            },
        }
    }
}

/// Provisions, verifies and removes PINs under a policy, on the TPM behind a
/// backend.
pub struct PinManager {
    policy: PinPolicy,
    tcti_spec: String,
}

/// A manager as the specifications speak of it.
pub struct Management {
    pub policy: PinPolicy<Seq<char>>,
    pub tcti: Seq<char>,
}

impl View for PinManager {
    type V = Management;

    closed spec fn view(&self) -> Management {
        Management { policy: self.policy@, tcti: self.tcti_spec@ }
    }
}

impl Management {
    /// What is to be done with a PIN for a user.
    pub open spec fn order(self, uid: u32, pin: Seq<char>) -> Order {
        Order {
            tcti: self.tcti,
            uid,
            pin: vstd::utf8::encode_utf8(pin),
            max_attempts: self.policy.max_attempts,
        }
    }
}

impl PinManager {
    /// A manager for the backend that is configured in the policy (defaulting to
    /// the kernel resource manager). It has no connection yet: `restart_context`
    /// opens it.
    pub fn new(policy: PinPolicy) -> (m: PinManager)
        ensures
            m@ == (Management { policy: policy@, tcti: pinpolicy::backend(policy@) }),
    {
        let tcti_spec = policy.tcti_spec().to_owned();
        PinManager { policy, tcti_spec }
    }

    /// A manager for an explicit backend. Intended for tests and tooling that
    /// need to drive a simulator independently of the installed policy. It has
    /// no connection yet: `restart_context` opens it.
    pub fn with_tcti(policy: PinPolicy, tcti_spec: String) -> (m: PinManager)
        ensures
            m@ == (Management { policy: policy@, tcti: tcti_spec@ }),
    {
        PinManager { policy, tcti_spec }
    }

    fn order(&self, uid: u32, pin: &Pin) -> (order: PinOrder)
        ensures
            order@ == self@.order(uid, pin@),
            order.pin@ == pin@,
    {
        PinOrder {
            tcti: self.tcti_spec.clone(),
            uid,
            pin: pin.duplicate(),
            max_attempts: self.policy.max_attempts,
        }
    }

    /// Opens the connection to the TPM, closing any earlier one.
    pub fn restart_context(&self) -> (s: Step<TpmCommand, Restarting, PinResult<()>>)
        ensures
            flow::performs(s, protocol::restart(self@.tcti)),
    {
        Step::Ask(TpmCommand::Restart { tcti: self.tcti_spec.clone() }, Restarting)
    }

    /// Provisions a new PIN for a user, overwriting anything that might exist.
    pub fn setup_pin(&self, uid: u32, pin: &Pin) -> (s: Step<
        TpmCommand,
        Setup,
        Result<(), SetupError>,
    >)
        ensures
            flow::performs(s, protocol::setup(self@.order(uid, pin@))),
    {
        setup(self.order(uid, pin))
    }

    /// Deletes the stored PIN of a user, requiring PIN authentication. This
    /// allows a user to delete their own PIN by providing the correct PIN.
    pub fn delete_pin_with_auth(&self, uid: u32, pin: &Pin) -> (s: Step<
        TpmCommand,
        AuthorizedDeletion,
        PinResult<DeleteResult>,
    >)
        ensures
            flow::performs(s, protocol::delete_with_auth(self@.order(uid, pin@), pin@)),
    {
        let order = self.order(uid, pin);
        let ghost talk = protocol::verify(order@, pin@);
        while_verifying(verify(order), uid, Ghost(talk))
    }

    /// Deletes the stored PIN of a user with administrative privileges (no PIN
    /// required). This is intended for use by root or system administrators.
    pub fn delete_pin_admin(&self, uid: u32) -> (s: Step<TpmCommand, Deletion, PinResult<()>>)
        ensures
            flow::performs(s, protocol::delete_admin(uid)),
    {
        delete_admin(uid)
    }

    /// Validates a user-supplied PIN against the sealed TPM value.
    pub fn verify_pin(&self, uid: u32, pin: &Pin) -> (s: Step<
        TpmCommand,
        Verification,
        PinResult<VerificationResult>,
    >)
        ensures
            flow::performs(s, protocol::verify(self@.order(uid, pin@), pin@)),
    {
        verify(self.order(uid, pin))
    }

    /// Reports whether a user is currently locked out.
    pub fn is_locked_out(&self, uid: u32) -> (s: Step<TpmCommand, LockRead, PinResult<bool>>)
        ensures
            flow::performs(s, protocol::locked_out(uid)),
    {
        proof {
            reveal_with_fuel(flow::bind, 2);
        }
        match nv_index_for_uid(uid) {
            Ok(index) => Step::Ask(TpmCommand::ReadOwner { index }, LockRead),
            Err(e) => Step::Done(Err(e)),
        }
    }

    /// Returns the failed-attempt counter of a user.
    pub fn get_attempt_count(&self, uid: u32) -> (s: Step<
        TpmCommand,
        CountRead,
        PinResult<Option<u32>>,
    >)
        ensures
            flow::performs(s, protocol::attempt_count(uid)),
    {
        proof {
            reveal_with_fuel(flow::bind, 2);
        }
        match nv_index_for_uid(uid) {
            Ok(index) => Step::Ask(TpmCommand::ReadOwner { index }, CountRead),
            Err(e) => Step::Done(Err(e)),
        }
    }

    /// Returns the full PIN slot data of a user if provisioned.
    pub fn get_pin_slot(&self, uid: u32) -> (s: Step<
        TpmCommand,
        SlotRead,
        PinResult<Option<PinData>>,
    >)
        ensures
            flow::performs(s, protocol::get_slot(uid)),
    {
        match nv_index_for_uid(uid) {
            Ok(index) => Step::Ask(TpmCommand::ReadOwner { index }, SlotRead),
            Err(e) => Step::Done(Err(e)),
        }
    }

    /// Test hook: drops the version tag so that `verify_pin` treats the slot as
    /// one that an early release wrote.
    pub fn __test_remove_version_tag(&self, uid: u32) -> (s: Step<
        TpmCommand,
        TagRemoval,
        PinResult<()>,
    >)
        ensures
            flow::performs(s, protocol::delete_tag(uid)),
    {
        delete_tag(uid)
    }
}

} // verus!

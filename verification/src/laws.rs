//! What holds of the operations on PINs as a whole.
//!
//! Some laws are about conversations with the TPM of `model`; others are about
//! every conversation, whatever the other side answers.
use crate::flow;
use crate::flow::Prog;
use crate::model;
use crate::model::{NvIndex, Tpm};
use crate::pinconstants::{MAX_AUTH_SIZE, PIN_VERSION_CURRENT, PIN_VERSION_UID_MAX};
use crate::pindata;
use crate::pindata::PinData;
use crate::pinerror::{DeleteResult, PinError, SetupError, VerificationResult};
use crate::pinindex;
use crate::protocol;
use crate::protocol::{Failure, Order, Talk};
use crate::tpm;
use crate::tpm::{Answer, FailureKind, Request, TpmCommand, TpmFailure};
use crate::util;
use vstd::prelude::*;

verus! {

/// The outcome of a conversation with a TPM, and the TPM after it.
pub open spec fn held<T, E>(talk: Talk<T, E>, t: Tpm) -> (Result<T, E>, Tpm) {
    flow::run(talk, t, model::chip())
}

/// The slot of a user with a PIN and counters.
pub open spec fn slot_entry(t: Tpm, uid: u32, pin: Seq<u8>, d: PinData) -> NvIndex {
    NvIndex {
        public: tpm::slot_public(pinindex::slot_index(uid), (t.digest)(tpm::write_once())),
        auth: pin,
        data: Some(pindata::encoded(d)),
    }
}

/// True if the user has a slot with that PIN and those counters.
pub open spec fn has_slot(t: Tpm, uid: u32, pin: Seq<u8>, d: PinData) -> bool {
    &&& t.nv.contains_key(pinindex::slot_index(uid))
    &&& t.nv[pinindex::slot_index(uid)] == slot_entry(t, uid, pin, d)
}

/// True if the user has no slot.
pub open spec fn no_slot(t: Tpm, uid: u32) -> bool {
    !t.nv.contains_key(pinindex::slot_index(uid))
}

/// True if the user has a version tag of that version.
pub open spec fn has_tag(t: Tpm, uid: u32, version: u8) -> bool {
    let index = pinindex::tag_index(uid);
    &&& t.nv.contains_key(index)
    &&& t.nv[index].public == tpm::tag_public(index)
    &&& t.nv[index].data == Some(seq![version])
}

/// True if the user has no version tag.
pub open spec fn no_tag(t: Tpm, uid: u32) -> bool {
    !t.nv.contains_key(pinindex::tag_index(uid))
}

/// True if the index of the user's version tag is free, or is a version tag.
pub open spec fn tag_is_ours(t: Tpm, uid: u32) -> bool {
    let index = pinindex::tag_index(uid);
    t.nv.contains_key(index) ==> t.nv[index].public == tpm::tag_public(index)
}

/// True if the user has a PIN, in its current form, with those counters.
pub open spec fn provisioned(t: Tpm, uid: u32, pin: Seq<u8>, d: PinData) -> bool {
    has_slot(t, uid, pin, d) && has_tag(t, uid, PIN_VERSION_CURRENT)
}

/// True if the index of the user's slot is taken by something that the owner can read,
/// or that has never been written.
pub open spec fn occupied(t: Tpm, uid: u32) -> bool {
    let index = pinindex::slot_index(uid);
    &&& t.nv.contains_key(index)
    &&& t.nv[index].data is Some ==> t.nv[index].public.owner_read
}

/// The TPM after the user's version tag was written.
pub open spec fn tagged(t: Tpm, uid: u32, version: u8) -> Tpm {
    let index = pinindex::tag_index(uid);
    t.with(
        t.nv.insert(
            index,
            NvIndex {
                public: tpm::tag_public(index),
                auth: if t.nv.contains_key(index) {
                    t.nv[index].auth
                } else {
                    Seq::empty()
                },
                data: Some(seq![version]),
            },
        ),
    )
}

/// The TPM with another slot for the user.
pub open spec fn slotted(t: Tpm, uid: u32, pin: Seq<u8>, d: PinData) -> Tpm {
    t.with(t.nv.insert(pinindex::slot_index(uid), slot_entry(t, uid, pin, d)))
}

/// The TPM without anything of the user's.
pub open spec fn cleared(t: Tpm, uid: u32) -> Tpm {
    t.with(t.nv.remove(pinindex::slot_index(uid)).remove(pinindex::tag_index(uid)))
}

/// True of an order that a TPM can carry out: a user who can have a slot, and a
/// PIN that fits.
pub open spec fn storable(order: Order) -> bool {
    &&& order.uid <= PIN_VERSION_UID_MAX
    &&& order.pin.len() <= MAX_AUTH_SIZE
}

/// True of an order that a TPM can carry out and that leaves the user attempts.
pub open spec fn feasible(order: Order) -> bool {
    storable(order) && 0 < order.max_attempts <= i32::MAX
}

proof fn lemma_held_and_then<T, U, E>(p: Talk<T, E>, f: spec_fn(T) -> Talk<U, E>, t: Tpm)
    ensures
        held(flow::and_then(p, f), t) == (match held(p, t) {
            (Ok(v), next) => held(f(v), next),
            (Err(e), next) => (Err(e), next),
        }),
{
    lemma_run_and_then(p, f, t, model::chip());
}

proof fn lemma_held_within_setup<T>(p: Talk<T, Failure>, t: Tpm)
    ensures
        held(protocol::within_setup(p), t) == (match held(p, t) {
            (Ok(v), next) => (Ok(v), next),
            (Err(e), next) => (Err(SetupError::Pin(e)), next),
        }),
{
    lemma_run_within_setup(p, t, model::chip());
}

proof fn lemma_run_within_setup<S, T>(
    p: Talk<T, Failure>,
    s: S,
    world: spec_fn(S, Request) -> (S, Answer),
)
    ensures
        flow::run(protocol::within_setup(p), s, world) == (match flow::run(p, s, world) {
            (Ok(v), next) => (Ok(v), next),
            (Err(e), next) => (Err(SetupError::Pin(e)), next),
        }),
{
    let g = |r: Result<T, Failure>|
        Prog::<Request, Answer, Result<T, SetupError<Seq<char>>>>::Return(
            match r {
                Ok(v) => Ok(v),
                Err(e) => Err(SetupError::Pin(e)),
            },
        );
    flow::lemma_run_bind(p, g, s, world);
}

proof fn lemma_held_restart(tcti: Seq<char>, t: Tpm)
    ensures
        held(protocol::restart(tcti), t) == (Ok::<(), Failure>(()), t),
{
    reveal_with_fuel(flow::run, 2);
}

proof fn lemma_held_write_tag(uid: u32, version: u8, t: Tpm)
    requires
        uid <= PIN_VERSION_UID_MAX,
        tag_is_ours(t, uid),
    ensures
        held(protocol::write_tag(uid, version), t) == (
            Ok::<(), Failure>(()),
            tagged(t, uid, version),
        ),
{
    reveal_with_fuel(flow::run, 4);
    reveal_with_fuel(flow::bind, 4);
    let index = pinindex::tag_index(uid);
    let data = seq![version];
    if t.nv.contains_key(index) {
        assert(model::overwritten(t.nv[index].data, 1, data, 0) =~= data);
    } else {
        let t1 = model::answers(
            t,
            TpmCommand::Define { template: tpm::tag_public(index), auth: None },
        ).0;
        assert(model::overwritten(None, 1, data, 0) =~= data);
        assert(t1.nv[index].data is None);
        assert(model::answers(t1, TpmCommand::WriteOwner { index, data, offset: 0 }).0
            =~= tagged(t, uid, version));
    }
}

proof fn lemma_held_define_slot(order: Order, t: Tpm)
    requires
        storable(order),
        no_slot(t, order.uid),
    ensures
        held(
            protocol::define_slot(
                pinindex::slot_index(order.uid),
                order.pin,
                order.max_attempts,
            ),
            t,
        ) == (
            Ok::<(), Failure>(()),
            slotted(t, order.uid, order.pin, protocol::fresh(order.max_attempts)),
        ),
{
    reveal_with_fuel(flow::run, 5);
    let index = pinindex::slot_index(order.uid);
    let d = protocol::fresh(order.max_attempts);
    let digest = (t.digest)(tpm::write_once());
    let t1 = model::answers(
        t,
        TpmCommand::Define { template: tpm::slot_public(index, digest), auth: Some(order.pin) },
    ).0;
    let c = TpmCommand::WritePolicy {
        index,
        terms: tpm::write_once(),
        auth: order.pin,
        data: pindata::encoded(d),
        offset: 0,
    };
    pindata::law_payload_round_trip(d);
    assert(model::overwritten(None, PinData::SIZE as nat, pindata::encoded(d), 0)
        =~= pindata::encoded(d));
    assert(model::answers(t1, c).0 =~= slotted(t, order.uid, order.pin, d));
}

proof fn lemma_held_get_slot(uid: u32, t: Tpm)
    requires
        uid <= PIN_VERSION_UID_MAX,
    ensures
        no_slot(t, uid) ==> held(protocol::get_slot(uid), t) == (
            Ok::<Option<PinData>, Failure>(None),
            t,
        ),
        forall|pin: Seq<u8>, d: PinData| #[trigger]
            has_slot(t, uid, pin, d) ==> held(protocol::get_slot(uid), t) == (
                Ok::<Option<PinData>, Failure>(Some(d)),
                t,
            ),
{
    reveal_with_fuel(flow::run, 2);
    assert forall|pin: Seq<u8>, d: PinData| #[trigger] has_slot(t, uid, pin, d) implies held(
        protocol::get_slot(uid),
        t,
    ) == (Ok::<Option<PinData>, Failure>(Some(d)), t) by {
        pindata::law_payload_round_trip(d);
    }
}

/// Setting up a PIN for a user without one succeeds, and leaves the user with
/// that PIN, no failed attempts and the policy's limit. Nothing else changes.
pub proof fn law_setup(order: Order, t: Tpm)
    requires
        storable(order),
        no_slot(t, order.uid),
        tag_is_ours(t, order.uid),
    ensures
        held(protocol::setup(order), t) == (
            Ok::<(), SetupError<Seq<char>>>(()),
            tagged(
                slotted(t, order.uid, order.pin, protocol::fresh(order.max_attempts)),
                order.uid,
                PIN_VERSION_CURRENT,
            ),
        ),
        provisioned(
            held(protocol::setup(order), t).1,
            order.uid,
            order.pin,
            protocol::fresh(order.max_attempts),
        ),
{
    lemma_held_setup_read(order, t);
    lemma_held_setup_empty(order, t);
}

/// The setup of a PIN, up to the look at the slot.
proof fn lemma_held_setup_read(order: Order, t: Tpm)
    requires
        order.uid <= PIN_VERSION_UID_MAX,
    ensures
        no_slot(t, order.uid) ==> held(protocol::setup(order), t) == held(
            protocol::setup_empty(order),
            t,
        ),
        occupied(t, order.uid) ==> held(protocol::setup(order), t) == held(
            protocol::overwrite(order),
            t,
        ),
{
    reveal_with_fuel(flow::run, 2);
}

/// The setup of a PIN in an empty slot, up to the writing of the version tag.
proof fn lemma_held_setup_slot(order: Order, t: Tpm)
    requires
        storable(order),
        no_slot(t, order.uid),
    ensures
        held(protocol::setup_empty(order), t) == held(
            protocol::setup_tag(order),
            slotted(t, order.uid, order.pin, protocol::fresh(order.max_attempts)),
        ),
{
    let uid = order.uid;
    let t1 = slotted(t, uid, order.pin, protocol::fresh(order.max_attempts));
    let define = protocol::define_slot(
        pinindex::slot_index(uid),
        order.pin,
        order.max_attempts,
    );
    lemma_held_define_slot(order, t);
    lemma_held_within_setup(define, t);
    lemma_held_and_then(
        protocol::within_setup(define),
        |u: ()| protocol::setup_defined(order),
        t,
    );
    let restart = protocol::within_setup(protocol::restart(order.tcti));
    lemma_held_restart(order.tcti, t1);
    lemma_held_within_setup(protocol::restart(order.tcti), t1);
    lemma_held_and_then(restart, |u: ()| protocol::setup_tag(order), t1);
}

proof fn lemma_held_setup_empty(order: Order, t: Tpm)
    requires
        storable(order),
        no_slot(t, order.uid),
        tag_is_ours(t, order.uid),
    ensures
        held(protocol::setup_empty(order), t) == (
            Ok::<(), SetupError<Seq<char>>>(()),
            tagged(
                slotted(t, order.uid, order.pin, protocol::fresh(order.max_attempts)),
                order.uid,
                PIN_VERSION_CURRENT,
            ),
        ),
        provisioned(
            held(protocol::setup_empty(order), t).1,
            order.uid,
            order.pin,
            protocol::fresh(order.max_attempts),
        ),
{
    let uid = order.uid;
    pinindex::law_indices_are_disjoint(uid, uid);
    let t1 = slotted(t, uid, order.pin, protocol::fresh(order.max_attempts));
    lemma_held_setup_slot(order, t);
    lemma_held_write_tag(uid, PIN_VERSION_CURRENT, t1);
    flow::lemma_run_bind(
        protocol::write_tag(uid, PIN_VERSION_CURRENT),
        |r: Result<(), Failure>| protocol::setup_tagged(order, r),
        t1,
        model::chip(),
    );
}

/// Setting up a PIN for a user who has one overwrites it, locked or not: the user is
/// left with the new PIN, no failed attempts and the policy's limit.
pub proof fn law_setup_overwrites(order: Order, t: Tpm, pin: Seq<u8>, d: PinData)
    requires
        storable(order),
        has_slot(t, order.uid, pin, d),
    ensures
        held(protocol::setup(order), t).0 is Ok,
        provisioned(
            held(protocol::setup(order), t).1,
            order.uid,
            order.pin,
            protocol::fresh(order.max_attempts),
        ),
{
    law_setup_overwrites_anything(order, t);
}

/// Setting up a PIN overwrites whatever there is in the user's slot, and the version
/// tag with it. Nothing else changes.
pub proof fn law_setup_overwrites_anything(order: Order, t: Tpm)
    requires
        storable(order),
        occupied(t, order.uid),
    ensures
        held(protocol::setup(order), t) == (
            Ok::<(), SetupError<Seq<char>>>(()),
            tagged(
                slotted(
                    cleared(t, order.uid),
                    order.uid,
                    order.pin,
                    protocol::fresh(order.max_attempts),
                ),
                order.uid,
                PIN_VERSION_CURRENT,
            ),
        ),
        provisioned(
            held(protocol::setup(order), t).1,
            order.uid,
            order.pin,
            protocol::fresh(order.max_attempts),
        ),
{
    let uid = order.uid;
    lemma_held_setup_read(order, t);
    lemma_held_overwrite(order, t);
    law_delete_admin(uid, t);
    lemma_held_setup_empty(order, cleared(t, uid));
}

/// Overwriting a slot is removing it and setting the PIN up.
proof fn lemma_held_overwrite(order: Order, t: Tpm)
    requires
        order.uid <= PIN_VERSION_UID_MAX,
        !no_slot(t, order.uid),
    ensures
        held(protocol::overwrite(order), t) == held(
            protocol::setup_empty(order),
            cleared(t, order.uid),
        ),
{
    let uid = order.uid;
    let t1 = cleared(t, uid);
    law_delete_admin(uid, t);
    lemma_held_within_setup(protocol::delete_admin(uid), t);
    lemma_held_and_then(
        protocol::within_setup(protocol::delete_admin(uid)),
        |u: ()| protocol::setup_deleted(order),
        t,
    );
    lemma_held_restart(order.tcti, t1);
    lemma_held_within_setup(protocol::restart(order.tcti), t1);
    lemma_held_and_then(
        protocol::within_setup(protocol::restart(order.tcti)),
        |u: ()| protocol::setup_empty(order),
        t1,
    );
}

/// Storing a PIN in an empty slot, and opening the connection afresh: the setup without
/// its version tag.
pub open spec fn store_empty(order: Order) -> Talk<(), SetupError<Seq<char>>> {
    flow::and_then(
        protocol::within_setup(
            protocol::with_uid(
                order.uid,
                protocol::define_slot(
                    pinindex::slot_index(order.uid),
                    order.pin,
                    order.max_attempts,
                ),
            ),
        ),
        |u: ()| protocol::within_setup(protocol::restart(order.tcti)),
    )
}

/// Storing a PIN after the slot that was there has been removed.
pub open spec fn store_deleted(order: Order) -> Talk<(), SetupError<Seq<char>>> {
    flow::and_then(
        protocol::within_setup(protocol::restart(order.tcti)),
        |u: ()| store_empty(order),
    )
}

/// What follows the look at the slot in which a PIN is to be stored.
pub open spec fn store_read(order: Order, a: Answer) -> Talk<(), SetupError<Seq<char>>> {
    let overwrite = flow::and_then(
        protocol::within_setup(protocol::delete_admin(order.uid)),
        |u: ()| store_deleted(order),
    );
    match a {
        Ok(_) => overwrite,
        Err(f) => if f.kind == FailureKind::NvUninitialized {
            overwrite
        } else if f.kind == FailureKind::Handle {
            store_empty(order)
        } else {
            Prog::Return(Err(SetupError::Pin(PinError::TpmError(f.text))))
        },
    }
}

/// Storing a PIN: all of the setup that comes before the version tag.
pub open spec fn store(order: Order) -> Talk<(), SetupError<Seq<char>>> {
    if order.uid > PIN_VERSION_UID_MAX {
        Prog::Return(Err(SetupError::Pin(PinError::UidOverflow(order.uid))))
    } else {
        Prog::Ask(
            TpmCommand::ReadOwner { index: pinindex::slot_index(order.uid) },
            |a: Answer| store_read(order, a),
        )
    }
}

/// A setup stores the PIN and then marks it with the version tag, in every world.
pub proof fn law_setup_stores_and_tags<S>(
    order: Order,
    s: S,
    world: spec_fn(S, Request) -> (S, Answer),
)
    ensures
        flow::run(protocol::setup(order), s, world) == (match flow::run(store(order), s, world) {
            (Ok(_), next) => flow::run(protocol::setup_tag(order), next, world),
            (Err(e), next) => (Err(e), next),
        }),
{
    if order.uid <= PIN_VERSION_UID_MAX {
        let uid = order.uid;
        let (s1, a) = world(s, TpmCommand::ReadOwner { index: pinindex::slot_index(uid) });
        let delete = protocol::within_setup(protocol::delete_admin(uid));
        let restart = protocol::within_setup(protocol::restart(order.tcti));
        lemma_run_setup_empty(order, s1, world);
        lemma_run_and_then(delete, |u: ()| protocol::setup_deleted(order), s1, world);
        lemma_run_and_then(delete, |u: ()| store_deleted(order), s1, world);
        let s2 = flow::run(delete, s1, world).1;
        lemma_run_and_then(restart, |u: ()| protocol::setup_empty(order), s2, world);
        lemma_run_and_then(restart, |u: ()| store_empty(order), s2, world);
        lemma_run_setup_empty(order, flow::run(restart, s2, world).1, world);
        reveal_with_fuel(flow::run, 2);
        assert(flow::run(protocol::setup(order), s, world) == flow::run(
            protocol::setup_read(order, a),
            s1,
            world,
        ));
        assert(flow::run(store(order), s, world) == flow::run(store_read(order, a), s1, world));
    }
}

proof fn lemma_run_setup_empty<S>(
    order: Order,
    s: S,
    world: spec_fn(S, Request) -> (S, Answer),
)
    ensures
        flow::run(protocol::setup_empty(order), s, world) == (match flow::run(
            store_empty(order),
            s,
            world,
        ) {
            (Ok(_), next) => flow::run(protocol::setup_tag(order), next, world),
            (Err(e), next) => (Err(e), next),
        }),
{
    let define = protocol::within_setup(
        protocol::with_uid(
            order.uid,
            protocol::define_slot(
                pinindex::slot_index(order.uid),
                order.pin,
                order.max_attempts,
            ),
        ),
    );
    let restart = protocol::within_setup(protocol::restart(order.tcti));
    lemma_run_and_then(define, |u: ()| protocol::setup_defined(order), s, world);
    lemma_run_and_then(define, |u: ()| restart, s, world);
    lemma_run_and_then(
        restart,
        |u: ()| protocol::setup_tag(order),
        flow::run(define, s, world).1,
        world,
    );
}

/// A setup whose version tag cannot be written is taken back, in every world: once the
/// PIN is stored, a failure to write the tag leads to the removal of the PIN. If that
/// works, the setup fails because of the tag, and otherwise because of both.
pub proof fn law_setup_is_taken_back<S>(
    order: Order,
    s: S,
    world: spec_fn(S, Request) -> (S, Answer),
)
    requires
        flow::run(store(order), s, world).0 is Ok,
        ({
            let s1 = flow::run(store(order), s, world).1;
            let (tag, s2) = flow::run(
                protocol::write_tag(order.uid, PIN_VERSION_CURRENT),
                s1,
                world,
            );
            tag is Err && flow::run(protocol::restart(order.tcti), s2, world).0 is Ok
        }),
    ensures
        ({
            let s1 = flow::run(store(order), s, world).1;
            let (tag, s2) = flow::run(
                protocol::write_tag(order.uid, PIN_VERSION_CURRENT),
                s1,
                world,
            );
            let s3 = flow::run(protocol::restart(order.tcti), s2, world).1;
            let (removal, s4) = flow::run(protocol::delete_admin(order.uid), s3, world);
            let cause = tag->Err_0;
            flow::run(protocol::setup(order), s, world) == (
                Err::<(), SetupError<Seq<char>>>(
                    match removal {
                        Ok(_) => SetupError::TagNotWritten { cause },
                        Err(rollback) => SetupError::RollbackFailed { cause, rollback },
                    },
                ),
                s4,
            )
        }),
{
    let uid = order.uid;
    law_setup_stores_and_tags(order, s, world);
    let s1 = flow::run(store(order), s, world).1;
    let write = protocol::write_tag(uid, PIN_VERSION_CURRENT);
    flow::lemma_run_bind(
        write,
        |r: Result<(), Failure>| protocol::setup_tagged(order, r),
        s1,
        world,
    );
    let (tag, s2) = flow::run(write, s1, world);
    let cause = tag->Err_0;
    let restart = protocol::restart(order.tcti);
    lemma_run_within_setup(restart, s2, world);
    lemma_run_and_then(
        protocol::within_setup(restart),
        |u: ()| protocol::roll_back(uid, cause),
        s2,
        world,
    );
    flow::lemma_run_bind(
        protocol::delete_admin(uid),
        |d: Result<(), Failure>|
            Prog::<Request, Answer, Result<(), SetupError<Seq<char>>>>::Return(
                Err(protocol::rolled_back(cause, d)),
            ),
        flow::run(restart, s2, world).1,
        world,
    );
}

/// A setup whose version tag cannot be written leaves no slot behind.
pub proof fn law_failed_setup_leaves_no_slot(order: Order, t: Tpm)
    requires
        storable(order),
        no_slot(t, order.uid),
        held(
            protocol::write_tag(order.uid, PIN_VERSION_CURRENT),
            slotted(t, order.uid, order.pin, protocol::fresh(order.max_attempts)),
        ).0 is Err,
    ensures
        held(protocol::setup(order), t).0 == Err::<(), SetupError<Seq<char>>>(
            SetupError::TagNotWritten {
                cause: held(
                    protocol::write_tag(order.uid, PIN_VERSION_CURRENT),
                    slotted(t, order.uid, order.pin, protocol::fresh(order.max_attempts)),
                ).0->Err_0,
            },
        ),
        no_slot(held(protocol::setup(order), t).1, order.uid),
{
    let uid = order.uid;
    let t1 = slotted(t, uid, order.pin, protocol::fresh(order.max_attempts));
    assert(held(store(order), t) == (Ok::<(), SetupError<Seq<char>>>(()), t1)) by {
        let define = protocol::define_slot(
            pinindex::slot_index(uid),
            order.pin,
            order.max_attempts,
        );
        lemma_held_define_slot(order, t);
        lemma_held_within_setup(define, t);
        lemma_held_and_then(
            protocol::within_setup(define),
            |u: ()| protocol::within_setup(protocol::restart(order.tcti)),
            t,
        );
        lemma_held_restart(order.tcti, t1);
        lemma_held_within_setup(protocol::restart(order.tcti), t1);
        reveal_with_fuel(flow::run, 2);
    }
    let t2 = held(protocol::write_tag(uid, PIN_VERSION_CURRENT), t1).1;
    lemma_write_tag_keeps_the_slot(uid, PIN_VERSION_CURRENT, t1);
    lemma_held_restart(order.tcti, t2);
    law_delete_admin(uid, t2);
    law_setup_is_taken_back(order, t, model::chip());
}

/// The counters after a wrong PIN.
pub open spec fn after_failure(d: PinData) -> PinData {
    PinData { pinCount: (d.pinCount + 1) as i32, pinLimit: d.pinLimit }
}

/// The counters after a right PIN.
pub open spec fn after_success(d: PinData) -> PinData {
    PinData { pinCount: 0, pinLimit: d.pinLimit }
}

/// True if the TPM takes `pin` for the authorization value `stored`.
pub open spec fn same_pin(pin: Seq<u8>, stored: Seq<u8>) -> bool {
    model::significant(pin) == model::significant(stored)
}

/// What presenting a PIN to a slot comes to, and the slot's counters after it.
pub open spec fn verdict(pin: Seq<u8>, stored: Seq<u8>, d: PinData) -> (
    VerificationResult,
    PinData,
) {
    if d.exhausted() {
        (VerificationResult::LockedOut, d)
    } else if same_pin(pin, stored) {
        (VerificationResult::Success(after_success(d)), after_success(d))
    } else {
        (
            VerificationResult::Invalid { locked: after_failure(d).exhausted() },
            after_failure(d),
        )
    }
}

proof fn lemma_held_present(uid: u32, pin: Seq<u8>, t: Tpm, stored: Seq<u8>, d: PinData)
    requires
        uid <= PIN_VERSION_UID_MAX,
        pin.len() <= MAX_AUTH_SIZE,
        t.sound(),
        has_slot(t, uid, stored, d),
        0 <= d.pinCount,
        !d.exhausted(),
    ensures
        held(protocol::present(uid, pinindex::slot_index(uid), pin), t) == (
            Ok::<VerificationResult, Failure>(verdict(pin, stored, d).0),
            slotted(t, uid, stored, verdict(pin, stored, d).1),
        ),
{
    reveal_with_fuel(flow::run, 4);
    reveal_with_fuel(flow::bind, 3);
    let index = pinindex::slot_index(uid);
    let c = TpmCommand::ReadAuth { index, auth: pin, size: PinData::SIZE as u16, offset: 0 };
    let (t1, a) = model::answers(t, c);
    pindata::law_payload_round_trip(d);
    assert(model::counters(t.nv[index]) == d);
    if same_pin(pin, stored) {
        let d1 = after_success(d);
        pindata::law_payload_round_trip(d1);
        assert(t1 == slotted(t, uid, stored, d1));
        let b = pindata::encoded(d1);
        assert(b.subrange(0, PinData::SIZE as int) =~= b);
        assert(a == Ok::<Seq<u8>, TpmFailure<Seq<char>>>(b));
    } else {
        let d1 = after_failure(d);
        pindata::law_payload_round_trip(d1);
        assert(t1 == slotted(t, uid, stored, d1));
    }
}

proof fn lemma_held_verify_exact(uid: u32, pin: Seq<u8>, t: Tpm, stored: Seq<u8>, d: PinData)
    requires
        uid <= PIN_VERSION_UID_MAX,
        has_slot(t, uid, stored, d),
        !d.exhausted() ==> t.sound() && pin.len() <= MAX_AUTH_SIZE && 0 <= d.pinCount,
    ensures
        held(protocol::verify_exact(uid, pin), t) == (
            Ok::<VerificationResult, Failure>(verdict(pin, stored, d).0),
            slotted(t, uid, stored, verdict(pin, stored, d).1),
        ),
{
    let index = pinindex::slot_index(uid);
    pindata::law_payload_round_trip(d);
    assert(held(protocol::read_slot(index), t) == (
        Ok::<Option<PinData>, Failure>(Some(d)),
        t,
    )) by {
        reveal_with_fuel(flow::run, 2);
    }
    flow::lemma_run_bind(
        protocol::read_slot(index),
        |s: Result<Option<PinData>, Failure>| protocol::attempt_read(uid, index, pin, s),
        t,
        model::chip(),
    );
    if d.exhausted() {
        assert(slotted(t, uid, stored, d).nv =~= t.nv);
    } else {
        lemma_held_present(uid, pin, t, stored, d);
    }
    reveal_with_fuel(flow::run, 2);
}

/// Verifying a PIN against a user's current PIN comes to the verdict of the
/// slot: a right PIN succeeds and clears the count of failed attempts, a wrong
/// one is refused and counted, and once the limit is reached every PIN, of whatever
/// length, is answered with the lockout. Nothing but the count changes.
pub proof fn law_verify(order: Order, pin: Seq<char>, t: Tpm, stored: Seq<u8>, d: PinData)
    requires
        order.uid <= PIN_VERSION_UID_MAX,
        provisioned(t, order.uid, stored, d),
        !d.exhausted() ==> t.sound() && order.pin.len() <= MAX_AUTH_SIZE && 0 <= d.pinCount,
    ensures
        held(protocol::verify(order, pin), t) == (
            Ok::<VerificationResult, Failure>(verdict(order.pin, stored, d).0),
            slotted(t, order.uid, stored, verdict(order.pin, stored, d).1),
        ),
        provisioned(
            held(protocol::verify(order, pin), t).1,
            order.uid,
            stored,
            verdict(order.pin, stored, d).1,
        ),
{
    let uid = order.uid;
    pinindex::law_indices_are_disjoint(uid, uid);
    assert(held(protocol::read_tag(uid), t) == (
        Ok::<Option<u8>, Failure>(Some(PIN_VERSION_CURRENT)),
        t,
    )) by {
        reveal_with_fuel(flow::run, 2);
    }
    lemma_held_and_then(
        protocol::read_tag(uid),
        |version: Option<u8>| protocol::verify_as(order, pin, version),
        t,
    );
    lemma_held_verify_exact(uid, order.pin, t, stored, d);
}

/// True of a TPM on which a PIN can be set up for the user: the user has a slot, or
/// the index of the slot is free and that of the version tag is not someone else's.
pub open spec fn has_room(t: Tpm, uid: u32) -> bool {
    occupied(t, uid) || no_slot(t, uid) && tag_is_ours(t, uid)
}

/// A PIN that has been set up is verified: after the setup, on whatever
/// connection, and whether or not the user had a PIN before, the same PIN succeeds,
/// with no failed attempts and the limit that the policy had at setup.
pub proof fn law_setup_then_verify(order: Order, pin: Seq<char>, t: Tpm, later: Order)
    requires
        feasible(order),
        t.sound(),
        has_room(t, order.uid),
        later.uid == order.uid,
        later.pin == order.pin,
    ensures
        held(protocol::setup(order), t).0 is Ok,
        held(protocol::verify(later, pin), held(protocol::setup(order), t).1) == (
            Ok::<VerificationResult, Failure>(
                VerificationResult::Success(protocol::fresh(order.max_attempts)),
            ),
            held(protocol::setup(order), t).1,
        ),
{
    if no_slot(t, order.uid) {
        law_setup(order, t);
    } else {
        law_setup_overwrites_anything(order, t);
    }
    let t1 = held(protocol::setup(order), t).1;
    let d = protocol::fresh(order.max_attempts);
    law_verify(later, pin, t1, order.pin, d);
    assert(slotted(t1, order.uid, order.pin, d).nv =~= t1.nv);
}

/// The TPM after `n` attempts with the same PIN.
pub open spec fn after_attempts(order: Order, pin: Seq<char>, t: Tpm, n: nat) -> Tpm
    decreases n,
{
    if n == 0 {
        t
    } else {
        held(
            protocol::verify(order, pin),
            after_attempts(order, pin, t, (n - 1) as nat),
        ).1
    }
}

/// The counters after `n` wrong attempts on a fresh slot.
pub open spec fn failures(limit: int, n: nat) -> PinData {
    PinData { pinCount: (if n < limit { n as int } else { limit }) as i32, pinLimit: limit as i32 }
}

/// Wrong attempts are counted one by one, up to the limit.
pub proof fn law_wrong_pins_are_counted(
    order: Order,
    pin: Seq<char>,
    t: Tpm,
    stored: Seq<u8>,
    limit: u32,
    n: nat,
)
    requires
        order.uid <= PIN_VERSION_UID_MAX,
        order.pin.len() <= MAX_AUTH_SIZE,
        t.sound(),
        0 < limit <= i32::MAX,
        provisioned(t, order.uid, stored, protocol::fresh(limit)),
        !same_pin(order.pin, stored),
    ensures
        provisioned(
            after_attempts(order, pin, t, n),
            order.uid,
            stored,
            failures(limit as int, n),
        ),
        after_attempts(order, pin, t, n).sound(),
    decreases n,
{
    if n > 0 {
        let m = (n - 1) as nat;
        law_wrong_pins_are_counted(order, pin, t, stored, limit, m);
        let t1 = after_attempts(order, pin, t, m);
        law_verify(order, pin, t1, stored, failures(limit as int, m));
        assert(verdict(order.pin, stored, failures(limit as int, m)).1 == failures(
            limit as int,
            n,
        ));
    }
}

/// Wrong PINs lock a user out after exactly the number of attempts that the
/// policy allowed at setup: the attempt that reaches it is the one that trips the
/// lock, the user counts as locked out from then on and not before, and from then on
/// every PIN, the right one too, is answered with the lockout and changes nothing.
pub proof fn law_lockout(
    order: Order,
    pin: Seq<char>,
    t: Tpm,
    stored: Seq<u8>,
    limit: u32,
    n: nat,
    any: Order,
    any_pin: Seq<char>,
)
    requires
        order.uid <= PIN_VERSION_UID_MAX,
        order.pin.len() <= MAX_AUTH_SIZE,
        t.sound(),
        0 < limit <= i32::MAX,
        provisioned(t, order.uid, stored, protocol::fresh(limit)),
        !same_pin(order.pin, stored),
        any.uid == order.uid,
    ensures
        n < limit ==> held(
            protocol::verify(order, pin),
            after_attempts(order, pin, t, n),
        ).0 == Ok::<VerificationResult, Failure>(
            VerificationResult::Invalid { locked: n + 1 == limit },
        ),
        held(protocol::locked_out(order.uid), after_attempts(order, pin, t, n)).0 == Ok::<
            bool,
            Failure,
        >(n >= limit),
        n >= limit ==> held(
            protocol::verify(any, any_pin),
            after_attempts(order, pin, t, n),
        ) == (
            Ok::<VerificationResult, Failure>(VerificationResult::LockedOut),
            after_attempts(order, pin, t, n),
        ),
{
    law_wrong_pins_are_counted(order, pin, t, stored, limit, n);
    let t1 = after_attempts(order, pin, t, n);
    let d = failures(limit as int, n);
    law_verify(order, pin, t1, stored, d);
    if n >= limit {
        law_verify(any, any_pin, t1, stored, d);
        assert(slotted(t1, order.uid, stored, d).nv =~= t1.nv);
    }
    lemma_held_get_slot(order.uid, t1);
    assert(has_slot(t1, order.uid, stored, d));
    lemma_held_and_then(
        protocol::get_slot(order.uid),
        |s: Option<PinData>|
            Prog::<Request, Answer, Result<bool, Failure>>::Return(
                Ok(s matches Some(d) && d.exhausted()),
            ),
        t1,
    );
}

/// Removing a PIN by the owner's authority leaves nothing of the user's behind,
/// locked or not. Without a PIN it is refused and changes nothing.
pub proof fn law_delete_admin(uid: u32, t: Tpm)
    requires
        uid <= PIN_VERSION_UID_MAX,
    ensures
        !no_slot(t, uid) ==> held(protocol::delete_admin(uid), t) == (
            Ok::<(), Failure>(()),
            cleared(t, uid),
        ),
        no_slot(t, uid) ==> held(protocol::delete_admin(uid), t) == (
            Err::<(), Failure>(PinError::NotProvisioned(uid)),
            t,
        ),
        no_slot(cleared(t, uid), uid),
        no_tag(cleared(t, uid), uid),
{
    reveal_with_fuel(flow::run, 4);
    reveal_with_fuel(flow::bind, 3);
    pinindex::law_indices_are_disjoint(uid, uid);
    let slot = pinindex::slot_index(uid);
    let tag = pinindex::tag_index(uid);
    if !no_slot(t, uid) {
        let t1 = t.with(t.nv.remove(slot));
        if !t1.nv.contains_key(tag) {
            assert(t1.nv.remove(tag) =~= t1.nv);
        }
    }
}

/// Removing a PIN by its own authority takes the right PIN: with it, nothing of
/// the user's is left behind; with a wrong one the attempt is counted and the PIN
/// stays; when the PIN is locked, every PIN is answered with the lockout and nothing
/// changes.
pub proof fn law_delete_with_auth(
    order: Order,
    pin: Seq<char>,
    t: Tpm,
    stored: Seq<u8>,
    d: PinData,
)
    requires
        order.uid <= PIN_VERSION_UID_MAX,
        provisioned(t, order.uid, stored, d),
        !d.exhausted() ==> t.sound() && order.pin.len() <= MAX_AUTH_SIZE && 0 <= d.pinCount,
    ensures
        !d.exhausted() && same_pin(order.pin, stored) ==> held(
            protocol::delete_with_auth(order, pin),
            t,
        ) == (Ok::<DeleteResult, Failure>(DeleteResult::Success), cleared(t, order.uid)),
        !d.exhausted() && !same_pin(order.pin, stored) ==> held(
            protocol::delete_with_auth(order, pin),
            t,
        ) == (
            Ok::<DeleteResult, Failure>(
                DeleteResult::Invalid { locked: after_failure(d).exhausted() },
            ),
            slotted(t, order.uid, stored, after_failure(d)),
        ),
        d.exhausted() ==> held(protocol::delete_with_auth(order, pin), t) == (
            Ok::<DeleteResult, Failure>(DeleteResult::LockedOut),
            t,
        ),
{
    let uid = order.uid;
    law_verify(order, pin, t, stored, d);
    lemma_held_and_then(
        protocol::verify(order, pin),
        |v: VerificationResult| protocol::delete_verified(uid, v),
        t,
    );
    let t1 = held(protocol::verify(order, pin), t).1;
    law_delete_admin(uid, t1);
    lemma_held_and_then(
        protocol::delete_admin(uid),
        |u: ()|
            Prog::<Request, Answer, Result<DeleteResult, Failure>>::Return(
                Ok(DeleteResult::Success),
            ),
        t1,
    );
    assert(cleared(t1, uid).nv =~= cleared(t, uid).nv);
    assert(slotted(t, uid, stored, d).nv =~= t.nv);
}

proof fn lemma_encoding_of_legacy_form(pin: Seq<char>)
    ensures
        pin.len() == 0 || vstd::utf8::encode_utf8(util::without_leading_zeros(pin)).len()
            <= vstd::utf8::encode_utf8(pin).len(),
    decreases pin.len(),
{
    if pin.len() > 0 && pin[0] == '0' {
        assert(pin.skip(1) =~= pin.drop_first());
        lemma_encoding_of_legacy_form(pin.skip(1));
        if pin.skip(1).len() == 0 {
            assert(util::without_leading_zeros(pin.skip(1)).len() == 0);
        }
    }
}

proof fn lemma_legacy_form_fits(pin: Seq<char>)
    requires
        vstd::utf8::encode_utf8(pin).len() <= MAX_AUTH_SIZE,
    ensures
        vstd::utf8::encode_utf8(util::legacy_form(pin)).len() <= MAX_AUTH_SIZE,
{
    lemma_encoding_of_legacy_form(pin);
    let rest = util::without_leading_zeros(pin);
    if rest.len() == 0 {
        let zero = seq!['0'];
        reveal_with_fuel(vstd::utf8::encode_utf8, 2);
        assert(zero.drop_first().len() == 0);
        assert(vstd::utf8::encode_utf8(zero).len() <= 4);
    }
}

/// True if the user has no version tag, or one that has never been written.
pub open spec fn untagged(t: Tpm, uid: u32) -> bool {
    no_tag(t, uid) || t.nv[pinindex::tag_index(uid)].data is None
}

/// Bringing a PIN that an early release stored up to date succeeds. A PIN whose
/// form has not changed keeps its slot; otherwise it is set up again.
pub proof fn law_migrate(order: Order, pin: Seq<char>, t: Tpm, d: PinData)
    requires
        storable(order),
        order.pin == vstd::utf8::encode_utf8(pin),
        has_slot(t, order.uid, vstd::utf8::encode_utf8(util::legacy_form(pin)), d),
        tag_is_ours(t, order.uid),
    ensures
        held(protocol::migrate(order, pin), t).0 is Ok,
        provisioned(
            held(protocol::migrate(order, pin), t).1,
            order.uid,
            order.pin,
            if util::legacy_form(pin) == pin {
                d
            } else {
                protocol::fresh(order.max_attempts)
            },
        ),
        held(protocol::migrate(order, pin), t).1 == t.with(
            held(protocol::migrate(order, pin), t).1.nv,
        ),
{
    let uid = order.uid;
    pinindex::law_indices_are_disjoint(uid, uid);
    let restart = protocol::within_setup(protocol::restart(order.tcti));
    if util::legacy_form(pin) == pin {
        lemma_held_write_tag(uid, PIN_VERSION_CURRENT, t);
        lemma_held_within_setup(protocol::write_tag(uid, PIN_VERSION_CURRENT), t);
    } else {
        law_delete_admin(uid, t);
        lemma_held_within_setup(protocol::delete_admin(uid), t);
        lemma_held_and_then(
            protocol::within_setup(protocol::delete_admin(uid)),
            |u: ()| protocol::migrate_deleted(order),
            t,
        );
        let t1 = cleared(t, uid);
        lemma_held_restart(order.tcti, t1);
        lemma_held_within_setup(protocol::restart(order.tcti), t1);
        lemma_held_and_then(restart, |u: ()| protocol::migrate_setup(order), t1);
        law_setup(order, t1);
        lemma_held_and_then(
            protocol::setup(order),
            |u: ()| protocol::within_setup(protocol::restart(order.tcti)),
            t1,
        );
        let t2 = held(protocol::setup(order), t1).1;
        lemma_held_restart(order.tcti, t2);
        lemma_held_within_setup(protocol::restart(order.tcti), t2);
    }
}

/// True of a world in which opening the connection afresh always works.
pub open spec fn reconnects<S>(world: spec_fn(S, Request) -> (S, Answer), tcti: Seq<char>) -> bool {
    forall|s: S| (#[trigger] world(s, TpmCommand::Restart { tcti })).1 is Ok
}

/// Bringing a slot up to date does not decide: in every world in which opening the
/// connection afresh works, a PIN that was right in its early form is reported as
/// right, whatever comes of the migration.
pub proof fn law_migration_does_not_decide<S>(
    order: Order,
    pin: Seq<char>,
    s: S,
    world: spec_fn(S, Request) -> (S, Answer),
)
    requires
        reconnects(world, order.tcti),
        flow::run(protocol::read_tag(order.uid), s, world).0 == Ok::<Option<u8>, Failure>(None),
        flow::run(
            protocol::verify_exact(
                order.uid,
                vstd::utf8::encode_utf8(util::legacy_form(pin)),
            ),
            flow::run(protocol::read_tag(order.uid), s, world).1,
            world,
        ).0 matches Ok(VerificationResult::Success(_)),
    ensures
        flow::run(protocol::verify(order, pin), s, world).0 == flow::run(
            protocol::verify_exact(
                order.uid,
                vstd::utf8::encode_utf8(util::legacy_form(pin)),
            ),
            flow::run(protocol::read_tag(order.uid), s, world).1,
            world,
        ).0,
{
    let uid = order.uid;
    let old = vstd::utf8::encode_utf8(util::legacy_form(pin));
    let s1 = flow::run(protocol::read_tag(uid), s, world).1;
    let (r, s2) = flow::run(protocol::verify_exact(uid, old), s1, world);
    let v = r->Ok_0;
    lemma_run_and_then(
        protocol::read_tag(uid),
        |version: Option<u8>| protocol::verify_as(order, pin, version),
        s,
        world,
    );
    lemma_run_and_then(
        protocol::verify_exact(uid, old),
        |v: VerificationResult| protocol::after_legacy(order, pin, v),
        s1,
        world,
    );
    lemma_run_restart(order.tcti, s2, world);
    lemma_run_and_then(
        protocol::restart(order.tcti),
        |u: ()| protocol::bring_up_to_date(order, pin, v),
        s2,
        world,
    );
    let s3 = flow::run(protocol::restart(order.tcti), s2, world).1;
    flow::lemma_run_bind(
        protocol::migrate(order, pin),
        |m: Result<(), SetupError<Seq<char>>>| protocol::conclude(order.tcti, v),
        s3,
        world,
    );
    let s4 = flow::run(protocol::migrate(order, pin), s3, world).1;
    lemma_run_restart(order.tcti, s4, world);
    lemma_run_and_then(
        protocol::restart(order.tcti),
        |u: ()| Prog::<Request, Answer, Result<VerificationResult, Failure>>::Return(Ok(v)),
        s4,
        world,
    );
}

proof fn lemma_run_and_then<S, T, U, E>(
    p: Talk<T, E>,
    f: spec_fn(T) -> Talk<U, E>,
    s: S,
    world: spec_fn(S, Request) -> (S, Answer),
)
    ensures
        flow::run(flow::and_then(p, f), s, world) == (match flow::run(p, s, world) {
            (Ok(v), next) => flow::run(f(v), next, world),
            (Err(e), next) => (Err(e), next),
        }),
{
    let g = |r: Result<T, E>|
        match r {
            Ok(v) => f(v),
            Err(e) => Prog::<Request, Answer, Result<U, E>>::Return(Err(e)),
        };
    flow::lemma_run_bind(p, g, s, world);
}

proof fn lemma_run_restart<S>(
    tcti: Seq<char>,
    s: S,
    world: spec_fn(S, Request) -> (S, Answer),
)
    requires
        reconnects(world, tcti),
    ensures
        flow::run(protocol::restart(tcti), s, world).0 is Ok,
{
    reveal_with_fuel(flow::run, 2);
}

/// A PIN that an early release stored (without leading zeros and without a version
/// tag) is verified: entered in full it succeeds, whether or not the slot can be
/// brought up to date.
pub proof fn law_legacy_pin_verifies(order: Order, pin: Seq<char>, t: Tpm, d: PinData)
    requires
        order.uid <= PIN_VERSION_UID_MAX,
        t.sound(),
        vstd::utf8::encode_utf8(util::legacy_form(pin)).len() <= MAX_AUTH_SIZE,
        has_slot(t, order.uid, vstd::utf8::encode_utf8(util::legacy_form(pin)), d),
        untagged(t, order.uid),
        0 <= d.pinCount,
        !d.exhausted(),
    ensures
        held(protocol::verify(order, pin), t).0 == Ok::<VerificationResult, Failure>(
            VerificationResult::Success(after_success(d)),
        ),
{
    let old = vstd::utf8::encode_utf8(util::legacy_form(pin));
    lemma_held_untagged(order.uid, t);
    lemma_held_verify_exact(order.uid, old, t, old, d);
    law_migration_does_not_decide(order, pin, t, model::chip());
}

/// A PIN that an early release stored keeps working: entered in full it succeeds, the
/// slot is brought up to date, so that it holds the PIN exactly as it was entered, and
/// the PIN succeeds again afterwards, unless it had to be set up again under a limit
/// that leaves no attempts.
pub proof fn law_legacy_pin_keeps_working(order: Order, pin: Seq<char>, t: Tpm, d: PinData)
    requires
        storable(order),
        order.pin == vstd::utf8::encode_utf8(pin),
        t.sound(),
        has_slot(t, order.uid, vstd::utf8::encode_utf8(util::legacy_form(pin)), d),
        untagged(t, order.uid),
        tag_is_ours(t, order.uid),
        0 <= d.pinCount,
        !d.exhausted(),
    ensures
        held(protocol::verify(order, pin), t).0 == Ok::<VerificationResult, Failure>(
            VerificationResult::Success(after_success(d)),
        ),
        ({
            let t1 = held(protocol::verify(order, pin), t).1;
            let d1 = if util::legacy_form(pin) == pin {
                after_success(d)
            } else {
                protocol::fresh(order.max_attempts)
            };
            &&& provisioned(t1, order.uid, order.pin, d1)
            &&& util::legacy_form(pin) == pin || 0 < order.max_attempts <= i32::MAX ==> held(
                protocol::verify(order, pin),
                t1,
            ).0 == Ok::<VerificationResult, Failure>(VerificationResult::Success(d1))
        }),
{
    let uid = order.uid;
    let old = vstd::utf8::encode_utf8(util::legacy_form(pin));
    let d1 = after_success(d);
    let v = VerificationResult::Success(d1);
    lemma_legacy_form_fits(pin);
    lemma_held_legacy(order, pin, t, old, d);
    let t1 = slotted(t, uid, old, d1);
    lemma_held_and_then(
        protocol::restart(order.tcti),
        |u: ()| protocol::bring_up_to_date(order, pin, v),
        t1,
    );
    lemma_held_restart(order.tcti, t1);
    pinindex::law_indices_are_disjoint(uid, uid);
    law_migrate(order, pin, t1, d1);
    flow::lemma_run_bind(
        protocol::migrate(order, pin),
        |m: Result<(), SetupError<Seq<char>>>| protocol::conclude(order.tcti, v),
        t1,
        model::chip(),
    );
    let t2 = held(protocol::migrate(order, pin), t1).1;
    lemma_held_restart(order.tcti, t2);
    lemma_held_and_then(
        protocol::restart(order.tcti),
        |u: ()| Prog::<Request, Answer, Result<VerificationResult, Failure>>::Return(Ok(v)),
        t2,
    );
    let d2 = if util::legacy_form(pin) == pin {
        d1
    } else {
        protocol::fresh(order.max_attempts)
    };
    law_verify(order, pin, t2, order.pin, d2);
}

proof fn lemma_held_untagged(uid: u32, t: Tpm)
    requires
        uid <= PIN_VERSION_UID_MAX,
        untagged(t, uid),
    ensures
        held(protocol::read_tag(uid), t) == (Ok::<Option<u8>, Failure>(None), t),
{
    reveal_with_fuel(flow::run, 2);
}

/// Without a version tag, the PIN is presented in its early form.
proof fn lemma_held_legacy(order: Order, pin: Seq<char>, t: Tpm, stored: Seq<u8>, d: PinData)
    requires
        order.uid <= PIN_VERSION_UID_MAX,
        has_slot(t, order.uid, stored, d),
        untagged(t, order.uid),
        !d.exhausted() ==> t.sound() && vstd::utf8::encode_utf8(util::legacy_form(pin)).len()
            <= MAX_AUTH_SIZE && 0 <= d.pinCount,
    ensures
        ({
            let old = vstd::utf8::encode_utf8(util::legacy_form(pin));
            let (v, d1) = verdict(old, stored, d);
            held(protocol::verify(order, pin), t) == held(
                protocol::after_legacy(order, pin, v),
                slotted(t, order.uid, stored, d1),
            )
        }),
{
    let uid = order.uid;
    let old = vstd::utf8::encode_utf8(util::legacy_form(pin));
    lemma_held_untagged(uid, t);
    lemma_held_and_then(
        protocol::read_tag(uid),
        |version: Option<u8>| protocol::verify_as(order, pin, version),
        t,
    );
    lemma_held_verify_exact(uid, old, t, stored, d);
    lemma_held_and_then(
        protocol::verify_exact(uid, old),
        |v: VerificationResult| protocol::after_legacy(order, pin, v),
        t,
    );
}

/// A wrong PIN is refused and counted on a slot that an early release wrote, too, a
/// locked one answers every PIN with the lockout, and neither is brought up to date.
pub proof fn law_wrong_legacy_pin(
    order: Order,
    pin: Seq<char>,
    t: Tpm,
    stored: Seq<u8>,
    d: PinData,
)
    requires
        order.uid <= PIN_VERSION_UID_MAX,
        has_slot(t, order.uid, stored, d),
        untagged(t, order.uid),
        !d.exhausted() ==> {
            let old = vstd::utf8::encode_utf8(util::legacy_form(pin));
            t.sound() && old.len() <= MAX_AUTH_SIZE && 0 <= d.pinCount && !same_pin(old, stored)
        },
    ensures
        ({
            let (v, d1) = verdict(vstd::utf8::encode_utf8(util::legacy_form(pin)), stored, d);
            held(protocol::verify(order, pin), t) == (
                Ok::<VerificationResult, Failure>(v),
                slotted(t, order.uid, stored, d1),
            )
        }),
{
    lemma_held_legacy(order, pin, t, stored, d);
}

/// True of a request that is about no index but the user's own two.
pub open spec fn about(uid: u32) -> spec_fn(Request) -> bool {
    |c: Request|
        match model::index_of(c) {
            Some(i) => i == pinindex::slot_index(uid) || i == pinindex::tag_index(uid),
            None => true,
        }
}

proof fn lemma_asks_and_then<T, U, E>(
    p: Talk<T, E>,
    f: spec_fn(T) -> Talk<U, E>,
    ok: spec_fn(Request) -> bool,
)
    requires
        flow::asks_only(p, ok),
        forall|v: T| flow::asks_only(#[trigger] f(v), ok),
    ensures
        flow::asks_only(flow::and_then(p, f), ok),
{
    let g = |r: Result<T, E>|
        match r {
            Ok(v) => f(v),
            Err(e) => Prog::<Request, Answer, Result<U, E>>::Return(Err(e)),
        };
    flow::lemma_asks_bind(p, g, ok);
}

proof fn lemma_asks_within_setup<T>(p: Talk<T, Failure>, ok: spec_fn(Request) -> bool)
    requires
        flow::asks_only(p, ok),
    ensures
        flow::asks_only(protocol::within_setup(p), ok),
{
    let g = |r: Result<T, Failure>|
        Prog::<Request, Answer, Result<T, SetupError<Seq<char>>>>::Return(
            match r {
                Ok(v) => Ok(v),
                Err(e) => Err(SetupError::Pin(e)),
            },
        );
    flow::lemma_asks_bind(p, g, ok);
}

proof fn lemma_simple_talks(uid: u32, tcti: Seq<char>, version: u8)
    ensures
        flow::asks_only(protocol::restart(tcti), about(uid)),
        flow::asks_only(protocol::get_slot(uid), about(uid)),
        flow::asks_only(protocol::read_slot(pinindex::slot_index(uid)), about(uid)),
        flow::asks_only(protocol::read_tag(uid), about(uid)),
        flow::asks_only(protocol::delete_tag(uid), about(uid)),
        flow::asks_only(protocol::write_tag(uid, version), about(uid)),
        flow::asks_only(protocol::delete_admin(uid), about(uid)),
{
    reveal_with_fuel(flow::asks_only, 2);
    let ok = about(uid);
    let index = pinindex::tag_index(uid);
    let put = protocol::put_tag(index, version);
    assert(flow::asks_only(put, ok));
    assert(flow::asks_only(protocol::define_tag(index), ok));
    lemma_asks_and_then(protocol::define_tag(index), |u: ()| put, ok);
    let after_put = |first: Result<(), Failure>| protocol::tag_put(index, version, first);
    assert forall|r: Result<(), Failure>| flow::asks_only(#[trigger] after_put(r), ok) by {}
    flow::lemma_asks_bind(put, after_put, ok);
    let gone = |r: Result<(), Failure>|
        Prog::<Request, Answer, Result<(), Failure>>::Return(Ok(()));
    flow::lemma_asks_bind(protocol::delete_tag(uid), gone, ok);
    let k = |a: Answer| protocol::slot_deleted(uid, a);
    assert forall|a: Answer| flow::asks_only(#[trigger] k(a), ok) by {}
}

proof fn lemma_verify_exact_is_about(uid: u32, pin: Seq<u8>)
    ensures
        flow::asks_only(protocol::verify_exact(uid, pin), about(uid)),
{
    let ok = about(uid);
    let index = pinindex::slot_index(uid);
    reveal_with_fuel(flow::asks_only, 2);
    let read = protocol::read_slot(index);
    assert(flow::asks_only(read, ok));
    let settle = |s: Result<Option<PinData>, Failure>|
        Prog::<Request, Answer, Result<VerificationResult, Failure>>::Return(
            Ok(VerificationResult::Invalid { locked: protocol::shows_lockout(s) }),
        );
    flow::lemma_asks_bind(read, settle, ok);
    let judge = |a: Answer| protocol::judged(uid, index, a);
    assert forall|a: Answer| flow::asks_only(#[trigger] judge(a), ok) by {}
    assert(flow::asks_only(protocol::present(uid, index, pin), ok));
    flow::lemma_asks_bind(
        read,
        |s: Result<Option<PinData>, Failure>| protocol::attempt_read(uid, index, pin, s),
        ok,
    );
    assert(flow::asks_only(protocol::attempt(uid, index, pin), ok));
}

/// Whatever the TPM answers, setting up a PIN for a user asks about no index
/// but the user's own.
pub proof fn law_setup_is_about_the_user(order: Order)
    ensures
        flow::asks_only(protocol::setup(order), about(order.uid)),
{
    let uid = order.uid;
    let ok = about(uid);
    lemma_simple_talks(uid, order.tcti, PIN_VERSION_CURRENT);
    let restart = protocol::within_setup(protocol::restart(order.tcti));
    lemma_asks_within_setup(protocol::restart(order.tcti), ok);

    assert forall|cause: Failure| flow::asks_only(#[trigger] protocol::roll_back(uid, cause), ok) by {
        let g = |d: Result<(), Failure>|
            Prog::<Request, Answer, Result<(), SetupError<Seq<char>>>>::Return(
                Err(protocol::rolled_back(cause, d)),
            );
        flow::lemma_asks_bind(protocol::delete_admin(uid), g, ok);
    }
    let after_tag = |r: Result<(), Failure>| protocol::setup_tagged(order, r);
    assert forall|r: Result<(), Failure>| flow::asks_only(#[trigger] after_tag(r), ok) by {
        match r {
            Ok(()) => {},
            Err(cause) => {
                let g = |u: ()| protocol::roll_back(uid, cause);
                lemma_asks_and_then(restart, g, ok);
            },
        }
    }
    flow::lemma_asks_bind(protocol::write_tag(uid, PIN_VERSION_CURRENT), after_tag, ok);
    lemma_asks_and_then(restart, |u: ()| protocol::setup_tag(order), ok);

    let index = pinindex::slot_index(uid);
    assert(flow::asks_only(
        protocol::define_slot(index, order.pin, order.max_attempts),
        ok,
    )) by {
        reveal_with_fuel(flow::asks_only, 2);
        assert(flow::asks_only(
            protocol::write_counters(index, order.pin, order.max_attempts),
            ok,
        ));
        assert forall|digest: Seq<u8>|
            flow::asks_only(
                #[trigger] protocol::define_with_policy(
                    index,
                    order.pin,
                    order.max_attempts,
                    digest,
                ),
                ok,
            ) by {}
    }
    let define = protocol::with_uid(
        uid,
        protocol::define_slot(index, order.pin, order.max_attempts),
    );
    lemma_asks_within_setup(define, ok);
    lemma_asks_and_then(
        protocol::within_setup(define),
        |u: ()| protocol::setup_defined(order),
        ok,
    );
    lemma_asks_and_then(restart, |u: ()| protocol::setup_empty(order), ok);
    lemma_asks_within_setup(protocol::delete_admin(uid), ok);
    lemma_asks_and_then(
        protocol::within_setup(protocol::delete_admin(uid)),
        |u: ()| protocol::setup_deleted(order),
        ok,
    );
    let after_read = |a: Answer| protocol::setup_read(order, a);
    assert forall|a: Answer| flow::asks_only(#[trigger] after_read(a), ok) by {}
}

/// Whatever the TPM answers, verifying a user's PIN asks about no index but the
/// user's own.
pub proof fn law_verify_is_about_the_user(order: Order, pin: Seq<char>)
    ensures
        flow::asks_only(protocol::verify(order, pin), about(order.uid)),
{
    let uid = order.uid;
    let ok = about(uid);
    lemma_simple_talks(uid, order.tcti, PIN_VERSION_CURRENT);
    let restart = protocol::restart(order.tcti);
    lemma_asks_within_setup(restart, ok);
    lemma_asks_within_setup(protocol::write_tag(uid, PIN_VERSION_CURRENT), ok);
    lemma_asks_within_setup(protocol::delete_admin(uid), ok);
    law_setup_is_about_the_user(order);
    lemma_asks_and_then(
        protocol::setup(order),
        |u: ()| protocol::within_setup(protocol::restart(order.tcti)),
        ok,
    );
    lemma_asks_and_then(
        protocol::within_setup(restart),
        |u: ()| protocol::migrate_setup(order),
        ok,
    );
    lemma_asks_and_then(
        protocol::within_setup(protocol::delete_admin(uid)),
        |u: ()| protocol::migrate_deleted(order),
        ok,
    );
    assert(flow::asks_only(protocol::migrate(order, pin), ok));

    let after_legacy = |v: VerificationResult| protocol::after_legacy(order, pin, v);
    assert forall|v: VerificationResult| flow::asks_only(#[trigger] after_legacy(v), ok) by {
        let report = |u: ()|
            Prog::<Request, Answer, Result<VerificationResult, Failure>>::Return(Ok(v));
        lemma_asks_and_then(restart, report, ok);
        let after_migration = |m: Result<(), SetupError<Seq<char>>>|
            protocol::conclude(order.tcti, v);
        flow::lemma_asks_bind(protocol::migrate(order, pin), after_migration, ok);
        lemma_asks_and_then(restart, |u: ()| protocol::bring_up_to_date(order, pin, v), ok);
    }
    let old = vstd::utf8::encode_utf8(util::legacy_form(pin));
    lemma_verify_exact_is_about(uid, old);
    lemma_verify_exact_is_about(uid, order.pin);
    lemma_asks_and_then(protocol::verify_exact(uid, old), after_legacy, ok);
    let after_read = |version: Option<u8>| protocol::verify_as(order, pin, version);
    assert forall|version: Option<u8>| flow::asks_only(#[trigger] after_read(version), ok) by {}
    lemma_asks_and_then(protocol::read_tag(uid), after_read, ok);
}

/// Whatever the TPM answers, removing a user's PIN asks about no index but the
/// user's own.
pub proof fn law_delete_is_about_the_user(order: Order, pin: Seq<char>)
    ensures
        flow::asks_only(protocol::delete_admin(order.uid), about(order.uid)),
        flow::asks_only(protocol::delete_with_auth(order, pin), about(order.uid)),
{
    let uid = order.uid;
    let ok = about(uid);
    lemma_simple_talks(uid, order.tcti, PIN_VERSION_CURRENT);
    law_verify_is_about_the_user(order, pin);
    let report = |u: ()|
        Prog::<Request, Answer, Result<DeleteResult, Failure>>::Return(Ok(DeleteResult::Success));
    lemma_asks_and_then(protocol::delete_admin(uid), report, ok);
    let after_verify = |v: VerificationResult| protocol::delete_verified(uid, v);
    assert forall|v: VerificationResult| flow::asks_only(#[trigger] after_verify(v), ok) by {}
    lemma_asks_and_then(protocol::verify(order, pin), after_verify, ok);
}

/// True if an index is the same on both TPMs.
pub open spec fn same_index(s: Tpm, t: Tpm, index: u32) -> bool {
    &&& s.nv.contains_key(index) == t.nv.contains_key(index)
    &&& s.nv.contains_key(index) ==> s.nv[index] == t.nv[index]
}

/// A conversation about one user leaves every other index as it was.
pub proof fn law_other_indices_stay<T>(
    p: Prog<Request, Answer, T>,
    uid: u32,
    t: Tpm,
    index: u32,
)
    requires
        flow::asks_only(p, about(uid)),
        index != pinindex::slot_index(uid),
        index != pinindex::tag_index(uid),
    ensures
        same_index(t, flow::run(p, t, model::chip()).1, index),
    decreases p,
{
    match p {
        Prog::Return(_) => {},
        Prog::Ask(c, k) => {
            let (next, a) = model::answers(t, c);
            assert((about(uid))(c));
            assert(same_index(t, next, index));
            assert(flow::asks_only(k(a), about(uid)));
            law_other_indices_stay(k(a), uid, next, index);
        },
    }
}

/// Two users do not interfere: whatever is done about one user's PIN, the other
/// user's slot and version tag stay as they are.
pub proof fn law_users_are_independent(order: Order, pin: Seq<char>, t: Tpm, other: u32)
    requires
        order.uid <= PIN_VERSION_UID_MAX,
        other <= PIN_VERSION_UID_MAX,
        other != order.uid,
    ensures
        ({
            let slot = pinindex::slot_index(other);
            let tag = pinindex::tag_index(other);
            let after_setup = held(protocol::setup(order), t).1;
            let after_verify = held(protocol::verify(order, pin), t).1;
            let after_delete = held(protocol::delete_admin(order.uid), t).1;
            let after_auth_delete = held(protocol::delete_with_auth(order, pin), t).1;
            &&& same_index(t, after_setup, slot) && same_index(t, after_setup, tag)
            &&& same_index(t, after_verify, slot) && same_index(t, after_verify, tag)
            &&& same_index(t, after_delete, slot) && same_index(t, after_delete, tag)
            &&& same_index(t, after_auth_delete, slot) && same_index(t, after_auth_delete, tag)
        }),
{
    let uid = order.uid;
    let slot = pinindex::slot_index(other);
    let tag = pinindex::tag_index(other);
    pinindex::law_indices_are_disjoint(uid, other);
    pinindex::law_indices_are_disjoint(other, uid);
    law_setup_is_about_the_user(order);
    law_verify_is_about_the_user(order, pin);
    law_delete_is_about_the_user(order, pin);
    law_other_indices_stay(protocol::setup(order), uid, t, slot);
    law_other_indices_stay(protocol::setup(order), uid, t, tag);
    law_other_indices_stay(protocol::verify(order, pin), uid, t, slot);
    law_other_indices_stay(protocol::verify(order, pin), uid, t, tag);
    law_other_indices_stay(protocol::delete_admin(uid), uid, t, slot);
    law_other_indices_stay(protocol::delete_admin(uid), uid, t, tag);
    law_other_indices_stay(protocol::delete_with_auth(order, pin), uid, t, slot);
    law_other_indices_stay(protocol::delete_with_auth(order, pin), uid, t, tag);
}

/// True of a request that presents the PIN of an order, in its current or its
/// early form, to the user's slot, and of an answer that accepts it.
pub open spec fn accepted(order: Order, pin: Seq<char>) -> spec_fn(Request, Answer) -> bool {
    |c: Request, a: Answer|
        match c {
            TpmCommand::ReadAuth { index, auth, .. } => a is Ok && index == pinindex::slot_index(
                order.uid,
            ) && (auth == order.pin || auth == vstd::utf8::encode_utf8(util::legacy_form(pin))),
            _ => false,
        }
}

/// True of a request that removes nothing.
pub open spec fn keeps() -> spec_fn(Request) -> bool {
    |c: Request| !(c is Undefine)
}

proof fn lemma_locked_and_then<T, U, E>(
    p: Talk<T, E>,
    f: spec_fn(T) -> Talk<U, E>,
    key: spec_fn(Request, Answer) -> bool,
    open: spec_fn(Request) -> bool,
    mid: spec_fn(Result<T, E>) -> bool,
    closed: spec_fn(Result<U, E>) -> bool,
)
    requires
        flow::locked_until(p, key, open, mid),
        forall|v: T| mid(Ok(v)) ==> flow::locked_until(#[trigger] f(v), key, open, closed),
        forall|e: E| #[trigger] closed(Err(e)),
    ensures
        flow::locked_until(flow::and_then(p, f), key, open, closed),
{
    let g = |r: Result<T, E>|
        match r {
            Ok(v) => f(v),
            Err(e) => Prog::<Request, Answer, Result<U, E>>::Return(Err(e)),
        };
    assert forall|r: Result<T, E>| mid(r) implies flow::locked_until(#[trigger] g(r), key, open, closed) by {
        match r {
            Ok(v) => {
                assert(flow::locked_until(f(v), key, open, closed));
            },
            Err(e) => {
                assert(closed(Err(e)));
            },
        }
    }
    flow::lemma_locked_bind(p, g, key, open, mid, closed);
}

/// True of every outcome of a verification but success.
pub open spec fn unverified() -> spec_fn(Result<VerificationResult, Failure>) -> bool {
    |r: Result<VerificationResult, Failure>| !(r matches Ok(VerificationResult::Success(_)))
}

proof fn lemma_exact_is_locked(order: Order, pin: Seq<char>, bytes: Seq<u8>)
    requires
        bytes == order.pin || bytes == vstd::utf8::encode_utf8(util::legacy_form(pin)),
    ensures
        flow::locked_until(
            protocol::verify_exact(order.uid, bytes),
            accepted(order, pin),
            keeps(),
            unverified(),
        ),
{
    let uid = order.uid;
    let key = accepted(order, pin);
    let index = pinindex::slot_index(uid);
    reveal_with_fuel(flow::locked_until, 2);
    let settle = |s: Result<Option<PinData>, Failure>|
        Prog::<Request, Answer, Result<VerificationResult, Failure>>::Return(
            Ok(VerificationResult::Invalid { locked: protocol::shows_lockout(s) }),
        );
    let any = |s: Result<Option<PinData>, Failure>| true;
    assert(flow::locked_until(protocol::read_slot(index), key, keeps(), any));
    flow::lemma_locked_bind(protocol::read_slot(index), settle, key, keeps(), any, unverified());
    let judge = |a: Answer| protocol::judged(uid, index, a);
    assert forall|a: Answer|
        a is Ok || flow::locked_until(#[trigger] judge(a), key, keeps(), unverified()) by {}
    assert(flow::locked_until(protocol::present(uid, index, bytes), key, keeps(), unverified()));
    flow::lemma_locked_bind(
        protocol::read_slot(index),
        |s: Result<Option<PinData>, Failure>| protocol::attempt_read(uid, index, bytes, s),
        key,
        keeps(),
        any,
        unverified(),
    );
    assert(flow::locked_until(protocol::attempt(uid, index, bytes), key, keeps(), unverified()));
}

/// Whatever the TPM answers, verification reports success only if the TPM has
/// accepted the PIN, and removes nothing before that.
pub proof fn law_no_success_without_the_pin(order: Order, pin: Seq<char>)
    ensures
        flow::locked_until(protocol::verify(order, pin), accepted(order, pin), keeps(), unverified()),
{
    let key = accepted(order, pin);
    let old = vstd::utf8::encode_utf8(util::legacy_form(pin));
    lemma_exact_is_locked(order, pin, order.pin);
    lemma_exact_is_locked(order, pin, old);
    let after_legacy = |v: VerificationResult| protocol::after_legacy(order, pin, v);
    assert forall|v: VerificationResult| (unverified())(Ok(v)) implies flow::locked_until(
        #[trigger] after_legacy(v),
        key,
        keeps(),
        unverified(),
    ) by {}
    lemma_locked_and_then(
        protocol::verify_exact(order.uid, old),
        after_legacy,
        key,
        keeps(),
        unverified(),
        unverified(),
    );
    let any = |s: Result<Option<u8>, Failure>| true;
    assert(flow::locked_until(protocol::read_tag(order.uid), key, keeps(), any)) by {
        reveal_with_fuel(flow::locked_until, 2);
    }
    let after_read = |version: Option<u8>| protocol::verify_as(order, pin, version);
    assert forall|version: Option<u8>| any(Ok(version)) implies flow::locked_until(
        #[trigger] after_read(version),
        key,
        keeps(),
        unverified(),
    ) by {}
    lemma_locked_and_then(
        protocol::read_tag(order.uid),
        after_read,
        key,
        keeps(),
        any,
        unverified(),
    );
}

/// True of every outcome of a removal but success.
pub open spec fn undeleted() -> spec_fn(Result<DeleteResult, Failure>) -> bool {
    |r: Result<DeleteResult, Failure>| !(r matches Ok(DeleteResult::Success))
}

/// Whatever the TPM answers, a removal that takes the PIN removes nothing, and
/// does not report success, unless the TPM has accepted the PIN.
pub proof fn law_no_removal_without_the_pin(order: Order, pin: Seq<char>)
    ensures
        flow::locked_until(protocol::delete_with_auth(order, pin), accepted(order, pin), keeps(), undeleted()),
{
    let key = accepted(order, pin);
    law_no_success_without_the_pin(order, pin);
    let after_verify = |v: VerificationResult| protocol::delete_verified(order.uid, v);
    assert forall|v: VerificationResult| (unverified())(Ok(v)) implies flow::locked_until(
        #[trigger] after_verify(v),
        key,
        keeps(),
        undeleted(),
    ) by {}
    lemma_locked_and_then(
        protocol::verify(order, pin),
        after_verify,
        key,
        keeps(),
        unverified(),
        undeleted(),
    );
}

/// The counters of a slot after a request.
pub open spec fn counters_after(uid: u32, pin: Seq<u8>, d: PinData, c: Request) -> PinData {
    match c {
        TpmCommand::ReadAuth { index, auth, size, offset } => if index == pinindex::slot_index(
            uid,
        ) && offset + size <= PinData::SIZE {
            verdict(auth, pin, d).1
        } else {
            d
        },
        _ => d,
    }
}

/// The counters of a slot are written once: no request but the removal of the
/// slot changes its limit or its PIN, none but the presentation of a PIN changes
/// the count, and when the attempts have run out nothing but the removal of the
/// slot changes anything.
pub proof fn law_counters_are_written_once(
    uid: u32,
    t: Tpm,
    pin: Seq<u8>,
    d: PinData,
    c: Request,
)
    requires
        uid <= PIN_VERSION_UID_MAX,
        t.sound(),
        has_slot(t, uid, pin, d),
        0 <= d.pinCount,
        c != (Request::Undefine { index: pinindex::slot_index(uid) }),
    ensures
        has_slot(model::answers(t, c).0, uid, pin, counters_after(uid, pin, d, c)),
        counters_after(uid, pin, d, c).pinLimit == d.pinLimit,
        d.exhausted() ==> counters_after(uid, pin, d, c) == d,
{
    pindata::law_payload_round_trip(d);
    let index = pinindex::slot_index(uid);
    assert(model::counters(t.nv[index]) == d);
    match c {
        TpmCommand::WritePolicy { index: i, terms, .. } => {
            if i == index {
                assert((t.digest)(terms) == (t.digest)(tpm::write_once()) ==> terms
                    == tpm::write_once());
            }
        },
        _ => {},
    }
}

/// The TPM after some requests, one after the other.
pub open spec fn after_requests(t: Tpm, cs: Seq<Request>) -> Tpm
    decreases cs.len(),
{
    if cs.len() == 0 {
        t
    } else {
        after_requests(model::answers(t, cs[0]).0, cs.skip(1))
    }
}

/// What a conversation asks of a TPM.
pub open spec fn asked<T>(p: Prog<Request, Answer, T>, t: Tpm) -> Seq<Request>
    decreases p,
{
    match p {
        Prog::Return(_) => Seq::empty(),
        Prog::Ask(c, k) => {
            let (next, a) = model::answers(t, c);
            seq![c] + asked(k(a), next)
        },
    }
}

/// A conversation does to a TPM what its requests do, and no more.
pub proof fn law_conversations_are_requests<T>(p: Prog<Request, Answer, T>, t: Tpm)
    ensures
        flow::run(p, t, model::chip()).1 == after_requests(t, asked(p, t)),
    decreases p,
{
    match p {
        Prog::Return(_) => {},
        Prog::Ask(c, k) => {
            let (next, a) = model::answers(t, c);
            law_conversations_are_requests(k(a), next);
            assert(asked(p, t).skip(1) =~= asked(k(a), next));
        },
    }
}

/// True if none of the requests removes the user's slot.
pub open spec fn none_removes(uid: u32, cs: Seq<Request>) -> bool {
    forall|i: int|
        0 <= i < cs.len() ==> #[trigger] cs[i] != (Request::Undefine {
            index: pinindex::slot_index(uid),
        })
}

/// The counters of a slot after some requests.
pub open spec fn counters_after_all(uid: u32, pin: Seq<u8>, d: PinData, cs: Seq<Request>) -> PinData
    decreases cs.len(),
{
    if cs.len() == 0 {
        d
    } else {
        counters_after_all(uid, pin, counters_after(uid, pin, d, cs[0]), cs.skip(1))
    }
}

/// A slot stays until it is removed: whatever is asked of the TPM meanwhile, by
/// whomever, its PIN and its limit stay the same, and when the attempts have run out
/// the count stays the same, too.
pub proof fn law_slots_stay(uid: u32, t: Tpm, pin: Seq<u8>, d: PinData, cs: Seq<Request>)
    requires
        uid <= PIN_VERSION_UID_MAX,
        t.sound(),
        has_slot(t, uid, pin, d),
        0 <= d.pinCount,
        none_removes(uid, cs),
    ensures
        has_slot(after_requests(t, cs), uid, pin, counters_after_all(uid, pin, d, cs)),
        counters_after_all(uid, pin, d, cs).pinLimit == d.pinLimit,
        d.exhausted() ==> counters_after_all(uid, pin, d, cs) == d,
    decreases cs.len(),
{
    if cs.len() > 0 {
        law_counters_are_written_once(uid, t, pin, d, cs[0]);
        law_slots_stay(
            uid,
            model::answers(t, cs[0]).0,
            pin,
            counters_after(uid, pin, d, cs[0]),
            cs.skip(1),
        );
    }
}

/// The writing of a version tag leaves the slot alone.
proof fn lemma_write_tag_keeps_the_slot(uid: u32, version: u8, t: Tpm)
    requires
        uid <= PIN_VERSION_UID_MAX,
    ensures
        same_index(
            t,
            held(protocol::write_tag(uid, version), t).1,
            pinindex::slot_index(uid),
        ),
        held(protocol::write_tag(uid, version), t).1.digest == t.digest,
        held(protocol::write_tag(uid, version), t).1.wrong == t.wrong,
{
    reveal_with_fuel(flow::run, 4);
    reveal_with_fuel(flow::bind, 4);
    pinindex::law_indices_are_disjoint(uid, uid);
}

/// A setup that succeeded, on whatever TPM, has left the user with the PIN, no failed
/// attempts and the limit of its policy.
pub proof fn law_successful_setup(order: Order, t: Tpm)
    requires
        held(protocol::setup(order), t).0 is Ok,
    ensures
        storable(order),
        has_slot(
            held(protocol::setup(order), t).1,
            order.uid,
            order.pin,
            protocol::fresh(order.max_attempts),
        ),
        t.sound() ==> held(protocol::setup(order), t).1.sound(),
{
    let uid = order.uid;
    assert(uid <= PIN_VERSION_UID_MAX && (no_slot(t, uid) || occupied(t, uid))) by {
        reveal_with_fuel(flow::run, 2);
    }
    lemma_held_setup_read(order, t);
    if occupied(t, uid) {
        lemma_held_overwrite(order, t);
        law_delete_admin(uid, t);
        lemma_successful_setup_empty(order, cleared(t, uid));
    } else {
        lemma_successful_setup_empty(order, t);
    }
}

proof fn lemma_successful_setup_empty(order: Order, t: Tpm)
    requires
        order.uid <= PIN_VERSION_UID_MAX,
        held(protocol::setup_empty(order), t).0 is Ok,
    ensures
        storable(order),
        has_slot(
            held(protocol::setup_empty(order), t).1,
            order.uid,
            order.pin,
            protocol::fresh(order.max_attempts),
        ),
        t.sound() ==> held(protocol::setup_empty(order), t).1.sound(),
{
    let uid = order.uid;
    let define = protocol::define_slot(
        pinindex::slot_index(uid),
        order.pin,
        order.max_attempts,
    );
    lemma_held_within_setup(define, t);
    lemma_held_and_then(
        protocol::within_setup(define),
        |u: ()| protocol::setup_defined(order),
        t,
    );
    assert(held(define, t).0 is Ok);
    assert(storable(order) && no_slot(t, uid)) by {
        reveal_with_fuel(flow::run, 3);
    }
    lemma_held_setup_slot(order, t);
    let t1 = slotted(t, uid, order.pin, protocol::fresh(order.max_attempts));
    let write = protocol::write_tag(uid, PIN_VERSION_CURRENT);
    flow::lemma_run_bind(
        write,
        |r: Result<(), Failure>| protocol::setup_tagged(order, r),
        t1,
        model::chip(),
    );
    let (r, t2) = held(write, t1);
    lemma_write_tag_keeps_the_slot(uid, PIN_VERSION_CURRENT, t1);
    match r {
        Ok(()) => {},
        Err(cause) => {
            let restart = protocol::restart(order.tcti);
            lemma_held_restart(order.tcti, t2);
            lemma_held_within_setup(restart, t2);
            lemma_held_and_then(
                protocol::within_setup(restart),
                |u: ()| protocol::roll_back(uid, cause),
                t2,
            );
            flow::lemma_run_bind(
                protocol::delete_admin(uid),
                |d: Result<(), Failure>|
                    Prog::<Request, Answer, Result<(), SetupError<Seq<char>>>>::Return(
                        Err(protocol::rolled_back(cause, d)),
                    ),
                t2,
                model::chip(),
            );
        },
    }
}

/// A new lockout policy does not affect existing PINs: after a setup that succeeded,
/// and whatever was asked of the TPM since, by whatever manager and under whatever
/// policy, short of removing the slot, the slot's limit is that of the policy of the
/// setup.
pub proof fn law_limit_outlives_the_policy(order: Order, t: Tpm, cs: Seq<Request>)
    requires
        t.sound(),
        held(protocol::setup(order), t).0 is Ok,
        none_removes(order.uid, cs),
    ensures
        held(
            protocol::get_slot(order.uid),
            after_requests(held(protocol::setup(order), t).1, cs),
        ).0 matches Ok(Some(s)) && s.pinLimit == order.max_attempts as i32,
{
    let uid = order.uid;
    let t1 = held(protocol::setup(order), t).1;
    let d = protocol::fresh(order.max_attempts);
    law_successful_setup(order, t);
    law_slots_stay(uid, t1, order.pin, d, cs);
    lemma_held_get_slot(uid, after_requests(t1, cs));
}

/// True of a request that neither removes the user's slot nor touches the user's
/// version tag, unless it only reads it.
pub open spec fn leaves_pin(uid: u32, c: Request) -> bool {
    match model::index_of(c) {
        Some(i) => {
            &&& i == pinindex::slot_index(uid) ==> !(c is Undefine)
            &&& i == pinindex::tag_index(uid) ==> c is Lookup || c is ReadOwner
        },
        None => true,
    }
}

proof fn lemma_tag_stays(uid: u32, t: Tpm, cs: Seq<Request>)
    requires
        forall|i: int| 0 <= i < cs.len() ==> leaves_pin(uid, #[trigger] cs[i]),
    ensures
        same_index(t, after_requests(t, cs), pinindex::tag_index(uid)),
    decreases cs.len(),
{
    if cs.len() > 0 {
        let next = model::answers(t, cs[0]).0;
        assert(leaves_pin(uid, cs[0]));
        lemma_tag_stays(uid, next, cs.skip(1));
    }
}

/// A PIN that is locked answers every attempt with the lockout.
proof fn lemma_held_locked(order: Order, pin: Seq<char>, t: Tpm, stored: Seq<u8>, d: PinData)
    requires
        order.uid <= PIN_VERSION_UID_MAX,
        has_slot(t, order.uid, stored, d),
        d.exhausted(),
        held(protocol::read_tag(order.uid), t).0 matches Ok(version) && (version matches Some(
            v,
        ) ==> v == PIN_VERSION_CURRENT),
    ensures
        held(protocol::verify(order, pin), t) == (
            Ok::<VerificationResult, Failure>(VerificationResult::LockedOut),
            t,
        ),
        held(protocol::delete_with_auth(order, pin), t) == (
            Ok::<DeleteResult, Failure>(DeleteResult::LockedOut),
            t,
        ),
{
    let uid = order.uid;
    let old = vstd::utf8::encode_utf8(util::legacy_form(pin));
    assert(held(protocol::read_tag(uid), t).1 == t) by {
        reveal_with_fuel(flow::run, 2);
    }
    lemma_held_and_then(
        protocol::read_tag(uid),
        |version: Option<u8>| protocol::verify_as(order, pin, version),
        t,
    );
    lemma_held_verify_exact(uid, order.pin, t, stored, d);
    lemma_held_verify_exact(uid, old, t, stored, d);
    lemma_held_and_then(
        protocol::verify_exact(uid, old),
        |v: VerificationResult| protocol::after_legacy(order, pin, v),
        t,
    );
    assert(slotted(t, uid, stored, d).nv =~= t.nv);
    lemma_held_and_then(
        protocol::verify(order, pin),
        |v: VerificationResult| protocol::delete_verified(uid, v),
        t,
    );
}

/// A lock is final: once a verification has reported that it tripped the lock, and
/// whatever was asked of the TPM since, short of removing the PIN or writing its
/// version tag, the attempts have run out, and every attempt with every PIN, the right
/// one too, to verify it or to remove it by its own authority, is answered with the
/// lockout and changes nothing.
pub proof fn law_lock_is_final(
    order: Order,
    pin: Seq<char>,
    t: Tpm,
    stored: Seq<u8>,
    d: PinData,
    cs: Seq<Request>,
    any: Order,
    any_pin: Seq<char>,
)
    requires
        t.sound(),
        has_slot(t, order.uid, stored, d),
        0 <= d.pinCount,
        held(protocol::verify(order, pin), t).0 == Ok::<VerificationResult, Failure>(
            VerificationResult::Invalid { locked: true },
        ),
        forall|i: int| 0 <= i < cs.len() ==> leaves_pin(order.uid, #[trigger] cs[i]),
        any.uid == order.uid,
    ensures
        ({
            let later = after_requests(held(protocol::verify(order, pin), t).1, cs);
            &&& held(protocol::verify(any, any_pin), later) == (
                Ok::<VerificationResult, Failure>(VerificationResult::LockedOut),
                later,
            )
            &&& held(protocol::delete_with_auth(any, any_pin), later) == (
                Ok::<DeleteResult, Failure>(DeleteResult::LockedOut),
                later,
            )
            &&& held(protocol::get_slot(order.uid), later).0 matches Ok(Some(s)) && s.exhausted()
        }),
{
    let uid = order.uid;
    let old = vstd::utf8::encode_utf8(util::legacy_form(pin));
    pinindex::law_indices_are_disjoint(uid, uid);
    lemma_held_and_then(
        protocol::read_tag(uid),
        |version: Option<u8>| protocol::verify_as(order, pin, version),
        t,
    );
    assert(uid <= PIN_VERSION_UID_MAX && held(protocol::read_tag(uid), t).1 == t) by {
        reveal_with_fuel(flow::run, 2);
    }
    lemma_held_and_then(
        protocol::verify_exact(uid, old),
        |v: VerificationResult| protocol::after_legacy(order, pin, v),
        t,
    );
    let bytes = match held(protocol::read_tag(uid), t).0 {
        Ok(Some(_)) => order.pin,
        _ => old,
    };
    if bytes.len() > MAX_AUTH_SIZE && !d.exhausted() {
        lemma_too_long(uid, bytes, t, stored, d);
    }
    lemma_held_verify_exact(uid, bytes, t, stored, d);
    let (v, d1) = verdict(bytes, stored, d);
    if held(protocol::read_tag(uid), t).0 == Ok::<Option<u8>, Failure>(None) && v is Success {
        law_migration_does_not_decide(order, pin, t, model::chip());
    }
    let t1 = held(protocol::verify(order, pin), t).1;
    assert(t1 == slotted(t, uid, stored, d1));
    assert(d1.exhausted());
    let later = after_requests(t1, cs);
    assert forall|i: int| 0 <= i < cs.len() implies #[trigger] cs[i] != (Request::Undefine {
        index: pinindex::slot_index(uid),
    }) by {
        assert(leaves_pin(uid, cs[i]));
    }
    law_slots_stay(uid, t1, stored, d1, cs);
    lemma_tag_stays(uid, t1, cs);
    assert(held(protocol::read_tag(uid), later).0 == held(protocol::read_tag(uid), t).0) by {
        reveal_with_fuel(flow::run, 2);
    }
    lemma_held_locked(any, any_pin, later, stored, d1);
    lemma_held_get_slot(uid, later);
}

/// A PIN that is too long for the TPM is not presented.
proof fn lemma_too_long(uid: u32, bytes: Seq<u8>, t: Tpm, stored: Seq<u8>, d: PinData)
    requires
        uid <= PIN_VERSION_UID_MAX,
        has_slot(t, uid, stored, d),
        bytes.len() > MAX_AUTH_SIZE,
        !d.exhausted(),
    ensures
        held(protocol::verify_exact(uid, bytes), t).0 is Err,
{
    pindata::law_payload_round_trip(d);
    reveal_with_fuel(flow::run, 4);
    reveal_with_fuel(flow::bind, 2);
}

} // verus!

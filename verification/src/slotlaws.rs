//! What the operations on PINs ask of the TPM, whatever it answers: each command is
//! justified by the answers before it, and so is the outcome.
use crate::flow;
use crate::flow::Prog;
use crate::pindata;
use crate::pindata::PinData;
use crate::pinerror::{DeleteResult, PinError, SetupError, VerificationResult};
use crate::pinindex;
use crate::pinmanager::Management;
use crate::protocol;
use crate::protocol::{Order, Talk};
use crate::tpm::{
    Answer, CommandCode, FailureKind, NvKind, NvTemplate, PolicyTerms, Request, TpmCommand,
    TpmFailure,
};
use crate::text;
use crate::util;
use vstd::prelude::*;
use vstd::utf8::encode_utf8;

verus! {

/// Where the slot of a user is.
pub open spec fn slot_at(uid: u32) -> int {
    0x0150_0000 + uid
}

/// Where the version tag of a user is.
pub open spec fn tag_at(uid: u32) -> int {
    0x0160_0000 + uid
}

/// What has come out so far of a conversation about a user's PIN.
pub struct SlotNotes {
    /// The digest of the policy.
    pub digest: Option<Seq<u8>>,
    /// The slot was defined, and not removed since.
    pub defined: bool,
    /// Its counters were written.
    pub written: bool,
    /// The version tag was written, and not removed since.
    pub tagged: bool,
    /// The slot that was there before was removed.
    pub removed: bool,
    /// What the owner's last reads of the slot and of the version tag said.
    pub slot: Option<Answer>,
    pub tag: Option<Answer>,
    /// What the last authorization value was, and what came of it.
    pub presented: Option<(Seq<u8>, Answer)>,
    /// The words with which the last attempt to write or define the version tag was
    /// refused.
    pub tag_trouble: Option<Seq<char>>,
    /// The connection has to be opened afresh before the next change: something was
    /// presented, stored, removed or refused since it was opened.
    pub stale: bool,
    /// The last command and its answer.
    pub asked: Option<Request>,
    pub last: Option<Answer>,
}

/// Nothing has come out yet.
pub open spec fn untouched() -> SlotNotes {
    SlotNotes {
        digest: None,
        defined: false,
        written: false,
        tagged: false,
        removed: false,
        slot: None,
        tag: None,
        presented: None,
        tag_trouble: None,
        stale: false,
        asked: None,
        last: None,
    }
}

/// Taking note of a command and its answer.
pub open spec fn slot_noted(uid: u32, m: SlotNotes, c: Request, a: Answer) -> SlotNotes {
    let stale = match c {
        TpmCommand::Restart { .. } => m.stale && a is Err,
        TpmCommand::ReadAuth { .. } | TpmCommand::Undefine { .. } => true,
        TpmCommand::WritePolicy { .. } => true,
        TpmCommand::WriteOwner { .. } => m.stale || a is Err,
        _ => m.stale,
    };
    let m = SlotNotes { stale, asked: Some(c), last: Some(a), ..m };
    match c {
        TpmCommand::ReadOwner { index } => if index == slot_at(uid) {
            SlotNotes { slot: Some(a), ..m }
        } else {
            SlotNotes { tag: Some(a), ..m }
        },
        TpmCommand::ReadAuth { auth, .. } => SlotNotes { presented: Some((auth, a)), ..m },
        _ => match a {
            Err(f) => if c is WriteOwner || (c is Define && c->template.index == tag_at(uid)) {
                SlotNotes { tag_trouble: Some(f.text), ..m }
            } else {
                m
            },
            Ok(b) => match c {
                TpmCommand::TrialDigest { .. } => SlotNotes { digest: Some(b), ..m },
                TpmCommand::Define { template, .. } => if template.index == slot_at(uid) {
                    SlotNotes { defined: true, written: false, ..m }
                } else {
                    m
                },
                TpmCommand::WritePolicy { .. } => SlotNotes { written: true, ..m },
                TpmCommand::WriteOwner { .. } => SlotNotes { tagged: true, ..m },
                TpmCommand::Undefine { index } => if index == slot_at(uid) {
                    SlotNotes { defined: false, written: false, removed: true, ..m }
                } else {
                    SlotNotes { tagged: false, ..m }
                },
                _ => m,
            },
        },
    }
}

/// True of terms that allow one write, to an index that was never written.
pub open spec fn one_write(terms: PolicyTerms) -> bool {
    terms.command == CommandCode::NvWrite && !terms.written
}

/// True of the public area of a slot: its counters can be read with the PIN or by the
/// owner and written only under the policy, and failures do not count elsewhere.
pub open spec fn slot_area(t: NvTemplate<Seq<u8>>, digest: Seq<u8>) -> bool {
    &&& t.kind == NvKind::PinFail
    &&& t.auth_read
    &&& t.owner_read
    &&& !t.owner_write
    &&& t.policy_write
    &&& t.no_da
    &&& t.size == 8
    &&& t.policy == Some(digest)
}

/// True of the public area of a version tag: one byte for the owner.
pub open spec fn tag_area(t: NvTemplate<Seq<u8>>) -> bool {
    &&& t.kind == NvKind::Ordinary
    &&& !t.auth_read
    &&& t.owner_read
    &&& t.owner_write
    &&& !t.policy_write
    &&& t.no_da
    &&& t.size == 1
    &&& t.policy is None
}

/// When a command that stores a PIN may be given.
pub open spec fn store_may(order: Order, m: SlotNotes, c: Request) -> bool {
    match c {
        TpmCommand::Restart { tcti } => tcti == order.tcti,
        TpmCommand::TrialDigest { terms } => one_write(terms) && !m.stale,
        TpmCommand::Define { template, auth } => {
            ||| {
                &&& template.index == slot_at(order.uid)
                &&& !m.defined
                &&& auth == Some(order.pin)
                &&& order.pin.len() <= 64
                &&& m.digest is Some
                &&& slot_area(template, m.digest->0)
            }
            ||| template.index == tag_at(order.uid) && tag_area(template) && auth is None
        },
        TpmCommand::WritePolicy { index, terms, auth, data, offset } => {
            &&& index == slot_at(order.uid)
            &&& m.defined
            &&& !m.written
            &&& one_write(terms)
            &&& auth == order.pin
            &&& pindata::decoded(data) == Some(
                PinData { pinCount: 0, pinLimit: order.max_attempts as i32 },
            )
            &&& offset == 0
        },
        TpmCommand::WriteOwner { index, data, offset } => index == tag_at(order.uid) && data
            == seq![1u8] && offset == 0 && (m.stale ==> m.tag_trouble is Some),
        TpmCommand::Undefine { index } => (index == slot_at(order.uid) && !m.stale) || index
            == tag_at(order.uid),
        _ => false,
    }
}

/// When the setup may give a command: the version tag is written only once the counters
/// are.
pub open spec fn setup_may(order: Order, m: SlotNotes, c: Request) -> bool {
    match c {
        TpmCommand::ReadOwner { index } => index == slot_at(order.uid) && !m.defined && !m.tagged,
        TpmCommand::WriteOwner { .. } => m.written && store_may(order, m, c),
        _ => m.slot is Some && store_may(order, m, c),
    }
}

/// The last answer was a refusal with this text.
pub open spec fn refused_with(m: SlotNotes, text: Seq<char>) -> bool {
    m.last matches Some(Err(f)) && f.text == text
}

/// The version tag could not be written, for this reason.
pub open spec fn tag_refused(m: SlotNotes, cause: PinError<Seq<char>>) -> bool {
    cause matches PinError::TpmError(text) && m.tag_trouble == Some(text)
}

/// True if the refusal of the last command is no answer to be expected: there may be
/// nothing to be read or removed, and a version tag may have to be defined first.
pub open spec fn fatal(uid: u32, m: SlotNotes) -> bool {
    match m.asked {
        Some(TpmCommand::ReadOwner { .. }) => m.last is Some && !says_absent(m.last->0),
        Some(TpmCommand::Undefine { .. }) => m.last is Some && !says_absent(m.last->0),
        Some(TpmCommand::WriteOwner { .. }) => false,
        Some(TpmCommand::Define { template, .. }) => template.index == slot_at(uid),
        Some(TpmCommand::ReadAuth { .. }) => m.last matches Some(Err(f)) && f.kind
            == FailureKind::Other,
        Some(_) => true,
        None => false,
    }
}

/// How the setup may end.
pub open spec fn setup_end(
    order: Order,
    m: SlotNotes,
    o: Result<(), SetupError<Seq<char>>>,
) -> bool {
    match o {
        Ok(()) => m.defined && m.written && m.tagged && order.uid <= 0xF_FFFF,
        Err(SetupError::Pin(PinError::UidOverflow(uid))) => uid == order.uid && uid > 0xF_FFFF && m
            == untouched(),
        Err(SetupError::Pin(PinError::NotProvisioned(uid))) => {
            &&& uid == order.uid
            &&& !m.defined
            &&& m.last is Some
            &&& says_absent(m.last->0)
        },
        Err(SetupError::Pin(PinError::TpmError(text))) => {
            ||| refused_with(m, text) && fatal(order.uid, m)
            ||| !m.defined && order.pin.len() > 64 && text == "parameter provided is of the wrong size"@
        },
        Err(SetupError::Pin(_)) => false,
        Err(SetupError::TagNotWritten { cause }) => !m.defined && m.removed && tag_refused(
            m,
            cause,
        ),
        Err(SetupError::RollbackFailed { cause, rollback }) => m.defined && m.written && !m.tagged
            && tag_refused(m, cause) && not_removed(order.uid, m, rollback),
    }
}

/// Setting up keeps to the rules from here on.
pub open spec fn setup_goes_on(
    order: Order,
    talk: Talk<(), SetupError<Seq<char>>>,
    m: SlotNotes,
) -> bool {
    flow::watched(
        talk,
        m,
        |m: SlotNotes, c: Request, a: Answer| slot_noted(order.uid, m, c, a),
        |m: SlotNotes, c: Request| setup_may(order, m, c),
        |m: SlotNotes, o: Result<(), SetupError<Seq<char>>>| setup_end(order, m, o),
    )
}

/// A part of the setup keeps to the rules, and if it succeeds, `ready` holds.
pub open spec fn leads_to(
    order: Order,
    talk: Talk<(), PinError<Seq<char>>>,
    m: SlotNotes,
    ready: spec_fn(SlotNotes) -> bool,
) -> bool {
    flow::watched(
        talk,
        m,
        |m: SlotNotes, c: Request, a: Answer| slot_noted(order.uid, m, c, a),
        |m: SlotNotes, c: Request| setup_may(order, m, c),
        |m: SlotNotes, r: Result<(), PinError<Seq<char>>>|
            match r {
                Ok(_) => ready(m),
                Err(e) => setup_end(order, m, Err(SetupError::Pin(e))),
            },
    )
}

proof fn lemma_within<T>(
    talk: Talk<T, PinError<Seq<char>>>,
    m: SlotNotes,
    note: spec_fn(SlotNotes, Request, Answer) -> SlotNotes,
    may: spec_fn(SlotNotes, Request) -> bool,
    first: spec_fn(SlotNotes, Result<T, PinError<Seq<char>>>) -> bool,
    mid: spec_fn(SlotNotes, Result<T, SetupError<Seq<char>>>) -> bool,
)
    requires
        flow::watched(talk, m, note, may, first),
        forall|n: SlotNotes, t: T| #[trigger] first(n, Ok(t)) ==> mid(n, Ok(t)),
        forall|n: SlotNotes, e: PinError<Seq<char>>| #[trigger]
            first(n, Err(e)) ==> mid(n, Err(SetupError::Pin(e))),
    ensures
        flow::watched(protocol::within_setup(talk), m, note, may, mid),
{
    let wrap = |r: Result<T, PinError<Seq<char>>>|
        Prog::Return(
            match r {
                Ok(t) => Ok(t),
                Err(e) => Err(SetupError::Pin(e)),
            },
        );
    assert forall|n: SlotNotes, r: Result<T, PinError<Seq<char>>>| #[trigger]
        first(n, r) implies flow::watched(wrap(r), n, note, may, mid) by {
        match r {
            Ok(t) => {
                assert(first(n, Ok(t)));
            },
            Err(e) => {
                assert(first(n, Err(e)));
            },
        }
    }
    flow::lemma_watched_bind(talk, wrap, m, note, may, first, mid);
}

proof fn lemma_then(
    order: Order,
    talk: Talk<(), PinError<Seq<char>>>,
    m: SlotNotes,
    ready: spec_fn(SlotNotes) -> bool,
    next: spec_fn(()) -> Talk<(), SetupError<Seq<char>>>,
)
    requires
        leads_to(order, talk, m, ready),
        forall|n: SlotNotes| #[trigger] ready(n) ==> setup_goes_on(order, next(()), n),
    ensures
        setup_goes_on(order, flow::and_then(protocol::within_setup(talk), next), m),
{
    let note = |m: SlotNotes, c: Request, a: Answer| slot_noted(order.uid, m, c, a);
    let may = |m: SlotNotes, c: Request| setup_may(order, m, c);
    let end = |m: SlotNotes, o: Result<(), SetupError<Seq<char>>>| setup_end(order, m, o);
    let first = |m: SlotNotes, r: Result<(), PinError<Seq<char>>>|
        match r {
            Ok(_) => ready(m),
            Err(e) => setup_end(order, m, Err(SetupError::Pin(e))),
        };
    let mid = |m: SlotNotes, r: Result<(), SetupError<Seq<char>>>|
        match r {
            Ok(_) => ready(m),
            Err(e) => setup_end(order, m, Err(e)),
        };
    lemma_within(talk, m, note, may, first, mid);
    assert forall|n: SlotNotes, t: ()| #[trigger] mid(n, Ok(t)) implies flow::watched(
        next(t),
        n,
        note,
        may,
        end,
    ) by {
        assert(ready(n));
        assert(setup_goes_on(order, next(()), n));
    }
    flow::lemma_watched_and_then(
        protocol::within_setup(talk),
        next,
        m,
        note,
        may,
        mid,
        end,
    );
}

/// The slot is stored, without a version tag.
pub open spec fn stored(m: SlotNotes) -> bool {
    m.slot is Some && m.defined && m.written && !m.tagged
}

/// The slot is known to be empty.
pub open spec fn vacant(m: SlotNotes) -> bool {
    m.slot is Some && !m.defined && !m.tagged
}

proof fn lemma_setup_tag(order: Order, m: SlotNotes)
    requires
        order.uid <= 0xF_FFFF,
        stored(m),
        !m.stale,
    ensures
        setup_goes_on(order, protocol::setup_tag(order), m),
{
    reveal_with_fuel(flow::watched, 7);
    reveal_with_fuel(flow::bind, 5);
}

proof fn lemma_setup_defined(order: Order, m: SlotNotes)
    requires
        order.uid <= 0xF_FFFF,
        stored(m),
    ensures
        setup_goes_on(order, protocol::setup_defined(order), m),
{
    reveal_with_fuel(flow::watched, 3);
    let ready = |n: SlotNotes| stored(n) && !n.stale;
    assert(leads_to(order, protocol::restart(order.tcti), m, ready));
    assert forall|n: SlotNotes| #[trigger] ready(n) implies setup_goes_on(
        order,
        protocol::setup_tag(order),
        n,
    ) by {
        lemma_setup_tag(order, n);
    }
    lemma_then(
        order,
        protocol::restart(order.tcti),
        m,
        ready,
        |u: ()| protocol::setup_tag(order),
    );
}

proof fn lemma_setup_empty(order: Order, m: SlotNotes)
    requires
        order.uid <= 0xF_FFFF,
        vacant(m),
        !m.stale,
    ensures
        setup_goes_on(order, protocol::setup_empty(order), m),
{
    reveal_with_fuel(flow::watched, 5);
    pindata::law_payload_round_trip(protocol::fresh(order.max_attempts));
    let ready = |n: SlotNotes| stored(n);
    let talk = protocol::with_uid(
        order.uid,
        protocol::define_slot(
            pinindex::slot_index(order.uid),
            order.pin,
            order.max_attempts,
        ),
    );
    assert(leads_to(order, talk, m, ready));
    assert forall|n: SlotNotes| #[trigger] ready(n) implies setup_goes_on(
        order,
        protocol::setup_defined(order),
        n,
    ) by {
        lemma_setup_defined(order, n);
    }
    lemma_then(order, talk, m, ready, |u: ()| protocol::setup_defined(order));
}

proof fn lemma_overwrite(order: Order, m: SlotNotes)
    requires
        order.uid <= 0xF_FFFF,
        vacant(m),
        !m.stale,
    ensures
        setup_goes_on(order, protocol::overwrite(order), m),
{
    reveal_with_fuel(flow::watched, 4);
    reveal_with_fuel(flow::bind, 3);
    let ready = |n: SlotNotes| vacant(n);
    let reopened = |n: SlotNotes| vacant(n) && !n.stale;
    assert forall|n: SlotNotes| #[trigger] ready(n) implies setup_goes_on(
        order,
        protocol::setup_deleted(order),
        n,
    ) by {
        assert(leads_to(order, protocol::restart(order.tcti), n, reopened));
        assert forall|x: SlotNotes| #[trigger] reopened(x) implies setup_goes_on(
            order,
            protocol::setup_empty(order),
            x,
        ) by {
            lemma_setup_empty(order, x);
        }
        lemma_then(
            order,
            protocol::restart(order.tcti),
            n,
            reopened,
            |u: ()| protocol::setup_empty(order),
        );
    }
    assert(leads_to(order, protocol::delete_admin(order.uid), m, ready));
    lemma_then(
        order,
        protocol::delete_admin(order.uid),
        m,
        ready,
        |u: ()| protocol::setup_deleted(order),
    );
}

proof fn lemma_setup(order: Order, m: SlotNotes)
    requires
        order.uid <= 0xF_FFFF,
        !m.defined,
        !m.tagged,
        !m.stale,
    ensures
        setup_goes_on(order, protocol::setup(order), m),
{
    let note = |m: SlotNotes, c: Request, a: Answer| slot_noted(order.uid, m, c, a);
    let may = |m: SlotNotes, c: Request| setup_may(order, m, c);
    let end = |m: SlotNotes, o: Result<(), SetupError<Seq<char>>>| setup_end(order, m, o);
    let c: Request = TpmCommand::ReadOwner { index: pinindex::slot_index(order.uid) };
    let k = |a: Answer| protocol::setup_read(order, a);
    assert forall|a: Answer| flow::watched(#[trigger] k(a), note(m, c, a), note, may, end) by {
        let n = note(m, c, a);
        assert(vacant(n));
        lemma_overwrite(order, n);
        lemma_setup_empty(order, n);
    }
}

/// Setting a PIN up touches only the slot and the version tag of the user. It succeeds
/// exactly when the slot was defined with the PIN, its counters were written under the
/// terms that allow one write, and the version tag was written after that. A PIN
/// without a tag is taken back.
pub proof fn law_setup_commands(order: Order)
    ensures
        flow::watched(
            protocol::setup(order),
            untouched(),
            |m: SlotNotes, c: Request, a: Answer| slot_noted(order.uid, m, c, a),
            |m: SlotNotes, c: Request| setup_may(order, m, c),
            |m: SlotNotes, o: Result<(), SetupError<Seq<char>>>| setup_end(order, m, o),
        ),
{
    if order.uid <= 0xF_FFFF {
        lemma_setup(order, untouched());
    }
}

/// The counters that an answer holds have run out.
pub open spec fn shows_exhausted(a: Option<Answer>) -> bool {
    a matches Some(Ok(b)) && (pindata::decoded(b) matches Some(d) && d.pinCount >= d.pinLimit)
}

/// True of a failure that says that there is nothing at the index.
pub open spec fn says_absent(a: Answer) -> bool {
    a matches Err(f) && (f.kind == FailureKind::Handle || f.kind == FailureKind::NvUninitialized)
}

/// What may be presented as the PIN: the PIN itself if the version tag is the current
/// one, and the form that early releases stored if there is no tag.
pub open spec fn to_present(order: Order, pin: Seq<char>, m: SlotNotes, auth: Seq<u8>) -> bool {
    match m.tag {
        Some(Ok(b)) => b == seq![1u8] && auth == order.pin,
        Some(Err(_)) => says_absent(m.tag->0) && auth == encode_utf8(util::legacy_form(pin)),
        None => false,
    }
}

/// The TPM has accepted what was presented, and attempts are left.
pub open spec fn granted(m: SlotNotes) -> bool {
    m.presented matches Some((_, Ok(b))) && pindata::decoded(b) is Some && !shows_exhausted(
        Some(Ok(b)),
    )
}

/// When the verification may give a command. Nothing is changed, except that a PIN of an
/// early release that was accepted is brought up to date.
pub open spec fn verify_may(order: Order, pin: Seq<char>, m: SlotNotes, c: Request) -> bool {
    match c {
        TpmCommand::ReadOwner { index } => {
            ||| index == tag_at(order.uid) && m.tag is None
            ||| index == slot_at(order.uid) && (m.presented is Some || (m.asked matches Some(
                TpmCommand::Lookup { .. },
            )))
        },
        TpmCommand::Lookup { index } => index == slot_at(order.uid),
        TpmCommand::ReadAuth { index, auth, size, offset } => {
            &&& index == slot_at(order.uid)
            &&& m.presented is None
            &&& to_present(order, pin, m, auth)
            &&& auth.len() <= 64
            &&& m.slot is Some
            &&& !shows_exhausted(m.slot)
            &&& size == 8
            &&& offset == 0
        },
        _ => {
            &&& granted(m)
            &&& m.tag matches Some(Err(_))
            &&& renewing(order, pin, m, c)
            &&& store_may(order, m, c)
        },
    }
}

/// If a PIN of an early release is in its current form already, only the version tag is
/// written; otherwise it is stored anew, and the tag is written after that.
pub open spec fn renewing(order: Order, pin: Seq<char>, m: SlotNotes, c: Request) -> bool {
    if util::legacy_form(pin) == pin {
        match c {
            TpmCommand::Restart { .. } | TpmCommand::WriteOwner { .. } => true,
            TpmCommand::Define { template, .. } => template.index == tag_at(order.uid),
            _ => false,
        }
    } else {
        c is WriteOwner ==> m.written
    }
}

/// How the verification may end.
pub open spec fn verify_end(
    order: Order,
    pin: Seq<char>,
    m: SlotNotes,
    o: Result<VerificationResult, PinError<Seq<char>>>,
) -> bool {
    &&& o is Ok ==> order.uid <= 0xF_FFFF
    &&& match o {
        Ok(VerificationResult::Success(d)) => granted(m) && (m.presented matches Some((_, Ok(b)))
            && pindata::decoded(b) == Some(d)),
        Ok(VerificationResult::Invalid { locked }) => {
            &&& m.presented matches Some((_, Err(f))) && (f.kind == FailureKind::AuthFail || f.kind
                == FailureKind::BadAuth)
            &&& m.asked matches Some(TpmCommand::ReadOwner { index }) && index == slot_at(
                order.uid,
            )
            &&& locked == shows_exhausted(m.slot)
        },
        Ok(VerificationResult::LockedOut) => match m.presented {
            None => shows_exhausted(m.slot),
            Some((_, a)) => shows_exhausted(Some(a)),
        },
        Err(PinError::UidOverflow(uid)) => uid == order.uid && uid > 0xF_FFFF && m.last is None,
        Err(PinError::NotProvisioned(uid)) => uid == order.uid && (m.presented matches Some((_, a))
            && says_absent(a)),
        Err(PinError::TpmError(text)) => {
            ||| refused_with(m, text) && fatal(order.uid, m)
            ||| m.presented is None && (m.tag matches Some(Ok(b)) && b != seq![1u8] && text
                == if b.len() == 1 {
                "unsupported PIN version tag: "@ + text::numeral(b[0] as nat)
            } else {
                "invalid PIN version tag payload size: "@ + text::numeral(b.len())
            })
            ||| {
                &&& m.presented is None
                &&& !shows_exhausted(m.slot)
                &&& text == "parameter provided is of the wrong size"@
                &&& match m.tag {
                    Some(Ok(_)) => order.pin.len() > 64,
                    Some(Err(_)) => encode_utf8(util::legacy_form(pin)).len() > 64,
                    None => false,
                }
            }
            ||| m.presented matches Some((_, Ok(b))) && b.len() < 8 && text
                == "invalid PIN slot payload size: "@ + text::numeral(b.len())
        },
        Err(_) => false,
    }
}

/// After a PIN of an early release was accepted, the connection is opened afresh.
pub open spec fn left_fresh(
    m: SlotNotes,
    o: Result<VerificationResult, PinError<Seq<char>>>,
) -> bool {
    (o matches Ok(VerificationResult::Success(_))) && (m.tag matches Some(Err(_))) ==> !m.stale
}

/// A part of the verification keeps to the rules and ends as `end` says.
pub open spec fn verifying<T>(
    order: Order,
    pin: Seq<char>,
    talk: Prog<Request, Answer, T>,
    m: SlotNotes,
    end: spec_fn(SlotNotes, T) -> bool,
) -> bool {
    flow::watched(
        talk,
        m,
        |m: SlotNotes, c: Request, a: Answer| slot_noted(order.uid, m, c, a),
        |m: SlotNotes, c: Request| verify_may(order, pin, m, c),
        end,
    )
}

proof fn lemma_verify_exact(order: Order, pin: Seq<char>, auth: Seq<u8>, m: SlotNotes)
    requires
        order.uid <= 0xF_FFFF,
        m.presented is None,
        m.slot is None,
        to_present(order, pin, m, auth),
    ensures
        verifying(
            order,
            pin,
            protocol::verify_exact(order.uid, auth),
            m,
            |n: SlotNotes, o: Result<VerificationResult, PinError<Seq<char>>>|
                verify_end(order, pin, n, o) && n.tag == m.tag && n.defined == m.defined
                    && n.tagged == m.tagged,
        ),
{
    reveal_with_fuel(flow::watched, 6);
    reveal_with_fuel(flow::bind, 4);
}

/// What was presented has been accepted, there is no version tag, and nothing was set up
/// yet.
pub open spec fn renewable(m: SlotNotes) -> bool {
    granted(m) && (m.tag matches Some(Err(_))) && !m.defined && !m.tagged
}

/// What was presented and what the version tag said is still known.
pub open spec fn same_grant(m: SlotNotes, n: SlotNotes) -> bool {
    granted(n) && n.presented == m.presented && n.tag == m.tag
}

/// What opening the connection afresh has come to.
pub open spec fn restarted(
    order: Order,
    m: SlotNotes,
    n: SlotNotes,
    r: Result<(), PinError<Seq<char>>>,
) -> bool {
    &&& same_grant(m, n)
    &&& n.defined == m.defined
    &&& n.tagged == m.tagged
    &&& match r {
        Ok(()) => !n.stale,
        Err(PinError::TpmError(text)) => refused_with(n, text) && fatal(order.uid, n),
        Err(_) => false,
    }
}

proof fn lemma_renewal_parts(order: Order, pin: Seq<char>, m: SlotNotes)
    requires
        order.uid <= 0xF_FFFF,
        granted(m),
        m.tag matches Some(Err(_)),
    ensures
        verifying(
            order,
            pin,
            protocol::restart(order.tcti),
            m,
            |n: SlotNotes, r: Result<(), PinError<Seq<char>>>| restarted(order, m, n, r),
        ),
        util::legacy_form(pin) == pin && !m.stale ==> verifying(
            order,
            pin,
            protocol::write_tag(order.uid, 1),
            m,
            |n: SlotNotes, r: Result<(), PinError<Seq<char>>>| same_grant(m, n),
        ),
        util::legacy_form(pin) != pin && renewable(m) && !m.stale ==> verifying(
            order,
            pin,
            protocol::delete_admin(order.uid),
            m,
            |n: SlotNotes, r: Result<(), PinError<Seq<char>>>| same_grant(m, n) && renewable(n),
        ),
{
    reveal_with_fuel(flow::watched, 5);
    reveal_with_fuel(flow::bind, 4);
}

proof fn lemma_renewal_setup(order: Order, pin: Seq<char>, m: SlotNotes)
    requires
        order.uid <= 0xF_FFFF,
        util::legacy_form(pin) != pin,
        renewable(m),
        !m.stale,
    ensures
        verifying(
            order,
            pin,
            protocol::setup(order),
            m,
            |n: SlotNotes, r: Result<(), SetupError<Seq<char>>>| same_grant(m, n),
        ),
{
    let note = |m: SlotNotes, c: Request, a: Answer| slot_noted(order.uid, m, c, a);
    lemma_setup(order, m);
    flow::lemma_watched_keeping(
        protocol::setup(order),
        m,
        note,
        |m: SlotNotes, c: Request| setup_may(order, m, c),
        |m: SlotNotes, o: Result<(), SetupError<Seq<char>>>| setup_end(order, m, o),
        |n: SlotNotes| same_grant(m, n),
        |m: SlotNotes, c: Request| verify_may(order, pin, m, c),
        |n: SlotNotes, r: Result<(), SetupError<Seq<char>>>| same_grant(m, n),
    );
}

proof fn lemma_migrate(order: Order, pin: Seq<char>, m: SlotNotes)
    requires
        order.uid <= 0xF_FFFF,
        renewable(m),
        !m.stale,
    ensures
        verifying(
            order,
            pin,
            protocol::migrate(order, pin),
            m,
            |n: SlotNotes, r: Result<(), SetupError<Seq<char>>>| same_grant(m, n),
        ),
{
    let note = |m: SlotNotes, c: Request, a: Answer| slot_noted(order.uid, m, c, a);
    let may = |m: SlotNotes, c: Request| verify_may(order, pin, m, c);
    let end = |n: SlotNotes, r: Result<(), SetupError<Seq<char>>>| same_grant(m, n);
    let ready = |n: SlotNotes, r: Result<(), SetupError<Seq<char>>>|
        same_grant(m, n) && renewable(n);
    let reopened = |n: SlotNotes, r: Result<(), SetupError<Seq<char>>>|
        same_grant(m, n) && renewable(n) && (r is Ok ==> !n.stale);
    assert forall|n: SlotNotes| same_grant(m, n) implies #[trigger] flow::watched(
        protocol::within_setup(protocol::restart(order.tcti)),
        n,
        note,
        may,
        end,
    ) by {
        lemma_renewal_parts(order, pin, n);
        lemma_within(
            protocol::restart(order.tcti),
            n,
            note,
            may,
            |x: SlotNotes, r: Result<(), PinError<Seq<char>>>| restarted(order, n, x, r),
            end,
        );
    }
    assert forall|n: SlotNotes|
        util::legacy_form(pin) != pin && same_grant(m, n) && renewable(n)
            && !n.stale implies #[trigger] flow::watched(
        protocol::migrate_setup(order),
        n,
        note,
        may,
        end,
    ) by {
        lemma_renewal_setup(order, pin, n);
        flow::lemma_watched_and_then(
            protocol::setup(order),
            |u: ()| protocol::within_setup(protocol::restart(order.tcti)),
            n,
            note,
            may,
            |x: SlotNotes, r: Result<(), SetupError<Seq<char>>>| same_grant(n, x),
            end,
        );
    }
    assert forall|n: SlotNotes|
        util::legacy_form(pin) != pin && same_grant(m, n)
            && renewable(n) implies #[trigger] flow::watched(
        protocol::migrate_deleted(order),
        n,
        note,
        may,
        end,
    ) by {
        lemma_renewal_parts(order, pin, n);
        lemma_within(
            protocol::restart(order.tcti),
            n,
            note,
            may,
            |x: SlotNotes, r: Result<(), PinError<Seq<char>>>| restarted(order, n, x, r),
            reopened,
        );
        flow::lemma_watched_and_then(
            protocol::within_setup(protocol::restart(order.tcti)),
            |u: ()| protocol::migrate_setup(order),
            n,
            note,
            may,
            reopened,
            end,
        );
    }
    lemma_renewal_parts(order, pin, m);
    if util::legacy_form(pin) == pin {
        lemma_within(
            protocol::write_tag(order.uid, 1),
            m,
            note,
            may,
            |n: SlotNotes, r: Result<(), PinError<Seq<char>>>| same_grant(m, n),
            end,
        );
    } else {
        lemma_within(
            protocol::delete_admin(order.uid),
            m,
            note,
            may,
            |n: SlotNotes, r: Result<(), PinError<Seq<char>>>| same_grant(m, n) && renewable(n),
            ready,
        );
        flow::lemma_watched_and_then(
            protocol::within_setup(protocol::delete_admin(order.uid)),
            |u: ()| protocol::migrate_deleted(order),
            m,
            note,
            may,
            ready,
            end,
        );
    }
}

proof fn lemma_after_legacy(order: Order, pin: Seq<char>, v: VerificationResult, m: SlotNotes)
    requires
        order.uid <= 0xF_FFFF,
        !m.defined,
        !m.tagged,
        m.tag matches Some(Err(_)),
        verify_end(order, pin, m, Ok(v)),
    ensures
        verifying(
            order,
            pin,
            protocol::after_legacy(order, pin, v),
            m,
            |n: SlotNotes, o: Result<VerificationResult, PinError<Seq<char>>>|
                verify_end(order, pin, n, o) && left_fresh(n, o),
        ),
{
    let note = |m: SlotNotes, c: Request, a: Answer| slot_noted(order.uid, m, c, a);
    let may = |m: SlotNotes, c: Request| verify_may(order, pin, m, c);
    let end = |n: SlotNotes, o: Result<VerificationResult, PinError<Seq<char>>>|
        verify_end(order, pin, n, o) && left_fresh(n, o);
    if v is Success {
        assert forall|n: SlotNotes| same_grant(m, n) implies #[trigger] flow::watched(
            protocol::conclude(order.tcti, v),
            n,
            note,
            may,
            end,
        ) by {
            lemma_renewal_parts(order, pin, n);
            flow::lemma_watched_and_then(
                protocol::restart(order.tcti),
                |u: ()| Prog::Return(Ok(v)),
                n,
                note,
                may,
                |x: SlotNotes, r: Result<(), PinError<Seq<char>>>| restarted(order, n, x, r),
                end,
            );
        }
        assert forall|n: SlotNotes|
            same_grant(m, n) && renewable(n) && !n.stale implies #[trigger] flow::watched(
            protocol::bring_up_to_date(order, pin, v),
            n,
            note,
            may,
            end,
        ) by {
            lemma_migrate(order, pin, n);
            flow::lemma_watched_bind(
                protocol::migrate(order, pin),
                |r: Result<(), SetupError<Seq<char>>>| protocol::conclude(order.tcti, v),
                n,
                note,
                may,
                |x: SlotNotes, r: Result<(), SetupError<Seq<char>>>| same_grant(n, x),
                end,
            );
        }
        lemma_renewal_parts(order, pin, m);
        flow::lemma_watched_and_then(
            protocol::restart(order.tcti),
            |u: ()| protocol::bring_up_to_date(order, pin, v),
            m,
            note,
            may,
            |x: SlotNotes, r: Result<(), PinError<Seq<char>>>| restarted(order, m, x, r),
            end,
        );
    }
}

/// A verification presents the PIN to the slot of the user, in the form that the version
/// tag calls for, once, and not if the counters have run out. It succeeds exactly when
/// the TPM has accepted it, and a refusal is reported with what the counters say after
/// it. Nothing is changed but a PIN of an early release that was accepted.
pub proof fn law_verification_commands(order: Order, pin: Seq<char>)
    ensures
        flow::watched(
            protocol::verify(order, pin),
            untouched(),
            |m: SlotNotes, c: Request, a: Answer| slot_noted(order.uid, m, c, a),
            |m: SlotNotes, c: Request| verify_may(order, pin, m, c),
            |m: SlotNotes, o: Result<VerificationResult, PinError<Seq<char>>>|
                verify_end(order, pin, m, o) && left_fresh(m, o),
        ),
{
    let note = |m: SlotNotes, c: Request, a: Answer| slot_noted(order.uid, m, c, a);
    let may = |m: SlotNotes, c: Request| verify_may(order, pin, m, c);
    let end = |m: SlotNotes, o: Result<VerificationResult, PinError<Seq<char>>>|
        verify_end(order, pin, m, o) && left_fresh(m, o);
    let read = |m: SlotNotes, r: Result<Option<u8>, PinError<Seq<char>>>|
        match r {
            Ok(version) => {
                &&& order.uid <= 0xF_FFFF
                &&& m.slot is None && m.presented is None && !m.defined && !m.tagged
                &&& match version {
                    Some(v) => m.tag == Some(Ok::<_, TpmFailure<Seq<char>>>(seq![v])),
                    None => m.tag is Some && says_absent(m.tag->0),
                }
            },
            Err(e) => verify_end(order, pin, m, Err(e)),
        };
    assert(flow::watched(protocol::read_tag(order.uid), untouched(), note, may, read)) by {
        reveal_with_fuel(flow::watched, 3);
        assert forall|b: Seq<u8>| b.len() == 1 implies b == seq![#[trigger] b[0]] by {
            assert(b =~= seq![b[0]]);
        }
        assert forall|b: Seq<u8>| #[trigger] b.len() != 1 implies b != seq![1u8] by {}
    }
    let f = |version: Option<u8>| protocol::verify_as(order, pin, version);
    assert forall|n: SlotNotes, version: Option<u8>| #[trigger]
        read(n, Ok(version)) implies flow::watched(f(version), n, note, may, end) by {
        let exact = |x: SlotNotes, o: Result<VerificationResult, PinError<Seq<char>>>|
            verify_end(order, pin, x, o) && x.tag == n.tag && x.defined == n.defined && x.tagged
                == n.tagged;
        match version {
            Some(v) => if v == 1 {
                lemma_verify_exact(order, pin, order.pin, n);
                flow::lemma_watched_keeping(
                    protocol::verify_exact(order.uid, order.pin),
                    n,
                    note,
                    may,
                    exact,
                    |x: SlotNotes| true,
                    may,
                    end,
                );
            } else {
                assert(seq![v][0] == v);
                assert(seq![1u8][0] == 1);
                assert(seq![v] != seq![1u8]);
            },
            None => {
                let early = encode_utf8(util::legacy_form(pin));
                lemma_verify_exact(order, pin, early, n);
                assert forall|x: SlotNotes, v: VerificationResult| #[trigger]
                    exact(x, Ok(v)) implies flow::watched(
                    protocol::after_legacy(order, pin, v),
                    x,
                    note,
                    may,
                    end,
                ) by {
                    lemma_after_legacy(order, pin, v, x);
                }
                flow::lemma_watched_and_then(
                    protocol::verify_exact(order.uid, early),
                    |v: VerificationResult| protocol::after_legacy(order, pin, v),
                    n,
                    note,
                    may,
                    exact,
                    end,
                );
            },
        }
    }
    flow::lemma_watched_and_then(
        protocol::read_tag(order.uid),
        f,
        untouched(),
        note,
        may,
        read,
        end,
    );
}

/// When a removal by the owner may give a command: the slot goes first.
pub open spec fn removal_may(uid: u32, m: SlotNotes, c: Request) -> bool {
    match c {
        TpmCommand::Undefine { index } => if m.last is None {
            index == slot_at(uid)
        } else {
            index == tag_at(uid) && m.removed
        },
        _ => false,
    }
}

/// Why a slot was not removed.
pub open spec fn not_removed(uid: u32, m: SlotNotes, e: PinError<Seq<char>>) -> bool {
    match e {
        PinError::NotProvisioned(u) => u == uid && m.last is Some && says_absent(m.last->0),
        PinError::TpmError(text) => refused_with(m, text) && !says_absent(m.last->0),
        _ => false,
    }
}

/// The last command was to remove the version tag.
pub open spec fn untagging(uid: u32, m: SlotNotes) -> bool {
    m.asked matches Some(TpmCommand::Undefine { index }) && index == tag_at(uid)
}

/// How a removal by the owner may end.
pub open spec fn removal_end(
    uid: u32,
    m: SlotNotes,
    o: Result<(), PinError<Seq<char>>>,
) -> bool {
    match o {
        Ok(()) => m.removed && untagging(uid, m),
        Err(PinError::UidOverflow(u)) => u == uid && uid > 0xF_FFFF && m == untouched(),
        Err(e) => !m.removed && not_removed(uid, m, e),
    }
}

/// The owner removes the slot of the user, and then the version tag. That succeeds
/// exactly when the slot was removed.
pub proof fn law_removal_commands(uid: u32)
    ensures
        flow::watched(
            protocol::delete_admin(uid),
            untouched(),
            |m: SlotNotes, c: Request, a: Answer| slot_noted(uid, m, c, a),
            |m: SlotNotes, c: Request| removal_may(uid, m, c),
            |m: SlotNotes, o: Result<(), PinError<Seq<char>>>| removal_end(uid, m, o),
        ),
{
    reveal_with_fuel(flow::watched, 4);
    reveal_with_fuel(flow::bind, 3);
}

/// When a removal with the PIN may give a command.
pub open spec fn deletion_may(order: Order, pin: Seq<char>, m: SlotNotes, c: Request) -> bool {
    ||| verify_may(order, pin, m, c)
    ||| {
        &&& granted(m)
        &&& c matches TpmCommand::Undefine { index } && (index == slot_at(order.uid) || index
            == tag_at(order.uid))
    }
}

/// How a removal with the PIN may end.
pub open spec fn deletion_end(
    order: Order,
    pin: Seq<char>,
    m: SlotNotes,
    o: Result<DeleteResult, PinError<Seq<char>>>,
) -> bool {
    match o {
        Ok(DeleteResult::Success) => granted(m) && m.removed && !m.defined && untagging(
            order.uid,
            m,
        ),
        Ok(DeleteResult::Invalid { locked }) => verify_end(
            order,
            pin,
            m,
            Ok(VerificationResult::Invalid { locked }),
        ),
        Ok(DeleteResult::LockedOut) => verify_end(
            order,
            pin,
            m,
            Ok(VerificationResult::LockedOut),
        ),
        Err(e) => {
            ||| verify_end(order, pin, m, Err(e))
            ||| granted(m) && not_removed(order.uid, m, e)
        },
    }
}

/// With the PIN, the slot is removed only after the TPM has accepted it, and otherwise
/// the outcome is that of the verification.
pub proof fn law_deletion_commands(order: Order, pin: Seq<char>)
    ensures
        flow::watched(
            protocol::delete_with_auth(order, pin),
            untouched(),
            |m: SlotNotes, c: Request, a: Answer| slot_noted(order.uid, m, c, a),
            |m: SlotNotes, c: Request| deletion_may(order, pin, m, c),
            |m: SlotNotes, o: Result<DeleteResult, PinError<Seq<char>>>|
                deletion_end(order, pin, m, o),
        ),
{
    let note = |m: SlotNotes, c: Request, a: Answer| slot_noted(order.uid, m, c, a);
    let may = |m: SlotNotes, c: Request| deletion_may(order, pin, m, c);
    let narrow = |m: SlotNotes, c: Request| verify_may(order, pin, m, c);
    let mid = |m: SlotNotes, o: Result<VerificationResult, PinError<Seq<char>>>|
        verify_end(order, pin, m, o);
    let end = |m: SlotNotes, o: Result<DeleteResult, PinError<Seq<char>>>|
        deletion_end(order, pin, m, o);
    law_verification_commands(order, pin);
    flow::lemma_watched_keeping(
        protocol::verify(order, pin),
        untouched(),
        note,
        narrow,
        |m: SlotNotes, o: Result<VerificationResult, PinError<Seq<char>>>|
            verify_end(order, pin, m, o) && left_fresh(m, o),
        |m: SlotNotes| true,
        may,
        mid,
    );
    let f = |v: VerificationResult| protocol::delete_verified(order.uid, v);
    assert forall|n: SlotNotes, v: VerificationResult| #[trigger]
        mid(n, Ok(v)) implies flow::watched(f(v), n, note, may, end) by {
        if v is Success {
            reveal_with_fuel(flow::watched, 4);
            reveal_with_fuel(flow::bind, 4);
        }
    }
    flow::lemma_watched_and_then(
        protocol::verify(order, pin),
        f,
        untouched(),
        note,
        may,
        mid,
        end,
    );
}

/// The owner's read of the slot is all that is asked for.
pub open spec fn look_may(uid: u32, m: SlotNotes, c: Request) -> bool {
    m == untouched() && (c matches TpmCommand::ReadOwner { index } && index == slot_at(uid))
}

/// What the owner's read of the slot says: its counters, if there is a slot.
pub open spec fn look_end(
    uid: u32,
    m: SlotNotes,
    o: Result<Option<PinData>, PinError<Seq<char>>>,
) -> bool {
    match o {
        Ok(Some(d)) => m.slot matches Some(Ok(b)) && pindata::decoded(b) == Some(d),
        Ok(None) => m.slot is Some && says_absent(m.slot->0),
        Err(PinError::UidOverflow(u)) => u == uid && uid > 0xF_FFFF && m == untouched(),
        Err(PinError::TpmError(text)) => match m.slot {
            Some(Ok(b)) => b.len() < 8 && text == "invalid PIN slot payload size: "@
                + text::numeral(b.len()),
            Some(Err(f)) => f.text == text && !says_absent(m.slot->0),
            None => false,
        },
        Err(_) => false,
    }
}

/// The counters of a user are those that the slot holds. How many attempts have failed
/// is the count among them, and the user is locked out if it has reached the limit.
pub proof fn law_counters_are_read(uid: u32)
    ensures
        flow::watched(
            protocol::get_slot(uid),
            untouched(),
            |m: SlotNotes, c: Request, a: Answer| slot_noted(uid, m, c, a),
            |m: SlotNotes, c: Request| look_may(uid, m, c),
            |m: SlotNotes, o: Result<Option<PinData>, PinError<Seq<char>>>| look_end(uid, m, o),
        ),
        flow::watched(
            protocol::attempt_count(uid),
            untouched(),
            |m: SlotNotes, c: Request, a: Answer| slot_noted(uid, m, c, a),
            |m: SlotNotes, c: Request| look_may(uid, m, c),
            |m: SlotNotes, o: Result<Option<u32>, PinError<Seq<char>>>|
                match o {
                    Ok(Some(n)) => m.slot matches Some(Ok(b)) && (pindata::decoded(
                        b,
                    ) matches Some(d) && n == d.pinCount as u32),
                    Ok(None) => look_end(uid, m, Ok(None)),
                    Err(e) => look_end(uid, m, Err(e)),
                },
        ),
        flow::watched(
            protocol::locked_out(uid),
            untouched(),
            |m: SlotNotes, c: Request, a: Answer| slot_noted(uid, m, c, a),
            |m: SlotNotes, c: Request| look_may(uid, m, c),
            |m: SlotNotes, o: Result<bool, PinError<Seq<char>>>|
                match o {
                    Ok(b) => m.slot is Some && b == shows_exhausted(m.slot),
                    Err(e) => look_end(uid, m, Err(e)),
                },
        ),
{
    reveal_with_fuel(flow::watched, 4);
    reveal_with_fuel(flow::bind, 4);
}

/// A manager stores the bytes of the PIN, for the user that is named, with the limit of
/// its policy, and talks to its own backend.
pub proof fn law_orders(m: Management, uid: u32, pin: Seq<char>)
    ensures
        m.order(uid, pin).uid == uid,
        m.order(uid, pin).pin == encode_utf8(pin),
        m.order(uid, pin).max_attempts == m.policy.max_attempts,
        m.order(uid, pin).tcti == m.tcti,
{
}

} // verus!

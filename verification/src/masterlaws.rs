//! What holds of the operations on the master key as a whole.
use crate::flow;
use crate::flow::Prog;
use crate::master_key;
use crate::master_key::{Errand, MasterReply, MasterRequest, News, Order, Presence, Removal};
use crate::pinconstants::{
    MASTER_KEY_HMAC_HANDLE, MASTER_KEY_RSA_PARENT_HANDLE, MAX_AUTH_SIZE, MAX_DIGEST_BUFFER,
};
use crate::sealing;
use crate::sealing::{
    KeyFailure, MasterKeyError, Refusal, SealedMasterKeyFile, Secrets, HMAC_KEY_LEN,
};
use crate::tpm::{FailureKind, TpmFailure};
use vstd::prelude::*;

verus! {

/// Whoever is not root changes nothing and is told so, before anything is done.
pub proof fn law_only_root(uid: u32, phrase: Seq<char>)
    requires
        uid != 0,
    ensures
        master_key::for_root(uid, master_key::initialize()) == Errand::<
            (Seq<char>, Presence),
        >::Return(Err(master_key::denied())),
        master_key::for_root(uid, master_key::import(phrase)) == Errand::<Presence>::Return(
            Err(master_key::denied()),
        ),
        master_key::for_root(uid, master_key::clear()) == Errand::<()>::Return(
            Err(master_key::denied()),
        ),
        master_key::for_root(uid, master_key::remove_sealed()) == Errand::<()>::Return(
            Err(master_key::denied()),
        ),
{
}

/// True of every outcome but success.
pub open spec fn failed<T>() -> spec_fn(Result<T, KeyFailure>) -> bool {
    |o: Result<T, KeyFailure>| o is Err
}

/// True of the news that there is nothing at a handle.
pub open spec fn vacant(handle: u32) -> spec_fn(Order, News) -> bool {
    |c: Order, r: News|
        c == Order::FindPersistent { handle } && master_key::found(r) == Ok::<bool, KeyFailure>(
            false,
        )
}

/// True of a request that brings no key into the TPM.
pub open spec fn no_new_key() -> spec_fn(Order) -> bool {
    |c: Order| !(c is CreateKey)
}

/// A master key that is in the TPM is not overwritten: a new one is created only
/// after the TPM has reported that there is none.
pub proof fn law_no_key_is_overwritten(key: Seq<u8>)
    ensures
        flow::locked_until(
            master_key::provision(key),
            vacant(MASTER_KEY_HMAC_HANDLE),
            no_new_key(),
            failed(),
        ),
{
    reveal_with_fuel(flow::locked_until, 2);
    let (lock, open, closed) = (vacant(MASTER_KEY_HMAC_HANDLE), no_new_key(), failed::<()>());
    let find = Order::FindPersistent { handle: MASTER_KEY_HMAC_HANDLE };
    let k = |r: News| master_key::key_found(key, r);
    assert forall|r: News|
        lock(find, r) || flow::locked_until(#[trigger] k(r), lock, open, closed) by {}
    assert(flow::locked_until(master_key::provision_key(key), lock, open, closed));
    let persisted = |r: News| master_key::parent_persisted(key, r);
    assert forall|r: News| flow::locked_until(#[trigger] persisted(r), lock, open, closed) by {}
    let created = |r: News| master_key::parent_created(key, r);
    assert forall|r: News| flow::locked_until(#[trigger] created(r), lock, open, closed) by {}
    let parent = |r: News| master_key::provision_parent(key, r);
    assert forall|r: News| flow::locked_until(#[trigger] parent(r), lock, open, closed) by {}
    let opened = |r: News| master_key::provision_opened(key, r);
    assert forall|r: News| flow::locked_until(#[trigger] opened(r), lock, open, closed) by {}
}

/// True of the news that there is no sealed file.
pub open spec fn unsealed_disk() -> spec_fn(Order, News) -> bool {
    |c: Order, r: News| c is SealedFileExists && !master_key::exists_in(r)
}

/// Where there is a sealed file, no master key is initialized, and nothing else
/// is done.
pub proof fn law_init_respects_the_sealed_file()
    ensures
        flow::locked_until(
            master_key::initialize(),
            unsealed_disk(),
            |c: Order| c is SealedFileExists,
            failed(),
        ),
{
    reveal_with_fuel(flow::locked_until, 2);
}

/// True of a request that neither reads the sealed file nor creates anything.
pub open spec fn only_looks() -> spec_fn(Order) -> bool {
    |c: Order| c is SealedFileExists || c is OpenTpm || c is FindPersistent
}

proof fn lemma_status_looks(handle: u32)
    requires
        handle == MASTER_KEY_HMAC_HANDLE || handle == MASTER_KEY_RSA_PARENT_HANDLE,
    ensures
        flow::locked_until(
            master_key::status_errand(),
            vacant(handle),
            only_looks(),
            occupied(handle),
        ),
{
    reveal_with_fuel(flow::locked_until, 2);
    let (lock, open, closed) = (vacant(handle), only_looks(), occupied(handle));
    assert forall|file: bool, r: News|
        vacant(handle)(
            Order::FindPersistent { handle: MASTER_KEY_RSA_PARENT_HANDLE },
            r,
        ) || flow::locked_until(#[trigger] master_key::status_parent(file, r), lock, open, closed) by {
        match master_key::found(r) {
            Ok(parent) => {
                let find = Order::FindPersistent { handle: MASTER_KEY_HMAC_HANDLE };
                let k = |r: News|
                    Prog::<Order, News, Result<Presence, KeyFailure>>::Return(
                        master_key::status_key(file, parent, r),
                    );
                if handle == MASTER_KEY_HMAC_HANDLE || parent {
                    assert forall|r: News|
                        lock(find, r) || flow::locked_until(
                            #[trigger] k(r),
                            lock,
                            open,
                            closed,
                        ) by {}
                }
            },
            Err(_) => {},
        }
    }
    assert forall|file: bool, r: News|
        flow::locked_until(#[trigger] master_key::status_opened(file, r), lock, open, closed) by {
        let find = Order::FindPersistent { handle: MASTER_KEY_RSA_PARENT_HANDLE };
        let k = |r: News| master_key::status_parent(file, r);
        assert forall|r: News|
            lock(find, r) || flow::locked_until(#[trigger] k(r), lock, open, closed) by {}
    }
    assert forall|r: News|
        flow::locked_until(#[trigger] master_key::status_file(r), lock, open, closed) by {
        let file = master_key::exists_in(r);
        let k = |r: News| master_key::status_opened(file, r);
        assert forall|r: News| flow::locked_until(#[trigger] k(r), lock, open, closed) by {}
    }
    let first = |r: News| master_key::status_file(r);
    assert forall|r: News| flow::locked_until(#[trigger] first(r), lock, open, closed) by {}
}

/// True of a status that does not say that the handle is vacant.
pub open spec fn occupied(handle: u32) -> spec_fn(Result<Presence, KeyFailure>) -> bool {
    |o: Result<Presence, KeyFailure>|
        match o {
            Ok(p) => if handle == MASTER_KEY_HMAC_HANDLE {
                p.hmac_key
            } else {
                p.rsa_parent
            },
            Err(_) => true,
        }
}

/// The master key is imported only into a TPM that has reported that neither it
/// nor its parent is there; otherwise the sealed file is not even read.
pub proof fn law_import_overwrites_nothing(phrase: Seq<char>)
    ensures
        flow::locked_until(
            master_key::import(phrase),
            vacant(MASTER_KEY_HMAC_HANDLE),
            only_looks(),
            failed(),
        ),
        flow::locked_until(
            master_key::import(phrase),
            vacant(MASTER_KEY_RSA_PARENT_HANDLE),
            only_looks(),
            failed(),
        ),
{
    let next = |p: Result<Presence, KeyFailure>| master_key::import_checked(phrase, p);
    assert forall|handle: u32|
        handle == MASTER_KEY_HMAC_HANDLE || handle
            == MASTER_KEY_RSA_PARENT_HANDLE implies #[trigger] flow::locked_until(
        master_key::import(phrase),
        vacant(handle),
        only_looks(),
        failed(),
    ) by {
        lemma_status_looks(handle);
        assert forall|p: Result<Presence, KeyFailure>|
            (occupied(handle))(p) implies flow::locked_until(
            #[trigger] next(p),
            vacant(handle),
            only_looks(),
            failed(),
        ) by {}
        flow::lemma_locked_bind(
            master_key::status_errand(),
            next,
            vacant(handle),
            only_looks(),
            occupied(handle),
            failed(),
        );
    }
}

/// A machine that works: the secrets of the objects at the TPM's persistent
/// handles (none for an object whose secret the TPM has made up), that of the
/// object that was created last, and the sealed file.
#[verifier::ext_equal]
pub struct Machine {
    pub objects: Map<u32, Seq<u8>>,
    pub created: Seq<u8>,
    pub file: Option<SealedMasterKeyFile<Seq<char>>>,
}

/// What the state of a machine does not decide: the secrets that are drawn, the
/// time, why the disk cannot be written to if it cannot, and how an HMAC is
/// computed.
pub struct Circumstances {
    pub secrets: Secrets,
    pub now: u64,
    pub disk: Option<Seq<char>>,
    pub hmac: spec_fn(Seq<u8>, Seq<u8>) -> Seq<u8>,
}

impl Machine {
    /// The machine with a master key and its parent.
    pub open spec fn with_key(self, key: Seq<u8>) -> Machine {
        let parent = MASTER_KEY_RSA_PARENT_HANDLE;
        let objects = if self.objects.contains_key(parent) {
            self.objects
        } else {
            self.objects.insert(parent, Seq::empty())
        };
        Machine { objects: objects.insert(MASTER_KEY_HMAC_HANDLE, key), created: key, ..self }
    }

    /// The machine without a master key and its parent.
    pub open spec fn without_key(self) -> Machine {
        Machine {
            objects: self.objects.remove(MASTER_KEY_HMAC_HANDLE).remove(
                MASTER_KEY_RSA_PARENT_HANDLE,
            ),
            ..self
        }
    }

    /// The machine with a sealed file.
    pub open spec fn with_file(self, file: SealedMasterKeyFile<Seq<char>>) -> Machine {
        Machine { file: Some(file), ..self }
    }

    /// True if there is a master key.
    pub open spec fn has_key(self) -> bool {
        self.objects.contains_key(MASTER_KEY_HMAC_HANDLE)
    }

    /// True if there is a parent for it.
    pub open spec fn has_parent(self) -> bool {
        self.objects.contains_key(MASTER_KEY_RSA_PARENT_HANDLE)
    }

    /// What there is of the master key.
    pub open spec fn presence(self) -> Presence {
        Presence {
            sealed_file: self.file is Some,
            rsa_parent: self.has_parent(),
            hmac_key: self.has_key(),
        }
    }
}

/// How the TPM of a machine answers a request about an object.
pub open spec fn with_object(m: Machine, handle: u32, then: (Machine, Seq<u8>)) -> (Machine, News) {
    if m.objects.contains_key(handle) {
        (then.0, MasterReply::Tpm(Ok(then.1)))
    } else {
        (
            m,
            MasterReply::Tpm(Err(TpmFailure { kind: FailureKind::Handle, text: Seq::empty() })),
        )
    }
}

/// How a machine answers a request, and the machine after it.
pub open spec fn answers(w: Circumstances, m: Machine, c: Order) -> (Machine, News) {
    let nothing = Seq::<u8>::empty();
    let done = MasterReply::Tpm(Ok(nothing));
    match c {
        MasterRequest::SealedFileExists => (m, MasterReply::Exists(m.file is Some)),
        MasterRequest::Draw => (m, MasterReply::Drawn(Ok(w.secrets))),
        MasterRequest::Clock => (m, MasterReply::Time(w.now)),
        MasterRequest::PrepareDirectory { .. } => (m, MasterReply::Done(Ok(()))),
        MasterRequest::WriteSealed { file } => match w.disk {
            Some(e) => (m, MasterReply::Done(Err(e))),
            None => if m.file is Some {
                (m, MasterReply::Done(Err(Seq::empty())))
            } else {
                (m.with_file(file), MasterReply::Done(Ok(())))
            },
        },
        MasterRequest::ReadSealed => (
            m,
            MasterReply::File(
                match m.file {
                    Some(file) => Ok(file),
                    None => Err(Seq::empty()),
                },
            ),
        ),
        MasterRequest::RemoveSealed => (
            Machine { file: None, ..m },
            MasterReply::Removed(
                if m.file is Some {
                    Removal::Removed
                } else {
                    Removal::NotFound
                },
            ),
        ),
        MasterRequest::OpenTpm { .. } => (m, done),
        MasterRequest::FindPersistent { handle } => with_object(m, handle, (m, nothing)),
        MasterRequest::CreateParent { .. } => (Machine { created: nothing, ..m }, done),
        MasterRequest::CreateKey { parent, key, .. } => with_object(
            m,
            parent,
            (Machine { created: key, ..m }, nothing),
        ),
        MasterRequest::Persist { handle } => (
            Machine { objects: m.objects.insert(handle, m.created), ..m },
            done,
        ),
        MasterRequest::Evict { handle } => with_object(
            m,
            handle,
            (Machine { objects: m.objects.remove(handle), ..m }, nothing),
        ),
        MasterRequest::Hmac { handle, data } => with_object(
            m,
            handle,
            (m, (w.hmac)(m.objects[handle], data)),
        ),
    }
}

/// The machine as the other side of a conversation.
pub open spec fn world(w: Circumstances) -> spec_fn(Machine, Order) -> (Machine, News) {
    |m: Machine, c: Order| answers(w, m, c)
}

/// The outcome of an errand on a machine, and the machine after it.
pub open spec fn held<T>(errand: Errand<T>, w: Circumstances, m: Machine) -> (
    Result<T, KeyFailure>,
    Machine,
) {
    flow::run(errand, m, world(w))
}

/// The status says what there is of the master key, and changes nothing.
pub proof fn law_status(w: Circumstances, m: Machine)
    ensures
        held(master_key::status_errand(), w, m) == (Ok::<Presence, KeyFailure>(m.presence()), m),
{
    reveal_with_fuel(flow::run, 5);
}

/// Clearing removes the master key and its parent, and nothing else, whatever
/// there was of them.
pub proof fn law_clear_removes_both(w: Circumstances, m: Machine)
    ensures
        held(master_key::clear(), w, m) == (Ok::<(), KeyFailure>(()), m.without_key()),
{
    reveal_with_fuel(flow::run, 6);
    if !m.has_key() {
        assert(m.objects.remove(MASTER_KEY_HMAC_HANDLE) =~= m.objects);
    }
    let rest = m.objects.remove(MASTER_KEY_HMAC_HANDLE);
    if !rest.contains_key(MASTER_KEY_RSA_PARENT_HANDLE) {
        assert(rest.remove(MASTER_KEY_RSA_PARENT_HANDLE) =~= rest);
    }
}

/// Provisioning puts the master key and its parent at their handles if there was
/// no master key, and is refused if there was one.
pub proof fn law_provision(key: Seq<u8>, w: Circumstances, m: Machine)
    ensures
        !m.has_key() ==> held(master_key::provision(key), w, m) == (
            Ok::<(), KeyFailure>(()),
            m.with_key(key),
        ),
        m.has_key() ==> held(master_key::provision(key), w, m).0 == Err::<(), KeyFailure>(
            MasterKeyError::Refused(Refusal::KeyExists),
        ),
{
    reveal_with_fuel(flow::run, 9);
}

/// Initializing the master key where there is none, neither in the TPM nor on
/// disk, puts the key that was drawn into the TPM, seals it to disk under the
/// phrase that was drawn, and returns that phrase. If it cannot be sealed,
/// neither the key nor its parent is left in the TPM, and nothing on disk.
pub proof fn law_init(w: Circumstances, m: Machine)
    requires
        w.secrets.well_formed(),
        m.file is None,
        !m.has_key(),
    ensures
        match (
            w.disk,
            sealing::sealed(
                w.secrets.key,
                w.secrets.phrase,
                w.now,
                w.secrets.salt,
                w.secrets.nonce,
            ),
        ) {
            (None, Ok(file)) => held(master_key::initialize(), w, m) == (
                Ok::<(Seq<char>, Presence), KeyFailure>(
                    (
                        w.secrets.phrase,
                        Presence { sealed_file: true, rsa_parent: true, hmac_key: true },
                    ),
                ),
                m.with_key(w.secrets.key).with_file(file),
            ),
            (Some(e), Ok(_)) => held(master_key::initialize(), w, m) == (
                Err::<(Seq<char>, Presence), KeyFailure>(sealing::io_failure(e)),
                m.with_key(w.secrets.key).without_key(),
            ),
            (_, Err(e)) => held(master_key::initialize(), w, m) == (
                Err::<(Seq<char>, Presence), KeyFailure>(e),
                m.with_key(w.secrets.key).without_key(),
            ),
        },
{
    let s = w.secrets;
    let m1 = m.with_key(s.key);
    law_provision(s.key, w, m);
    let after = |p: Result<(), KeyFailure>| master_key::init_provisioned(s, p);
    flow::lemma_run_bind(master_key::provision(s.key), after, m, world(w));
    let ended = held(master_key::init_provisioned(s, Ok(())), w, m1);
    assert(held(master_key::initialize(), w, m) == ended) by {
        reveal_with_fuel(flow::run, 3);
    }
    let timed = held(master_key::init_timed(s, News::Time(w.now)), w, m1);
    assert(ended == timed) by {
        reveal_with_fuel(flow::run, 4);
    }
    match sealing::sealed(s.key, s.phrase, w.now, s.salt, s.nonce) {
        Ok(file) => {
            match w.disk {
                None => {
                    let m2 = m1.with_file(file);
                    law_status(w, m2);
                    let report = |p: Result<Presence, KeyFailure>|
                        Prog::<Order, News, Result<(Seq<char>, Presence), KeyFailure>>::Return(
                            master_key::init_result(s.phrase, p),
                        );
                    flow::lemma_run_bind(master_key::status_errand(), report, m2, world(w));
                    assert(timed == held(
                        master_key::init_written(s.phrase, News::Done(Ok(()))),
                        w,
                        m2,
                    )) by {
                        reveal_with_fuel(flow::run, 2);
                    }
                },
                Some(e) => {
                    lemma_abort(sealing::io_failure(e), w, m1);
                    assert(timed == held(
                        master_key::init_written(s.phrase, News::Done(Err(e))),
                        w,
                        m1,
                    )) by {
                        reveal_with_fuel(flow::run, 2);
                    }
                },
            }
        },
        Err(e) => {
            lemma_abort(e, w, m1);
        },
    }
}

proof fn lemma_abort(e: KeyFailure, w: Circumstances, m: Machine)
    ensures
        held(master_key::init_abort(e), w, m) == (
            Err::<(Seq<char>, Presence), KeyFailure>(e),
            m.without_key(),
        ),
{
    law_clear_removes_both(w, m);
    flow::lemma_run_bind(
        master_key::clear(),
        |c: Result<(), KeyFailure>|
            Prog::<Order, News, Result<(Seq<char>, Presence), KeyFailure>>::Return(Err(e)),
        m,
        world(w),
    );
}

/// The master key is recovered from disk: a sealed file from which the phrase
/// unseals a key brings that key back into a TPM that has neither it nor its
/// parent.
pub proof fn law_recovery(phrase: Seq<char>, key: Seq<u8>, w: Circumstances, m: Machine)
    requires
        m.file is Some,
        !m.has_key(),
        !m.has_parent(),
        key.len() == HMAC_KEY_LEN,
    ensures
        sealing::unsealed(phrase, m.file->0) == Ok::<Seq<u8>, KeyFailure>(key) ==> held(
            master_key::import(phrase),
            w,
            m,
        ) == (
            Ok::<Presence, KeyFailure>(
                Presence { sealed_file: true, rsa_parent: true, hmac_key: true },
            ),
            m.with_key(key),
        ),
{
    if sealing::unsealed(phrase, m.file->0) == Ok::<Seq<u8>, KeyFailure>(key) {
        law_status(w, m);
        flow::lemma_run_bind(
            master_key::status_errand(),
            |p: Result<Presence, KeyFailure>| master_key::import_checked(phrase, p),
            m,
            world(w),
        );
        let read = master_key::import_read(phrase, News::File(Ok(m.file->0)));
        assert(held(master_key::import(phrase), w, m) == held(read, w, m)) by {
            reveal_with_fuel(flow::run, 2);
        }
        law_provision(key, w, m);
        flow::lemma_run_bind(
            master_key::provision(key),
            |p: Result<(), KeyFailure>| master_key::import_provisioned(p),
            m,
            world(w),
        );
        law_status(w, m.with_key(key));
    }
}

/// The token of a user is the HMAC of the name under the master key, in
/// hexadecimal.
pub proof fn law_token(username: Seq<char>, w: Circumstances, m: Machine)
    requires
        m.has_key(),
        vstd::utf8::encode_utf8(username).len() <= MAX_DIGEST_BUFFER,
        (w.hmac)(
            m.objects[MASTER_KEY_HMAC_HANDLE],
            vstd::utf8::encode_utf8(username),
        ).len() <= MAX_AUTH_SIZE,
    ensures
        held(master_key::token(username), w, m) == (
            Ok::<Seq<char>, KeyFailure>(
                sealing::hex_text(
                    (w.hmac)(
                        m.objects[MASTER_KEY_HMAC_HANDLE],
                        vstd::utf8::encode_utf8(username),
                    ),
                ),
            ),
            m,
        ),
{
    reveal_with_fuel(flow::run, 4);
}

/// Every user has the same token before a master key is lost from the TPM and
/// after it was recovered from disk.
pub proof fn law_tokens_survive_recovery(
    username: Seq<char>,
    phrase: Seq<char>,
    w: Circumstances,
    m: Machine,
)
    requires
        m.file is Some,
        m.has_key(),
        m.objects[MASTER_KEY_HMAC_HANDLE].len() == HMAC_KEY_LEN,
    ensures
        sealing::unsealed(phrase, m.file->0) == Ok::<Seq<u8>, KeyFailure>(
            m.objects[MASTER_KEY_HMAC_HANDLE],
        ) ==> {
            let lost = held(master_key::clear(), w, m).1;
            let recovered = held(master_key::import(phrase), w, lost).1;
            held(master_key::token(username), w, recovered).0 == held(
                master_key::token(username),
                w,
                m,
            ).0
        },
{
    let key = m.objects[MASTER_KEY_HMAC_HANDLE];
    law_clear_removes_both(w, m);
    law_recovery(phrase, key, w, m.without_key());
    reveal_with_fuel(flow::run, 4);
}

/// Removing the sealed file succeeds, whether there is one or not, and leaves
/// none.
pub proof fn law_disk_is_cleared(w: Circumstances, m: Machine)
    ensures
        held(master_key::remove_sealed(), w, m) == (
            Ok::<(), KeyFailure>(()),
            Machine { file: None, ..m },
        ),
{
    reveal_with_fuel(flow::run, 2);
}

} // verus!

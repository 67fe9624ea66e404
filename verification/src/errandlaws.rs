//! What the operations on the master key ask for, whatever they are answered: each
//! request is justified by the replies before it, and so is the outcome.
use crate::flow;
use crate::flow::Prog;
use crate::master_key;
use crate::master_key::{
    Errand, KeyTemplate, MasterReply, MasterRequest, News, Order, ParentTemplate, Presence,
    Removal,
};
use crate::pinerror::PinError;
use crate::sealing;
use crate::sealing::{KeyFailure, MasterKeyError, Refusal, SealedMasterKeyFile, Secrets};
use crate::tpm::FailureKind;
use vstd::prelude::*;
use vstd::utf8::encode_utf8;

verus! {

/// What has come out so far of an operation on the master key.
#[verifier::ext_equal]
pub struct Ledger {
    /// Whether the sealed file exists.
    pub exists: Option<bool>,
    /// There is a connection to the TPM.
    pub opened: bool,
    /// Whether the parent and the key are in the TPM, as far as is known.
    pub parent: Option<bool>,
    pub key: Option<bool>,
    /// The words with which the TPM has last said that something is not there.
    pub missing: Option<Seq<char>>,
    /// A parent was created that is not persistent yet.
    pub new_parent: bool,
    /// A key of these bytes was created that is not persistent yet.
    pub new_key: Option<Seq<u8>>,
    /// The bytes of the key that was made persistent.
    pub held: Option<Seq<u8>>,
    /// The secrets that were drawn.
    pub secrets: Option<Secrets>,
    /// The directory is there.
    pub prepared: bool,
    /// The time.
    pub time: Option<u64>,
    /// The sealed file that was written.
    pub written: Option<SealedMasterKeyFile<Seq<char>>>,
    /// The sealed file that was read.
    pub read: Option<SealedMasterKeyFile<Seq<char>>>,
    /// The digest that the TPM has computed.
    pub digest: Option<Seq<u8>>,
    /// The directory was to be reserved to root.
    pub tightened: bool,
    /// The last request.
    pub last: Option<Order>,
    /// What went wrong, in order.
    pub failures: Seq<KeyFailure>,
}

/// Nothing has come out yet.
pub open spec fn empty_ledger() -> Ledger {
    Ledger {
        exists: None,
        opened: false,
        parent: None,
        key: None,
        missing: None,
        new_parent: false,
        new_key: None,
        held: None,
        secrets: None,
        prepared: false,
        time: None,
        written: None,
        read: None,
        digest: None,
        tightened: false,
        last: None,
        failures: Seq::empty(),
    }
}

/// Where the parent of the master key is.
pub open spec fn parent_at() -> u32 {
    0x8101_0010
}

/// Where the master key is.
pub open spec fn key_at() -> u32 {
    0x8101_0011
}

pub open spec fn with_failure(m: Ledger, e: KeyFailure) -> Ledger {
    Ledger { failures: m.failures.push(e), ..m }
}

/// A reply of the wrong sort, or a refusal of the TPM.
pub open spec fn complaint(r: News) -> KeyFailure {
    match r {
        MasterReply::Tpm(Err(f)) => MasterKeyError::Pin(PinError::TpmError(f.text)),
        _ => out_of_place(),
    }
}

/// What a reply of the wrong sort stands for.
pub open spec fn out_of_place() -> KeyFailure {
    MasterKeyError::Pin(PinError::IoError("unexpected reply"@))
}

/// What a failure in the file system stands for.
pub open spec fn file_trouble(e: Seq<char>) -> KeyFailure {
    MasterKeyError::Pin(PinError::IoError(e))
}

/// Taking note of a request to the TPM.
pub open spec fn tpm_noted(m: Ledger, c: Order, r: News) -> Ledger {
    match r {
        MasterReply::Tpm(Ok(b)) => match c {
            MasterRequest::OpenTpm { .. } => Ledger { opened: true, ..m },
            MasterRequest::FindPersistent { handle } => if handle == key_at() {
                Ledger { key: Some(true), ..m }
            } else {
                Ledger { parent: Some(true), ..m }
            },
            MasterRequest::CreateParent { .. } => Ledger { new_parent: true, ..m },
            MasterRequest::CreateKey { key, .. } => Ledger { new_key: Some(key), ..m },
            MasterRequest::Persist { handle } => if handle == key_at() {
                Ledger { key: Some(true), held: m.new_key, ..m }
            } else {
                Ledger { parent: Some(true), new_parent: false, ..m }
            },
            MasterRequest::Evict { handle } => if handle == key_at() {
                Ledger { key: Some(false), ..m }
            } else {
                Ledger { parent: Some(false), ..m }
            },
            MasterRequest::Hmac { .. } => Ledger { digest: Some(b), ..m },
            _ => m,
        },
        MasterReply::Tpm(Err(f)) => match c {
            MasterRequest::FindPersistent { handle } => if f.kind == FailureKind::Handle {
                if handle == key_at() {
                    Ledger { key: Some(false), missing: Some(f.text), ..m }
                } else {
                    Ledger { parent: Some(false), missing: Some(f.text), ..m }
                }
            } else {
                with_failure(m, complaint(r))
            },
            _ => with_failure(m, complaint(r)),
        },
        _ => with_failure(m, complaint(r)),
    }
}

/// Taking note of a request and its reply. That the directory could not be reserved to
/// root is no failure.
pub open spec fn entered(m: Ledger, c: Order, r: News) -> Ledger {
    let m = Ledger { last: Some(c), ..m };
    match c {
        MasterRequest::SealedFileExists => Ledger {
            exists: Some(
                match r {
                    MasterReply::Exists(b) => b,
                    _ => true,
                },
            ),
            ..m
        },
        MasterRequest::Draw => match r {
            MasterReply::Drawn(Ok(s)) => if s.well_formed() {
                Ledger { secrets: Some(s), ..m }
            } else {
                with_failure(m, out_of_place())
            },
            MasterReply::Drawn(Err(e)) => with_failure(m, MasterKeyError::Pin(e)),
            _ => with_failure(m, out_of_place()),
        },
        MasterRequest::Clock => Ledger {
            time: Some(
                match r {
                    MasterReply::Time(t) => t,
                    _ => 0,
                },
            ),
            ..m
        },
        MasterRequest::PrepareDirectory { tighten } => if tighten {
            Ledger { tightened: true, ..m }
        } else {
            match r {
                MasterReply::Done(Ok(())) => Ledger { prepared: true, ..m },
                MasterReply::Done(Err(e)) => with_failure(m, file_trouble(e)),
                _ => with_failure(m, out_of_place()),
            }
        },
        MasterRequest::WriteSealed { file } => match r {
            MasterReply::Done(Ok(())) => Ledger { written: Some(file), ..m },
            MasterReply::Done(Err(e)) => with_failure(m, file_trouble(e)),
            _ => with_failure(m, out_of_place()),
        },
        MasterRequest::ReadSealed => match r {
            MasterReply::File(Ok(file)) => Ledger { read: Some(file), ..m },
            MasterReply::File(Err(e)) => with_failure(m, file_trouble(e)),
            _ => with_failure(m, out_of_place()),
        },
        MasterRequest::RemoveSealed => match r {
            MasterReply::Removed(Removal::Failed(e)) => with_failure(m, file_trouble(e)),
            MasterReply::Removed(_) => Ledger { exists: Some(false), ..m },
            _ => with_failure(m, out_of_place()),
        },
        _ => tpm_noted(m, c, r),
    }
}

/// What the ledger says there is of the master key.
pub open spec fn presence(m: Ledger) -> Presence {
    Presence { sealed_file: m.exists->0, rsa_parent: m.parent->0, hmac_key: m.key->0 }
}

/// Everything has been looked up.
pub open spec fn surveyed(m: Ledger) -> bool {
    m.exists is Some && m.parent is Some && m.key is Some
}

/// When the status may make a request.
pub open spec fn status_may(m: Ledger, c: Order) -> bool {
    &&& m.failures.len() == 0
    &&& match c {
        MasterRequest::SealedFileExists => true,
        MasterRequest::OpenTpm { tcti } => tcti == "device:/dev/tpmrm0"@,
        MasterRequest::FindPersistent { handle } => m.opened && (handle == parent_at() || handle
            == key_at()),
        _ => false,
    }
}

/// How the status may end.
pub open spec fn status_end(m: Ledger, o: Result<Presence, KeyFailure>) -> bool {
    match o {
        Ok(p) => m.failures.len() == 0 && surveyed(m) && p == presence(m),
        Err(e) => m.failures == seq![e],
    }
}

/// Apart from what a look at the master key shows, nothing has changed.
pub open spec fn only_looked(m: Ledger, n: Ledger) -> bool {
    n == Ledger {
        exists: n.exists,
        opened: n.opened,
        parent: n.parent,
        key: n.key,
        missing: n.missing,
        last: n.last,
        failures: n.failures,
        ..m
    }
}

proof fn lemma_status(m: Ledger)
    requires
        m.failures.len() == 0,
    ensures
        flow::watched(
            master_key::status_errand(),
            m,
            |m: Ledger, c: Order, r: News| entered(m, c, r),
            |m: Ledger, c: Order| status_may(m, c),
            |n: Ledger, o: Result<Presence, KeyFailure>| status_end(n, o) && only_looked(m, n),
        ),
{
    reveal_with_fuel(flow::watched, 6);
    assert(m.failures =~= Seq::empty());
    assert forall|e: KeyFailure| #[trigger] Seq::<KeyFailure>::empty().push(e) == seq![e] by {
        assert(Seq::<KeyFailure>::empty().push(e) =~= seq![e]);
    }
}

/// The status looks for the sealed file, the parent and the key, and says which of them
/// there are.
pub proof fn law_status_requests()
    ensures
        flow::watched(
            master_key::status_errand(),
            empty_ledger(),
            |m: Ledger, c: Order, r: News| entered(m, c, r),
            |m: Ledger, c: Order| status_may(m, c),
            |m: Ledger, o: Result<Presence, KeyFailure>| status_end(m, o),
        ),
{
    lemma_status(empty_ledger());
    flow::lemma_watched_keeping(
        master_key::status_errand(),
        empty_ledger(),
        |m: Ledger, c: Order, r: News| entered(m, c, r),
        |m: Ledger, c: Order| status_may(m, c),
        |n: Ledger, o: Result<Presence, KeyFailure>|
            status_end(n, o) && only_looked(empty_ledger(), n),
        |m: Ledger| true,
        |m: Ledger, c: Order| status_may(m, c),
        |m: Ledger, o: Result<Presence, KeyFailure>| status_end(m, o),
    );
}

/// True of a parent that decrypts only for the TPM.
pub open spec fn parent_area(t: ParentTemplate) -> bool {
    t.restricted_decryption && t.rsa_bits == 2048 && t.child_aes_bits == 256
}

/// True of a key that was supplied, stays with the TPM and the parent, and signs
/// anything for whoever is authorized.
pub open spec fn key_area(t: KeyTemplate) -> bool {
    &&& t.fixed_tpm
    &&& t.fixed_parent
    &&& t.sign_encrypt
    &&& t.user_with_auth
    &&& !t.sensitive_data_origin
    &&& !t.restricted
    &&& !t.decrypt
}

/// The search for the parent.
pub open spec fn found_parent() -> Order {
    MasterRequest::FindPersistent { handle: parent_at() }
}

/// The search for the key.
pub open spec fn found_key() -> Order {
    MasterRequest::FindPersistent { handle: key_at() }
}

/// When a key may be brought into the TPM: nothing is made that is there already.
pub open spec fn provision_may(key: Seq<u8>, m: Ledger, c: Order) -> bool {
    &&& m.failures.len() == 0
    &&& match c {
        MasterRequest::OpenTpm { tcti } => tcti == "device:/dev/tpmrm0"@,
        MasterRequest::FindPersistent { handle } => m.opened && (handle == parent_at() || handle
            == key_at()),
        MasterRequest::CreateParent { template } => m.parent == Some(false) && !m.new_parent
            && parent_area(template),
        MasterRequest::CreateKey { parent, template, key: k } => {
            &&& m.parent == Some(true)
            &&& m.key == Some(false)
            &&& m.held is None
            &&& m.last == Some(found_parent())
            &&& parent == parent_at()
            &&& key_area(template)
            &&& k == key
        },
        MasterRequest::Persist { handle } => {
            ||| {
                &&& handle == parent_at()
                &&& m.parent == Some(false)
                &&& m.new_parent
                &&& m.last matches Some(MasterRequest::CreateParent { .. })
            }
            ||| {
                &&& handle == key_at()
                &&& m.key == Some(false)
                &&& m.new_key == Some(key)
                &&& m.last matches Some(MasterRequest::CreateKey { .. })
            }
        },
        _ => false,
    }
}

/// How that may end: the key is there with the parent, or the first thing that went
/// wrong is reported.
pub open spec fn provision_end(key: Seq<u8>, m: Ledger, o: Result<(), KeyFailure>) -> bool {
    match o {
        Ok(()) => m.failures.len() == 0 && m.held == Some(key) && m.parent == Some(true) && m.key
            == Some(true),
        Err(e) => {
            &&& m.held is None
            &&& not_provisioned(m, e)
        },
    }
}

/// Why a key was not brought into the TPM: something went wrong, there is one, or the
/// parent has gone.
pub open spec fn not_provisioned(m: Ledger, e: KeyFailure) -> bool {
    ||| m.failures == seq![e]
    ||| {
        &&& m.failures.len() == 0
        &&& m.key == Some(true)
        &&& e == MasterKeyError::<Seq<char>>::Refused(Refusal::KeyExists)
    }
    ||| {
        &&& m.failures.len() == 0
        &&& m.key == Some(false)
        &&& m.parent == Some(false)
        &&& m.missing is Some
        &&& e == MasterKeyError::<Seq<char>>::Pin(PinError::TpmError(m.missing->0))
    }
}

/// Apart from what is in the TPM, nothing has changed.
pub open spec fn only_tpm(m: Ledger, n: Ledger) -> bool {
    n == Ledger {
        opened: n.opened,
        parent: n.parent,
        key: n.key,
        missing: n.missing,
        new_parent: n.new_parent,
        new_key: n.new_key,
        held: n.held,
        last: n.last,
        failures: n.failures,
        ..m
    }
}

proof fn lemma_provision(key: Seq<u8>, m: Ledger)
    requires
        m.failures.len() == 0,
        m.held is None,
        !m.new_parent,
    ensures
        flow::watched(
            master_key::provision(key),
            m,
            |m: Ledger, c: Order, r: News| entered(m, c, r),
            |m: Ledger, c: Order| provision_may(key, m, c),
            |n: Ledger, o: Result<(), KeyFailure>| provision_end(key, n, o) && only_tpm(m, n),
        ),
{
    reveal_with_fuel(flow::watched, 10);
    assert(m.failures =~= Seq::empty());
    assert forall|e: KeyFailure| #[trigger] Seq::<KeyFailure>::empty().push(e) == seq![e] by {
        assert(Seq::<KeyFailure>::empty().push(e) =~= seq![e]);
    }
}

/// Bringing a key into the TPM makes the parent first if need be, and then the key with
/// the given bytes. That succeeds exactly when both are persistent, and a key that is
/// there already is not replaced.
pub proof fn law_provision_requests(key: Seq<u8>)
    ensures
        flow::watched(
            master_key::provision(key),
            empty_ledger(),
            |m: Ledger, c: Order, r: News| entered(m, c, r),
            |m: Ledger, c: Order| provision_may(key, m, c),
            |m: Ledger, o: Result<(), KeyFailure>| provision_end(key, m, o),
        ),
{
    lemma_provision(key, empty_ledger());
    flow::lemma_watched_keeping(
        master_key::provision(key),
        empty_ledger(),
        |m: Ledger, c: Order, r: News| entered(m, c, r),
        |m: Ledger, c: Order| provision_may(key, m, c),
        |n: Ledger, o: Result<(), KeyFailure>|
            provision_end(key, n, o) && only_tpm(empty_ledger(), n),
        |m: Ledger| true,
        |m: Ledger, c: Order| provision_may(key, m, c),
        |m: Ledger, o: Result<(), KeyFailure>| provision_end(key, m, o),
    );
}

/// When the removal from the TPM may make a request: the key comes before the parent.
pub open spec fn clear_may(m: Ledger, c: Order) -> bool {
    match c {
        MasterRequest::OpenTpm { tcti } => tcti == "device:/dev/tpmrm0"@,
        MasterRequest::FindPersistent { handle } => {
            &&& m.opened
            &&& {
                ||| handle == key_at() && (m.last matches Some(MasterRequest::OpenTpm { .. }))
                ||| handle == parent_at() && (m.last == Some(found_key()) || (
                m.last matches Some(MasterRequest::Evict { handle: h }) && h == key_at()))
            }
        },
        MasterRequest::Evict { handle } => {
            ||| handle == key_at() && m.key == Some(true) && m.last == Some(found_key())
            ||| handle == parent_at() && m.parent == Some(true) && m.last == Some(found_parent())
        },
        _ => false,
    }
}

/// Neither the key nor the parent is in the TPM.
pub open spec fn gone(m: Ledger) -> bool {
    m.key == Some(false) && m.parent == Some(false)
}

/// How the removal from the TPM may end, if it starts with the ledger `m`: unless
/// something more went wrong, both are gone.
pub open spec fn clear_end(m: Ledger, n: Ledger, o: Result<(), KeyFailure>) -> bool {
    &&& only_tpm(m, n)
    &&& n.held == m.held
    &&& n.failures.len() >= m.failures.len()
    &&& forall|i: int| 0 <= i < m.failures.len() ==> n.failures[i] == m.failures[i]
    &&& match o {
        Ok(()) => n.failures.len() == m.failures.len() ==> gone(n),
        Err(e) => n.failures == m.failures.push(e),
    }
}

proof fn lemma_clear(m: Ledger)
    ensures
        flow::watched(
            master_key::clear(),
            m,
            |m: Ledger, c: Order, r: News| entered(m, c, r),
            |m: Ledger, c: Order| clear_may(m, c),
            |n: Ledger, o: Result<(), KeyFailure>| clear_end(m, n, o),
        ),
{
    reveal_with_fuel(flow::watched, 7);
}

/// `errand` keeps to the rules if it is root who runs it, and is refused to others.
pub open spec fn reserved<T>(
    uid: u32,
    errand: Errand<T>,
    may: spec_fn(Ledger, Order) -> bool,
    end: spec_fn(Ledger, Result<T, KeyFailure>) -> bool,
) -> bool {
    flow::watched(
        errand,
        empty_ledger(),
        |m: Ledger, c: Order, r: News| entered(m, c, r),
        |m: Ledger, c: Order| uid == 0 && may(m, c),
        |m: Ledger, o: Result<T, KeyFailure>|
            if uid == 0 {
                end(m, o)
            } else {
                m == empty_ledger() && o == Err::<T, KeyFailure>(
                    MasterKeyError::Pin(PinError::PermissionDenied),
                )
            },
    )
}

proof fn lemma_reserved<T>(
    uid: u32,
    errand: Errand<T>,
    may: spec_fn(Ledger, Order) -> bool,
    end: spec_fn(Ledger, Result<T, KeyFailure>) -> bool,
)
    requires
        flow::watched(
            errand,
            empty_ledger(),
            |m: Ledger, c: Order, r: News| entered(m, c, r),
            may,
            end,
        ),
    ensures
        reserved(uid, master_key::for_root(uid, errand), may, end),
{
    if uid == 0 {
        flow::lemma_watched_keeping(
            errand,
            empty_ledger(),
            |m: Ledger, c: Order, r: News| entered(m, c, r),
            may,
            end,
            |m: Ledger| true,
            |m: Ledger, c: Order| uid == 0 && may(m, c),
            |m: Ledger, o: Result<T, KeyFailure>|
                if uid == 0 {
                    end(m, o)
                } else {
                    m == empty_ledger() && o == Err::<T, KeyFailure>(
                        MasterKeyError::Pin(PinError::PermissionDenied),
                    )
                },
        );
    }
}

/// Root removes the key and the parent from the TPM: each is looked for, and removed if
/// it is there.
pub proof fn law_clear_requests(uid: u32)
    ensures
        reserved(
            uid,
            master_key::for_root(uid, master_key::clear()),
            |m: Ledger, c: Order| clear_may(m, c),
            |m: Ledger, o: Result<(), KeyFailure>| clear_end(empty_ledger(), m, o),
        ),
{
    lemma_clear(empty_ledger());
    lemma_reserved(
        uid,
        master_key::clear(),
        |m: Ledger, c: Order| clear_may(m, c),
        |m: Ledger, o: Result<(), KeyFailure>| clear_end(empty_ledger(), m, o),
    );
}

/// Root removes the sealed file, and that there was none is as good.
pub proof fn law_disk_requests(uid: u32)
    ensures
        reserved(
            uid,
            master_key::for_root(uid, master_key::remove_sealed()),
            |m: Ledger, c: Order| c is RemoveSealed && m == empty_ledger(),
            |m: Ledger, o: Result<(), KeyFailure>|
                match o {
                    Ok(()) => m.exists == Some(false),
                    Err(e) => m.failures == seq![e],
                },
        ),
{
    let may = |m: Ledger, c: Order| c is RemoveSealed && m == empty_ledger();
    let end = |m: Ledger, o: Result<(), KeyFailure>|
        match o {
            Ok(()) => m.exists == Some(false),
            Err(e) => m.failures == seq![e],
        };
    reveal_with_fuel(flow::watched, 3);
    assert forall|e: KeyFailure| #[trigger] Seq::<KeyFailure>::empty().push(e) == seq![e] by {
        assert(Seq::<KeyFailure>::empty().push(e) =~= seq![e]);
    }
    lemma_reserved(uid, master_key::remove_sealed(), may, end);
}

/// When the derivation of a token may make a request.
pub open spec fn token_may(username: Seq<char>, m: Ledger, c: Order) -> bool {
    &&& m.failures.len() == 0
    &&& match c {
        MasterRequest::OpenTpm { tcti } => tcti == "device:/dev/tpmrm0"@,
        MasterRequest::FindPersistent { handle } => m.opened && handle == key_at(),
        MasterRequest::Hmac { handle, data } => {
            &&& m.key == Some(true)
            &&& handle == key_at()
            &&& data == encode_utf8(username)
            &&& data.len() <= 1024
        },
        _ => false,
    }
}

/// How the derivation of a token may end.
pub open spec fn token_end(
    username: Seq<char>,
    m: Ledger,
    o: Result<Seq<char>, KeyFailure>,
) -> bool {
    match o {
        Ok(token) => m.failures.len() == 0 && (m.digest matches Some(d) && d.len() <= 64 && token
            == sealing::hex_text(d)),
        Err(e) => {
            ||| m.failures == seq![e]
            ||| {
                &&& m.failures.len() == 0
                &&& m.key == Some(false)
                &&& m.missing is Some
                &&& e == MasterKeyError::<Seq<char>>::Pin(PinError::TpmError(m.missing->0))
            }
            ||| {
                &&& m.failures.len() == 0
                &&& m.key == Some(true)
                &&& match m.digest {
                    Some(d) => d.len() > 64,
                    None => encode_utf8(username).len() > 1024,
                }
                &&& e == MasterKeyError::<Seq<char>>::Pin(
                    PinError::TpmError("parameter provided is of the wrong size"@),
                )
            }
        },
    }
}

/// The token of a user is the HMAC of the bytes of the name under the master key, in
/// hexadecimal digits.
pub proof fn law_token_requests(username: Seq<char>)
    ensures
        flow::watched(
            master_key::token(username),
            empty_ledger(),
            |m: Ledger, c: Order, r: News| entered(m, c, r),
            |m: Ledger, c: Order| token_may(username, m, c),
            |m: Ledger, o: Result<Seq<char>, KeyFailure>| token_end(username, m, o),
        ),
{
    reveal_with_fuel(flow::watched, 5);
    assert forall|e: KeyFailure| #[trigger] Seq::<KeyFailure>::empty().push(e) == seq![e] by {
        assert(Seq::<KeyFailure>::empty().push(e) =~= seq![e]);
    }
}

/// The sealed form of the secrets at the time that was told.
pub open spec fn sealing_of(m: Ledger) -> Result<SealedMasterKeyFile<Seq<char>>, KeyFailure> {
    let s = m.secrets->0;
    sealing::sealed(s.key, s.phrase, m.time->0, s.salt, s.nonce)
}

/// The secrets were drawn and the key is in the TPM.
pub open spec fn installed(m: Ledger) -> bool {
    m.secrets is Some && m.held == Some(m.secrets->0.key)
}

/// The secrets cannot be sealed.
pub open spec fn unsealable(m: Ledger) -> bool {
    m.time is Some && sealing_of(m) is Err
}

/// The key is in the TPM and is not on disk, for this reason, and unless something else
/// went wrong as well it was removed from the TPM again.
pub open spec fn taken_back(m: Ledger, e: KeyFailure) -> bool {
    &&& installed(m)
    &&& m.written is None
    &&& if unsealable(m) {
        sealing_of(m) == Err::<SealedMasterKeyFile<Seq<char>>, KeyFailure>(e) && (m.failures.len()
            == 0 ==> gone(m))
    } else {
        m.failures.len() > 0 && m.failures[0] == e && (m.failures.len() == 1 ==> gone(m))
    }
}

/// When the initialization may make a request.
pub open spec fn init_may(m: Ledger, c: Order) -> bool {
    match c {
        MasterRequest::SealedFileExists => m.failures.len() == 0 && (m.secrets is None || m.written
            is Some),
        MasterRequest::Draw => m.exists == Some(false) && m.secrets is None,
        MasterRequest::PrepareDirectory { tighten } => m.failures.len() == 0 && installed(m)
            && m.written is None && tighten != m.tightened,
        MasterRequest::Clock => m.failures.len() == 0 && installed(m) && m.prepared && m.written
            is None,
        MasterRequest::WriteSealed { file } => {
            &&& m.failures.len() == 0
            &&& m.exists == Some(false)
            &&& installed(m)
            &&& m.prepared
            &&& m.time is Some
            &&& m.written is None
            &&& sealing_of(m) == Ok::<SealedMasterKeyFile<Seq<char>>, KeyFailure>(file)
        },
        _ => {
            ||| m.secrets is Some && m.written is None && provision_may(m.secrets->0.key, m, c)
            ||| m.written is Some && status_may(m, c)
            ||| installed(m) && m.written is None && (m.failures.len() > 0 || unsealable(m))
                && clear_may(m, c)
        },
    }
}

/// How the initialization may end.
pub open spec fn init_end(m: Ledger, o: Result<(Seq<char>, Presence), KeyFailure>) -> bool {
    match o {
        Ok((phrase, p)) => {
            &&& m.failures.len() == 0
            &&& installed(m)
            &&& m.time is Some
            &&& m.written is Some
            &&& sealing_of(m) == Ok::<SealedMasterKeyFile<Seq<char>>, KeyFailure>(m.written->0)
            &&& phrase == m.secrets->0.phrase
            &&& surveyed(m)
            &&& p == presence(m)
        },
        Err(e) => {
            ||| {
                &&& m.exists == Some(true)
                &&& m.secrets is None
                &&& m.failures.len() == 0
                &&& e == MasterKeyError::<Seq<char>>::Refused(Refusal::SealedFileExists)
            }
            ||| m.secrets is None && m.failures == seq![e]
            ||| m.secrets is Some && m.held is None && not_provisioned(m, e)
            ||| taken_back(m, e)
            ||| installed(m) && m.written is Some && m.failures == seq![e]
        },
    }
}

/// The initialization keeps to the rules from here on.
pub open spec fn init_goes_on(talk: Errand<(Seq<char>, Presence)>, m: Ledger) -> bool {
    flow::watched(
        talk,
        m,
        |m: Ledger, c: Order, r: News| entered(m, c, r),
        |m: Ledger, c: Order| init_may(m, c),
        |m: Ledger, o: Result<(Seq<char>, Presence), KeyFailure>| init_end(m, o),
    )
}

proof fn lemma_abort(m: Ledger, e: KeyFailure)
    requires
        installed(m),
        m.written is None,
        if unsealable(m) {
            sealing_of(m) == Err::<SealedMasterKeyFile<Seq<char>>, KeyFailure>(e)
                && m.failures.len() == 0
        } else {
            m.failures.len() == 1 && m.failures[0] == e
        },
    ensures
        init_goes_on(master_key::init_abort(e), m),
{
    let note = |m: Ledger, c: Order, r: News| entered(m, c, r);
    let may = |m: Ledger, c: Order| init_may(m, c);
    let end = |m: Ledger, o: Result<(Seq<char>, Presence), KeyFailure>| init_end(m, o);
    let mid = |n: Ledger, o: Result<(), KeyFailure>| clear_end(m, n, o);
    lemma_clear(m);
    flow::lemma_watched_keeping(
        master_key::clear(),
        m,
        note,
        |m: Ledger, c: Order| clear_may(m, c),
        mid,
        |n: Ledger|
            n.secrets == m.secrets && n.held == m.held && n.written == m.written && n.time == m.time
                && n.failures.len() >= m.failures.len(),
        may,
        mid,
    );
    flow::lemma_watched_bind(
        master_key::clear(),
        |c: Result<(), KeyFailure>| Prog::Return(Err(e)),
        m,
        note,
        may,
        mid,
        end,
    );
}

proof fn lemma_reported(m: Ledger)
    requires
        m.failures.len() == 0,
        installed(m),
        m.time is Some,
        m.written is Some,
        sealing_of(m) == Ok::<SealedMasterKeyFile<Seq<char>>, KeyFailure>(m.written->0),
    ensures
        init_goes_on(
            flow::bind(
                master_key::status_errand(),
                |p: Result<Presence, KeyFailure>|
                    Prog::Return(master_key::init_result(m.secrets->0.phrase, p)),
            ),
            m,
        ),
{
    let note = |m: Ledger, c: Order, r: News| entered(m, c, r);
    let may = |m: Ledger, c: Order| init_may(m, c);
    let end = |m: Ledger, o: Result<(Seq<char>, Presence), KeyFailure>| init_end(m, o);
    let mid = |n: Ledger, o: Result<Presence, KeyFailure>| status_end(n, o) && only_looked(m, n);
    lemma_status(m);
    flow::lemma_watched_keeping(
        master_key::status_errand(),
        m,
        note,
        |m: Ledger, c: Order| status_may(m, c),
        mid,
        |n: Ledger| n.written is Some,
        may,
        mid,
    );
    flow::lemma_watched_bind(
        master_key::status_errand(),
        |p: Result<Presence, KeyFailure>|
            Prog::Return(master_key::init_result(m.secrets->0.phrase, p)),
        m,
        note,
        may,
        mid,
        end,
    );
}

proof fn lemma_directory(m: Ledger)
    requires
        m.failures.len() == 0,
        installed(m),
        m.exists == Some(false),
        m.time is None,
        m.written is None,
        !m.tightened,
        m.secrets->0.well_formed(),
    ensures
        init_goes_on(master_key::init_provisioned(m.secrets->0, Ok(())), m),
{
    reveal_with_fuel(flow::watched, 2);
    let note = |m: Ledger, c: Order, r: News| entered(m, c, r);
    let may = |m: Ledger, c: Order| init_may(m, c);
    let end = |m: Ledger, o: Result<(Seq<char>, Presence), KeyFailure>| init_end(m, o);
    let s = m.secrets->0;
    let tighten: Order = MasterRequest::PrepareDirectory { tighten: true };
    let m = Ledger { tightened: true, last: Some(tighten), ..m };
    let prepare: Order = MasterRequest::PrepareDirectory { tighten: false };
    let clock: Order = MasterRequest::Clock;
    let prepared = |r: News| master_key::init_prepared(s, r);
    assert forall|r: News| flow::watched(
        #[trigger] prepared(r),
        note(m, prepare, r),
        note,
        may,
        end,
    ) by {
        let n = note(m, prepare, r);
        if n.prepared && n.failures.len() == 0 && (r is Done && r->Done_0 is Ok) {
            let timed = |r: News| master_key::init_timed(s, r);
            assert forall|r: News| flow::watched(
                #[trigger] timed(r),
                note(n, clock, r),
                note,
                may,
                end,
            ) by {
                let x = note(n, clock, r);
                match sealing_of(x) {
                    Ok(file) => {
                        let write: Order = MasterRequest::WriteSealed { file };
                        let written = |r: News| master_key::init_written(s.phrase, r);
                        assert forall|r: News| flow::watched(
                            #[trigger] written(r),
                            note(x, write, r),
                            note,
                            may,
                            end,
                        ) by {
                            let y = note(x, write, r);
                            if r is Done && r->Done_0 is Ok {
                                lemma_reported(y);
                            } else {
                                lemma_abort(y, y.failures[0]);
                            }
                        }
                    },
                    Err(e) => {
                        lemma_abort(x, e);
                    },
                }
            }
        } else {
            lemma_abort(n, n.failures[0]);
        }
    }
}

proof fn lemma_initialize()
    ensures
        init_goes_on(master_key::initialize(), empty_ledger()),
{
    let note = |m: Ledger, c: Order, r: News| entered(m, c, r);
    let may = |m: Ledger, c: Order| init_may(m, c);
    let end = |m: Ledger, o: Result<(Seq<char>, Presence), KeyFailure>| init_end(m, o);
    let m = empty_ledger();
    let look: Order = MasterRequest::SealedFileExists;
    let draw: Order = MasterRequest::Draw;
    assert forall|e: KeyFailure| #[trigger] Seq::<KeyFailure>::empty().push(e) == seq![e] by {
        assert(Seq::<KeyFailure>::empty().push(e) =~= seq![e]);
    }
    let checked = |r: News| master_key::init_checked(r);
    assert forall|r: News| flow::watched(#[trigger] checked(r), note(m, look, r), note, may, end) by {
        let n = note(m, look, r);
        if n.exists == Some(false) {
            let drawn = |r: News| master_key::init_drawn(r);
            assert forall|r: News| flow::watched(
                #[trigger] drawn(r),
                note(n, draw, r),
                note,
                may,
                end,
            ) by {
                let x = note(n, draw, r);
                if x.secrets is Some {
                    let s = x.secrets->0;
                    let mid = |y: Ledger, o: Result<(), KeyFailure>|
                        provision_end(s.key, y, o) && only_tpm(x, y);
                    lemma_provision(s.key, x);
                    flow::lemma_watched_keeping(
                        master_key::provision(s.key),
                        x,
                        note,
                        |m: Ledger, c: Order| provision_may(s.key, m, c),
                        mid,
                        |y: Ledger| y.secrets == x.secrets && y.written == x.written,
                        may,
                        mid,
                    );
                    let f = |p: Result<(), KeyFailure>| master_key::init_provisioned(s, p);
                    assert forall|y: Ledger, o: Result<(), KeyFailure>| #[trigger]
                        mid(y, o) implies flow::watched(f(o), y, note, may, end) by {
                        if o is Ok {
                            lemma_directory(y);
                            assert(f(o) == master_key::init_provisioned(s, Ok(())));
                        }
                    }
                    flow::lemma_watched_bind(
                        master_key::provision(s.key),
                        f,
                        x,
                        note,
                        may,
                        mid,
                        end,
                    );
                }
            }
        }
    }
}

/// Root makes a master key only if there is no sealed file. The key that was drawn is
/// brought into the TPM, and is then sealed under the phrase that was drawn with it; if
/// that fails, it is removed from the TPM again. The outcome is that phrase, and what
/// there is of the key then.
pub proof fn law_init_requests(uid: u32)
    ensures
        reserved(
            uid,
            master_key::for_root(uid, master_key::initialize()),
            |m: Ledger, c: Order| init_may(m, c),
            |m: Ledger, o: Result<(Seq<char>, Presence), KeyFailure>| init_end(m, o),
        ),
{
    lemma_initialize();
    lemma_reserved(
        uid,
        master_key::initialize(),
        |m: Ledger, c: Order| init_may(m, c),
        |m: Ledger, o: Result<(Seq<char>, Presence), KeyFailure>| init_end(m, o),
    );
}

/// What the sealed file that was read holds.
pub open spec fn opened_with(phrase: Seq<char>, m: Ledger) -> Result<Seq<u8>, KeyFailure> {
    sealing::unsealed(phrase, m.read->0)
}

/// The sealed file was read, and it holds this key.
pub open spec fn recovered(phrase: Seq<char>, m: Ledger, key: Seq<u8>) -> bool {
    &&& m.read is Some
    &&& opened_with(phrase, m) == Ok::<Seq<u8>, KeyFailure>(key)
    &&& key.len() == 32
}

/// When the import may make a request.
pub open spec fn import_may(phrase: Seq<char>, m: Ledger, c: Order) -> bool {
    ||| (m.read is None || m.held is Some) && status_may(m, c)
    ||| {
        &&& c is ReadSealed
        &&& m.failures.len() == 0
        &&& m.read is None
        &&& surveyed(m)
        &&& presence(m).sealed_file
        &&& !presence(m).rsa_parent
        &&& !presence(m).hmac_key
    }
    ||| {
        &&& m.read is Some
        &&& recovered(phrase, m, opened_with(phrase, m)->Ok_0)
        &&& provision_may(opened_with(phrase, m)->Ok_0, m, c)
    }
}

/// Why nothing is imported, given what there is.
pub open spec fn import_refusal(p: Presence) -> Option<Refusal> {
    if p.rsa_parent {
        Some(Refusal::ParentPresent)
    } else if p.hmac_key {
        Some(Refusal::KeyPresent)
    } else if !p.sealed_file {
        Some(Refusal::NoSealedFile)
    } else {
        None
    }
}

/// How the import may end.
pub open spec fn import_end(
    phrase: Seq<char>,
    m: Ledger,
    o: Result<Presence, KeyFailure>,
) -> bool {
    match o {
        Ok(p) => {
            &&& m.failures.len() == 0
            &&& m.held is Some
            &&& recovered(phrase, m, m.held->0)
            &&& surveyed(m)
            &&& p == presence(m)
        },
        Err(e) => match m.read {
            None => {
                &&& m.held is None
                &&& {
                    ||| m.failures == seq![e]
                    ||| {
                        &&& m.failures.len() == 0
                        &&& surveyed(m)
                        &&& import_refusal(presence(m)) is Some
                        &&& e == MasterKeyError::<Seq<char>>::Refused(
                            import_refusal(presence(m))->0,
                        )
                    }
                }
            },
            Some(_) => match opened_with(phrase, m) {
                Err(x) => m.held is None && m.failures.len() == 0 && e == x,
                Ok(key) => if key.len() != 32 {
                    m.held is None && m.failures.len() == 0 && e == MasterKeyError::<
                        Seq<char>,
                    >::Refused(Refusal::UnexpectedLength)
                } else if m.held is None {
                    not_provisioned(m, e)
                } else {
                    m.held == Some(key) && m.failures == seq![e]
                },
            },
        },
    }
}

proof fn lemma_import(phrase: Seq<char>)
    ensures
        flow::watched(
            master_key::import(phrase),
            empty_ledger(),
            |m: Ledger, c: Order, r: News| entered(m, c, r),
            |m: Ledger, c: Order| import_may(phrase, m, c),
            |m: Ledger, o: Result<Presence, KeyFailure>| import_end(phrase, m, o),
        ),
{
    let note = |m: Ledger, c: Order, r: News| entered(m, c, r);
    let may = |m: Ledger, c: Order| import_may(phrase, m, c);
    let end = |m: Ledger, o: Result<Presence, KeyFailure>| import_end(phrase, m, o);
    let m = empty_ledger();
    let looked = |n: Ledger, o: Result<Presence, KeyFailure>|
        status_end(n, o) && only_looked(m, n);
    lemma_status(m);
    flow::lemma_watched_keeping(
        master_key::status_errand(),
        m,
        note,
        |m: Ledger, c: Order| status_may(m, c),
        looked,
        |n: Ledger| n.read is None,
        may,
        looked,
    );
    assert forall|e: KeyFailure| #[trigger] Seq::<KeyFailure>::empty().push(e) == seq![e] by {
        assert(Seq::<KeyFailure>::empty().push(e) =~= seq![e]);
    }
    let f = |p: Result<Presence, KeyFailure>| master_key::import_checked(phrase, p);
    assert forall|n: Ledger, p: Result<Presence, KeyFailure>| #[trigger]
        looked(n, p) implies flow::watched(f(p), n, note, may, end) by {
        if p is Ok && import_refusal(p->Ok_0) is None {
            assert(n.failures =~= Seq::empty());
            let c: Order = MasterRequest::ReadSealed;
            let read = |r: News| master_key::import_read(phrase, r);
            assert forall|r: News| flow::watched(
                #[trigger] read(r),
                note(n, c, r),
                note,
                may,
                end,
            ) by {
                lemma_import_read(phrase, n, r);
            }
        }
    }
    flow::lemma_watched_bind(master_key::status_errand(), f, m, note, may, looked, end);
}

proof fn lemma_import_read(phrase: Seq<char>, m: Ledger, r: News)
    requires
        m.failures.len() == 0,
        m.held is None,
        !m.new_parent,
        m.read is None,
        surveyed(m),
    ensures
        flow::watched(
            master_key::import_read(phrase, r),
            entered(m, MasterRequest::ReadSealed, r),
            |m: Ledger, c: Order, r: News| entered(m, c, r),
            |m: Ledger, c: Order| import_may(phrase, m, c),
            |m: Ledger, o: Result<Presence, KeyFailure>| import_end(phrase, m, o),
        ),
{
    let note = |m: Ledger, c: Order, r: News| entered(m, c, r);
    let may = |m: Ledger, c: Order| import_may(phrase, m, c);
    let end = |m: Ledger, o: Result<Presence, KeyFailure>| import_end(phrase, m, o);
    let n = entered(m, MasterRequest::ReadSealed, r);
    assert(m.failures =~= Seq::empty());
    assert forall|e: KeyFailure| #[trigger] Seq::<KeyFailure>::empty().push(e) == seq![e] by {
        assert(Seq::<KeyFailure>::empty().push(e) =~= seq![e]);
    }
    if n.read is Some && opened_with(phrase, n) is Ok && opened_with(phrase, n)->Ok_0.len() == 32 {
        let key = opened_with(phrase, n)->Ok_0;
        let mid = |x: Ledger, o: Result<(), KeyFailure>|
            provision_end(key, x, o) && only_tpm(n, x);
        lemma_provision(key, n);
        flow::lemma_watched_keeping(
            master_key::provision(key),
            n,
            note,
            |m: Ledger, c: Order| provision_may(key, m, c),
            mid,
            |x: Ledger| x.read == n.read,
            may,
            mid,
        );
        let f = |p: Result<(), KeyFailure>| master_key::import_provisioned(p);
        assert forall|x: Ledger, o: Result<(), KeyFailure>| #[trigger]
            mid(x, o) implies flow::watched(f(o), x, note, may, end) by {
            if o is Ok {
                let looked = |y: Ledger, p: Result<Presence, KeyFailure>|
                    status_end(y, p) && only_looked(x, y);
                lemma_status(x);
                flow::lemma_watched_keeping(
                    master_key::status_errand(),
                    x,
                    note,
                    |m: Ledger, c: Order| status_may(m, c),
                    looked,
                    |y: Ledger| y.held is Some,
                    may,
                    end,
                );
                assert(f(o) == master_key::status_errand());
            }
        }
        flow::lemma_watched_bind(master_key::provision(key), f, n, note, may, mid, end);
    }
}

/// Root imports the key from the sealed file only into a TPM that has neither the key
/// nor the parent. The key is what the file holds under the phrase that was given, and
/// it is in the TPM exactly when the import has got that far.
pub proof fn law_import_requests(uid: u32, phrase: Seq<char>)
    ensures
        reserved(
            uid,
            master_key::for_root(uid, master_key::import(phrase)),
            |m: Ledger, c: Order| import_may(phrase, m, c),
            |m: Ledger, o: Result<Presence, KeyFailure>| import_end(phrase, m, o),
        ),
{
    lemma_import(phrase);
    lemma_reserved(
        uid,
        master_key::import(phrase),
        |m: Ledger, c: Order| import_may(phrase, m, c),
        |m: Ledger, o: Result<Presence, KeyFailure>| import_end(phrase, m, o),
    );
}

} // verus!

//! The master key: a key in the TPM from which a token for each user is derived,
//! with a copy on disk that a recovery phrase unseals.
//!
//! Every operation is a conversation (see `flow`) with the TPM, the file system
//! and the clock, through whoever drives it.
use crate::flow;
use crate::flow::{Modelled, Paused, Prog, Step};
use crate::pinconstants::{
    MASTER_KEY_HMAC_HANDLE, MASTER_KEY_RSA_PARENT_HANDLE, MASTER_KEY_SEALED_FILE, MAX_AUTH_SIZE,
    MAX_DIGEST_BUFFER,
};
use crate::pinerror::PinError;
use crate::protocol::WRONG_SIZE;
use crate::sealing;
use crate::sealing::{
    hex_encode, seal_key_bytes, unseal_key_bytes, KeyFailure, MasterKeyError,
    MasterSecrets, Refusal, SealedMasterKeyFile, Secrets, HMAC_KEY_LEN,
};
use crate::secret::KeyBytes;
use crate::tcti::DEFAULT_TCTI_SPEC;
use crate::tpm::{FailureKind, TpmFailure};
use vstd::prelude::*;
use vstd::slice::slice_to_vec;

verus! {

/// What there is of the master key.
#[derive(Debug, Clone, Copy, PartialEq, Eq, Structural)]
pub struct Presence {
    pub sealed_file: bool,
    pub rsa_parent: bool,
    pub hmac_key: bool,
}

/// What there is of the master key, and where.
#[derive(Debug)]
pub struct MasterKeyStatus {
    pub sealed_file_present: bool,
    pub rsa_parent_present: bool,
    pub hmac_key_present: bool,
    pub sealed_file_path: String,
    pub rsa_handle: u32,
    pub hmac_handle: u32,
}

impl MasterKeyStatus {
    pub fn new(presence: Presence) -> (s: MasterKeyStatus)
        ensures
            s.sealed_file_present == presence.sealed_file,
            s.rsa_parent_present == presence.rsa_parent,
            s.hmac_key_present == presence.hmac_key,
            s.sealed_file_path@ == MASTER_KEY_SEALED_FILE@,
            s.rsa_handle == MASTER_KEY_RSA_PARENT_HANDLE,
            s.hmac_handle == MASTER_KEY_HMAC_HANDLE,
    {
        MasterKeyStatus {
            sealed_file_present: presence.sealed_file,
            rsa_parent_present: presence.rsa_parent,
            hmac_key_present: presence.hmac_key,
            sealed_file_path: MASTER_KEY_SEALED_FILE.to_owned(),
            rsa_handle: MASTER_KEY_RSA_PARENT_HANDLE,
            hmac_handle: MASTER_KEY_HMAC_HANDLE,
        }
    }
}

/// What initializing the master key has produced.
#[derive(Debug)]
pub struct MasterKeyInitResult {
    pub recovery_phrase: String,
    pub status: MasterKeyStatus,
}

/// How the parent of the master key is made: an RSA key that decrypts, only for
/// the TPM itself, with AES-256 in CFB mode for its children.
#[derive(Debug, Clone, Copy, PartialEq, Eq, Structural)]
pub struct ParentTemplate {
    pub restricted_decryption: bool,
    pub rsa_bits: u16,
    pub child_aes_bits: u16,
}

/// How the master key is made: a keyed hash for HMAC with SHA-256.
#[derive(Debug, Clone, Copy, PartialEq, Eq, Structural)]
pub struct KeyTemplate {
    pub fixed_tpm: bool,
    pub fixed_parent: bool,
    pub sign_encrypt: bool,
    pub user_with_auth: bool,
    pub sensitive_data_origin: bool,
    pub restricted: bool,
    pub decrypt: bool,
}

pub open spec fn parent_public() -> ParentTemplate {
    ParentTemplate { restricted_decryption: true, rsa_bits: 2048, child_aes_bits: 256 }
}

/// The key is supplied rather than made by the TPM, stays with this TPM and this
/// parent, signs anything for whoever is authorized, and does not decrypt.
pub open spec fn key_public() -> KeyTemplate {
    KeyTemplate {
        fixed_tpm: true,
        fixed_parent: true,
        sign_encrypt: true,
        user_with_auth: true,
        sensitive_data_origin: false,
        restricted: false,
        decrypt: false,
    }
}

fn parent_template() -> (t: ParentTemplate)
    ensures
        t == parent_public(),
{
    ParentTemplate { restricted_decryption: true, rsa_bits: 2048, child_aes_bits: 256 }
}

fn key_template() -> (t: KeyTemplate)
    ensures
        t == key_public(),
{
    KeyTemplate {
        fixed_tpm: true,
        fixed_parent: true,
        sign_encrypt: true,
        user_with_auth: true,
        sensitive_data_origin: false,
        restricted: false,
        decrypt: false,
    }
}

/// What an operation on the master key asks for. `S` is the type of texts, `K`
/// that of secret and `B` that of other byte strings.
#[allow(inconsistent_fields)]
pub enum MasterRequest<S = String, K = KeyBytes, B = Vec<u8>> {
    /// See whether the sealed file exists.
    SealedFileExists,
    /// Draw new secrets.
    Draw,
    /// Tell the time, in milliseconds since 1970.
    Clock,
    /// Create the directory of the sealed file, and reserve it to root if
    /// `tighten` is set.
    PrepareDirectory { tighten: bool },
    /// Write the sealed file, which must not exist, for root alone.
    WriteSealed { file: SealedMasterKeyFile<S> },
    /// Read the sealed file.
    ReadSealed,
    /// Remove the sealed file.
    RemoveSealed,
    /// Connect to the TPM.
    OpenTpm { tcti: S },
    /// Find the object at a persistent handle.
    FindPersistent { handle: u32 },
    /// Create a primary key in the owner hierarchy.
    CreateParent { template: ParentTemplate },
    /// Create a key with the given bytes under a parent, and load it.
    CreateKey { parent: u32, template: KeyTemplate, key: K },
    /// Make what has just been created persistent.
    Persist { handle: u32 },
    /// Remove the object at a persistent handle.
    Evict { handle: u32 },
    /// Compute the HMAC of some data, with SHA-256.
    Hmac { handle: u32, data: B },
}

impl View for MasterRequest<String, KeyBytes, Vec<u8>> {
    type V = MasterRequest<Seq<char>, Seq<u8>, Seq<u8>>;

    open spec fn view(&self) -> MasterRequest<Seq<char>, Seq<u8>, Seq<u8>> {
        match *self {
            MasterRequest::SealedFileExists => MasterRequest::SealedFileExists,
            MasterRequest::Draw => MasterRequest::Draw,
            MasterRequest::Clock => MasterRequest::Clock,
            MasterRequest::PrepareDirectory { tighten } => MasterRequest::PrepareDirectory {
                tighten,
            },
            MasterRequest::WriteSealed { file } => MasterRequest::WriteSealed { file: file@ },
            MasterRequest::ReadSealed => MasterRequest::ReadSealed,
            MasterRequest::RemoveSealed => MasterRequest::RemoveSealed,
            MasterRequest::OpenTpm { tcti } => MasterRequest::OpenTpm { tcti: tcti@ },
            MasterRequest::FindPersistent { handle } => MasterRequest::FindPersistent { handle },
            MasterRequest::CreateParent { template } => MasterRequest::CreateParent { template },
            MasterRequest::CreateKey { parent, template, key } => MasterRequest::CreateKey {
                parent,
                template,
                key: key@,
            },
            MasterRequest::Persist { handle } => MasterRequest::Persist { handle },
            MasterRequest::Evict { handle } => MasterRequest::Evict { handle },
            MasterRequest::Hmac { handle, data } => MasterRequest::Hmac { handle, data: data@ },
        }
    }
}

/// What came of the removal of the sealed file.
#[derive(Debug)]
pub enum Removal<S = String> {
    Removed,
    NotFound,
    Failed(S),
}

/// What came of a request. A reply of another sort than the request stands for
/// a failure.
pub enum MasterReply<S = String, M = MasterSecrets, B = Vec<u8>> {
    Exists(bool),
    Drawn(Result<M, PinError<S>>),
    Time(u64),
    /// Whether something was done in the file system, and if not, why.
    Done(Result<(), S>),
    File(Result<SealedMasterKeyFile<S>, S>),
    Removed(Removal<S>),
    /// What the TPM returned.
    Tpm(Result<B, TpmFailure<S>>),
}

impl View for MasterReply<String, MasterSecrets, Vec<u8>> {
    type V = MasterReply<Seq<char>, Secrets, Seq<u8>>;

    open spec fn view(&self) -> MasterReply<Seq<char>, Secrets, Seq<u8>> {
        match *self {
            MasterReply::Exists(b) => MasterReply::Exists(b),
            MasterReply::Drawn(Ok(s)) => MasterReply::Drawn(Ok(s@)),
            MasterReply::Drawn(Err(e)) => MasterReply::Drawn(Err(e@)),
            MasterReply::Time(t) => MasterReply::Time(t),
            MasterReply::Done(Ok(())) => MasterReply::Done(Ok(())),
            MasterReply::Done(Err(e)) => MasterReply::Done(Err(e@)),
            MasterReply::File(Ok(f)) => MasterReply::File(Ok(f@)),
            MasterReply::File(Err(e)) => MasterReply::File(Err(e@)),
            MasterReply::Removed(Removal::Removed) => MasterReply::Removed(Removal::Removed),
            MasterReply::Removed(Removal::NotFound) => MasterReply::Removed(Removal::NotFound),
            MasterReply::Removed(Removal::Failed(e)) => MasterReply::Removed(Removal::Failed(e@)),
            MasterReply::Tpm(Ok(b)) => MasterReply::Tpm(Ok(b@)),
            MasterReply::Tpm(Err(f)) => MasterReply::Tpm(Err(f@)),
        }
    }
}

pub type Order = MasterRequest<Seq<char>, Seq<u8>, Seq<u8>>;

pub type News = MasterReply<Seq<char>, Secrets, Seq<u8>>;

/// A conversation about the master key.
pub type Errand<T> = Prog<Order, News, Result<T, KeyFailure>>;

/// The text of the error that a reply of the wrong sort stands for.
pub const UNEXPECTED: &'static str = "unexpected reply";

pub open spec fn unexpected() -> KeyFailure {
    sealing::io_failure(UNEXPECTED@)
}

pub open spec fn tpm_failure(text: Seq<char>) -> KeyFailure {
    MasterKeyError::Pin(PinError::TpmError(text))
}

/// The data that the TPM returned.
pub open spec fn tpm_data(r: News) -> Result<Seq<u8>, KeyFailure> {
    match r {
        MasterReply::Tpm(Ok(b)) => Ok(b),
        MasterReply::Tpm(Err(f)) => Err(tpm_failure(f.text)),
        _ => Err(unexpected()),
    }
}

/// Whether the TPM has done something.
pub open spec fn tpm_done(r: News) -> Result<(), KeyFailure> {
    match tpm_data(r) {
        Ok(_) => Ok(()),
        Err(e) => Err(e),
    }
}

/// Whether the TPM has found an object.
pub open spec fn found(r: News) -> Result<bool, KeyFailure> {
    match r {
        MasterReply::Tpm(Ok(_)) => Ok(true),
        MasterReply::Tpm(Err(f)) => if f.kind == FailureKind::Handle {
            Ok(false)
        } else {
            Err(tpm_failure(f.text))
        },
        _ => Err(unexpected()),
    }
}

/// Whether something was done in the file system.
pub open spec fn io_done(r: News) -> Result<(), KeyFailure> {
    match r {
        MasterReply::Done(Ok(())) => Ok(()),
        MasterReply::Done(Err(e)) => Err(sealing::io_failure(e)),
        _ => Err(unexpected()),
    }
}

/// Whether the sealed file exists.
pub open spec fn exists_in(r: News) -> bool {
    r != News::Exists(false)
}

/// The secrets that were drawn.
pub open spec fn drawn(r: News) -> Result<Secrets, KeyFailure> {
    match r {
        MasterReply::Drawn(Ok(s)) => if s.well_formed() {
            Ok(s)
        } else {
            Err(unexpected())
        },
        MasterReply::Drawn(Err(e)) => Err(MasterKeyError::Pin(e)),
        _ => Err(unexpected()),
    }
}

/// The time.
pub open spec fn time_in(r: News) -> u64 {
    match r {
        MasterReply::Time(t) => t,
        _ => 0,
    }
}

/// The sealed file.
pub open spec fn file_in(r: News) -> Result<SealedMasterKeyFile<Seq<char>>, KeyFailure> {
    match r {
        MasterReply::File(Ok(f)) => Ok(f),
        MasterReply::File(Err(e)) => Err(sealing::io_failure(e)),
        _ => Err(unexpected()),
    }
}

type MasterResult<T> = Result<T, MasterKeyError>;

fn unexpected_error() -> (e: MasterKeyError)
    ensures
        e@ == unexpected(),
{
    MasterKeyError::Pin(PinError::IoError(UNEXPECTED.to_owned()))
}

fn tpm_error(text: String) -> (e: MasterKeyError)
    ensures
        e@ == tpm_failure(text@),
{
    MasterKeyError::Pin(PinError::TpmError(text))
}

fn take_data(reply: MasterReply) -> (r: MasterResult<Vec<u8>>)
    ensures
        match r {
            Ok(b) => tpm_data(reply@) == Ok::<Seq<u8>, KeyFailure>(b@),
            Err(e) => tpm_data(reply@) == Err::<Seq<u8>, KeyFailure>(e@),
        },
{
    match reply {
        MasterReply::Tpm(Ok(b)) => Ok(b),
        MasterReply::Tpm(Err(f)) => Err(tpm_error(f.text)),
        _ => Err(unexpected_error()),
    }
}

fn take_tpm_done(reply: MasterReply) -> (r: MasterResult<()>)
    ensures
        crate::pinerror::outcome(r) == tpm_done(reply@),
{
    match take_data(reply) {
        Ok(_) => Ok(()),
        Err(e) => Err(e),
    }
}

/// Whether the TPM has found an object.
fn persistent_present(reply: MasterReply) -> (r: MasterResult<bool>)
    ensures
        crate::pinerror::outcome(r) == found(reply@),
{
    match reply {
        MasterReply::Tpm(Ok(_)) => Ok(true),
        MasterReply::Tpm(Err(f)) => if f.kind == FailureKind::Handle {
            Ok(false)
        } else {
            Err(tpm_error(f.text))
        },
        _ => Err(unexpected_error()),
    }
}

fn take_io_done(reply: MasterReply) -> (r: MasterResult<()>)
    ensures
        crate::pinerror::outcome(r) == io_done(reply@),
{
    match reply {
        MasterReply::Done(Ok(())) => Ok(()),
        MasterReply::Done(Err(e)) => Err(MasterKeyError::Pin(PinError::IoError(e))),
        _ => Err(unexpected_error()),
    }
}

fn take_exists(reply: MasterReply) -> (b: bool)
    ensures
        b == exists_in(reply@),
{
    match reply {
        MasterReply::Exists(b) => b,
        _ => true,
    }
}

fn take_secrets(reply: MasterReply) -> (r: MasterResult<MasterSecrets>)
    ensures
        match r {
            Ok(s) => drawn(reply@) == Ok::<Secrets, KeyFailure>(s@),
            Err(e) => drawn(reply@) == Err::<Secrets, KeyFailure>(e@),
        },
{
    match reply {
        MasterReply::Drawn(Ok(s)) => if s.is_well_formed() {
            Ok(s)
        } else {
            Err(unexpected_error())
        },
        MasterReply::Drawn(Err(e)) => Err(MasterKeyError::Pin(e)),
        _ => Err(unexpected_error()),
    }
}

fn take_time(reply: MasterReply) -> (t: u64)
    ensures
        t == time_in(reply@),
{
    match reply {
        MasterReply::Time(t) => t,
        _ => 0,
    }
}

fn take_file(reply: MasterReply) -> (r: MasterResult<SealedMasterKeyFile>)
    ensures
        match r {
            Ok(f) => file_in(reply@) == Ok::<SealedMasterKeyFile<Seq<char>>, KeyFailure>(f@),
            Err(e) => file_in(reply@) == Err::<SealedMasterKeyFile<Seq<char>>, KeyFailure>(e@),
        },
{
    match reply {
        MasterReply::File(Ok(f)) => Ok(f),
        MasterReply::File(Err(e)) => Err(MasterKeyError::Pin(PinError::IoError(e))),
        _ => Err(unexpected_error()),
    }
}

fn open_tpm() -> (c: MasterRequest)
    ensures
        c@ == opening(),
{
    MasterRequest::OpenTpm { tcti: DEFAULT_TCTI_SPEC.to_owned() }
}

/// The master key is always in the TPM behind the kernel resource manager.
pub open spec fn opening() -> Order {
    MasterRequest::OpenTpm { tcti: DEFAULT_TCTI_SPEC@ }
}

/// Finding out what there is of the master key.
pub open spec fn status_errand() -> Errand<Presence> {
    Prog::Ask(MasterRequest::SealedFileExists, |r: News| status_file(r))
}

pub open spec fn status_file(r: News) -> Errand<Presence> {
    let file = exists_in(r);
    Prog::Ask(opening(), |r: News| status_opened(file, r))
}

pub open spec fn status_opened(file: bool, r: News) -> Errand<Presence> {
    match tpm_done(r) {
        Ok(()) => Prog::Ask(
            MasterRequest::FindPersistent { handle: MASTER_KEY_RSA_PARENT_HANDLE },
            |r: News| status_parent(file, r),
        ),
        Err(e) => Prog::Return(Err(e)),
    }
}

pub open spec fn status_parent(file: bool, r: News) -> Errand<Presence> {
    match found(r) {
        Ok(parent) => Prog::Ask(
            MasterRequest::FindPersistent { handle: MASTER_KEY_HMAC_HANDLE },
            |r: News| Prog::Return(status_key(file, parent, r)),
        ),
        Err(e) => Prog::Return(Err(e)),
    }
}

pub open spec fn status_key(file: bool, parent: bool, r: News) -> Result<Presence, KeyFailure> {
    match found(r) {
        Ok(key) => Ok(Presence { sealed_file: file, rsa_parent: parent, hmac_key: key }),
        Err(e) => Err(e),
    }
}

/// The status, waiting for a reply.
pub enum StatusErrand {
    File,
    Opening { file: bool },
    Parent { file: bool },
    Key { file: bool, parent: bool },
}

impl Paused<Order, News, Result<Presence, KeyFailure>> for StatusErrand {
    open spec fn after(self, r: News) -> Prog<Order, News, Result<Presence, KeyFailure>> {
        match self {
            StatusErrand::File => status_file(r),
            StatusErrand::Opening { file } => status_opened(file, r),
            StatusErrand::Parent { file } => status_parent(file, r),
            StatusErrand::Key { file, parent } => Prog::Return(status_key(file, parent, r)),
        }
    }
}

/// Finds out what there is of the master key.
pub fn status() -> (s: Step<MasterRequest, StatusErrand, Result<Presence, MasterKeyError>>)
    ensures
        flow::performs(s, status_errand()),
{
    Step::Ask(MasterRequest::SealedFileExists, StatusErrand::File)
}

impl StatusErrand {
    pub fn resume(self, reply: MasterReply) -> (s: Step<
        MasterRequest,
        StatusErrand,
        Result<Presence, MasterKeyError>,
    >)
        ensures
            flow::performs(s, self.after(reply@)),
    {
        match self {
            StatusErrand::File => {
                let file = take_exists(reply);
                Step::Ask(open_tpm(), StatusErrand::Opening { file })
            },
            StatusErrand::Opening { file } => match take_tpm_done(reply) {
                Ok(()) => Step::Ask(
                    MasterRequest::FindPersistent { handle: MASTER_KEY_RSA_PARENT_HANDLE },
                    StatusErrand::Parent { file },
                ),
                Err(e) => Step::Done(Err(e)),
            },
            StatusErrand::Parent { file } => match persistent_present(reply) {
                Ok(parent) => Step::Ask(
                    MasterRequest::FindPersistent { handle: MASTER_KEY_HMAC_HANDLE },
                    StatusErrand::Key { file, parent },
                ),
                Err(e) => Step::Done(Err(e)),
            },
            StatusErrand::Key { file, parent } => match persistent_present(reply) {
                Ok(key) => Step::Done(
                    Ok(Presence { sealed_file: file, rsa_parent: parent, hmac_key: key }),
                ),
                Err(e) => Step::Done(Err(e)),
            },
        }
    }
}

/// Bringing the master key into the TPM. Its parent is created if need be; a key
/// that is there already is not overwritten.
pub open spec fn provision(key: Seq<u8>) -> Errand<()> {
    Prog::Ask(opening(), |r: News| provision_opened(key, r))
}

pub open spec fn provision_opened(key: Seq<u8>, r: News) -> Errand<()> {
    match tpm_done(r) {
        Ok(()) => Prog::Ask(
            MasterRequest::FindPersistent { handle: MASTER_KEY_RSA_PARENT_HANDLE },
            |r: News| provision_parent(key, r),
        ),
        Err(e) => Prog::Return(Err(e)),
    }
}

pub open spec fn provision_parent(key: Seq<u8>, r: News) -> Errand<()> {
    match found(r) {
        Ok(present) => if present {
            provision_key(key)
        } else {
            Prog::Ask(
                MasterRequest::CreateParent { template: parent_public() },
                |r: News| parent_created(key, r),
            )
        },
        Err(e) => Prog::Return(Err(e)),
    }
}

pub open spec fn parent_created(key: Seq<u8>, r: News) -> Errand<()> {
    match tpm_done(r) {
        Ok(()) => Prog::Ask(
            MasterRequest::Persist { handle: MASTER_KEY_RSA_PARENT_HANDLE },
            |r: News| parent_persisted(key, r),
        ),
        Err(e) => Prog::Return(Err(e)),
    }
}

pub open spec fn parent_persisted(key: Seq<u8>, r: News) -> Errand<()> {
    match tpm_done(r) {
        Ok(()) => provision_key(key),
        Err(e) => Prog::Return(Err(e)),
    }
}

pub open spec fn provision_key(key: Seq<u8>) -> Errand<()> {
    Prog::Ask(
        MasterRequest::FindPersistent { handle: MASTER_KEY_HMAC_HANDLE },
        |r: News| key_found(key, r),
    )
}

pub open spec fn key_found(key: Seq<u8>, r: News) -> Errand<()> {
    match found(r) {
        Ok(present) => if present {
            Prog::Return(Err(MasterKeyError::Refused(Refusal::KeyExists)))
        } else {
            Prog::Ask(
                MasterRequest::FindPersistent { handle: MASTER_KEY_RSA_PARENT_HANDLE },
                |r: News| parent_loaded(key, r),
            )
        },
        Err(e) => Prog::Return(Err(e)),
    }
}

pub open spec fn parent_loaded(key: Seq<u8>, r: News) -> Errand<()> {
    match tpm_done(r) {
        Ok(()) => Prog::Ask(
            MasterRequest::CreateKey {
                parent: MASTER_KEY_RSA_PARENT_HANDLE,
                template: key_public(),
                key,
            },
            |r: News| key_created(r),
        ),
        Err(e) => Prog::Return(Err(e)),
    }
}

pub open spec fn key_created(r: News) -> Errand<()> {
    match tpm_done(r) {
        Ok(()) => Prog::Ask(
            MasterRequest::Persist { handle: MASTER_KEY_HMAC_HANDLE },
            |r: News| Prog::Return(tpm_done(r)),
        ),
        Err(e) => Prog::Return(Err(e)),
    }
}

/// The provisioning, waiting for a reply.
pub enum Provision {
    Opening(KeyBytes),
    FindingParent(KeyBytes),
    CreatingParent(KeyBytes),
    PersistingParent(KeyBytes),
    FindingKey(KeyBytes),
    LoadingParent(KeyBytes),
    CreatingKey,
    PersistingKey,
}

impl Paused<Order, News, Result<(), KeyFailure>> for Provision {
    open spec fn after(self, r: News) -> Prog<Order, News, Result<(), KeyFailure>> {
        match self {
            Provision::Opening(key) => provision_opened(key@, r),
            Provision::FindingParent(key) => provision_parent(key@, r),
            Provision::CreatingParent(key) => parent_created(key@, r),
            Provision::PersistingParent(key) => parent_persisted(key@, r),
            Provision::FindingKey(key) => key_found(key@, r),
            Provision::LoadingParent(key) => parent_loaded(key@, r),
            Provision::CreatingKey => key_created(r),
            Provision::PersistingKey => Prog::Return(tpm_done(r)),
        }
    }
}

type ProvisionStep = Step<MasterRequest, Provision, MasterResult<()>>;

/// Brings the master key into the TPM.
fn provision_tpm_objects(key: KeyBytes) -> (s: ProvisionStep)
    ensures
        flow::performs(s, provision(key@)),
{
    Step::Ask(open_tpm(), Provision::Opening(key))
}

fn find_key(key: KeyBytes) -> (s: ProvisionStep)
    ensures
        flow::performs(s, provision_key(key@)),
{
    Step::Ask(
        MasterRequest::FindPersistent { handle: MASTER_KEY_HMAC_HANDLE },
        Provision::FindingKey(key),
    )
}

impl Provision {
    pub fn resume(self, reply: MasterReply) -> (s: Step<
        MasterRequest,
        Provision,
        Result<(), MasterKeyError>,
    >)
        ensures
            flow::performs(s, self.after(reply@)),
    {
        match self {
            Provision::Opening(key) => match take_tpm_done(reply) {
                Ok(()) => Step::Ask(
                    MasterRequest::FindPersistent { handle: MASTER_KEY_RSA_PARENT_HANDLE },
                    Provision::FindingParent(key),
                ),
                Err(e) => Step::Done(Err(e)),
            },
            Provision::FindingParent(key) => match persistent_present(reply) {
                Ok(present) => if present {
                    find_key(key)
                } else {
                    Step::Ask(
                        MasterRequest::CreateParent { template: parent_template() },
                        Provision::CreatingParent(key),
                    )
                },
                Err(e) => Step::Done(Err(e)),
            },
            Provision::CreatingParent(key) => match take_tpm_done(reply) {
                Ok(()) => Step::Ask(
                    MasterRequest::Persist { handle: MASTER_KEY_RSA_PARENT_HANDLE },
                    Provision::PersistingParent(key),
                ),
                Err(e) => Step::Done(Err(e)),
            },
            Provision::PersistingParent(key) => match take_tpm_done(reply) {
                Ok(()) => find_key(key),
                Err(e) => Step::Done(Err(e)),
            },
            Provision::FindingKey(key) => match persistent_present(reply) {
                Ok(present) => if present {
                    Step::Done(Err(MasterKeyError::Refused(Refusal::KeyExists)))
                } else {
                    Step::Ask(
                        MasterRequest::FindPersistent { handle: MASTER_KEY_RSA_PARENT_HANDLE },
                        Provision::LoadingParent(key),
                    )
                },
                Err(e) => Step::Done(Err(e)),
            },
            Provision::LoadingParent(key) => match take_tpm_done(reply) {
                Ok(()) => Step::Ask(
                    MasterRequest::CreateKey {
                        parent: MASTER_KEY_RSA_PARENT_HANDLE,
                        template: key_template(),
                        key,
                    },
                    Provision::CreatingKey,
                ),
                Err(e) => Step::Done(Err(e)),
            },
            Provision::CreatingKey => match take_tpm_done(reply) {
                Ok(()) => Step::Ask(
                    MasterRequest::Persist { handle: MASTER_KEY_HMAC_HANDLE },
                    Provision::PersistingKey,
                ),
                Err(e) => Step::Done(Err(e)),
            },
            Provision::PersistingKey => Step::Done(take_tpm_done(reply)),
        }
    }
}

/// Removing the master key and then its parent from the TPM, as far as they are
/// there.
pub open spec fn clear() -> Errand<()> {
    Prog::Ask(opening(), |r: News| clear_opened(r))
}

pub open spec fn clear_opened(r: News) -> Errand<()> {
    match tpm_done(r) {
        Ok(()) => Prog::Ask(
            MasterRequest::FindPersistent { handle: MASTER_KEY_HMAC_HANDLE },
            |r: News| clear_key(r),
        ),
        Err(e) => Prog::Return(Err(e)),
    }
}

pub open spec fn clear_key(r: News) -> Errand<()> {
    if found(r) == Ok::<bool, KeyFailure>(true) {
        Prog::Ask(
            MasterRequest::Evict { handle: MASTER_KEY_HMAC_HANDLE },
            |r: News| clear_parent_next(),
        )
    } else {
        clear_parent_next()
    }
}

pub open spec fn clear_parent_next() -> Errand<()> {
    Prog::Ask(
        MasterRequest::FindPersistent { handle: MASTER_KEY_RSA_PARENT_HANDLE },
        |r: News| clear_parent(r),
    )
}

pub open spec fn clear_parent(r: News) -> Errand<()> {
    if found(r) == Ok::<bool, KeyFailure>(true) {
        Prog::Ask(
            MasterRequest::Evict { handle: MASTER_KEY_RSA_PARENT_HANDLE },
            |r: News| Prog::Return(Ok(())),
        )
    } else {
        Prog::Return(Ok(()))
    }
}

/// The removal, waiting for a reply.
pub enum Clearing {
    Opening,
    FindingKey,
    EvictingKey,
    FindingParent,
    EvictingParent,
}

impl Paused<Order, News, Result<(), KeyFailure>> for Clearing {
    open spec fn after(self, r: News) -> Prog<Order, News, Result<(), KeyFailure>> {
        match self {
            Clearing::Opening => clear_opened(r),
            Clearing::FindingKey => clear_key(r),
            Clearing::EvictingKey => clear_parent_next(),
            Clearing::FindingParent => clear_parent(r),
            Clearing::EvictingParent => Prog::Return(Ok(())),
        }
    }
}

type ClearStep = Step<MasterRequest, Clearing, MasterResult<()>>;

fn clear_all() -> (s: ClearStep)
    ensures
        flow::performs(s, clear()),
{
    Step::Ask(open_tpm(), Clearing::Opening)
}

fn next_parent() -> (s: ClearStep)
    ensures
        flow::performs(s, clear_parent_next()),
{
    Step::Ask(
        MasterRequest::FindPersistent { handle: MASTER_KEY_RSA_PARENT_HANDLE },
        Clearing::FindingParent,
    )
}

fn is_found(reply: MasterReply) -> (b: bool)
    ensures
        b == (found(reply@) == Ok::<bool, KeyFailure>(true)),
{
    match persistent_present(reply) {
        Ok(present) => present,
        Err(_) => false,
    }
}

impl Clearing {
    pub fn resume(self, reply: MasterReply) -> (s: Step<
        MasterRequest,
        Clearing,
        Result<(), MasterKeyError>,
    >)
        ensures
            flow::performs(s, self.after(reply@)),
    {
        match self {
            Clearing::Opening => match take_tpm_done(reply) {
                Ok(()) => Step::Ask(
                    MasterRequest::FindPersistent { handle: MASTER_KEY_HMAC_HANDLE },
                    Clearing::FindingKey,
                ),
                Err(e) => Step::Done(Err(e)),
            },
            Clearing::FindingKey => if is_found(reply) {
                Step::Ask(
                    MasterRequest::Evict { handle: MASTER_KEY_HMAC_HANDLE },
                    Clearing::EvictingKey,
                )
            } else {
                next_parent()
            },
            Clearing::EvictingKey => next_parent(),
            Clearing::FindingParent => if is_found(reply) {
                Step::Ask(
                    MasterRequest::Evict { handle: MASTER_KEY_RSA_PARENT_HANDLE },
                    Clearing::EvictingParent,
                )
            } else {
                Step::Done(Ok(()))
            },
            Clearing::EvictingParent => Step::Done(Ok(())),
        }
    }
}

pub open spec fn denied() -> KeyFailure {
    MasterKeyError::Pin(PinError::PermissionDenied)
}

/// `errand`, if it is root who runs it.
pub open spec fn for_root<T>(uid: u32, errand: Errand<T>) -> Errand<T> {
    if uid == 0 {
        errand
    } else {
        Prog::Return(Err(denied()))
    }
}

fn denied_error() -> (e: MasterKeyError)
    ensures
        e@ == denied(),
{
    MasterKeyError::Pin(PinError::PermissionDenied)
}

/// Removes the master key from the TPM. `uid` is the real uid of whoever does.
pub fn clear_from_tpm(uid: u32) -> (s: Step<MasterRequest, Clearing, Result<(), MasterKeyError>>)
    ensures
        flow::performs(s, for_root(uid, clear())),
{
    if uid != 0 {
        return Step::Done(Err(denied_error()));
    }
    clear_all()
}

/// What came of removing the sealed file: that there was none is fine.
pub open spec fn removed(r: News) -> Result<(), KeyFailure> {
    match r {
        MasterReply::Removed(Removal::Removed) | MasterReply::Removed(Removal::NotFound) => Ok(()),
        MasterReply::Removed(Removal::Failed(e)) => Err(sealing::io_failure(e)),
        _ => Err(unexpected()),
    }
}

/// The removal of the sealed file, waiting for a reply.
pub struct DiskClearing;

impl Paused<Order, News, Result<(), KeyFailure>> for DiskClearing {
    open spec fn after(self, r: News) -> Prog<Order, News, Result<(), KeyFailure>> {
        Prog::Return(removed(r))
    }
}

/// Removing the sealed file.
pub open spec fn remove_sealed() -> Errand<()> {
    Prog::Ask(MasterRequest::RemoveSealed, |r: News| Prog::Return(removed(r)))
}

/// Removes the sealed file. `uid` is the real uid of whoever does.
pub fn clear_from_disk(uid: u32) -> (s: Step<
    MasterRequest,
    DiskClearing,
    Result<(), MasterKeyError>,
>)
    ensures
        flow::performs(s, for_root(uid, remove_sealed())),
{
    if uid != 0 {
        return Step::Done(Err(denied_error()));
    }
    Step::Ask(MasterRequest::RemoveSealed, DiskClearing)
}

impl DiskClearing {
    pub fn resume(self, reply: MasterReply) -> (s: Step<
        MasterRequest,
        DiskClearing,
        Result<(), MasterKeyError>,
    >)
        ensures
            flow::performs(s, self.after(reply@)),
    {
        match reply {
            MasterReply::Removed(Removal::Removed) | MasterReply::Removed(Removal::NotFound) =>
                Step::Done(Ok(())),
            MasterReply::Removed(Removal::Failed(e)) => Step::Done(
                Err(MasterKeyError::Pin(PinError::IoError(e))),
            ),
            _ => Step::Done(Err(unexpected_error())),
        }
    }
}

impl MasterKeyInitResult {
    pub fn new(recovery_phrase: String, presence: Presence) -> (r: MasterKeyInitResult)
        ensures
            r.recovery_phrase@ == recovery_phrase@,
            r.status.sealed_file_present == presence.sealed_file,
            r.status.rsa_parent_present == presence.rsa_parent,
            r.status.hmac_key_present == presence.hmac_key,
            r.status.sealed_file_path@ == MASTER_KEY_SEALED_FILE@,
            r.status.rsa_handle == MASTER_KEY_RSA_PARENT_HANDLE,
            r.status.hmac_handle == MASTER_KEY_HMAC_HANDLE,
    {
        MasterKeyInitResult { recovery_phrase, status: MasterKeyStatus::new(presence) }
    }
}

/// Initializing the master key, unless there is a sealed file. It is brought
/// into the TPM first; if it cannot be sealed to disk then, it is removed from
/// the TPM again.
pub open spec fn initialize() -> Errand<(Seq<char>, Presence)> {
    Prog::Ask(MasterRequest::SealedFileExists, |r: News| init_checked(r))
}

pub open spec fn init_checked(r: News) -> Errand<(Seq<char>, Presence)> {
    if exists_in(r) {
        Prog::Return(Err(MasterKeyError::Refused(Refusal::SealedFileExists)))
    } else {
        Prog::Ask(MasterRequest::Draw, |r: News| init_drawn(r))
    }
}

pub open spec fn init_drawn(r: News) -> Errand<(Seq<char>, Presence)> {
    match drawn(r) {
        Ok(secrets) => flow::bind(
            provision(secrets.key),
            |p: Result<(), KeyFailure>| init_provisioned(secrets, p),
        ),
        Err(e) => Prog::Return(Err(e)),
    }
}

pub open spec fn init_provisioned(secrets: Secrets, p: Result<(), KeyFailure>) -> Errand<
    (Seq<char>, Presence),
> {
    match p {
        Ok(()) => Prog::Ask(
            MasterRequest::PrepareDirectory { tighten: true },
            |r: News| init_directory(secrets),
        ),
        Err(e) => Prog::Return(Err(e)),
    }
}

/// That the directory could not be reserved to root does not matter, as long as
/// it is there.
pub open spec fn init_directory(secrets: Secrets) -> Errand<(Seq<char>, Presence)> {
    Prog::Ask(
        MasterRequest::PrepareDirectory { tighten: false },
        |r: News| init_prepared(secrets, r),
    )
}

pub open spec fn init_prepared(secrets: Secrets, r: News) -> Errand<(Seq<char>, Presence)> {
    match io_done(r) {
        Ok(()) => Prog::Ask(MasterRequest::Clock, |r: News| init_timed(secrets, r)),
        Err(e) => init_abort(e),
    }
}

pub open spec fn init_timed(secrets: Secrets, r: News) -> Errand<(Seq<char>, Presence)> {
    if !secrets.well_formed() {
        init_abort(unexpected())
    } else {
        match sealing::sealed(
            secrets.key,
            secrets.phrase,
            time_in(r),
            secrets.salt,
            secrets.nonce,
        ) {
            Ok(file) => Prog::Ask(
                MasterRequest::WriteSealed { file },
                |r: News| init_written(secrets.phrase, r),
            ),
            Err(e) => init_abort(e),
        }
    }
}

pub open spec fn init_written(phrase: Seq<char>, r: News) -> Errand<(Seq<char>, Presence)> {
    match io_done(r) {
        Ok(()) => flow::bind(
            status_errand(),
            |p: Result<Presence, KeyFailure>| Prog::Return(init_result(phrase, p)),
        ),
        Err(e) => init_abort(e),
    }
}

pub open spec fn init_result(phrase: Seq<char>, p: Result<Presence, KeyFailure>) -> Result<
    (Seq<char>, Presence),
    KeyFailure,
> {
    match p {
        Ok(presence) => Ok((phrase, presence)),
        Err(e) => Err(e),
    }
}

/// Taking the master key out of the TPM again and failing.
pub open spec fn init_abort(e: KeyFailure) -> Errand<(Seq<char>, Presence)> {
    flow::bind(clear(), |c: Result<(), KeyFailure>| Prog::Return(Err(e)))
}

/// The outcome of the initialization: the recovery phrase, and what there is of
/// the master key then.
pub struct Initialized(pub Result<(String, Presence), MasterKeyError>);

impl Modelled for Initialized {
    type Model = Result<(Seq<char>, Presence), KeyFailure>;

    open spec fn model(&self) -> Result<(Seq<char>, Presence), KeyFailure> {
        match self.0 {
            Ok((phrase, presence)) => Ok((phrase@, presence)),
            Err(e) => Err(e@),
        }
    }
}

/// The initialization, waiting for a reply.
pub enum Initialization {
    Checking,
    Drawing,
    Provisioning(Provision, MasterSecrets),
    Tightening(MasterSecrets),
    Preparing(MasterSecrets),
    Timing(MasterSecrets),
    Writing(String),
    Reporting(StatusErrand, String),
    Aborting(Clearing, MasterKeyError),
}

impl Paused<Order, News, Result<(Seq<char>, Presence), KeyFailure>> for Initialization {
    open spec fn after(self, r: News) -> Prog<
        Order,
        News,
        Result<(Seq<char>, Presence), KeyFailure>,
    > {
        match self {
            Initialization::Checking => init_checked(r),
            Initialization::Drawing => init_drawn(r),
            Initialization::Provisioning(sub, secrets) => flow::bind(
                sub.after(r),
                |p: Result<(), KeyFailure>| init_provisioned(secrets@, p),
            ),
            Initialization::Tightening(secrets) => init_directory(secrets@),
            Initialization::Preparing(secrets) => init_prepared(secrets@, r),
            Initialization::Timing(secrets) => init_timed(secrets@, r),
            Initialization::Writing(phrase) => init_written(phrase@, r),
            Initialization::Reporting(sub, phrase) => flow::bind(
                sub.after(r),
                |p: Result<Presence, KeyFailure>| Prog::Return(init_result(phrase@, p)),
            ),
            Initialization::Aborting(sub, e) => flow::bind(
                sub.after(r),
                |c: Result<(), KeyFailure>| Prog::Return(Err(e@)),
            ),
        }
    }
}

type InitStep = Step<MasterRequest, Initialization, Initialized>;

/// Initializes the master key. `uid` is the real uid of whoever does.
pub fn init(uid: u32) -> (s: Step<MasterRequest, Initialization, Initialized>)
    ensures
        flow::performs(s, for_root(uid, initialize())),
{
    if uid != 0 {
        return Step::Done(Initialized(Err(denied_error())));
    }
    Step::Ask(MasterRequest::SealedFileExists, Initialization::Checking)
}

fn while_provisioning(
    step: ProvisionStep,
    secrets: MasterSecrets,
    Ghost(talk): Ghost<Errand<()>>,
) -> (s: InitStep)
    requires
        flow::performs(step, talk),
    ensures
        flow::performs(
            s,
            flow::bind(talk, |p: Result<(), KeyFailure>| init_provisioned(secrets@, p)),
        ),
{
    proof {
        reveal_with_fuel(flow::bind, 2);
    }
    match step {
        Step::Ask(request, sub) => Step::Ask(request, Initialization::Provisioning(sub, secrets)),
        Step::Done(Ok(())) => Step::Ask(
            MasterRequest::PrepareDirectory { tighten: true },
            Initialization::Tightening(secrets),
        ),
        Step::Done(Err(e)) => Step::Done(Initialized(Err(e))),
    }
}

fn while_reporting(
    step: Step<MasterRequest, StatusErrand, MasterResult<Presence>>,
    phrase: String,
    Ghost(talk): Ghost<Errand<Presence>>,
) -> (s: InitStep)
    requires
        flow::performs(step, talk),
    ensures
        flow::performs(
            s,
            flow::bind(
                talk,
                |p: Result<Presence, KeyFailure>| Prog::Return(init_result(phrase@, p)),
            ),
        ),
{
    proof {
        reveal_with_fuel(flow::bind, 2);
    }
    match step {
        Step::Ask(request, sub) => Step::Ask(request, Initialization::Reporting(sub, phrase)),
        Step::Done(Ok(presence)) => Step::Done(Initialized(Ok((phrase, presence)))),
        Step::Done(Err(e)) => Step::Done(Initialized(Err(e))),
    }
}

fn while_aborting(
    step: ClearStep,
    error: MasterKeyError,
    Ghost(talk): Ghost<Errand<()>>,
) -> (s: InitStep)
    requires
        flow::performs(step, talk),
    ensures
        flow::performs(
            s,
            flow::bind(talk, |c: Result<(), KeyFailure>| Prog::Return(Err(error@))),
        ),
{
    proof {
        reveal_with_fuel(flow::bind, 2);
    }
    match step {
        Step::Ask(request, sub) => Step::Ask(request, Initialization::Aborting(sub, error)),
        Step::Done(_) => Step::Done(Initialized(Err(error))),
    }
}

fn abort_init(error: MasterKeyError) -> (s: InitStep)
    ensures
        flow::performs(s, init_abort(error@)),
{
    while_aborting(clear_all(), error, Ghost(clear()))
}

impl Initialization {
    /// The sealed file that is written holds the key that was brought into the
    /// TPM, and the phrase unseals it.
    pub fn resume(self, reply: MasterReply) -> (s: Step<
        MasterRequest,
        Initialization,
        Initialized,
    >)
        ensures
            flow::performs(s, self.after(reply@)),
            self matches Initialization::Timing(secrets) ==> (s matches Step::Ask(
                MasterRequest::WriteSealed { file },
                _,
            ) ==> sealing::unsealed(secrets@.phrase, file@) == Ok::<Seq<u8>, KeyFailure>(
                secrets@.key,
            )),
    {
        let ghost r = reply@;
        match self {
            Initialization::Checking => if take_exists(reply) {
                Step::Done(Initialized(Err(MasterKeyError::Refused(Refusal::SealedFileExists))))
            } else {
                Step::Ask(MasterRequest::Draw, Initialization::Drawing)
            },
            Initialization::Drawing => match take_secrets(reply) {
                Ok(secrets) => {
                    let key = KeyBytes::copy_of(secrets.key.as_slice());
                    let ghost talk = provision(secrets@.key);
                    while_provisioning(provision_tpm_objects(key), secrets, Ghost(talk))
                },
                Err(e) => Step::Done(Initialized(Err(e))),
            },
            Initialization::Provisioning(sub, secrets) => {
                let ghost talk = sub.after(r);
                while_provisioning(sub.resume(reply), secrets, Ghost(talk))
            },
            Initialization::Tightening(secrets) => Step::Ask(
                MasterRequest::PrepareDirectory { tighten: false },
                Initialization::Preparing(secrets),
            ),
            Initialization::Preparing(secrets) => match take_io_done(reply) {
                Ok(()) => Step::Ask(MasterRequest::Clock, Initialization::Timing(secrets)),
                Err(e) => abort_init(e),
            },
            Initialization::Timing(secrets) => {
                if !secrets.is_well_formed() {
                    return abort_init(unexpected_error());
                }
                match seal_key_bytes(
                    secrets.key.as_slice(),
                    secrets.phrase.as_str(),
                    take_time(reply),
                    secrets.salt.as_slice(),
                    secrets.nonce.as_slice(),
                ) {
                    Ok(file) => Step::Ask(
                        MasterRequest::WriteSealed { file },
                        Initialization::Writing(secrets.phrase),
                    ),
                    Err(e) => abort_init(e),
                }
            },
            Initialization::Writing(phrase) => match take_io_done(reply) {
                Ok(()) => while_reporting(status(), phrase, Ghost(status_errand())),
                Err(e) => abort_init(e),
            },
            Initialization::Reporting(sub, phrase) => {
                let ghost talk = sub.after(r);
                while_reporting(sub.resume(reply), phrase, Ghost(talk))
            },
            Initialization::Aborting(sub, error) => {
                let ghost talk = sub.after(r);
                while_aborting(sub.resume(reply), error, Ghost(talk))
            },
        }
    }
}

/// Importing the master key from the sealed file into a TPM that has neither it
/// nor its parent.
pub open spec fn import(phrase: Seq<char>) -> Errand<Presence> {
    flow::bind(status_errand(), |p: Result<Presence, KeyFailure>| import_checked(phrase, p))
}

pub open spec fn import_checked(phrase: Seq<char>, p: Result<Presence, KeyFailure>) -> Errand<
    Presence,
> {
    match p {
        Ok(presence) => if presence.rsa_parent {
            Prog::Return(Err(MasterKeyError::Refused(Refusal::ParentPresent)))
        } else if presence.hmac_key {
            Prog::Return(Err(MasterKeyError::Refused(Refusal::KeyPresent)))
        } else if !presence.sealed_file {
            Prog::Return(Err(MasterKeyError::Refused(Refusal::NoSealedFile)))
        } else {
            Prog::Ask(MasterRequest::ReadSealed, |r: News| import_read(phrase, r))
        },
        Err(e) => Prog::Return(Err(e)),
    }
}

/// The key that a sealed file holds, if it is one.
pub open spec fn recovered(phrase: Seq<char>, r: News) -> Result<Seq<u8>, KeyFailure> {
    match file_in(r) {
        Ok(file) => match sealing::unsealed(phrase, file) {
            Ok(key) => if key.len() == HMAC_KEY_LEN {
                Ok(key)
            } else {
                Err(MasterKeyError::Refused(Refusal::UnexpectedLength))
            },
            Err(e) => Err(e),
        },
        Err(e) => Err(e),
    }
}

pub open spec fn import_read(phrase: Seq<char>, r: News) -> Errand<Presence> {
    match recovered(phrase, r) {
        Ok(key) => flow::bind(
            provision(key),
            |p: Result<(), KeyFailure>| import_provisioned(p),
        ),
        Err(e) => Prog::Return(Err(e)),
    }
}

pub open spec fn import_provisioned(p: Result<(), KeyFailure>) -> Errand<Presence> {
    match p {
        Ok(()) => status_errand(),
        Err(e) => Prog::Return(Err(e)),
    }
}

/// The import, waiting for a reply.
pub enum Import {
    Checking(StatusErrand, String),
    Reading(String),
    Provisioning(Provision),
    Reporting(StatusErrand),
}

impl Paused<Order, News, Result<Presence, KeyFailure>> for Import {
    open spec fn after(self, r: News) -> Prog<Order, News, Result<Presence, KeyFailure>> {
        match self {
            Import::Checking(sub, phrase) => flow::bind(
                sub.after(r),
                |p: Result<Presence, KeyFailure>| import_checked(phrase@, p),
            ),
            Import::Reading(phrase) => import_read(phrase@, r),
            Import::Provisioning(sub) => flow::bind(
                sub.after(r),
                |p: Result<(), KeyFailure>| import_provisioned(p),
            ),
            Import::Reporting(sub) => sub.after(r),
        }
    }
}

type ImportStep = Step<MasterRequest, Import, MasterResult<Presence>>;

fn while_checking(
    step: Step<MasterRequest, StatusErrand, MasterResult<Presence>>,
    phrase: String,
    Ghost(talk): Ghost<Errand<Presence>>,
) -> (s: ImportStep)
    requires
        flow::performs(step, talk),
    ensures
        flow::performs(
            s,
            flow::bind(talk, |p: Result<Presence, KeyFailure>| import_checked(phrase@, p)),
        ),
{
    proof {
        reveal_with_fuel(flow::bind, 2);
    }
    match step {
        Step::Ask(request, sub) => Step::Ask(request, Import::Checking(sub, phrase)),
        Step::Done(Ok(presence)) => if presence.rsa_parent {
            Step::Done(Err(MasterKeyError::Refused(Refusal::ParentPresent)))
        } else if presence.hmac_key {
            Step::Done(Err(MasterKeyError::Refused(Refusal::KeyPresent)))
        } else if !presence.sealed_file {
            Step::Done(Err(MasterKeyError::Refused(Refusal::NoSealedFile)))
        } else {
            Step::Ask(MasterRequest::ReadSealed, Import::Reading(phrase))
        },
        Step::Done(Err(e)) => Step::Done(Err(e)),
    }
}

fn report_import(step: Step<MasterRequest, StatusErrand, MasterResult<Presence>>, Ghost(talk):
    Ghost<Errand<Presence>>) -> (s: ImportStep)
    requires
        flow::performs(step, talk),
    ensures
        flow::performs(s, talk),
{
    match step {
        Step::Ask(request, sub) => Step::Ask(request, Import::Reporting(sub)),
        Step::Done(r) => Step::Done(r),
    }
}

fn while_importing(step: ProvisionStep, Ghost(talk): Ghost<Errand<()>>) -> (s: ImportStep)
    requires
        flow::performs(step, talk),
    ensures
        flow::performs(
            s,
            flow::bind(talk, |p: Result<(), KeyFailure>| import_provisioned(p)),
        ),
{
    proof {
        reveal_with_fuel(flow::bind, 2);
    }
    match step {
        Step::Ask(request, sub) => Step::Ask(request, Import::Provisioning(sub)),
        Step::Done(Ok(())) => report_import(status(), Ghost(status_errand())),
        Step::Done(Err(e)) => Step::Done(Err(e)),
    }
}

/// Imports the master key into the TPM, with the recovery phrase. `uid` is the
/// real uid of whoever does.
pub fn import_to_tpm(uid: u32, recovery_phrase: &str) -> (s: Step<
    MasterRequest,
    Import,
    Result<Presence, MasterKeyError>,
>)
    ensures
        flow::performs(s, for_root(uid, import(recovery_phrase@))),
{
    if uid != 0 {
        return Step::Done(Err(denied_error()));
    }
    while_checking(status(), recovery_phrase.to_owned(), Ghost(status_errand()))
}

/// The key that a sealed file holds, if it is one.
fn recover(phrase: &str, reply: MasterReply) -> (r: MasterResult<KeyBytes>)
    ensures
        match r {
            Ok(key) => recovered(phrase@, reply@) == Ok::<Seq<u8>, KeyFailure>(key@),
            Err(e) => recovered(phrase@, reply@) == Err::<Seq<u8>, KeyFailure>(e@),
        },
{
    match take_file(reply) {
        Ok(file) => match unseal_key_bytes(phrase, &file) {
            Ok(key) => if key.as_slice().len() == HMAC_KEY_LEN {
                Ok(key)
            } else {
                Err(MasterKeyError::Refused(Refusal::UnexpectedLength))
            },
            Err(e) => Err(e),
        },
        Err(e) => Err(e),
    }
}

impl Import {
    pub fn resume(self, reply: MasterReply) -> (s: Step<
        MasterRequest,
        Import,
        Result<Presence, MasterKeyError>,
    >)
        ensures
            flow::performs(s, self.after(reply@)),
    {
        let ghost r = reply@;
        match self {
            Import::Checking(sub, phrase) => {
                let ghost talk = sub.after(r);
                while_checking(sub.resume(reply), phrase, Ghost(talk))
            },
            Import::Reading(phrase) => match recover(phrase.as_str(), reply) {
                Ok(key) => {
                    let ghost talk = provision(key@);
                    while_importing(provision_tpm_objects(key), Ghost(talk))
                },
                Err(e) => Step::Done(Err(e)),
            },
            Import::Provisioning(sub) => {
                let ghost talk = sub.after(r);
                while_importing(sub.resume(reply), Ghost(talk))
            },
            Import::Reporting(sub) => {
                let ghost talk = sub.after(r);
                report_import(sub.resume(reply), Ghost(talk))
            },
        }
    }
}

/// Deriving the token of a user: the HMAC of the name under the master key, in
/// hexadecimal.
pub open spec fn token(username: Seq<char>) -> Errand<Seq<char>> {
    Prog::Ask(opening(), |r: News| token_opened(username, r))
}

pub open spec fn token_opened(username: Seq<char>, r: News) -> Errand<Seq<char>> {
    match tpm_done(r) {
        Ok(()) => Prog::Ask(
            MasterRequest::FindPersistent { handle: MASTER_KEY_HMAC_HANDLE },
            |r: News| token_found(username, r),
        ),
        Err(e) => Prog::Return(Err(e)),
    }
}

/// A name that is too long for the TPM is refused.
pub open spec fn token_found(username: Seq<char>, r: News) -> Errand<Seq<char>> {
    let data = vstd::utf8::encode_utf8(username);
    match tpm_done(r) {
        Ok(()) => if data.len() > MAX_DIGEST_BUFFER {
            Prog::Return(Err(tpm_failure(WRONG_SIZE@)))
        } else {
            Prog::Ask(
                MasterRequest::Hmac { handle: MASTER_KEY_HMAC_HANDLE, data },
                |r: News| Prog::Return(token_of(r)),
            )
        },
        Err(e) => Prog::Return(Err(e)),
    }
}

/// The token for a digest. No digest is longer than an authorization value.
pub open spec fn token_of(r: News) -> Result<Seq<char>, KeyFailure> {
    match tpm_data(r) {
        Ok(digest) => if digest.len() > MAX_AUTH_SIZE {
            Err(tpm_failure(WRONG_SIZE@))
        } else {
            Ok(sealing::hex_text(digest))
        },
        Err(e) => Err(e),
    }
}

/// The outcome of the derivation.
pub struct UserToken(pub Result<String, MasterKeyError>);

impl Modelled for UserToken {
    type Model = Result<Seq<char>, KeyFailure>;

    open spec fn model(&self) -> Result<Seq<char>, KeyFailure> {
        match self.0 {
            Ok(t) => Ok(t@),
            Err(e) => Err(e@),
        }
    }
}

/// The derivation, waiting for a reply.
pub enum TokenErrand {
    Opening(String),
    Finding(String),
    Digesting,
}

impl Paused<Order, News, Result<Seq<char>, KeyFailure>> for TokenErrand {
    open spec fn after(self, r: News) -> Prog<Order, News, Result<Seq<char>, KeyFailure>> {
        match self {
            TokenErrand::Opening(username) => token_opened(username@, r),
            TokenErrand::Finding(username) => token_found(username@, r),
            TokenErrand::Digesting => Prog::Return(token_of(r)),
        }
    }
}

/// Derives the token of a user.
pub fn derive_user_token(username: &str) -> (s: Step<MasterRequest, TokenErrand, UserToken>)
    ensures
        flow::performs(s, token(username@)),
{
    Step::Ask(open_tpm(), TokenErrand::Opening(username.to_owned()))
}

impl TokenErrand {
    pub fn resume(self, reply: MasterReply) -> (s: Step<MasterRequest, TokenErrand, UserToken>)
        ensures
            flow::performs(s, self.after(reply@)),
    {
        match self {
            TokenErrand::Opening(username) => match take_tpm_done(reply) {
                Ok(()) => Step::Ask(
                    MasterRequest::FindPersistent { handle: MASTER_KEY_HMAC_HANDLE },
                    TokenErrand::Finding(username),
                ),
                Err(e) => Step::Done(UserToken(Err(e))),
            },
            TokenErrand::Finding(username) => match take_tpm_done(reply) {
                Ok(()) => {
                    let data = slice_to_vec(username.as_str().as_bytes());
                    if data.len() > MAX_DIGEST_BUFFER {
                        Step::Done(UserToken(Err(tpm_error(WRONG_SIZE.to_owned()))))
                    } else {
                        Step::Ask(
                            MasterRequest::Hmac { handle: MASTER_KEY_HMAC_HANDLE, data },
                            TokenErrand::Digesting,
                        )
                    }
                },
                Err(e) => Step::Done(UserToken(Err(e))),
            },
            TokenErrand::Digesting => match take_data(reply) {
                Ok(digest) => if digest.len() > MAX_AUTH_SIZE {
                    Step::Done(UserToken(Err(tpm_error(WRONG_SIZE.to_owned()))))
                } else {
                    Step::Done(UserToken(Ok(hex_encode(digest.as_slice()))))
                },
                Err(e) => Step::Done(UserToken(Err(e))),
            },
        }
    }
}

} // verus!

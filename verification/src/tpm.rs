//! What the library asks of the TPM.
//!
//! Each request is a short fixed sequence of TPM commands on an NV index. The
//! driver opens the sessions that they need, with empty authorization for the
//! owner hierarchy, and leaves none behind.
use crate::pindata::PinData;
use crate::secret;
use crate::secret::KeyBytes;
use vstd::prelude::*;

verus! {

/// The response codes that the library tells apart.
#[derive(Debug, Clone, Copy, PartialEq, Eq, Structural)]
pub enum FailureKind {
    /// The authorization failed and dictionary-attack protection took note.
    AuthFail,
    /// The authorization failed.
    BadAuth,
    /// There is no object with that handle.
    Handle,
    /// The index has never been written.
    NvUninitialized,
    /// Anything else.
    Other,
}

/// A request that the TPM, or the way to it, has refused.
#[derive(Debug)]
pub struct TpmFailure<S = String> {
    pub kind: FailureKind,
    /// Description of the failure.
    pub text: S,
}

impl View for TpmFailure<String> {
    type V = TpmFailure<Seq<char>>;

    open spec fn view(&self) -> TpmFailure<Seq<char>> {
        TpmFailure { kind: self.kind, text: self.text@ }
    }
}

/// What the TPM returned: the data that was read (empty for a request that
/// reads nothing), or a failure.
pub type Reply = Result<Vec<u8>, TpmFailure>;

/// A reply as the specifications speak of it.
pub type Answer = Result<Seq<u8>, TpmFailure<Seq<char>>>;

/// What a reply says.
pub open spec fn heard(r: Reply) -> Answer {
    match r {
        Ok(data) => Ok(data@),
        Err(f) => Err(f@),
    }
}

/// The type of an NV index.
#[derive(Debug, Clone, Copy, PartialEq, Eq, Structural)]
pub enum NvKind {
    /// Plain data.
    Ordinary,
    /// A counter of failed authorizations with a limit.
    PinFail,
}

/// The commands that a policy can be bound to.
#[derive(Debug, Clone, Copy, PartialEq, Eq, Structural)]
pub enum CommandCode {
    NvWrite,
}

/// The terms of a policy session: the only command that it authorizes, and
/// whether the index must have been written before.
#[derive(Debug, Clone, Copy, PartialEq, Eq, Structural)]
pub struct PolicyTerms {
    pub command: CommandCode,
    pub written: bool,
}

/// The public area of an NV index that is to be defined. Everything uses
/// SHA-256 as the name algorithm. `B` is the type of byte strings.
#[derive(Debug)]
pub struct NvTemplate<B = Vec<u8>> {
    pub index: u32,
    pub kind: NvKind,
    pub auth_read: bool,
    pub owner_read: bool,
    pub owner_write: bool,
    pub policy_write: bool,
    /// Failed authorizations do not count towards the TPM's global lockout.
    pub no_da: bool,
    /// Number of bytes that the index holds.
    pub size: usize,
    /// Digest of the policy that `policy_write` refers to.
    pub policy: Option<B>,
}

pub open spec fn bytes_option(b: Option<Vec<u8>>) -> Option<Seq<u8>> {
    match b {
        Some(v) => Some(v@),
        None => None,
    }
}

impl View for NvTemplate<Vec<u8>> {
    type V = NvTemplate<Seq<u8>>;

    open spec fn view(&self) -> NvTemplate<Seq<u8>> {
        NvTemplate {
            index: self.index,
            kind: self.kind,
            auth_read: self.auth_read,
            owner_read: self.owner_read,
            owner_write: self.owner_write,
            policy_write: self.policy_write,
            no_da: self.no_da,
            size: self.size,
            policy: bytes_option(self.policy),
        }
    }
}

/// A request to the TPM. `S` is the type of texts, `K` that of secret and `B`
/// that of other byte strings.
#[allow(inconsistent_fields)]
pub enum TpmCommand<S = String, K = KeyBytes, B = Vec<u8>> {
    /// Close the connection and open it again through the given backend.
    Restart { tcti: S },
    /// Find the index.
    Lookup { index: u32 },
    /// Read all that the index holds, authorized by the owner.
    ReadOwner { index: u32 },
    /// Read `size` bytes of the index at `offset`, authorized by the index's
    /// own authorization value, which is claimed to be `auth`.
    ReadAuth { index: u32, auth: K, size: u16, offset: u16 },
    /// Find the index and write to it at `offset`, authorized by the owner.
    WriteOwner { index: u32, data: B, offset: u16 },
    /// Compute the digest of a policy with these terms in a trial session.
    TrialDigest { terms: PolicyTerms },
    /// Define an index, authorized by the owner, with the given authorization
    /// value (empty if there is none).
    Define { template: NvTemplate<B>, auth: Option<K> },
    /// Open a policy session with these terms, find the index and write to it
    /// at `offset`, authorized by that session and `auth`.
    WritePolicy { index: u32, terms: PolicyTerms, auth: K, data: B, offset: u16 },
    /// Find the index and remove it, authorized by the owner.
    Undefine { index: u32 },
}

/// A request as the specifications speak of it.
pub type Request = TpmCommand<Seq<char>, Seq<u8>, Seq<u8>>;

impl View for TpmCommand<String, KeyBytes, Vec<u8>> {
    type V = TpmCommand<Seq<char>, Seq<u8>, Seq<u8>>;

    open spec fn view(&self) -> TpmCommand<Seq<char>, Seq<u8>, Seq<u8>> {
        match *self {
            TpmCommand::Restart { tcti } => TpmCommand::Restart { tcti: tcti@ },
            TpmCommand::Lookup { index } => TpmCommand::Lookup { index },
            TpmCommand::ReadOwner { index } => TpmCommand::ReadOwner { index },
            TpmCommand::ReadAuth { index, auth, size, offset } => TpmCommand::ReadAuth {
                index,
                auth: auth@,
                size,
                offset,
            },
            TpmCommand::WriteOwner { index, data, offset } => TpmCommand::WriteOwner {
                index,
                data: data@,
                offset,
            },
            TpmCommand::TrialDigest { terms } => TpmCommand::TrialDigest { terms },
            TpmCommand::Define { template, auth } => TpmCommand::Define {
                template: template@,
                auth: secret::secret_option(auth),
            },
            TpmCommand::WritePolicy { index, terms, auth, data, offset } =>
                TpmCommand::WritePolicy { index, terms, auth: auth@, data: data@, offset },
            TpmCommand::Undefine { index } => TpmCommand::Undefine { index },
        }
    }
}

/// The terms under which a PIN slot is written: once, by a write command, while
/// it has never been written.
pub open spec fn write_once() -> PolicyTerms {
    PolicyTerms { command: CommandCode::NvWrite, written: false }
}

pub fn write_once_terms() -> (t: PolicyTerms)
    ensures
        t == write_once(),
{
    PolicyTerms { command: CommandCode::NvWrite, written: false }
}

/// The public area of a PIN slot: the PIN itself or the owner may read the
/// counters, and only the policy with the given digest may write them.
pub open spec fn slot_public(index: u32, policy: Seq<u8>) -> NvTemplate<Seq<u8>> {
    NvTemplate {
        index,
        kind: NvKind::PinFail,
        auth_read: true,
        owner_read: true,
        owner_write: false,
        policy_write: true,
        no_da: true,
        size: PinData::SIZE,
        policy: Some(policy),
    }
}

pub fn slot_template(index: u32, policy: Vec<u8>) -> (t: NvTemplate)
    ensures
        t@ == slot_public(index, policy@),
{
    NvTemplate {
        index,
        kind: NvKind::PinFail,
        auth_read: true,
        owner_read: true,
        owner_write: false,
        policy_write: true,
        no_da: true,
        size: PinData::SIZE,
        policy: Some(policy),
    }
}

/// The public area of a version tag: plain data for the owner.
pub open spec fn tag_public(index: u32) -> NvTemplate<Seq<u8>> {
    NvTemplate {
        index,
        kind: NvKind::Ordinary,
        auth_read: false,
        owner_read: true,
        owner_write: true,
        policy_write: false,
        no_da: true,
        size: crate::pinconstants::PIN_VERSION_TAG_SIZE,
        policy: None,
    }
}

pub fn tag_template(index: u32) -> (t: NvTemplate)
    ensures
        t@ == tag_public(index),
{
    NvTemplate {
        index,
        kind: NvKind::Ordinary,
        auth_read: false,
        owner_read: true,
        owner_write: true,
        policy_write: false,
        no_da: true,
        size: crate::pinconstants::PIN_VERSION_TAG_SIZE,
        policy: None,
    }
}

impl FailureKind {
    /// True if the failure says that there is nothing at the index.
    pub open spec fn absent(self) -> bool {
        self == FailureKind::Handle || self == FailureKind::NvUninitialized
    }

    pub fn is_absent(&self) -> (b: bool)
        ensures
            b == self.absent(),
    {
        *self == FailureKind::Handle || *self == FailureKind::NvUninitialized
    }

    /// True if the failure says that the authorization was wrong.
    pub open spec fn unauthorized(self) -> bool {
        self == FailureKind::AuthFail || self == FailureKind::BadAuth
    }

    pub fn is_unauthorized(&self) -> (b: bool)
        ensures
            b == self.unauthorized(),
    {
        *self == FailureKind::AuthFail || *self == FailureKind::BadAuth
    }
}

} // verus!

//! A TPM as the specifications see it.
//!
//! The model covers what the library relies on: NV indices with their
//! authorization values and policies, and the counters of `PinFail` indices. It
//! has room for every index that is defined and loses nothing over a restart.
//! The laws in `laws` are about conversations with such a TPM.
use crate::pindata;
use crate::pindata::PinData;
use crate::tpm::{
    Answer, FailureKind, NvKind, NvTemplate, PolicyTerms, Request, TpmCommand, TpmFailure,
};
use vstd::prelude::*;

verus! {

/// An NV index: how it was defined, its authorization value, and what it holds
/// if it has been written.
pub struct NvIndex {
    pub public: NvTemplate<Seq<u8>>,
    pub auth: Seq<u8>,
    pub data: Option<Seq<u8>>,
}

/// A TPM. Which digest belongs to which terms, how a failure is described, and
/// which response codes a wrong authorization and an authorization on an index
/// without attempts left get, is up to the TPM.
#[verifier::ext_equal]
pub struct Tpm {
    pub nv: Map<u32, NvIndex>,
    pub digest: spec_fn(PolicyTerms) -> Seq<u8>,
    pub text: spec_fn(FailureKind) -> Seq<char>,
    pub wrong: FailureKind,
    pub locked: FailureKind,
}

impl Tpm {
    /// The same TPM with other indices.
    pub open spec fn with(self, nv: Map<u32, NvIndex>) -> Tpm {
        Tpm { nv, ..self }
    }

    /// True if wrong authorizations get one of the codes that say so, and
    /// different terms have different digests.
    pub open spec fn sound(self) -> bool {
        &&& self.wrong.unauthorized()
        &&& forall|s: PolicyTerms, t: PolicyTerms| #[trigger]
            (self.digest)(s) == #[trigger] (self.digest)(t) ==> s == t
    }

    /// A refusal.
    pub open spec fn refuses(self, kind: FailureKind) -> (Tpm, Answer) {
        (self, Err(TpmFailure { kind, text: (self.text)(kind) }))
    }

    /// A request that is carried out and returns nothing.
    pub open spec fn accepts(self) -> (Tpm, Answer) {
        (self, Ok(Seq::empty()))
    }
}

/// An authorization value without the zero bytes at its end, which the TPM
/// ignores.
pub open spec fn significant(auth: Seq<u8>) -> Seq<u8>
    decreases auth.len(),
{
    if auth.len() > 0 && auth.last() == 0 {
        significant(auth.drop_last())
    } else {
        auth
    }
}

/// What an index of `size` bytes holds after a write.
pub open spec fn overwritten(
    old: Option<Seq<u8>>,
    size: nat,
    data: Seq<u8>,
    offset: nat,
) -> Seq<u8> {
    Seq::new(
        size,
        |i: int|
            if offset <= i < offset + data.len() {
                data[i - offset]
            } else {
                match old {
                    Some(b) => b[i],
                    None => 0xFFu8,
                }
            },
    )
}

/// A write to an index that is authorized if `authorized` holds.
pub open spec fn write(
    t: Tpm,
    index: u32,
    authorized: bool,
    data: Seq<u8>,
    offset: nat,
) -> (Tpm, Answer) {
    let i = t.nv[index];
    if authorized && offset + data.len() <= i.public.size {
        t.with(
            t.nv.insert(
                index,
                NvIndex {
                    data: Some(overwritten(i.data, i.public.size as nat, data, offset)),
                    ..i
                },
            ),
        ).accepts()
    } else {
        t.refuses(FailureKind::Other)
    }
}

/// The counters that an index holds.
pub open spec fn counters(i: NvIndex) -> PinData {
    pindata::decoded(i.data->0)->0
}

/// An index with other counters.
pub open spec fn recounted(i: NvIndex, count: int) -> NvIndex {
    NvIndex {
        data: Some(
            pindata::encoded(PinData { pinCount: count as i32, pinLimit: counters(i).pinLimit }),
        ),
        ..i
    }
}

/// A read that is authorized by an authorization value. On a `PinFail` index a
/// right value resets the count, a wrong one raises it, and once the count has
/// reached the limit no value is right.
pub open spec fn read_with(
    t: Tpm,
    index: u32,
    auth: Seq<u8>,
    size: nat,
    offset: nat,
) -> (Tpm, Answer) {
    let i = t.nv[index];
    let right = significant(auth) == significant(i.auth);
    if i.data is None {
        t.refuses(FailureKind::NvUninitialized)
    } else if !i.public.auth_read || offset + size > i.public.size {
        t.refuses(FailureKind::Other)
    } else if i.public.kind == NvKind::Ordinary {
        if right {
            (t, Ok(i.data->0.subrange(offset as int, (offset + size) as int)))
        } else {
            t.refuses(t.wrong)
        }
    } else if counters(i).exhausted() {
        t.refuses(t.locked)
    } else if right {
        let reset = recounted(i, 0);
        (
            t.with(t.nv.insert(index, reset)),
            Ok(reset.data->0.subrange(offset as int, (offset + size) as int)),
        )
    } else {
        t.with(t.nv.insert(index, recounted(i, counters(i).pinCount + 1))).refuses(t.wrong)
    }
}

/// How a TPM carries out a request about an index that is defined.
pub open spec fn at_index(t: Tpm, index: u32, c: Request) -> (Tpm, Answer) {
    let i = t.nv[index];
    match c {
        TpmCommand::Lookup { .. } => t.accepts(),
        TpmCommand::ReadOwner { .. } => match i.data {
            None => t.refuses(FailureKind::NvUninitialized),
            Some(b) => if i.public.owner_read {
                (t, Ok(b))
            } else {
                t.refuses(FailureKind::Other)
            },
        },
        TpmCommand::ReadAuth { auth, size, offset, .. } => read_with(
            t,
            index,
            auth,
            size as nat,
            offset as nat,
        ),
        TpmCommand::WriteOwner { data, offset, .. } => write(
            t,
            index,
            i.public.owner_write,
            data,
            offset as nat,
        ),
        TpmCommand::WritePolicy { terms, data, offset, .. } => write(
            t,
            index,
            i.public.policy_write && i.public.policy == Some((t.digest)(terms)) && terms.written
                == (i.data is Some),
            data,
            offset as nat,
        ),
        _ => t.with(t.nv.remove(index)).accepts(),
    }
}

/// The index that a request is about.
pub open spec fn index_of(c: Request) -> Option<u32> {
    match c {
        TpmCommand::Restart { .. } | TpmCommand::TrialDigest { .. } => None,
        TpmCommand::Define { template, .. } => Some(template.index),
        TpmCommand::Lookup { index }
        | TpmCommand::ReadOwner { index }
        | TpmCommand::ReadAuth { index, .. }
        | TpmCommand::WriteOwner { index, .. }
        | TpmCommand::WritePolicy { index, .. }
        | TpmCommand::Undefine { index } => Some(index),
    }
}

/// How a TPM answers a request, and the TPM after it.
pub open spec fn answers(t: Tpm, c: Request) -> (Tpm, Answer) {
    match c {
        TpmCommand::Restart { .. } => t.accepts(),
        TpmCommand::TrialDigest { terms } => (t, Ok((t.digest)(terms))),
        TpmCommand::Define { template, auth } => if t.nv.contains_key(template.index) {
            t.refuses(FailureKind::Other)
        } else {
            t.with(
                t.nv.insert(
                    template.index,
                    NvIndex {
                        public: template,
                        auth: match auth {
                            Some(a) => a,
                            None => Seq::empty(),
                        },
                        data: None,
                    },
                ),
            ).accepts()
        },
        _ => {
            let index = index_of(c)->0;
            if t.nv.contains_key(index) {
                at_index(t, index, c)
            } else {
                t.refuses(FailureKind::Handle)
            }
        },
    }
}

/// The TPM as the other side of a conversation.
pub open spec fn chip() -> spec_fn(Tpm, Request) -> (Tpm, Answer) {
    |t: Tpm, c: Request| answers(t, c)
}

} // verus!

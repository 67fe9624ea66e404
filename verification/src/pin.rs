//! Canonical PIN type.
//!
//! All PINs flowing through the system are constructed via `Pin::new`, which
//! applies a single normalization step (trim surrounding whitespace) and then
//! delegates to `PinPolicy::validate`. This keeps storage and validation
//! consistent across every entry point.
use crate::pinerror::PinResult;
use crate::pinpolicy;
use crate::pinpolicy::PinPolicy;
use crate::text;
use vstd::prelude::*;
use zeroize::Zeroize;

verus! {

/// `<String as zeroize::Zeroize>::zeroize` overwrites the text, including what
/// is left of earlier contents in its buffer, and leaves the string empty.
#[verifier::external_body]
fn erase(text: &mut String)
    ensures
        final(text)@ == Seq::<char>::empty(),
    opens_invariants none
    no_unwind
{
    text.zeroize();
}

/// A PIN that has been normalized and validated against a `PinPolicy`. Its view
/// is the normalized text.
///
/// The text is overwritten when the `Pin` is dropped.
pub struct Pin(String);

impl View for Pin {
    type V = Seq<char>;

    closed spec fn view(&self) -> Seq<char> {
        self.0@
    }
}

impl Pin {
    /// Normalizes and validates user input. The only normalization applied is
    /// trimming surrounding whitespace; the resulting bytes are exactly what
    /// will be used as the TPM authorization value.
    pub fn new(input: &str, policy: &PinPolicy) -> (r: PinResult<Pin>)
        ensures
            match r {
                Ok(pin) => pin@ == text::trimmed(input@) && pinpolicy::objection(policy@, pin@) is None,
                Err(e) => pinpolicy::objection(policy@, text::trimmed(input@)) == Some(e@),
            },
    {
        let normalized = text::trim(input).to_owned();
        match policy.validate(normalized.as_str()) {
            Ok(()) => Ok(Pin(normalized)),
            Err(e) => Err(e),
        }
    }

    /// Bytes used as the TPM authorization value.
    pub fn as_bytes(&self) -> (r: &[u8])
        ensures
            r@ == vstd::utf8::encode_utf8(self@),
    {
        self.0.as_str().as_bytes()
    }

    pub fn as_str(&self) -> (r: &str)
        ensures
            r@ == self@,
    {
        self.0.as_str()
    }

    /// A second copy of the PIN.
    pub(crate) fn duplicate(&self) -> (r: Pin)
        ensures
            r@ == self@,
    {
        Pin(self.0.clone())
    }
}

impl Drop for Pin {
    fn drop(&mut self)
        opens_invariants none
        no_unwind
    {
        erase(&mut self.0);
    }
}

/// Making a PIN of the text of a PIN gives the same PIN: what was accepted once
/// is accepted again, unchanged.
pub proof fn law_normalization_is_stable(input: Seq<char>, policy: PinPolicy<Seq<char>>)
    requires
        pinpolicy::objection(policy, text::trimmed(input)) is None,
    ensures
        text::trimmed(text::trimmed(input)) == text::trimmed(input),
        pinpolicy::objection(policy, text::trimmed(text::trimmed(input))) is None,
{
    text::law_trimming_is_stable(input);
}

} // verus!

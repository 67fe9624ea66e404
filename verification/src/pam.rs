//! The PAM authentication module: what it is told, what it decides, and what it
//! returns.
//!
//! The authentication is a conversation (see `flow`) with PAM and with the
//! helper program, through whoever drives it.
use crate::pin::Pin;
use crate::pinpolicy;
use crate::pinpolicy::PinPolicy;
use crate::text;
use vstd::prelude::*;

verus! {

/// The codes with which a PAM function fails.
#[derive(Debug, Clone, Copy, PartialEq, Eq, Structural)]
pub enum PamCode {
    SystemErr,
    AuthErr,
    AuthInfoUnavail,
    UserUnknown,
    MaxTries,
    ConvErr,
    /// Any other code of a failure, as PAM gave it.
    Other(i32),
}

impl View for PamCode {
    type V = PamCode;

    open spec fn view(&self) -> PamCode {
        *self
    }
}

/// What a PAM function returns: success or a code.
pub type PamResult = Result<(), PamCode>;

/// Standard PAM module arguments.
///
/// Only flags that affect this module's behaviour are recorded here; unknown
/// arguments are ignored to match the `pam_unix(8)` convention.
#[derive(Debug, Clone, Copy, PartialEq, Eq, Structural)]
pub struct ModuleArgs {
    /// Try the previously-stacked module's password before prompting.
    pub try_first_pass: bool,
    /// Use the previously-stacked module's password exclusively; never prompt.
    pub use_first_pass: bool,
}

impl Default for ModuleArgs {
    fn default() -> (a: ModuleArgs)
        ensures
            a == (ModuleArgs { try_first_pass: false, use_first_pass: false }),
    {
        ModuleArgs { try_first_pass: false, use_first_pass: false }
    }
}

/// True if `flag` is among the arguments.
pub open spec fn has_flag(args: Seq<&str>, flag: Seq<char>) -> bool {
    exists|i: int| 0 <= i < args.len() && (#[trigger] args[i])@ == flag
}

impl ModuleArgs {
    /// Reads the module arguments.
    pub fn from_strs(args: &[&str]) -> (r: ModuleArgs)
        ensures
            r.try_first_pass == has_flag(args@, "try_first_pass"@),
            r.use_first_pass == has_flag(args@, "use_first_pass"@),
    {
        let mut out = ModuleArgs::default();
        for i in 0..args.len()
            invariant
                out.try_first_pass == has_flag(args@.take(i as int), "try_first_pass"@),
                out.use_first_pass == has_flag(args@.take(i as int), "use_first_pass"@),
        {
            let ghost before = args@.take(i as int);
            let ghost after = args@.take(i + 1);
            proof {
                assert forall|flag: Seq<char>| #[trigger]
                    has_flag(after, flag) == (has_flag(before, flag) || args@[i as int]@ == flag) by {
                    if has_flag(before, flag) {
                        let j = choose|j: int|
                            0 <= j < before.len() && (#[trigger] before[j])@ == flag;
                        assert(after[j]@ == flag);
                    }
                    if args@[i as int]@ == flag {
                        assert(after[i as int]@ == flag);
                    }
                    if has_flag(after, flag) {
                        let j = choose|j: int|
                            0 <= j < after.len() && (#[trigger] after[j])@ == flag;
                        if j < i {
                            assert(before[j]@ == flag);
                        }
                    }
                }
                reveal_strlit("try_first_pass");
                reveal_strlit("use_first_pass");
                assert("try_first_pass"@.len() == "use_first_pass"@.len() ==> "try_first_pass"@[0]
                    != "use_first_pass"@[0]);
            }
            if text::same_text(args[i], "try_first_pass") {
                out.try_first_pass = true;
            } else if text::same_text(args[i], "use_first_pass") {
                out.use_first_pass = true;
            }
        }
        assert(args@.take(args@.len() as int) =~= args@);
        out
    }

    /// True if either first-pass mode is requested.
    pub open spec fn first_pass(self) -> bool {
        self.try_first_pass || self.use_first_pass
    }

    /// True if either first-pass mode is requested.
    pub fn wants_first_pass(self) -> (b: bool)
        ensures
            b == self.first_pass(),
    {
        self.try_first_pass || self.use_first_pass
    }
}

/// Decision about how to obtain the PIN before verifying it. `P` is the type of
/// PINs.
pub enum FirstPassDecision<P = Pin> {
    /// Verify this PIN that came from a previously-stacked module.
    TryFirstPass(P),
    /// Prompt the user interactively for their PIN.
    PromptUser,
    /// Refuse without prompting: `use_first_pass` was set and no usable PIN was
    /// available on the PAM stack.
    Deny,
}

impl View for FirstPassDecision<Pin> {
    type V = FirstPassDecision<Seq<char>>;

    open spec fn view(&self) -> FirstPassDecision<Seq<char>> {
        match *self {
            FirstPassDecision::TryFirstPass(pin) => FirstPassDecision::TryFirstPass(pin@),
            FirstPassDecision::PromptUser => FirstPassDecision::PromptUser,
            FirstPassDecision::Deny => FirstPassDecision::Deny,
        }
    }
}

impl FirstPassDecision<Pin> {
    /// True iff the decision is to verify a PIN supplied by a stacked module.
    pub fn is_try_first_pass(&self) -> (b: bool)
        ensures
            b == (self@ is TryFirstPass),
    {
        matches!(self, FirstPassDecision::TryFirstPass(_))
    }

    /// True iff the decision is to prompt the user interactively.
    pub fn is_prompt_user(&self) -> (b: bool)
        ensures
            b == (self@ is PromptUser),
    {
        matches!(self, FirstPassDecision::PromptUser)
    }

    /// True iff the decision is to deny without prompting.
    pub fn is_deny(&self) -> (b: bool)
        ensures
            b == (self@ is Deny),
    {
        matches!(self, FirstPassDecision::Deny)
    }

    /// The embedded PIN, if any.
    pub fn pin(&self) -> (r: Option<&Pin>)
        ensures
            match r {
                Some(pin) => self@ == FirstPassDecision::TryFirstPass(pin@),
                None => !(self@ is TryFirstPass),
            },
    {
        match self {
            FirstPassDecision::TryFirstPass(pin) => Some(pin),
            _ => None,
        }
    }
}

/// The PIN that a stacked token stands for, if it is one. A token that the
/// policy would accept but that is not made of digits is taken for a password.
pub open spec fn stacked_pin(token: Option<Seq<char>>, policy: PinPolicy<Seq<char>>) -> Option<
    Seq<char>,
> {
    match token {
        Some(t) => {
            let pin = text::trimmed(t);
            if pinpolicy::objection(policy, pin) is None && text::all_digits(pin) {
                Some(pin)
            } else {
                None
            }
        },
        None => None,
    }
}

/// How the PIN is to be obtained.
pub open spec fn decision(
    args: ModuleArgs,
    token: Option<Seq<char>>,
    policy: PinPolicy<Seq<char>>,
) -> FirstPassDecision<Seq<char>> {
    if !args.first_pass() {
        FirstPassDecision::PromptUser
    } else {
        match stacked_pin(token, policy) {
            Some(pin) => FirstPassDecision::TryFirstPass(pin),
            None => if args.use_first_pass {
                FirstPassDecision::Deny
            } else {
                FirstPassDecision::PromptUser
            },
        }
    }
}

pub open spec fn token_view(token: Option<&str>) -> Option<Seq<char>> {
    match token {
        Some(t) => Some(t@),
        None => None,
    }
}

/// Decides how to source the PIN, given the parsed module arguments, the token
/// that PAM handed over, and the active PIN policy.
pub fn decide_first_pass(args: ModuleArgs, authtok: Option<&str>, policy: &PinPolicy) -> (r:
    FirstPassDecision)
    ensures
        r@ == decision(args, token_view(authtok), policy@),
{
    if !args.wants_first_pass() {
        return FirstPassDecision::PromptUser;
    }
    if let Some(token) = authtok {
        if let Ok(pin) = Pin::new(token, policy) {
            if text::is_all_digits(pin.as_str()) {
                return FirstPassDecision::TryFirstPass(pin);
            }
        }
    }
    if args.use_first_pass {
        FirstPassDecision::Deny
    } else {
        FirstPassDecision::PromptUser
    }
}

/// Without either flag the user is prompted; with `use_first_pass`, alone or
/// together with `try_first_pass`, never. A stacked token is used only if it is
/// a PIN of digits that the policy accepts, and then as it is but for the white
/// space around it.
pub proof fn law_first_pass(
    args: ModuleArgs,
    token: Option<Seq<char>>,
    policy: PinPolicy<Seq<char>>,
)
    ensures
        !args.first_pass() ==> decision(args, token, policy) is PromptUser,
        args.use_first_pass ==> !(decision(args, token, policy) is PromptUser),
        !args.use_first_pass ==> !(decision(args, token, policy) is Deny),
        decision(args, token, policy) matches FirstPassDecision::TryFirstPass(pin) ==> {
            &&& args.first_pass()
            &&& token is Some
            &&& pin == text::trimmed(token->0)
            &&& text::all_digits(pin)
            &&& pinpolicy::objection(policy, pin) is None
        },
{
}

/// With either flag, a token that the policy accepts and that is made of digits is tried,
/// without the white space around it; any other token is not.
pub proof fn law_usable_tokens_are_tried(
    args: ModuleArgs,
    token: Seq<char>,
    policy: PinPolicy<Seq<char>>,
)
    requires
        args.try_first_pass || args.use_first_pass,
    ensures
        ({
            let pin = text::trimmed(token);
            let usable = pinpolicy::objection(policy, pin) is None && forall|i: int|
                0 <= i < pin.len() ==> '0' <= #[trigger] pin[i] <= '9';
            &&& usable ==> decision(args, Some(token), policy) == FirstPassDecision::TryFirstPass(
                pin,
            )
            &&& !usable ==> decision(args, Some(token), policy) == decision(args, None, policy)
        }),
        decision(args, None, policy) == (if args.use_first_pass {
            FirstPassDecision::<Seq<char>>::Deny
        } else {
            FirstPassDecision::<Seq<char>>::PromptUser
        }),
{
}

/// A flag is set by an argument that is the flag and by nothing else, wherever it stands.
pub proof fn law_flags(before: Seq<&str>, arg: &str, after: Seq<&str>, flag: Seq<char>)
    ensures
        !has_flag(Seq::empty(), flag),
        has_flag(before.push(arg) + after, flag) == (arg@ == flag || has_flag(
            before + after,
            flag,
        )),
{
    let all = before.push(arg) + after;
    let others = before + after;
    let n = before.len() as int;
    if arg@ == flag {
        assert(all[n]@ == flag);
    }
    if has_flag(others, flag) {
        let i = choose|i: int| 0 <= i < others.len() && (#[trigger] others[i])@ == flag;
        let j = if i < n {
            i
        } else {
            i + 1
        };
        assert(all[j] == others[i]);
        assert(all[j]@ == flag);
    }
    if has_flag(all, flag) {
        let i = choose|i: int| 0 <= i < all.len() && (#[trigger] all[i])@ == flag;
        if i != n {
            let j = if i < n {
                i
            } else {
                i - 1
            };
            assert(others[j] == all[i]);
            assert(others[j]@ == flag);
        }
    }
}

} // verus!

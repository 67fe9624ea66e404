//! The PAM module that replaces the token on the stack with one derived from the
//! master key.
//!
//! The authentication is a conversation (see `flow`) with PAM and with the
//! helper program, through whoever drives it.
use crate::flow;
use crate::flow::{Paused, Prog, Step};
use crate::pam::{PamCode, PamResult};
use crate::pinerror::PinError;
use crate::text;
use crate::util;
use vstd::prelude::*;

verus! {

/// What the module asks for.
#[derive(Debug)]
pub enum TokenRequest<S = String> {
    /// Get the name of the user from PAM.
    Username,
    /// Have the helper derive the token of a user.
    Derive { username: S },
    /// Put a token on the PAM stack.
    SetAuthtok { token: S },
}

impl View for TokenRequest<String> {
    type V = TokenRequest<Seq<char>>;

    open spec fn view(&self) -> TokenRequest<Seq<char>> {
        match *self {
            TokenRequest::Username => TokenRequest::Username,
            TokenRequest::Derive { username } => TokenRequest::Derive { username: username@ },
            TokenRequest::SetAuthtok { token } => TokenRequest::SetAuthtok { token: token@ },
        }
    }
}

/// What the helper's derivation has produced.
#[derive(Debug)]
pub enum Derivation<S = String> {
    /// It could not be run, failed, or its output could not be read.
    Failed(S),
    /// It has reported.
    Report(Result<S, PinError<S>>),
}

/// What came of a request. A reply of another sort than the request stands for
/// a failure.
#[derive(Debug)]
pub enum TokenReply<S = String> {
    Named(Result<S, PamCode>),
    Derived(Derivation<S>),
    Placed(Result<(), PamCode>),
}

impl View for TokenReply<String> {
    type V = TokenReply<Seq<char>>;

    open spec fn view(&self) -> TokenReply<Seq<char>> {
        match *self {
            TokenReply::Named(Ok(n)) => TokenReply::Named(Ok(n@)),
            TokenReply::Named(Err(c)) => TokenReply::Named(Err(c)),
            TokenReply::Derived(Derivation::Failed(e)) => TokenReply::Derived(
                Derivation::Failed(e@),
            ),
            TokenReply::Derived(Derivation::Report(Ok(t))) => TokenReply::Derived(
                Derivation::Report(Ok(t@)),
            ),
            TokenReply::Derived(Derivation::Report(Err(e))) => TokenReply::Derived(
                Derivation::Report(Err(e@)),
            ),
            TokenReply::Placed(r) => TokenReply::Placed(r),
        }
    }
}

pub type Ask = TokenRequest<Seq<char>>;

pub type Told = TokenReply<Seq<char>>;

pub type Course = Prog<Ask, Told, PamResult>;

/// The token, if it was derived and PAM can carry it: one that holds a NUL
/// character is refused.
pub open spec fn usable_token(r: Told) -> Option<Seq<char>> {
    match r {
        TokenReply::Derived(Derivation::Report(Ok(token))) => if util::holds_nul(token) {
            None
        } else {
            Some(token)
        },
        _ => None,
    }
}

/// The authentication.
pub open spec fn course() -> Course {
    Prog::Ask(TokenRequest::Username, |r: Told| after_username(r))
}

pub open spec fn after_username(r: Told) -> Course {
    match r {
        TokenReply::Named(Ok(username)) => Prog::Ask(
            TokenRequest::Derive { username },
            |r: Told| after_derivation(r),
        ),
        TokenReply::Named(Err(code)) => Prog::Return(Err(code)),
        _ => Prog::Return(Err(PamCode::SystemErr)),
    }
}

pub open spec fn after_derivation(r: Told) -> Course {
    match usable_token(r) {
        Some(token) => Prog::Ask(TokenRequest::SetAuthtok { token }, |r: Told| after_setting(r)),
        None => Prog::Return(Err(PamCode::AuthErr)),
    }
}

pub open spec fn after_setting(r: Told) -> Course {
    match r {
        TokenReply::Placed(result) => Prog::Return(result),
        _ => Prog::Return(Err(PamCode::SystemErr)),
    }
}

/// The authentication, waiting for a reply.
pub enum TokenAuthentication {
    Naming,
    Deriving,
    Setting,
}

impl Paused<Ask, Told, PamResult> for TokenAuthentication {
    open spec fn after(self, r: Told) -> Prog<Ask, Told, PamResult> {
        match self {
            TokenAuthentication::Naming => after_username(r),
            TokenAuthentication::Deriving => after_derivation(r),
            TokenAuthentication::Setting => after_setting(r),
        }
    }
}

/// Starts the authentication.
pub fn authenticate_with_token() -> (s: Step<TokenRequest, TokenAuthentication, PamResult>)
    ensures
        flow::performs(s, course()),
{
    Step::Ask(TokenRequest::Username, TokenAuthentication::Naming)
}

/// The token, if it was derived and PAM can carry it.
pub fn build_user_token(reply: TokenReply) -> (r: Option<String>)
    ensures
        match r {
            Some(t) => usable_token(reply@) == Some(t@),
            None => usable_token(reply@) is None,
        },
{
    match reply {
        TokenReply::Derived(Derivation::Report(Ok(token))) => if text::contains_char(
            token.as_str(),
            '\0',
        ) {
            None
        } else {
            Some(token)
        },
        _ => None,
    }
}

impl TokenAuthentication {
    pub fn resume(self, reply: TokenReply) -> (s: Step<
        TokenRequest,
        TokenAuthentication,
        PamResult,
    >)
        ensures
            flow::performs(s, self.after(reply@)),
    {
        match self {
            TokenAuthentication::Naming => match reply {
                TokenReply::Named(Ok(username)) => Step::Ask(
                    TokenRequest::Derive { username },
                    TokenAuthentication::Deriving,
                ),
                TokenReply::Named(Err(code)) => Step::Done(Err(code)),
                _ => Step::Done(Err(PamCode::SystemErr)),
            },
            TokenAuthentication::Deriving => match build_user_token(reply) {
                Some(token) => Step::Ask(
                    TokenRequest::SetAuthtok { token },
                    TokenAuthentication::Setting,
                ),
                None => Step::Done(Err(PamCode::AuthErr)),
            },
            TokenAuthentication::Setting => match reply {
                TokenReply::Placed(result) => Step::Done(result),
                _ => Step::Done(Err(PamCode::SystemErr)),
            },
        }
    }
}

/// True if a token was put on the stack.
pub open spec fn token_set() -> spec_fn(Ask, Told) -> bool {
    |c: Ask, r: Told|
        match r {
            TokenReply::Placed(result) => c is SetAuthtok && result is Ok,
            _ => false,
        }
}

/// True unless the request puts a token on the stack that PAM cannot carry.
pub open spec fn carries() -> spec_fn(Ask) -> bool {
    |c: Ask|
        match c {
            TokenRequest::SetAuthtok { token } => !util::holds_nul(token),
            _ => true,
        }
}

/// The module succeeds only if PAM has taken a token, and no token that it hands
/// to PAM holds a NUL character.
pub proof fn law_success_takes_a_token()
    ensures
        flow::locked_until(course(), token_set(), carries(), |o: PamResult| o is Err),
{
    reveal_with_fuel(flow::locked_until, 2);
    let (key, open, closed) = (token_set(), carries(), |o: PamResult| o is Err);
    let derived = |r: Told| after_derivation(r);
    assert forall|r: Told| flow::locked_until(#[trigger] derived(r), key, open, closed) by {
        match usable_token(r) {
            Some(token) => {
                let k = |r: Told| after_setting(r);
                let c = TokenRequest::SetAuthtok { token };
                assert forall|r: Told|
                    key(c, r) || flow::locked_until(#[trigger] k(r), key, open, closed) by {}
            },
            None => {},
        }
    }
    let named = |r: Told| after_username(r);
    assert forall|r: Told| flow::locked_until(#[trigger] named(r), key, open, closed) by {}
}

} // verus!

//! What holds of every PAM authentication, whatever PAM, the user and the helper
//! answer.
use crate::authentication;
use crate::authentication::{Ask, AuthReply, AuthRequest, Course, Login, PinutilTestOutcome, Told};
use crate::flow;
use crate::flow::Prog;
use crate::pam;
use crate::pam::{ModuleArgs, PamResult};
use crate::pinpolicy;
use crate::pinpolicy::PinPolicy;
use vstd::prelude::*;

verus! {

/// True of a test that the PIN has passed.
pub open spec fn passed() -> spec_fn(Ask, Told) -> bool {
    |c: Ask, r: Told| c is Test && authentication::tested(r) == Some(PinutilTestOutcome::Success)
}

pub open spec fn anything() -> spec_fn(Ask) -> bool {
    |c: Ask| true
}

pub open spec fn failed() -> spec_fn(PamResult) -> bool {
    |o: PamResult| o is Err
}

proof fn lemma_prompt_locked(login: Login<Seq<char>>, used: u32, limit: u32)
    ensures
        flow::locked_until(
            authentication::prompt(login, used, limit),
            passed(),
            anything(),
            failed(),
        ),
{
    reveal_with_fuel(flow::locked_until, 3);
    let (key, open, closed) = (passed(), anything(), failed());
    let done = |r: Told| authentication::after_test(r);
    assert forall|r: Told|
        authentication::tested(r) == Some(PinutilTestOutcome::Success) || flow::locked_until(#[trigger] done(r), key, open, closed) by {}
    let k = |r: Told| authentication::entered(login, r);
    assert forall|r: Told| flow::locked_until(#[trigger] k(r), key, open, closed) by {}
}

/// The authentication succeeds only if the helper has reported that the PIN is
/// right.
pub proof fn law_success_takes_a_passed_test(args: ModuleArgs, policy: PinPolicy<Seq<char>>)
    ensures
        flow::locked_until(
            authentication::course(args, policy),
            passed(),
            anything(),
            failed(),
        ),
{
    let (key, open, closed) = (passed(), anything(), failed());
    assert forall|login: Login<Seq<char>>|
        flow::locked_until(#[trigger] authentication::user_course(login), key, open, closed) by {
        lemma_user_course_locked(login);
    }
    reveal_with_fuel(flow::locked_until, 2);
    assert forall|username: Seq<char>|
        flow::locked_until(
            #[trigger] token_course(username, args, policy),
            key,
            open,
            closed,
        ) by {
        let k = |r: Told| authentication::after_authtok(username, args, policy, r);
        assert forall|r: Told| flow::locked_until(#[trigger] k(r), key, open, closed) by {}
    }
    let name = |r: Told| authentication::after_username(args, policy, r);
    assert forall|r: Told| flow::locked_until(#[trigger] name(r), key, open, closed) by {
        match r {
            AuthReply::Named(Ok(username)) => {
                assert(flow::locked_until(
                    token_course(username, args, policy),
                    key,
                    open,
                    closed,
                ));
            },
            _ => {},
        }
    }
    let first = |r: Told| authentication::after_opening(args, policy, r);
    assert forall|r: Told| flow::locked_until(#[trigger] first(r), key, open, closed) by {}
}

pub open spec fn succeeded() -> spec_fn(PamResult) -> bool {
    |o: PamResult| o is Ok
}

proof fn lemma_user_course_settled(login: Login<Seq<char>>)
    ensures
        flow::settled_by(authentication::user_course(login), passed(), succeeded()),
{
    reveal_with_fuel(flow::settled_by, 3);
    let (key, good) = (passed(), succeeded());
    let done = |r: Told| authentication::after_test(r);
    assert forall|r: Told| flow::settled_by(#[trigger] done(r), key, good) by {}
    let typed = |r: Told| authentication::entered(login, r);
    assert forall|r: Told| flow::settled_by(#[trigger] typed(r), key, good) by {}
    assert forall|used: u32, limit: u32|
        flow::settled_by(#[trigger] authentication::prompt(login, used, limit), key, good) by {}
    assert forall|used: u32, limit: u32|
        flow::settled_by(#[trigger] authentication::available(login, used, limit), key, good) by {
        let k = |r: Told| authentication::after_first_pass(login, used, limit, r);
        assert forall|r: Told| flow::settled_by(#[trigger] k(r), key, good) by {}
    }
    let status = |r: Told| authentication::after_status(login, r);
    assert forall|r: Told| flow::settled_by(#[trigger] status(r), key, good) by {}
    let lookup = |r: Told| authentication::after_lookup(login, r);
    assert forall|r: Told| flow::settled_by(#[trigger] lookup(r), key, good) by {}
}

/// A test that the PIN has passed ends the authentication, with success.
pub proof fn law_a_passed_test_is_success(args: ModuleArgs, policy: PinPolicy<Seq<char>>)
    ensures
        flow::settled_by(authentication::course(args, policy), passed(), succeeded()),
{
    reveal_with_fuel(flow::settled_by, 2);
    let (key, good) = (passed(), succeeded());
    assert forall|login: Login<Seq<char>>|
        flow::settled_by(#[trigger] authentication::user_course(login), key, good) by {
        lemma_user_course_settled(login);
    }
    let name = |r: Told| authentication::after_username(args, policy, r);
    assert forall|r: Told| flow::settled_by(#[trigger] name(r), key, good) by {
        match r {
            AuthReply::Named(Ok(username)) => {
                let k = |r: Told| authentication::after_authtok(username, args, policy, r);
                assert forall|r: Told| flow::settled_by(#[trigger] k(r), key, good) by {}
                assert(flow::settled_by(token_course(username, args, policy), key, good));
            },
            _ => {},
        }
    }
    let first = |r: Told| authentication::after_opening(args, policy, r);
    assert forall|r: Told| flow::settled_by(#[trigger] first(r), key, good) by {}
}

/// Reading the token and going on from there.
pub open spec fn token_course(
    username: Seq<char>,
    args: ModuleArgs,
    policy: PinPolicy<Seq<char>>,
) -> Course {
    Prog::Ask(
        AuthRequest::Authtok,
        |r: Told| authentication::after_authtok(username, args, policy, r),
    )
}

proof fn lemma_user_course_locked(login: Login<Seq<char>>)
    ensures
        flow::locked_until(
            authentication::user_course(login),
            passed(),
            anything(),
            failed(),
        ),
{
    reveal_with_fuel(flow::locked_until, 2);
    let (key, open, closed) = (passed(), anything(), failed());
    assert forall|used: u32, limit: u32|
        flow::locked_until(
            #[trigger] authentication::available(login, used, limit),
            key,
            open,
            closed,
        ) by {
        lemma_prompt_locked(login, used, limit);
        lemma_prompt_locked(login, authentication::one_more(used), limit);
        let k = |r: Told| authentication::after_first_pass(login, used, limit, r);
        assert forall|r: Told|
            authentication::tested(r) == Some(PinutilTestOutcome::Success) || flow::locked_until(
                #[trigger] k(r),
                key,
                open,
                closed,
            ) by {}
    }
    let status = |r: Told| authentication::after_status(login, r);
    assert forall|r: Told| flow::locked_until(#[trigger] status(r), key, open, closed) by {}
    let lookup = |r: Told| authentication::after_lookup(login, r);
    assert forall|r: Told| flow::locked_until(#[trigger] lookup(r), key, open, closed) by {}
}

/// True of every request but a prompt.
pub open spec fn no_prompt() -> spec_fn(Ask) -> bool {
    |c: Ask| !(c is Prompt)
}

/// With `use_first_pass` the user is never asked for the PIN.
pub proof fn law_use_first_pass_never_prompts(args: ModuleArgs, policy: PinPolicy<Seq<char>>)
    requires
        args.use_first_pass,
    ensures
        flow::asks_only(authentication::course(args, policy), no_prompt()),
{
    reveal_with_fuel(flow::asks_only, 2);
    let ok = no_prompt();
    assert forall|login: Login<Seq<char>>| login.args == args implies flow::asks_only(
        #[trigger] authentication::user_course(login),
        ok,
    ) by {
        assert forall|used: u32, limit: u32|
            flow::asks_only(#[trigger] authentication::available(login, used, limit), ok) by {
            let k = |r: Told| authentication::after_first_pass(login, used, limit, r);
            assert forall|r: Told| flow::asks_only(#[trigger] k(r), ok) by {}
        }
        let status = |r: Told| authentication::after_status(login, r);
        assert forall|r: Told| flow::asks_only(#[trigger] status(r), ok) by {}
        let lookup = |r: Told| authentication::after_lookup(login, r);
        assert forall|r: Told| flow::asks_only(#[trigger] lookup(r), ok) by {}
    }
    lemma_course_asks_only(args, policy, ok);
}

/// What the authentication of a user asks, and the way to it, is all that the
/// authentication asks.
proof fn lemma_course_asks_only(
    args: ModuleArgs,
    policy: PinPolicy<Seq<char>>,
    ok: spec_fn(Ask) -> bool,
)
    requires
        ok(AuthRequest::Conversation),
        ok(AuthRequest::Username),
        args.first_pass() ==> ok(AuthRequest::Authtok),
        forall|notice: authentication::Notice| #[trigger] ok(AuthRequest::Tell { notice }),
        forall|login: Login<Seq<char>>|
            login.args == args && login.policy == policy ==> flow::asks_only(
                #[trigger] authentication::user_course(login),
                ok,
            ),
    ensures
        flow::asks_only(authentication::course(args, policy), ok),
{
    reveal_with_fuel(flow::asks_only, 2);
    let name = |r: Told| authentication::after_username(args, policy, r);
    assert forall|r: Told| flow::asks_only(#[trigger] name(r), ok) by {
        match r {
            AuthReply::Named(Ok(username)) => {
                let k = |r: Told| authentication::after_authtok(username, args, policy, r);
                assert forall|r: Told| flow::asks_only(#[trigger] k(r), ok) by {}
                if args.first_pass() {
                    assert(flow::asks_only(token_course(username, args, policy), ok));
                }
            },
            _ => {},
        }
    }
    let first = |r: Told| authentication::after_opening(args, policy, r);
    assert forall|r: Told| flow::asks_only(#[trigger] first(r), ok) by {}
}

/// True of every request but the reading of a stacked token.
pub open spec fn no_token() -> spec_fn(Ask) -> bool {
    |c: Ask| !(c is Authtok)
}

/// Without either flag the token of a stacked module is not even read.
pub proof fn law_without_flags_the_token_is_ignored(
    args: ModuleArgs,
    policy: PinPolicy<Seq<char>>,
    token: Option<Seq<char>>,
)
    requires
        !args.first_pass(),
    ensures
        flow::asks_only(authentication::course(args, policy), no_token()),
        pam::decision(args, token, policy) is PromptUser,
{
    reveal_with_fuel(flow::asks_only, 3);
    let ok = no_token();
    assert forall|login: Login<Seq<char>>| login.args == args implies flow::asks_only(
        #[trigger] authentication::user_course(login),
        ok,
    ) by {
        let done = |r: Told| authentication::after_test(r);
        assert forall|r: Told| flow::asks_only(#[trigger] done(r), ok) by {}
        let typed = |r: Told| authentication::entered(login, r);
        assert forall|r: Told| flow::asks_only(#[trigger] typed(r), ok) by {}
        assert forall|used: u32, limit: u32|
            flow::asks_only(#[trigger] authentication::prompt(login, used, limit), ok) by {}
        let status = |r: Told| authentication::after_status(login, r);
        assert forall|r: Told| flow::asks_only(#[trigger] status(r), ok) by {}
        let lookup = |r: Told| authentication::after_lookup(login, r);
        assert forall|r: Told| flow::asks_only(#[trigger] lookup(r), ok) by {}
    }
    lemma_course_asks_only(args, policy, ok);
}

/// True unless the request is the test of a PIN that the policy refuses.
pub open spec fn only_valid_pins(policy: PinPolicy<Seq<char>>) -> spec_fn(Ask) -> bool {
    |c: Ask|
        match c {
            AuthRequest::Test { pin, .. } => pinpolicy::objection(policy, pin) is None,
            _ => true,
        }
}

/// No attempt is spent on something that the policy refuses as a PIN.
pub proof fn law_only_valid_pins_are_tested(args: ModuleArgs, policy: PinPolicy<Seq<char>>)
    ensures
        flow::asks_only(authentication::course(args, policy), only_valid_pins(policy)),
{
    reveal_with_fuel(flow::asks_only, 3);
    let ok = only_valid_pins(policy);
    assert forall|login: Login<Seq<char>>|
        login.args == args && login.policy == policy implies flow::asks_only(
        #[trigger] authentication::user_course(login),
        ok,
    ) by {
        let done = |r: Told| authentication::after_test(r);
        assert forall|r: Told| flow::asks_only(#[trigger] done(r), ok) by {}
        let typed = |r: Told| authentication::entered(login, r);
        assert forall|r: Told| flow::asks_only(#[trigger] typed(r), ok) by {}
        assert forall|used: u32, limit: u32|
            flow::asks_only(#[trigger] authentication::prompt(login, used, limit), ok) by {}
        assert forall|used: u32, limit: u32|
            flow::asks_only(#[trigger] authentication::available(login, used, limit), ok) by {
            let k = |r: Told| authentication::after_first_pass(login, used, limit, r);
            assert forall|r: Told| flow::asks_only(#[trigger] k(r), ok) by {}
        }
        let status = |r: Told| authentication::after_status(login, r);
        assert forall|r: Told| flow::asks_only(#[trigger] status(r), ok) by {}
        let lookup = |r: Told| authentication::after_lookup(login, r);
        assert forall|r: Told| flow::asks_only(#[trigger] lookup(r), ok) by {}
    }
    lemma_course_asks_only(args, policy, ok);
}

/// True of a status report that leaves attempts.
pub open spec fn attempts_left() -> spec_fn(Ask, Told) -> bool {
    |c: Ask, r: Told| c is Status && authentication::reported(r) is Available
}

/// True of a request that neither asks for a PIN nor tests one.
pub open spec fn no_attempt() -> spec_fn(Ask) -> bool {
    |c: Ask| !(c is Prompt) && !(c is Test)
}

/// A PIN is neither asked for nor tested unless the helper has reported that
/// there are attempts left: a PIN that is locked, unknown or out of reach is
/// refused at once.
pub proof fn law_no_attempt_without_a_report(args: ModuleArgs, policy: PinPolicy<Seq<char>>)
    ensures
        flow::locked_until(
            authentication::course(args, policy),
            attempts_left(),
            no_attempt(),
            failed(),
        ),
{
    reveal_with_fuel(flow::locked_until, 2);
    let (key, open, closed) = (attempts_left(), no_attempt(), failed());
    assert forall|login: Login<Seq<char>>|
        flow::locked_until(#[trigger] authentication::user_course(login), key, open, closed) by {
        let status = |r: Told| authentication::after_status(login, r);
        assert forall|r: Told|
            authentication::reported(r) is Available || flow::locked_until(
                #[trigger] status(r),
                key,
                open,
                closed,
            ) by {}
        let lookup = |r: Told| authentication::after_lookup(login, r);
        assert forall|r: Told| flow::locked_until(#[trigger] lookup(r), key, open, closed) by {}
    }
    let name = |r: Told| authentication::after_username(args, policy, r);
    assert forall|r: Told| flow::locked_until(#[trigger] name(r), key, open, closed) by {
        match r {
            AuthReply::Named(Ok(username)) => {
                let k = |r: Told| authentication::after_authtok(username, args, policy, r);
                assert forall|r: Told| flow::locked_until(#[trigger] k(r), key, open, closed) by {}
                assert(flow::locked_until(
                    token_course(username, args, policy),
                    key,
                    open,
                    closed,
                ));
            },
            _ => {},
        }
    }
    let first = |r: Told| authentication::after_opening(args, policy, r);
    assert forall|r: Told| flow::locked_until(#[trigger] first(r), key, open, closed) by {}
}

/// True of the test of a PIN.
pub open spec fn test() -> spec_fn(Ask) -> bool {
    |c: Ask| c is Test
}

/// An authentication tests at most two PINs, and never more than there are
/// attempts left.
pub proof fn law_attempts_are_respected(login: Login<Seq<char>>, used: u32, limit: u32)
    requires
        used < limit,
    ensures
        flow::asks_at_most(authentication::available(login, used, limit), test(), 2),
        flow::asks_at_most(authentication::available(login, used, limit), test(), limit - used),
{
    lemma_prompt_tests(login, used, limit, 2);
    lemma_prompt_tests(login, authentication::one_more(used), limit, 1);
    lemma_prompt_tests(login, used, limit, limit - used);
    lemma_prompt_tests(login, authentication::one_more(used), limit, limit - used - 1);
    lemma_first_pass_tests(login, used, limit, 2);
    lemma_first_pass_tests(login, used, limit, limit - used);
}

proof fn lemma_prompt_tests(login: Login<Seq<char>>, used: u32, limit: u32, n: int)
    requires
        n >= 0,
        used < limit ==> n >= 1,
    ensures
        flow::asks_at_most(authentication::prompt(login, used, limit), test(), n),
{
    reveal_with_fuel(flow::asks_at_most, 3);
    let done = |r: Told| authentication::after_test(r);
    assert forall|r: Told| flow::asks_at_most(#[trigger] done(r), test(), n) by {}
    if n >= 1 {
        assert forall|r: Told| flow::asks_at_most(#[trigger] done(r), test(), n - 1) by {}
    }
    let typed = |r: Told| authentication::entered(login, r);
    if used < limit {
        assert forall|r: Told| flow::asks_at_most(#[trigger] typed(r), test(), n) by {}
    }
}

proof fn lemma_first_pass_tests(login: Login<Seq<char>>, used: u32, limit: u32, n: int)
    requires
        used < limit,
        n >= 1,
        flow::asks_at_most(authentication::prompt(login, used, limit), test(), n),
        flow::asks_at_most(
            authentication::prompt(login, authentication::one_more(used), limit),
            test(),
            n - 1,
        ),
    ensures
        flow::asks_at_most(authentication::available(login, used, limit), test(), n),
{
    reveal_with_fuel(flow::asks_at_most, 2);
    let k = |r: Told| authentication::after_first_pass(login, used, limit, r);
    assert forall|r: Told| flow::asks_at_most(#[trigger] k(r), test(), n - 1) by {}
}

} // verus!

//! What holds of every run of a command of the utility, whatever the user, the
//! system and the PIN manager answer.
use crate::dialogue;
use crate::dialogue::{Failure, Heard, UtilRequest, Wish};
use crate::flow;
use crate::pindata::AttemptInfo;
use crate::pinerror::{PinError, VerificationResult};
use crate::pinpolicy::PinPolicy;
use crate::pinutil;
use crate::pinutil::{Case, Job};
use crate::util;
use vstd::prelude::*;

verus! {

/// True of every outcome but success.
pub open spec fn failed<T>() -> spec_fn(Result<T, Failure>) -> bool {
    |o: Result<T, Failure>| o is Err
}

/// True of a request that only finds out who the user is.
pub open spec fn only_lookup() -> spec_fn(Wish) -> bool {
    |c: Wish| c is FindUser
}

/// True if the user turns out to be one whose PIN the caller may manage.
pub open spec fn may_be_managed(caller: u32) -> spec_fn(Wish, Heard) -> bool {
    |c: Wish, r: Heard|
        match dialogue::user_of(r) {
            Ok(uid) => c is FindUser && util::may_manage(caller, uid),
            Err(_) => false,
        }
}

/// True if the user turns out to be one whose PIN the caller may attempt.
pub open spec fn may_be_attempted(caller: u32, effective: u32) -> spec_fn(Wish, Heard) -> bool {
    |c: Wish, r: Heard|
        match dialogue::user_of(r) {
            Ok(uid) => c is FindUser && util::may_attempt(caller, effective, uid),
            Err(_) => false,
        }
}

/// Setting up, changing and deleting a PIN is refused, before anything else is
/// done, to everyone but root and the users themselves.
pub proof fn law_strangers_manage_nothing(job: Job<Seq<char>>)
    ensures
        flow::locked_until(
            pinutil::setup(job),
            may_be_managed(job.caller.uid),
            only_lookup(),
            failed(),
        ),
        flow::locked_until(
            pinutil::change(job),
            may_be_managed(job.caller.uid),
            only_lookup(),
            failed(),
        ),
        flow::locked_until(
            pinutil::delete(job),
            may_be_managed(job.caller.uid),
            only_lookup(),
            failed(),
        ),
{
    reveal_with_fuel(flow::locked_until, 2);
}

/// Attempting a PIN is refused, before anything else is done, to everyone but
/// the users themselves and what runs with root's rights.
pub proof fn law_strangers_attempt_nothing(job: Job<Seq<char>>)
    ensures
        flow::locked_until(
            pinutil::test(job),
            may_be_attempted(job.caller.uid, job.caller.effective),
            only_lookup(),
            failed(),
        ),
{
    reveal_with_fuel(flow::locked_until, 2);
}

/// True of a report that the user has no PIN.
pub open spec fn no_pin() -> spec_fn(Wish, Heard) -> bool {
    |c: Wish, r: Heard|
        c is CountAttempts && match dialogue::count_of(r) {
            Ok(None) | Err(PinError::NotProvisioned(_)) => true,
            _ => false,
        }
}

/// True of a request that stores no PIN.
pub open spec fn stores_nothing() -> spec_fn(Wish) -> bool {
    |c: Wish| !(c is SetUp)
}

/// The setup command stores a PIN only for a user who is reported to have none.
pub proof fn law_setup_replaces_nothing(job: Job<Seq<char>>)
    ensures
        flow::locked_until(pinutil::setup(job), no_pin(), stores_nothing(), failed()),
{
    reveal_with_fuel(flow::locked_until, 2);
    let (key, open, closed) = (no_pin(), stores_nothing(), failed::<()>());
    assert forall|case: Case<Seq<char>>, r: Heard|
        (no_pin())(UtilRequest::CountAttempts { uid: case.uid }, r) || flow::locked_until(
            #[trigger] pinutil::setup_counted(case, r),
            key,
            open,
            closed,
        ) by {}
    assert forall|uid: u32, r: Heard|
        flow::locked_until(#[trigger] pinutil::setup_opened(job, uid, r), key, open, closed) by {
        match dialogue::policy_of(r) {
            Ok(policy) => {
                let case = Case { job, uid, policy };
                let k = |r: Heard| pinutil::setup_counted(case, r);
                assert forall|r: Heard|
                    key(UtilRequest::CountAttempts { uid }, r) || flow::locked_until(
                        #[trigger] k(r),
                        key,
                        open,
                        closed,
                    ) by {}
            },
            Err(_) => {},
        }
    }
    assert forall|r: Heard|
        flow::locked_until(#[trigger] pinutil::setup_found(job, r), key, open, closed) by {
        match dialogue::user_of(r) {
            Ok(uid) => {
                let k = |r: Heard| pinutil::setup_opened(job, uid, r);
                assert forall|r: Heard|
                    flow::locked_until(#[trigger] k(r), key, open, closed) by {}
            },
            Err(_) => {},
        }
    }
    let first = |r: Heard| pinutil::setup_found(job, r);
    assert forall|r: Heard| flow::locked_until(#[trigger] first(r), key, open, closed) by {}
}

/// True of a successful verification.
pub open spec fn verified() -> spec_fn(Wish, Heard) -> bool {
    |c: Wish, r: Heard|
        c is Verify && match dialogue::verdict_of(r) {
            Ok(VerificationResult::Success(_)) => true,
            _ => false,
        }
}

/// True of a request that neither stores nor deletes a PIN.
pub open spec fn changes_nothing() -> spec_fn(Wish) -> bool {
    |c: Wish| !(c is SetUp) && !(c is DeleteAdmin) && !(c is DeleteWithAuth)
}

/// Whoever is not root has to enter the current PIN before it is changed.
pub proof fn law_change_takes_the_current_pin(job: Job<Seq<char>>)
    requires
        job.caller.uid != 0,
    ensures
        flow::locked_until(pinutil::change(job), verified(), changes_nothing(), failed()),
{
    reveal_with_fuel(flow::locked_until, 2);
    let (key, open, closed) = (verified(), changes_nothing(), failed::<()>());
    assert forall|case: Case<Seq<char>>, r: Heard|
        flow::locked_until(#[trigger] pinutil::change_current(case, r), key, open, closed) by {
        match dialogue::pin_of(case.policy, r) {
            Ok(current) => {
                let k = |r: Heard| pinutil::change_verified(case, current, r);
                let c = UtilRequest::Verify { uid: case.uid, pin: current };
                assert forall|r: Heard|
                    key(c, r) || flow::locked_until(#[trigger] k(r), key, open, closed) by {}
            },
            Err(_) => {},
        }
    }
    assert forall|case: Case<Seq<char>>, info: AttemptInfo, r: Heard|
        case.job == job implies flow::locked_until(
        #[trigger] pinutil::change_restarted(case, info, r),
        key,
        open,
        closed,
    ) by {
        let k = |r: Heard| pinutil::change_current(case, r);
        assert forall|r: Heard| flow::locked_until(#[trigger] k(r), key, open, closed) by {}
    }
    assert forall|case: Case<Seq<char>>, r: Heard| case.job == job implies flow::locked_until(
        #[trigger] pinutil::change_read(case, r),
        key,
        open,
        closed,
    ) by {
        match dialogue::info_of(r) {
            Ok(Some(info)) => {
                let k = |r: Heard| pinutil::change_restarted(case, info, r);
                assert forall|r: Heard|
                    flow::locked_until(#[trigger] k(r), key, open, closed) by {}
            },
            _ => {},
        }
    }
    assert forall|uid: u32, r: Heard|
        flow::locked_until(#[trigger] pinutil::change_opened(job, uid, r), key, open, closed) by {
        match dialogue::policy_of(r) {
            Ok(policy) => {
                let case = Case { job, uid, policy };
                let k = |r: Heard| pinutil::change_read(case, r);
                assert forall|r: Heard|
                    flow::locked_until(#[trigger] k(r), key, open, closed) by {}
            },
            Err(_) => {},
        }
    }
    assert forall|r: Heard|
        flow::locked_until(#[trigger] pinutil::change_found(job, r), key, open, closed) by {
        match dialogue::user_of(r) {
            Ok(uid) => {
                let k = |r: Heard| pinutil::change_opened(job, uid, r);
                assert forall|r: Heard|
                    flow::locked_until(#[trigger] k(r), key, open, closed) by {}
            },
            Err(_) => {},
        }
    }
    let first = |r: Heard| pinutil::change_found(job, r);
    assert forall|r: Heard| flow::locked_until(#[trigger] first(r), key, open, closed) by {}
}

/// True if a PIN was typed that the policy accepts.
pub open spec fn acceptable(policy: PinPolicy<Seq<char>>) -> spec_fn(Wish, Heard) -> bool {
    |c: Wish, r: Heard| (c is Prompt || c is ReadLine) && dialogue::pin_of(policy, r) is Ok
}

/// The old PIN is not touched unless the new one has been entered and is
/// acceptable.
pub proof fn law_change_needs_an_acceptable_pin(case: Case<Seq<char>>, current: Option<Seq<char>>)
    ensures
        flow::locked_until(
            pinutil::change_new(case, current),
            acceptable(case.policy),
            changes_nothing(),
            failed(),
        ),
{
    reveal_with_fuel(flow::locked_until, 2);
}

/// True of a request that deletes no PIN without its own authority.
pub open spec fn not_by_force() -> spec_fn(Wish) -> bool {
    |c: Wish| !(c is DeleteAdmin)
}

/// Whoever is not root deletes a PIN only by its own authority.
pub proof fn law_deletion_takes_the_pin(job: Job<Seq<char>>)
    requires
        job.caller.uid != 0,
    ensures
        flow::asks_only(pinutil::delete(job), not_by_force()),
{
    reveal_with_fuel(flow::asks_only, 3);
    let ok = not_by_force();
    assert forall|r: Heard| flow::asks_only(#[trigger] pinutil::delete_authorized(job, r), ok) by {}
    assert forall|case: Case<Seq<char>>, r: Heard| case.job == job implies flow::asks_only(
        #[trigger] pinutil::delete_entered(case, r),
        ok,
    ) by {
        let k = |r: Heard| pinutil::delete_authorized(case.job, r);
        assert forall|r: Heard| flow::asks_only(#[trigger] k(r), ok) by {}
    }
    assert forall|case: Case<Seq<char>>, r: Heard| case.job == job implies flow::asks_only(
        #[trigger] pinutil::delete_read(case, r),
        ok,
    ) by {
        let k = |r: Heard| pinutil::delete_entered(case, r);
        assert forall|r: Heard| flow::asks_only(#[trigger] k(r), ok) by {}
    }
    assert forall|uid: u32, r: Heard|
        flow::asks_only(#[trigger] pinutil::delete_opened(job, uid, r), ok) by {
        match dialogue::policy_of(r) {
            Ok(policy) => {
                let case = Case { job, uid, policy };
                let k = |r: Heard| pinutil::delete_read(case, r);
                assert forall|r: Heard| flow::asks_only(#[trigger] k(r), ok) by {}
            },
            Err(_) => {},
        }
    }
    assert forall|r: Heard| flow::asks_only(#[trigger] pinutil::delete_found(job, r), ok) by {
        match dialogue::user_of(r) {
            Ok(uid) => {
                let k = |r: Heard| pinutil::delete_opened(job, uid, r);
                assert forall|r: Heard| flow::asks_only(#[trigger] k(r), ok) by {}
            },
            Err(_) => {},
        }
    }
    let first = |r: Heard| pinutil::delete_found(job, r);
    assert forall|r: Heard| flow::asks_only(#[trigger] first(r), ok) by {}
}

/// True of a request that shows the user nothing.
pub open spec fn silent() -> spec_fn(Wish) -> bool {
    |c: Wish| !(c is Say) && !(c is Prompt) && !(c is ConfirmDeletion)
}

/// For a machine nothing is displayed but the outcome: no prompt, no message,
/// no question.
pub proof fn law_machines_are_shown_nothing(job: Job<Seq<char>>)
    requires
        job.machine,
    ensures
        flow::asks_only(pinutil::setup(job), silent()),
        flow::asks_only(pinutil::change(job), silent()),
        flow::asks_only(pinutil::delete(job), silent()),
        flow::asks_only(pinutil::test(job), silent()),
        flow::asks_only(pinutil::status(job), silent()),
{
    lemma_setup_is_silent(job);
    lemma_change_is_silent(job);
    lemma_delete_is_silent(job);
    lemma_test_is_silent(job);
    lemma_status_is_silent(job);
}

proof fn lemma_setup_is_silent(job: Job<Seq<char>>)
    requires
        job.machine,
    ensures
        flow::asks_only(pinutil::setup(job), silent()),
{
    reveal_with_fuel(flow::asks_only, 2);
    let ok = silent();
    assert forall|case: Case<Seq<char>>, pin: Seq<char>| case.job == job implies flow::asks_only(
        #[trigger] pinutil::setup_store(case, pin),
        ok,
    ) by {
        let k = |r: Heard| pinutil::setup_stored(case.job, r);
        assert forall|r: Heard| flow::asks_only(#[trigger] k(r), ok) by {}
    }
    assert forall|case: Case<Seq<char>>, r: Heard| case.job == job implies flow::asks_only(
        #[trigger] pinutil::setup_counted(case, r),
        ok,
    ) by {
        let k = |r: Heard| pinutil::setup_entered(case, r);
        assert forall|r: Heard| flow::asks_only(#[trigger] k(r), ok) by {}
    }
    assert forall|uid: u32, r: Heard|
        flow::asks_only(#[trigger] pinutil::setup_opened(job, uid, r), ok) by {
        match dialogue::policy_of(r) {
            Ok(policy) => {
                let case = Case { job, uid, policy };
                let k = |r: Heard| pinutil::setup_counted(case, r);
                assert forall|r: Heard| flow::asks_only(#[trigger] k(r), ok) by {}
            },
            Err(_) => {},
        }
    }
    assert forall|r: Heard| flow::asks_only(#[trigger] pinutil::setup_found(job, r), ok) by {
        match dialogue::user_of(r) {
            Ok(uid) => {
                let k = |r: Heard| pinutil::setup_opened(job, uid, r);
                assert forall|r: Heard| flow::asks_only(#[trigger] k(r), ok) by {}
            },
            Err(_) => {},
        }
    }
    let first = |r: Heard| pinutil::setup_found(job, r);
    assert forall|r: Heard| flow::asks_only(#[trigger] first(r), ok) by {}
}

proof fn lemma_change_is_silent(job: Job<Seq<char>>)
    requires
        job.machine,
    ensures
        flow::asks_only(pinutil::change(job), silent()),
{
    reveal_with_fuel(flow::asks_only, 2);
    let ok = silent();
    assert forall|case: Case<Seq<char>>, pin: Seq<char>| case.job == job implies flow::asks_only(
        #[trigger] pinutil::change_store(case, pin),
        ok,
    ) by {
        let k = |r: Heard| pinutil::change_stored(case.job, r);
        assert forall|r: Heard| flow::asks_only(#[trigger] k(r), ok) by {}
    }
    assert forall|case: Case<Seq<char>>, current: Option<Seq<char>>, pin: Seq<char>|
        case.job == job implies flow::asks_only(
        #[trigger] pinutil::change_delete(case, current, pin),
        ok,
    ) by {
        let k = |r: Heard| pinutil::change_auth_deleted(case, pin, r);
        assert forall|r: Heard| flow::asks_only(#[trigger] k(r), ok) by {}
        let h = |r: Heard| pinutil::change_deleted(case, pin, r);
        assert forall|r: Heard| flow::asks_only(#[trigger] h(r), ok) by {}
    }
    assert forall|case: Case<Seq<char>>, current: Option<Seq<char>>|
        case.job == job implies flow::asks_only(
        #[trigger] pinutil::change_new(case, current),
        ok,
    ) by {
        let k = |r: Heard| pinutil::change_entered(case, current, r);
        assert forall|r: Heard| flow::asks_only(#[trigger] k(r), ok) by {}
    }
    assert forall|case: Case<Seq<char>>, current: Seq<char>, r: Heard|
        case.job == job implies flow::asks_only(
        #[trigger] pinutil::change_verified(case, current, r),
        ok,
    ) by {
        let k = |r: Heard| pinutil::change_again(case, current, r);
        assert forall|r: Heard| flow::asks_only(#[trigger] k(r), ok) by {}
    }
    assert forall|case: Case<Seq<char>>, r: Heard| case.job == job implies flow::asks_only(
        #[trigger] pinutil::change_current(case, r),
        ok,
    ) by {
        match dialogue::pin_of(case.policy, r) {
            Ok(current) => {
                let k = |r: Heard| pinutil::change_verified(case, current, r);
                assert forall|r: Heard| flow::asks_only(#[trigger] k(r), ok) by {}
            },
            Err(_) => {},
        }
    }
    assert forall|case: Case<Seq<char>>, info: AttemptInfo, r: Heard|
        case.job == job implies flow::asks_only(
        #[trigger] pinutil::change_restarted(case, info, r),
        ok,
    ) by {
        let k = |r: Heard| pinutil::change_current(case, r);
        assert forall|r: Heard| flow::asks_only(#[trigger] k(r), ok) by {}
    }
    assert forall|case: Case<Seq<char>>, r: Heard| case.job == job implies flow::asks_only(
        #[trigger] pinutil::change_read(case, r),
        ok,
    ) by {
        match dialogue::info_of(r) {
            Ok(Some(info)) => {
                let k = |r: Heard| pinutil::change_restarted(case, info, r);
                assert forall|r: Heard| flow::asks_only(#[trigger] k(r), ok) by {}
            },
            _ => {},
        }
    }
    assert forall|uid: u32, r: Heard|
        flow::asks_only(#[trigger] pinutil::change_opened(job, uid, r), ok) by {
        match dialogue::policy_of(r) {
            Ok(policy) => {
                let case = Case { job, uid, policy };
                let k = |r: Heard| pinutil::change_read(case, r);
                assert forall|r: Heard| flow::asks_only(#[trigger] k(r), ok) by {}
            },
            Err(_) => {},
        }
    }
    assert forall|r: Heard| flow::asks_only(#[trigger] pinutil::change_found(job, r), ok) by {
        match dialogue::user_of(r) {
            Ok(uid) => {
                let k = |r: Heard| pinutil::change_opened(job, uid, r);
                assert forall|r: Heard| flow::asks_only(#[trigger] k(r), ok) by {}
            },
            Err(_) => {},
        }
    }
    let first = |r: Heard| pinutil::change_found(job, r);
    assert forall|r: Heard| flow::asks_only(#[trigger] first(r), ok) by {}
}

proof fn lemma_delete_is_silent(job: Job<Seq<char>>)
    requires
        job.machine,
    ensures
        flow::asks_only(pinutil::delete(job), silent()),
{
    reveal_with_fuel(flow::asks_only, 2);
    let ok = silent();
    assert forall|case: Case<Seq<char>>| case.job == job implies flow::asks_only(
        #[trigger] pinutil::delete_as_root(case),
        ok,
    ) by {
        let k = |r: Heard| pinutil::delete_done(case.job, r);
        assert forall|r: Heard| flow::asks_only(#[trigger] k(r), ok) by {}
    }
    assert forall|case: Case<Seq<char>>, r: Heard| case.job == job implies flow::asks_only(
        #[trigger] pinutil::delete_entered(case, r),
        ok,
    ) by {
        let k = |r: Heard| pinutil::delete_authorized(case.job, r);
        assert forall|r: Heard| flow::asks_only(#[trigger] k(r), ok) by {}
    }
    assert forall|case: Case<Seq<char>>, r: Heard| case.job == job implies flow::asks_only(
        #[trigger] pinutil::delete_read(case, r),
        ok,
    ) by {
        let k = |r: Heard| pinutil::delete_entered(case, r);
        assert forall|r: Heard| flow::asks_only(#[trigger] k(r), ok) by {}
    }
    assert forall|uid: u32, r: Heard|
        flow::asks_only(#[trigger] pinutil::delete_opened(job, uid, r), ok) by {
        match dialogue::policy_of(r) {
            Ok(policy) => {
                let case = Case { job, uid, policy };
                let k = |r: Heard| pinutil::delete_read(case, r);
                assert forall|r: Heard| flow::asks_only(#[trigger] k(r), ok) by {}
            },
            Err(_) => {},
        }
    }
    assert forall|r: Heard| flow::asks_only(#[trigger] pinutil::delete_found(job, r), ok) by {
        match dialogue::user_of(r) {
            Ok(uid) => {
                let k = |r: Heard| pinutil::delete_opened(job, uid, r);
                assert forall|r: Heard| flow::asks_only(#[trigger] k(r), ok) by {}
            },
            Err(_) => {},
        }
    }
    let first = |r: Heard| pinutil::delete_found(job, r);
    assert forall|r: Heard| flow::asks_only(#[trigger] first(r), ok) by {}
}

proof fn lemma_test_is_silent(job: Job<Seq<char>>)
    requires
        job.machine,
    ensures
        flow::asks_only(pinutil::test(job), silent()),
{
    reveal_with_fuel(flow::asks_only, 2);
    let ok = silent();
    assert forall|case: Case<Seq<char>>, r: Heard| case.job == job implies flow::asks_only(
        #[trigger] pinutil::test_entered(case, r),
        ok,
    ) by {
        let k = |r: Heard| pinutil::test_verified(case.job, r);
        assert forall|r: Heard| flow::asks_only(#[trigger] k(r), ok) by {}
    }
    assert forall|case: Case<Seq<char>>, r: Heard| case.job == job implies flow::asks_only(
        #[trigger] pinutil::test_read(case, r),
        ok,
    ) by {
        let k = |r: Heard| pinutil::test_entered(case, r);
        assert forall|r: Heard| flow::asks_only(#[trigger] k(r), ok) by {}
    }
    assert forall|uid: u32, r: Heard|
        flow::asks_only(#[trigger] pinutil::test_opened(job, uid, r), ok) by {
        match dialogue::policy_of(r) {
            Ok(policy) => {
                let case = Case { job, uid, policy };
                let k = |r: Heard| pinutil::test_read(case, r);
                assert forall|r: Heard| flow::asks_only(#[trigger] k(r), ok) by {}
            },
            Err(_) => {},
        }
    }
    assert forall|r: Heard| flow::asks_only(#[trigger] pinutil::test_found(job, r), ok) by {
        match dialogue::user_of(r) {
            Ok(uid) => {
                let k = |r: Heard| pinutil::test_opened(job, uid, r);
                assert forall|r: Heard| flow::asks_only(#[trigger] k(r), ok) by {}
            },
            Err(_) => {},
        }
    }
    let first = |r: Heard| pinutil::test_found(job, r);
    assert forall|r: Heard| flow::asks_only(#[trigger] first(r), ok) by {}
}

proof fn lemma_status_is_silent(job: Job<Seq<char>>)
    requires
        job.machine,
    ensures
        flow::asks_only(pinutil::status(job), silent()),
{
    reveal_with_fuel(flow::asks_only, 2);
    let ok = silent();
    assert forall|uid: u32| flow::asks_only(#[trigger] pinutil::status_query(job, uid), ok) by {
        let k = |r: Heard| pinutil::status_read(job, r);
        assert forall|r: Heard| flow::asks_only(#[trigger] k(r), ok) by {}
    }
    assert forall|r: Heard| flow::asks_only(#[trigger] pinutil::status_found(job, r), ok) by {
        match dialogue::user_of(r) {
            Ok(uid) => {
                let k = |r: Heard| pinutil::status_opened(job, uid, r);
                assert forall|r: Heard| flow::asks_only(#[trigger] k(r), ok) by {}
            },
            Err(_) => {},
        }
    }
    let first = |r: Heard| pinutil::status_found(job, r);
    assert forall|r: Heard| flow::asks_only(#[trigger] first(r), ok) by {}
}

} // verus!

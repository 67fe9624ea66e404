//! Users, their rights, and the form that early releases stored PINs in.
use crate::pinerror::{PinError, PinResult};
use crate::text;
use vstd::prelude::*;

verus! {

/// `s` without the zeros at its start.
pub open spec fn without_leading_zeros(s: Seq<char>) -> Seq<char>
    decreases s.len(),
{
    if s.len() > 0 && s[0] == '0' {
        without_leading_zeros(s.skip(1))
    } else {
        s
    }
}

/// The form in which early releases stored a PIN: as a number, without leading
/// zeros.
pub open spec fn legacy_form(pin: Seq<char>) -> Seq<char> {
    let rest = without_leading_zeros(pin);
    if rest.len() == 0 {
        seq!['0']
    } else {
        rest
    }
}

proof fn lemma_without_leading_zeros(s: Seq<char>, n: int)
    requires
        0 <= n <= s.len(),
        forall|i: int| 0 <= i < n ==> s[i] == '0',
        n < s.len() ==> s[n] != '0',
    ensures
        without_leading_zeros(s) == s.skip(n),
    decreases n,
{
    if n > 0 {
        lemma_without_leading_zeros(s.skip(1), n - 1);
        assert(s.skip(1).skip(n - 1) =~= s.skip(n));
    } else {
        assert(s.skip(0) =~= s);
    }
}

/// The form in which early releases stored a PIN.
pub fn normalize_legacy_pin(pin: &str) -> (r: String)
    ensures
        r@ == legacy_form(pin@),
{
    let chars = text::chars_of(pin);
    let mut n: usize = 0;
    while n < chars.len() && chars[n] == '0'
        invariant
            chars@ == pin@,
            n <= chars@.len(),
            forall|i: int| 0 <= i < n ==> chars@[i] == '0',
        decreases chars@.len() - n,
    {
        n = n + 1;
    }
    proof {
        lemma_without_leading_zeros(pin@, n as int);
    }
    if n == chars.len() {
        proof {
            reveal_strlit("0");
            assert("0"@ =~= seq!['0']);
        }
        "0".to_owned()
    } else {
        let rest = pin.substring_char(n, chars.len());
        assert(rest@ =~= pin@.skip(n as int));
        rest.to_owned()
    }
}

/// The form in which early releases stored a PIN is stored unchanged.
pub proof fn law_legacy_form_is_stable(pin: Seq<char>)
    ensures
        legacy_form(legacy_form(pin)) == legacy_form(pin),
    decreases pin.len(),
{
    if pin.len() > 0 && pin[0] == '0' {
        law_legacy_form_is_stable(pin.skip(1));
    } else if pin.len() == 0 {
        let zero = seq!['0'];
        assert(zero.skip(1).len() == 0);
        reveal_with_fuel(without_leading_zeros, 2);
    }
}

/// Only a leading zero makes the two forms of a PIN differ.
pub proof fn law_legacy_form_without_leading_zero(pin: Seq<char>)
    requires
        pin.len() > 0,
        pin[0] != '0',
    ensures
        legacy_form(pin) == pin,
{
}

/// `nix::unistd::Uid::current` returns the real uid of the process. It is the
/// environment's to choose.
#[verifier::external_body]
fn real_uid() -> u32 {
    nix::unistd::Uid::current().as_raw()
}

/// `nix::unistd::geteuid` returns the effective uid of the process. It is the
/// environment's to choose.
#[verifier::external_body]
fn effective_uid() -> u32 {
    nix::unistd::geteuid().as_raw()
}

/// True of a uid that `nix::unistd::Uid::current` can have returned.
pub closed spec fn is_real_uid(uid: u32) -> bool {
    call_ensures(real_uid, (), uid)
}

/// True of a uid that `nix::unistd::geteuid` can have returned.
pub closed spec fn is_effective_uid(uid: u32) -> bool {
    call_ensures(effective_uid, (), uid)
}

/// True if a text holds a NUL character.
pub open spec fn holds_nul(s: Seq<char>) -> bool {
    s.contains('\0')
}

/// `nix::unistd::User::from_name` looks a user up by name in the system's user
/// database. It finds nobody if the name holds a NUL character; otherwise the
/// database decides.
#[verifier::external_body]
fn user_named(name: &str) -> (r: Result<Option<u32>, ()>)
    ensures
        holds_nul(name@) ==> r is Ok && r->Ok_0 is None,
{
    match nix::unistd::User::from_name(name) {
        Ok(found) => Ok(found.map(|user| user.uid.as_raw())),
        Err(_) => Err(()),
    }
}

/// `nix::unistd::User::from_uid` looks a user up by uid in the system's user
/// database, which decides who is found. The name is taken from a C string, so it
/// holds no NUL character.
#[verifier::external_body]
fn user_with_uid(uid: u32) -> (r: Result<Option<String>, ()>)
    ensures
        r matches Ok(Some(name)) ==> !holds_nul(name@),
{
    match nix::unistd::User::from_uid(nix::unistd::Uid::from_raw(uid)) {
        Ok(found) => Ok(found.map(|user| user.name)),
        Err(_) => Err(()),
    }
}

/// True of what the lookup of that name can have returned.
pub closed spec fn looked_up_by_name(name: &str, found: Result<Option<u32>, ()>) -> bool {
    call_ensures(user_named, (name,), found)
}

/// True of what the lookup of that uid can have returned.
pub closed spec fn looked_up_by_uid(uid: u32, found: Result<Option<String>, ()>) -> bool {
    call_ensures(user_with_uid, (uid,), found)
}

/// The real uid of the process.
pub fn get_uid() -> (uid: u32)
    ensures
        is_real_uid(uid),
{
    real_uid()
}

/// True if a process with the real uid `current` may manage the PIN of
/// `target`: root may manage anyone's, users only their own.
pub open spec fn may_manage(current: u32, target: u32) -> bool {
    current == 0 || current == target
}

/// True if a process with the given real and effective uid may attempt the PIN
/// of `target`: users their own, and anything that runs with root's rights.
pub open spec fn may_attempt(caller: u32, effective: u32, target: u32) -> bool {
    effective == 0 || caller == target
}

/// Decides whether a process with the given real uid may manage a PIN.
pub fn manages(current: u32, target: u32) -> (b: bool)
    ensures
        b == may_manage(current, target),
{
    current == 0 || current == target
}

/// Decides whether a process with the given uids may attempt a PIN.
pub fn attempts(caller: u32, effective: u32, target: u32) -> (b: bool)
    ensures
        b == may_attempt(caller, effective, target),
{
    effective == 0 || caller == target
}

/// Checks if the current user can manage the target user's PIN. Root can manage
/// anyone's PIN, users can only manage their own.
pub fn can_manage_pin(target_uid: u32) -> (b: bool)
    ensures
        exists|current: u32|
            is_real_uid(current) && b == #[trigger] may_manage(current, target_uid),
{
    let current: u32 = get_uid();
    manages(current, target_uid)
}

/// Checks if the caller may attempt (verify) the target user's PIN. A failed
/// attempt permanently consumes a TPM lockout slot, so this must be more than a
/// check of the real uid: PAM services such as `su`, `login`, `sudo` and polkit
/// legitimately verify another user's PIN, and they run with effective uid 0.
///
/// In a setgid deployment a direct `pinutil test <other-user>` runs with the
/// caller's own effective uid, so it is refused.
pub fn can_attempt_pin(target_uid: u32) -> (b: bool)
    ensures
        exists|caller: u32, effective: u32|
            is_real_uid(caller) && is_effective_uid(effective) && b == #[trigger] may_attempt(
                caller,
                effective,
                target_uid,
            ),
{
    let caller: u32 = get_uid();
    let effective: u32 = effective_uid();
    attempts(caller, effective, target_uid)
}

/// What a lookup by name comes to: a failed lookup and an unknown name are the
/// same error.
pub fn uid_of_lookup(found: Result<Option<u32>, ()>) -> (r: PinResult<u32>)
    ensures
        match r {
            Ok(uid) => found matches Ok(Some(n)) && n == uid,
            Err(e) => !(found matches Ok(Some(_))) && e@ == PinError::<Seq<char>>::UserNotFound,
        },
{
    match found {
        Ok(Some(uid)) => Ok(uid),
        _ => Err(PinError::UserNotFound),
    }
}

/// What a lookup by uid comes to: a failed lookup and an unknown uid both give
/// no name.
pub fn name_of_lookup(found: Result<Option<String>, ()>) -> (r: Option<String>)
    ensures
        r == (match found {
            Ok(name) => name,
            Err(_) => None,
        }),
{
    match found {
        Ok(name) => name,
        Err(_) => None,
    }
}

/// The uid of a user: what the lookup of that name comes to.
pub fn get_uid_from_username(username: &str) -> (r: PinResult<u32>)
    ensures
        exists|found: Result<Option<u32>, ()>| #[trigger]
            looked_up_by_name(username, found) && match r {
                Ok(uid) => found matches Ok(Some(n)) && n == uid,
                Err(_) => !(found matches Ok(Some(_))),
            },
        match r {
            Ok(_) => !holds_nul(username@),
            Err(e) => e@ == PinError::<Seq<char>>::UserNotFound,
        },
{
    let found = user_named(username);
    assert(looked_up_by_name(username, found));
    uid_of_lookup(found)
}

/// The name of a user, if the system's user database has one: what the lookup of
/// that uid comes to. Such a name holds no NUL character, so it can be looked up and
/// handed to other programs.
pub fn get_username_from_uid(uid: u32) -> (r: Option<String>)
    ensures
        exists|found: Result<Option<String>, ()>| #[trigger]
            looked_up_by_uid(uid, found) && r == (match found {
                Ok(name) => name,
                Err(_) => None,
            }),
        r matches Some(name) ==> !holds_nul(name@),
{
    let found = user_with_uid(uid);
    assert(looked_up_by_uid(uid, found));
    name_of_lookup(found)
}

/// The form in which early releases stored a PIN lacks the zeros at its start and
/// nothing else, but for one zero if there is nothing else.
pub proof fn law_legacy_form(zeros: nat, digits: Seq<char>)
    requires
        digits.len() > 0 ==> digits[0] != '0',
    ensures
        legacy_form(Seq::new(zeros, |i: int| '0') + digits) == (if digits.len() > 0 {
            digits
        } else {
            seq!['0']
        }),
{
    let pin = Seq::new(zeros, |i: int| '0') + digits;
    lemma_without_leading_zeros(pin, zeros as int);
    assert(pin.skip(zeros as int) =~= digits);
}

/// Root manages every PIN and users manage their own, and nobody manages anyone
/// else's. What runs with root's effective uid attempts every PIN and users attempt
/// their own, and nobody attempts anyone else's; root's real uid does not count there.
pub proof fn law_rights(user: u32, other: u32)
    requires
        user != 0,
        user != other,
    ensures
        may_manage(0, other),
        may_manage(user, user),
        !may_manage(user, other),
        forall|caller: u32| #[trigger] may_attempt(caller, 0, other),
        forall|effective: u32| #[trigger] may_attempt(user, effective, user),
        forall|effective: u32| effective != 0 ==> !#[trigger] may_attempt(user, effective, other),
        forall|effective: u32|
            effective != 0 && other != 0 ==> !#[trigger] may_attempt(0, effective, other),
{
}

} // verus!

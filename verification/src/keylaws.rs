//! What the commands that manage the master key do, and the module that hands on
//! tokens, whatever they are answered.
use crate::commandlaws;
use crate::flow;
use crate::master_key::Presence;
use crate::masterutil;
use crate::masterutil::{
    CommandFailure, Heard, KeyCommandError, KeyNotice, KeyPrompt, KeyReply, KeyRequest, Place,
    Purpose, Wish,
};
use crate::pam::{PamCode, PamResult};
use crate::pinerror::PinError;
use crate::sealing::MasterKeyError;
use crate::text;
use crate::tokenauth;
use crate::tokenauth::{Derivation, TokenReply, TokenRequest};
use vstd::prelude::*;

verus! {

/// What has come out so far in a run of a command.
pub struct KeyNotes {
    /// What the user was told.
    pub told: Seq<KeyNotice<Seq<char>>>,
    /// What the user has entered.
    pub lines: Seq<Seq<char>>,
    /// The key that was made.
    pub made: Option<(Seq<char>, Presence)>,
    /// What there is after the import.
    pub imported: Option<Presence>,
    /// The key was removed.
    pub cleared: bool,
    /// What went wrong.
    pub trouble: Option<CommandFailure>,
}

/// Nothing has come out yet.
pub open spec fn no_notes() -> KeyNotes {
    KeyNotes {
        told: Seq::empty(),
        lines: Seq::empty(),
        made: None,
        imported: None,
        cleared: false,
        trouble: None,
    }
}

/// Taking note of a request and its reply. A reply of the wrong sort is trouble too.
pub open spec fn key_noted(m: KeyNotes, c: Wish, r: Heard) -> KeyNotes {
    match (c, r) {
        (KeyRequest::Tell { notice }, _) => KeyNotes { told: m.told.push(notice), ..m },
        (KeyRequest::Line { .. }, KeyReply::Line(Ok(line))) => KeyNotes {
            lines: m.lines.push(line),
            ..m
        },
        (KeyRequest::Line { .. }, KeyReply::Line(Err(e))) => KeyNotes {
            trouble: Some(KeyCommandError::Key(MasterKeyError::Pin(e))),
            ..m
        },
        (KeyRequest::Initialize, KeyReply::Initialized(Ok(made))) => KeyNotes {
            made: Some(made),
            ..m
        },
        (KeyRequest::Initialize, KeyReply::Initialized(Err(e))) => KeyNotes {
            trouble: Some(KeyCommandError::Key(e)),
            ..m
        },
        (KeyRequest::Import { .. }, KeyReply::Imported(Ok(p))) => KeyNotes {
            imported: Some(p),
            ..m
        },
        (KeyRequest::Import { .. }, KeyReply::Imported(Err(e))) => KeyNotes {
            trouble: Some(KeyCommandError::Key(e)),
            ..m
        },
        (KeyRequest::Clear { .. }, KeyReply::Cleared(Ok(()))) => KeyNotes { cleared: true, ..m },
        (KeyRequest::Clear { .. }, KeyReply::Cleared(Err(e))) => KeyNotes {
            trouble: Some(KeyCommandError::Key(e)),
            ..m
        },
        _ => KeyNotes {
            trouble: Some(
                KeyCommandError::Key(
                    MasterKeyError::Pin(PinError::IoError("unexpected reply"@)),
                ),
            ),
            ..m
        },
    }
}

/// When the initialization may make a request.
pub open spec fn init_may(machine: bool, m: KeyNotes, c: Wish) -> bool {
    &&& m.trouble is None
    &&& match c {
        KeyRequest::Tell { notice: KeyNotice::InitWarning } => !machine && m == no_notes(),
        KeyRequest::Tell { notice: KeyNotice::Phrase { phrase } } => !machine && m.told.len() == 1
            && (m.made matches Some((made, _)) && phrase == made),
        KeyRequest::Line { prompt: KeyPrompt::Proceed } => !machine && m.told.len() == 1
            && m.lines.len() == 0 && m.made is None,
        KeyRequest::Line { prompt: KeyPrompt::ConfirmPhrase } => !machine && m.told.len() == 2
            && m.lines.len() == 1 && m.made is Some,
        KeyRequest::Initialize => {
            &&& m.made is None
            &&& machine || (m.told.len() == 1 && m.lines.len() == 1 && commandlaws::says_yes(
                m.lines[0],
            ))
        },
        _ => false,
    }
}

/// How the initialization may end.
pub open spec fn init_end(
    machine: bool,
    m: KeyNotes,
    o: Result<(Seq<char>, Presence), CommandFailure>,
) -> bool {
    match o {
        Ok(made) => {
            &&& m.trouble is None
            &&& m.made == Some(made)
            &&& machine || (m.lines.len() == 2 && text::trimmed(m.lines[1]) == text::trimmed(
                made.0,
            ))
        },
        Err(e) => match m.trouble {
            Some(t) => e == t,
            None => {
                ||| {
                    &&& m.made is None
                    &&& m.lines.len() == 1
                    &&& !commandlaws::says_yes(m.lines[0])
                    &&& e is Cancelled
                }
                ||| {
                    &&& m.lines.len() == 2
                    &&& m.made matches Some((phrase, _)) && text::trimmed(m.lines[1])
                        != text::trimmed(phrase)
                    &&& e is PhraseMismatch
                }
            },
        },
    }
}

/// A user has to agree before the master key is made, is shown the recovery phrase of
/// that key and has to enter it; a machine gets it right away. The outcome is the
/// phrase and what there is of the key.
pub proof fn law_init_command(machine: bool)
    ensures
        flow::watched(
            masterutil::init(machine),
            no_notes(),
            |m: KeyNotes, c: Wish, r: Heard| key_noted(m, c, r),
            |m: KeyNotes, c: Wish| init_may(machine, m, c),
            |m: KeyNotes, o: Result<(Seq<char>, Presence), CommandFailure>|
                init_end(machine, m, o),
        ),
{
    reveal_with_fuel(flow::watched, 7);
    assert forall|line: Seq<char>|
        text::trimmed(#[trigger] text::trimmed(line)) == text::trimmed(line) by {
        text::law_trimming_is_stable(line);
    }
}

/// When the import may make a request.
pub open spec fn import_may(m: KeyNotes, c: Wish) -> bool {
    &&& m.trouble is None
    &&& match c {
        KeyRequest::Line { prompt } => prompt == KeyPrompt::EnterPhrase && m == no_notes(),
        KeyRequest::Import { phrase } => m.lines.len() == 1 && phrase == text::trimmed(m.lines[0])
            && m.imported is None,
        KeyRequest::Tell { notice } => notice is Imported && m.imported is Some && m.told.len()
            == 0,
        _ => false,
    }
}

/// How the import may end.
pub open spec fn import_end(
    machine: bool,
    m: KeyNotes,
    o: Result<Presence, CommandFailure>,
) -> bool {
    match o {
        Ok(p) => m.trouble is None && m.imported == Some(p) && m.told.len() == 1 && !machine,
        Err(e) => if machine {
            e == KeyCommandError::<Seq<char>>::NotInteractive(Purpose::Import) && m == no_notes()
        } else {
            m.trouble == Some(e)
        },
    }
}

/// The phrase that is imported is the one that was entered, and the outcome is that of
/// the import. A machine cannot import.
pub proof fn law_import_command(machine: bool)
    ensures
        flow::watched(
            masterutil::interactive(machine, Purpose::Import, masterutil::import()),
            no_notes(),
            |m: KeyNotes, c: Wish, r: Heard| key_noted(m, c, r),
            |m: KeyNotes, c: Wish| import_may(m, c),
            |m: KeyNotes, o: Result<Presence, CommandFailure>| import_end(machine, m, o),
        ),
{
    reveal_with_fuel(flow::watched, 5);
}

/// When the removal may make a request.
pub open spec fn clear_may(place: Place, m: KeyNotes, c: Wish) -> bool {
    &&& m.trouble is None
    &&& match c {
        KeyRequest::Tell { notice: KeyNotice::ClearWarning(p) } => p == place && m == no_notes(),
        KeyRequest::Line { prompt } => prompt == KeyPrompt::Acknowledge && m.told.len() == 1
            && m.lines.len() == 0,
        KeyRequest::Clear { place: p } => p == place && !m.cleared && m.told.len() == 1
            && m.lines.len() == 1 && text::trimmed(m.lines[0]) == "yes"@,
        KeyRequest::Tell { notice: KeyNotice::Cleared(p) } => p == place && m.cleared
            && m.told.len() == 1,
        _ => false,
    }
}

/// How the removal may end.
pub open spec fn clear_end(
    machine: bool,
    place: Place,
    m: KeyNotes,
    o: Result<(), CommandFailure>,
) -> bool {
    match o {
        Ok(()) => m.trouble is None && m.cleared && m.told.len() == 2 && !machine,
        Err(e) => if machine {
            e == KeyCommandError::<Seq<char>>::NotInteractive(Purpose::Clear(place)) && m
                == no_notes()
        } else {
            match m.trouble {
                Some(t) => e == t,
                None => e is Cancelled && !m.cleared && m.lines.len() == 1 && text::trimmed(
                    m.lines[0],
                ) != "yes"@,
            }
        },
    }
}

/// The key is removed from the place that was named, and only after the user has
/// acknowledged the warning about that place. A machine cannot remove it.
pub proof fn law_clear_command(machine: bool, place: Place)
    ensures
        flow::watched(
            masterutil::interactive(machine, Purpose::Clear(place), masterutil::clear(place)),
            no_notes(),
            |m: KeyNotes, c: Wish, r: Heard| key_noted(m, c, r),
            |m: KeyNotes, c: Wish| clear_may(place, m, c),
            |m: KeyNotes, o: Result<(), CommandFailure>| clear_end(machine, place, m, o),
        ),
{
    reveal_with_fuel(flow::watched, 6);
}

/// What the module that hands on tokens has learnt so far.
pub struct TokenNotes {
    pub name: Option<Seq<char>>,
    pub derived: Option<TokenReply<Seq<char>>>,
    pub placed: bool,
    pub trouble: Option<PamCode>,
}

/// Taking note of a request and its reply.
pub open spec fn token_noted(
    m: TokenNotes,
    c: tokenauth::Ask,
    r: tokenauth::Told,
) -> TokenNotes {
    match c {
        TokenRequest::Username => match r {
            TokenReply::Named(Ok(name)) => TokenNotes { name: Some(name), ..m },
            TokenReply::Named(Err(code)) => TokenNotes { trouble: Some(code), ..m },
            _ => TokenNotes { trouble: Some(PamCode::SystemErr), ..m },
        },
        TokenRequest::Derive { .. } => TokenNotes { derived: Some(r), ..m },
        TokenRequest::SetAuthtok { .. } => match r {
            TokenReply::Placed(Ok(())) => TokenNotes { placed: true, ..m },
            TokenReply::Placed(Err(code)) => TokenNotes { trouble: Some(code), ..m },
            _ => TokenNotes { trouble: Some(PamCode::SystemErr), ..m },
        },
    }
}

/// The helper has derived this token, and PAM can carry it.
pub open spec fn derived_token(m: TokenNotes, token: Seq<char>) -> bool {
    m.derived matches Some(TokenReply::Derived(Derivation::Report(Ok(t)))) && t == token
        && !token.contains('\0')
}

/// When the module may make a request.
pub open spec fn token_may(m: TokenNotes, c: tokenauth::Ask) -> bool {
    &&& m.trouble is None
    &&& match c {
        TokenRequest::Username => m.name is None && m.derived is None,
        TokenRequest::Derive { username } => m.name == Some(username) && m.derived is None,
        TokenRequest::SetAuthtok { token } => derived_token(m, token) && !m.placed,
    }
}

/// How the module may end.
pub open spec fn token_end(m: TokenNotes, o: PamResult) -> bool {
    match o {
        Ok(()) => m.trouble is None && m.placed,
        Err(code) => match m.trouble {
            Some(t) => code == t,
            None => code == PamCode::AuthErr && m.derived is Some && !(m.derived matches Some(
                TokenReply::Derived(Derivation::Report(Ok(t))),
            ) && !t.contains('\0')),
        },
    }
}

/// The token that is put on the stack is the one that was derived for the user that
/// PAM named, unchanged, and the module succeeds exactly when PAM has taken it.
pub proof fn law_token_module()
    ensures
        flow::watched(
            tokenauth::course(),
            (TokenNotes { name: None, derived: None, placed: false, trouble: None }),
            |m: TokenNotes, c: tokenauth::Ask, r: tokenauth::Told| token_noted(m, c, r),
            |m: TokenNotes, c: tokenauth::Ask| token_may(m, c),
            |m: TokenNotes, o: PamResult| token_end(m, o),
        ),
{
    reveal_with_fuel(flow::watched, 5);
}

} // verus!

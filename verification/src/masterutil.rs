//! The commands of the utility that manage the master key.
//!
//! Each command is a conversation (see `flow`) with the user and with the
//! operations of `master_key`, through whoever drives it.
use crate::dialogue;
use crate::dialogue::means_yes;
use crate::flow;
use crate::flow::{Modelled, Paused, Prog, Step};
use crate::master_key::Presence;
use crate::pinerror::PinError;
use crate::sealing::MasterKeyError;
use crate::text;
use vstd::prelude::*;

verus! {

/// Where the master key is to be removed from.
#[derive(Debug, Clone, Copy, PartialEq, Eq, Structural)]
pub enum Place {
    Tpm,
    Disk,
}

/// What needs a user at a terminal.
#[derive(Debug, Clone, Copy, PartialEq, Eq, Structural)]
pub enum Purpose {
    Import,
    Clear(Place),
}

/// What the user is told.
#[derive(Debug)]
pub enum KeyNotice<S = String> {
    /// That a new key is made, and that what the old one unlocked stays locked.
    InitWarning,
    /// The recovery phrase.
    Phrase { phrase: S },
    Imported,
    ClearWarning(Place),
    Cleared(Place),
}

/// What the user is asked.
#[derive(Debug, Clone, Copy, PartialEq, Eq, Structural)]
pub enum KeyPrompt {
    Proceed,
    ConfirmPhrase,
    EnterPhrase,
    Acknowledge,
}

/// What a command asks for.
#[derive(Debug)]
pub enum KeyRequest<S = String> {
    Tell { notice: KeyNotice<S> },
    /// Ask the user for a line.
    Line { prompt: KeyPrompt },
    Initialize,
    Import { phrase: S },
    Clear { place: Place },
}

impl View for KeyRequest<String> {
    type V = KeyRequest<Seq<char>>;

    open spec fn view(&self) -> KeyRequest<Seq<char>> {
        match *self {
            KeyRequest::Tell { notice } => KeyRequest::Tell {
                notice: match notice {
                    KeyNotice::InitWarning => KeyNotice::InitWarning,
                    KeyNotice::Phrase { phrase } => KeyNotice::Phrase { phrase: phrase@ },
                    KeyNotice::Imported => KeyNotice::Imported,
                    KeyNotice::ClearWarning(p) => KeyNotice::ClearWarning(p),
                    KeyNotice::Cleared(p) => KeyNotice::Cleared(p),
                },
            },
            KeyRequest::Line { prompt } => KeyRequest::Line { prompt },
            KeyRequest::Initialize => KeyRequest::Initialize,
            KeyRequest::Import { phrase } => KeyRequest::Import { phrase: phrase@ },
            KeyRequest::Clear { place } => KeyRequest::Clear { place },
        }
    }
}

/// What came of a request. A reply of another sort than the request stands for
/// an I/O error.
#[derive(Debug)]
pub enum KeyReply<S = String> {
    Told,
    Line(Result<S, PinError<S>>),
    /// The recovery phrase, and what there is of the master key.
    Initialized(Result<(S, Presence), MasterKeyError<S>>),
    Imported(Result<Presence, MasterKeyError<S>>),
    Cleared(Result<(), MasterKeyError<S>>),
}

impl View for KeyReply<String> {
    type V = KeyReply<Seq<char>>;

    open spec fn view(&self) -> KeyReply<Seq<char>> {
        match *self {
            KeyReply::Told => KeyReply::Told,
            KeyReply::Line(Ok(t)) => KeyReply::Line(Ok(t@)),
            KeyReply::Line(Err(e)) => KeyReply::Line(Err(e@)),
            KeyReply::Initialized(Ok((phrase, p))) => KeyReply::Initialized(Ok((phrase@, p))),
            KeyReply::Initialized(Err(e)) => KeyReply::Initialized(Err(e@)),
            KeyReply::Imported(r) => KeyReply::Imported(crate::pinerror::outcome(r)),
            KeyReply::Cleared(r) => KeyReply::Cleared(crate::pinerror::outcome(r)),
        }
    }
}

/// Why a command has failed. All but the first count as terminal errors with
/// their localised message as text.
#[derive(Debug)]
pub enum KeyCommandError<S = String> {
    Key(MasterKeyError<S>),
    NotInteractive(Purpose),
    Cancelled,
    PhraseMismatch,
}

impl View for KeyCommandError<String> {
    type V = KeyCommandError<Seq<char>>;

    open spec fn view(&self) -> KeyCommandError<Seq<char>> {
        match *self {
            KeyCommandError::Key(e) => KeyCommandError::Key(e@),
            KeyCommandError::NotInteractive(p) => KeyCommandError::NotInteractive(p),
            KeyCommandError::Cancelled => KeyCommandError::Cancelled,
            KeyCommandError::PhraseMismatch => KeyCommandError::PhraseMismatch,
        }
    }
}

pub type Wish = KeyRequest<Seq<char>>;

pub type Heard = KeyReply<Seq<char>>;

pub type CommandFailure = KeyCommandError<Seq<char>>;

pub type KeyDialogue<T> = Prog<Wish, Heard, Result<T, CommandFailure>>;

pub open spec fn unexpected() -> CommandFailure {
    KeyCommandError::Key(MasterKeyError::Pin(dialogue::unexpected()))
}

/// The line that was typed, without the white space around it.
pub open spec fn line_of(r: Heard) -> Result<Seq<char>, CommandFailure> {
    match r {
        KeyReply::Line(Ok(t)) => Ok(text::trimmed(t)),
        KeyReply::Line(Err(e)) => Err(KeyCommandError::Key(MasterKeyError::Pin(e))),
        _ => Err(unexpected()),
    }
}

fn unexpected_error() -> (e: KeyCommandError)
    ensures
        e@ == unexpected(),
{
    KeyCommandError::Key(MasterKeyError::Pin(dialogue::unexpected_error()))
}

/// The line that was typed, without the white space around it.
fn prompt_line(reply: KeyReply) -> (r: Result<String, KeyCommandError>)
    ensures
        match r {
            Ok(t) => line_of(reply@) == Ok::<Seq<char>, CommandFailure>(t@),
            Err(e) => line_of(reply@) == Err::<Seq<char>, CommandFailure>(e@),
        },
{
    match reply {
        KeyReply::Line(Ok(t)) => Ok(text::trim(t.as_str()).to_owned()),
        KeyReply::Line(Err(e)) => Err(KeyCommandError::Key(MasterKeyError::Pin(e))),
        _ => Err(unexpected_error()),
    }
}

/// Initializing the master key. A user is warned first, and has to enter the
/// recovery phrase afterwards.
pub open spec fn init(machine: bool) -> KeyDialogue<(Seq<char>, Presence)> {
    if machine {
        Prog::Ask(KeyRequest::Initialize, |r: Heard| init_done(true, r))
    } else {
        Prog::Ask(
            KeyRequest::Tell { notice: KeyNotice::InitWarning },
            |r: Heard| init_warned(),
        )
    }
}

pub open spec fn init_warned() -> KeyDialogue<(Seq<char>, Presence)> {
    Prog::Ask(KeyRequest::Line { prompt: KeyPrompt::Proceed }, |r: Heard| init_asked(r))
}

pub open spec fn init_asked(r: Heard) -> KeyDialogue<(Seq<char>, Presence)> {
    match line_of(r) {
        Ok(t) => if dialogue::affirmative(t) {
            Prog::Ask(KeyRequest::Initialize, |r: Heard| init_done(false, r))
        } else {
            Prog::Return(Err(KeyCommandError::Cancelled))
        },
        Err(e) => Prog::Return(Err(e)),
    }
}

pub open spec fn init_done(machine: bool, r: Heard) -> KeyDialogue<(Seq<char>, Presence)> {
    match r {
        KeyReply::Initialized(Ok((phrase, p))) => if machine {
            Prog::Return(Ok((phrase, p)))
        } else {
            Prog::Ask(
                KeyRequest::Tell { notice: KeyNotice::Phrase { phrase } },
                |r: Heard| init_shown(phrase, p),
            )
        },
        KeyReply::Initialized(Err(e)) => Prog::Return(Err(KeyCommandError::Key(e))),
        _ => Prog::Return(Err(unexpected())),
    }
}

pub open spec fn init_shown(phrase: Seq<char>, p: Presence) -> KeyDialogue<
    (Seq<char>, Presence),
> {
    Prog::Ask(
        KeyRequest::Line { prompt: KeyPrompt::ConfirmPhrase },
        |r: Heard| Prog::Return(init_confirmed(phrase, p, r)),
    )
}

pub open spec fn init_confirmed(phrase: Seq<char>, p: Presence, r: Heard) -> Result<
    (Seq<char>, Presence),
    CommandFailure,
> {
    match line_of(r) {
        Ok(t) => if t == text::trimmed(phrase) {
            Ok((phrase, p))
        } else {
            Err(KeyCommandError::PhraseMismatch)
        },
        Err(e) => Err(e),
    }
}

/// The outcome of the initialization.
pub struct InitOutcome(pub Result<(String, Presence), KeyCommandError>);

impl Modelled for InitOutcome {
    type Model = Result<(Seq<char>, Presence), CommandFailure>;

    open spec fn model(&self) -> Result<(Seq<char>, Presence), CommandFailure> {
        match self.0 {
            Ok((phrase, p)) => Ok((phrase@, p)),
            Err(e) => Err(e@),
        }
    }
}

/// The initialization, waiting for a reply.
pub enum InitCommand {
    Warning,
    Asking,
    Initializing { machine: bool },
    Showing(String, Presence),
    Confirming(String, Presence),
}

impl Paused<Wish, Heard, Result<(Seq<char>, Presence), CommandFailure>> for InitCommand {
    open spec fn after(self, r: Heard) -> Prog<
        Wish,
        Heard,
        Result<(Seq<char>, Presence), CommandFailure>,
    > {
        match self {
            InitCommand::Warning => init_warned(),
            InitCommand::Asking => init_asked(r),
            InitCommand::Initializing { machine } => init_done(machine, r),
            InitCommand::Showing(phrase, p) => init_shown(phrase@, p),
            InitCommand::Confirming(phrase, p) => Prog::Return(init_confirmed(phrase@, p, r)),
        }
    }
}

/// Initializes the master key.
pub fn master_key_init(machine: bool) -> (s: Step<KeyRequest, InitCommand, InitOutcome>)
    ensures
        flow::performs(s, init(machine)),
{
    if machine {
        Step::Ask(KeyRequest::Initialize, InitCommand::Initializing { machine: true })
    } else {
        Step::Ask(KeyRequest::Tell { notice: KeyNotice::InitWarning }, InitCommand::Warning)
    }
}

impl InitCommand {
    pub fn resume(self, reply: KeyReply) -> (s: Step<KeyRequest, InitCommand, InitOutcome>)
        ensures
            flow::performs(s, self.after(reply@)),
    {
        match self {
            InitCommand::Warning => Step::Ask(
                KeyRequest::Line { prompt: KeyPrompt::Proceed },
                InitCommand::Asking,
            ),
            InitCommand::Asking => match prompt_line(reply) {
                Ok(t) => if means_yes(t.as_str()) {
                    Step::Ask(
                        KeyRequest::Initialize,
                        InitCommand::Initializing { machine: false },
                    )
                } else {
                    Step::Done(InitOutcome(Err(KeyCommandError::Cancelled)))
                },
                Err(e) => Step::Done(InitOutcome(Err(e))),
            },
            InitCommand::Initializing { machine } => match reply {
                KeyReply::Initialized(Ok((phrase, p))) => if machine {
                    Step::Done(InitOutcome(Ok((phrase, p))))
                } else {
                    let shown = phrase.clone();
                    Step::Ask(
                        KeyRequest::Tell { notice: KeyNotice::Phrase { phrase: shown } },
                        InitCommand::Showing(phrase, p),
                    )
                },
                KeyReply::Initialized(Err(e)) => Step::Done(
                    InitOutcome(Err(KeyCommandError::Key(e))),
                ),
                _ => Step::Done(InitOutcome(Err(unexpected_error()))),
            },
            InitCommand::Showing(phrase, p) => Step::Ask(
                KeyRequest::Line { prompt: KeyPrompt::ConfirmPhrase },
                InitCommand::Confirming(phrase, p),
            ),
            InitCommand::Confirming(phrase, p) => match prompt_line(reply) {
                Ok(t) => if text::same_text(t.as_str(), text::trim(phrase.as_str())) {
                    Step::Done(InitOutcome(Ok((phrase, p))))
                } else {
                    Step::Done(InitOutcome(Err(KeyCommandError::PhraseMismatch)))
                },
                Err(e) => Step::Done(InitOutcome(Err(e))),
            },
        }
    }
}

/// `talk`, if there is a user at a terminal.
pub open spec fn interactive<T>(machine: bool, purpose: Purpose, talk: KeyDialogue<T>) -> KeyDialogue<
    T,
> {
    if machine {
        Prog::Return(Err(KeyCommandError::NotInteractive(purpose)))
    } else {
        talk
    }
}

/// Importing the master key.
pub open spec fn import() -> KeyDialogue<Presence> {
    Prog::Ask(KeyRequest::Line { prompt: KeyPrompt::EnterPhrase }, |r: Heard| import_entered(r))
}

pub open spec fn import_entered(r: Heard) -> KeyDialogue<Presence> {
    match line_of(r) {
        Ok(phrase) => Prog::Ask(KeyRequest::Import { phrase }, |r: Heard| import_done(r)),
        Err(e) => Prog::Return(Err(e)),
    }
}

pub open spec fn import_done(r: Heard) -> KeyDialogue<Presence> {
    match r {
        KeyReply::Imported(Ok(p)) => Prog::Ask(
            KeyRequest::Tell { notice: KeyNotice::Imported },
            |r: Heard| Prog::Return(Ok(p)),
        ),
        KeyReply::Imported(Err(e)) => Prog::Return(Err(KeyCommandError::Key(e))),
        _ => Prog::Return(Err(unexpected())),
    }
}

/// The import, waiting for a reply.
pub enum ImportCommand {
    Entering,
    Importing,
    Telling(Presence),
}

impl Paused<Wish, Heard, Result<Presence, CommandFailure>> for ImportCommand {
    open spec fn after(self, r: Heard) -> Prog<Wish, Heard, Result<Presence, CommandFailure>> {
        match self {
            ImportCommand::Entering => import_entered(r),
            ImportCommand::Importing => import_done(r),
            ImportCommand::Telling(p) => Prog::Return(Ok(p)),
        }
    }
}

/// Imports the master key.
pub fn master_key_import_to_tpm(machine: bool) -> (s: Step<
    KeyRequest,
    ImportCommand,
    Result<Presence, KeyCommandError>,
>)
    ensures
        flow::performs(s, interactive(machine, Purpose::Import, import())),
{
    if machine {
        return Step::Done(Err(KeyCommandError::NotInteractive(Purpose::Import)));
    }
    Step::Ask(KeyRequest::Line { prompt: KeyPrompt::EnterPhrase }, ImportCommand::Entering)
}

impl ImportCommand {
    pub fn resume(self, reply: KeyReply) -> (s: Step<
        KeyRequest,
        ImportCommand,
        Result<Presence, KeyCommandError>,
    >)
        ensures
            flow::performs(s, self.after(reply@)),
    {
        match self {
            ImportCommand::Entering => match prompt_line(reply) {
                Ok(phrase) => Step::Ask(KeyRequest::Import { phrase }, ImportCommand::Importing),
                Err(e) => Step::Done(Err(e)),
            },
            ImportCommand::Importing => match reply {
                KeyReply::Imported(Ok(p)) => Step::Ask(
                    KeyRequest::Tell { notice: KeyNotice::Imported },
                    ImportCommand::Telling(p),
                ),
                KeyReply::Imported(Err(e)) => Step::Done(Err(KeyCommandError::Key(e))),
                _ => Step::Done(Err(unexpected_error())),
            },
            ImportCommand::Telling(p) => Step::Done(Ok(p)),
        }
    }
}

/// The word that confirms a removal.
pub const ACKNOWLEDGEMENT: &'static str = "yes";

/// Removing the master key, after a warning that has to be acknowledged.
pub open spec fn clear(place: Place) -> KeyDialogue<()> {
    Prog::Ask(
        KeyRequest::Tell { notice: KeyNotice::ClearWarning(place) },
        |r: Heard| clear_warned(place),
    )
}

pub open spec fn clear_warned(place: Place) -> KeyDialogue<()> {
    Prog::Ask(
        KeyRequest::Line { prompt: KeyPrompt::Acknowledge },
        |r: Heard| clear_answered(place, r),
    )
}

pub open spec fn clear_answered(place: Place, r: Heard) -> KeyDialogue<()> {
    match line_of(r) {
        Ok(t) => if t == ACKNOWLEDGEMENT@ {
            Prog::Ask(KeyRequest::Clear { place }, |r: Heard| clear_done(place, r))
        } else {
            Prog::Return(Err(KeyCommandError::Cancelled))
        },
        Err(e) => Prog::Return(Err(e)),
    }
}

pub open spec fn clear_done(place: Place, r: Heard) -> KeyDialogue<()> {
    match r {
        KeyReply::Cleared(Ok(())) => Prog::Ask(
            KeyRequest::Tell { notice: KeyNotice::Cleared(place) },
            |r: Heard| Prog::Return(Ok(())),
        ),
        KeyReply::Cleared(Err(e)) => Prog::Return(Err(KeyCommandError::Key(e))),
        _ => Prog::Return(Err(unexpected())),
    }
}

/// The removal, waiting for a reply.
pub enum ClearCommand {
    Warning(Place),
    Asking(Place),
    Clearing(Place),
    Telling,
}

impl Paused<Wish, Heard, Result<(), CommandFailure>> for ClearCommand {
    open spec fn after(self, r: Heard) -> Prog<Wish, Heard, Result<(), CommandFailure>> {
        match self {
            ClearCommand::Warning(place) => clear_warned(place),
            ClearCommand::Asking(place) => clear_answered(place, r),
            ClearCommand::Clearing(place) => clear_done(place, r),
            ClearCommand::Telling => Prog::Return(Ok(())),
        }
    }
}

/// Removes the master key.
fn master_key_clear(machine: bool, place: Place) -> (s: Step<
    KeyRequest,
    ClearCommand,
    Result<(), KeyCommandError>,
>)
    ensures
        flow::performs(s, interactive(machine, Purpose::Clear(place), clear(place))),
{
    if machine {
        return Step::Done(Err(KeyCommandError::NotInteractive(Purpose::Clear(place))));
    }
    Step::Ask(
        KeyRequest::Tell { notice: KeyNotice::ClearWarning(place) },
        ClearCommand::Warning(place),
    )
}

/// Removes the master key from the TPM.
pub fn master_key_clear_from_tpm(machine: bool) -> (s: Step<
    KeyRequest,
    ClearCommand,
    Result<(), KeyCommandError>,
>)
    ensures
        flow::performs(s, interactive(machine, Purpose::Clear(Place::Tpm), clear(Place::Tpm))),
{
    master_key_clear(machine, Place::Tpm)
}

/// Removes the sealed file.
pub fn master_key_clear_from_disk(machine: bool) -> (s: Step<
    KeyRequest,
    ClearCommand,
    Result<(), KeyCommandError>,
>)
    ensures
        flow::performs(s, interactive(machine, Purpose::Clear(Place::Disk), clear(Place::Disk))),
{
    master_key_clear(machine, Place::Disk)
}

impl ClearCommand {
    pub fn resume(self, reply: KeyReply) -> (s: Step<
        KeyRequest,
        ClearCommand,
        Result<(), KeyCommandError>,
    >)
        ensures
            flow::performs(s, self.after(reply@)),
    {
        match self {
            ClearCommand::Warning(place) => Step::Ask(
                KeyRequest::Line { prompt: KeyPrompt::Acknowledge },
                ClearCommand::Asking(place),
            ),
            ClearCommand::Asking(place) => match prompt_line(reply) {
                Ok(t) => if text::same_text(t.as_str(), ACKNOWLEDGEMENT) {
                    Step::Ask(KeyRequest::Clear { place }, ClearCommand::Clearing(place))
                } else {
                    Step::Done(Err(KeyCommandError::Cancelled))
                },
                Err(e) => Step::Done(Err(e)),
            },
            ClearCommand::Clearing(place) => match reply {
                KeyReply::Cleared(Ok(())) => Step::Ask(
                    KeyRequest::Tell { notice: KeyNotice::Cleared(place) },
                    ClearCommand::Telling,
                ),
                KeyReply::Cleared(Err(e)) => Step::Done(Err(KeyCommandError::Key(e))),
                _ => Step::Done(Err(unexpected_error())),
            },
            ClearCommand::Telling => Step::Done(Ok(())),
        }
    }
}

/// True if the user has acknowledged the warning.
pub open spec fn acknowledged() -> spec_fn(Wish, Heard) -> bool {
    |c: Wish, r: Heard|
        c == Wish::Line { prompt: KeyPrompt::Acknowledge } && line_of(r) == Ok::<
            Seq<char>,
            CommandFailure,
        >(ACKNOWLEDGEMENT@)
}

/// The master key is not removed unless the user has acknowledged the warning.
pub proof fn law_removal_is_acknowledged(place: Place)
    ensures
        flow::locked_until(
            clear(place),
            acknowledged(),
            |c: Wish| !(c is Clear),
            |o: Result<(), CommandFailure>| o is Err,
        ),
{
    reveal_with_fuel(flow::locked_until, 3);
    let key = acknowledged();
    let open = |c: Wish| !(c is Clear);
    let closed = |o: Result<(), CommandFailure>| o is Err;
    let asked = Wish::Line { prompt: KeyPrompt::Acknowledge };
    let k = |r: Heard| clear_answered(place, r);
    assert forall|r: Heard|
        key(asked, r) || flow::locked_until(#[trigger] k(r), key, open, closed) by {}
    assert(flow::locked_until(clear_warned(place), key, open, closed));
}

} // verus!

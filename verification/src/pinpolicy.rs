//! The rules for PINs, and where they are read from.
use crate::flow;
use crate::flow::{Modelled, Paused, Prog, Step};
use crate::pinconstants::DEFAULT_PINUTIL_PATH;
use crate::pinerror::{PinError, PinResult};
use crate::tcti::DEFAULT_TCTI_SPEC;
use crate::text;
use vstd::prelude::*;

verus! {

/// Policy describing acceptable PIN characteristics. `S` is the type of texts.
#[derive(Debug, Clone)]
pub struct PinPolicy<S = String> {
    /// Minimum allowed length.
    pub min_length: usize,
    /// Optional maximum length.
    pub max_length: Option<usize>,
    /// Maximum allowed failed attempts before lockout.
    pub max_attempts: u32,
    /// Full path to the trusted pinutil binary.
    pub pinutil_path: S,
    /// Optional TCTI specification selecting which TPM backend to use. When
    /// `None`, the kernel resource manager is used.
    pub tcti: Option<S>,
}

pub open spec fn text_option(s: Option<String>) -> Option<Seq<char>> {
    match s {
        Some(t) => Some(t@),
        None => None,
    }
}

impl View for PinPolicy<String> {
    type V = PinPolicy<Seq<char>>;

    open spec fn view(&self) -> PinPolicy<Seq<char>> {
        PinPolicy {
            min_length: self.min_length,
            max_length: self.max_length,
            max_attempts: self.max_attempts,
            pinutil_path: self.pinutil_path@,
            tcti: text_option(self.tcti),
        }
    }
}

/// The policy that holds when nothing is configured.
pub open spec fn default_policy() -> PinPolicy<Seq<char>> {
    PinPolicy {
        min_length: 4,
        max_length: Some(8),
        max_attempts: 3,
        pinutil_path: DEFAULT_PINUTIL_PATH@,
        tcti: None,
    }
}

impl Default for PinPolicy<String> {
    fn default() -> (p: PinPolicy<String>)
        ensures
            p@ == default_policy(),
    {
        PinPolicy {
            min_length: 4,
            max_length: Some(8),
            max_attempts: 3,
            pinutil_path: DEFAULT_PINUTIL_PATH.to_owned(),
            tcti: None,
        }
    }
}

/// Why a policy refuses a text as a PIN, or `None` if it accepts it. The length
/// of a PIN is the number of bytes of its UTF-8 encoding.
pub open spec fn objection(policy: PinPolicy<Seq<char>>, pin: Seq<char>) -> Option<
    PinError<Seq<char>>,
> {
    let length = vstd::utf8::encode_utf8(pin).len() as usize;
    if pin.len() == 0 {
        Some(PinError::PinIsEmpty)
    } else if length < policy.min_length {
        Some(PinError::PinTooShort { length, limit: policy.min_length })
    } else {
        match policy.max_length {
            Some(limit) => if length > limit {
                Some(PinError::PinTooLong { length, limit })
            } else {
                None
            },
            None => None,
        }
    }
}

/// The backend that a policy selects.
pub open spec fn backend(policy: PinPolicy<Seq<char>>) -> Seq<char> {
    match policy.tcti {
        Some(spec) => spec,
        None => DEFAULT_TCTI_SPEC@,
    }
}

impl PinPolicy<String> {
    pub fn new(
        min_length: usize,
        max_length: Option<usize>,
        max_attempts: u32,
        pinutil_path: String,
    ) -> (p: PinPolicy<String>)
        ensures
            p@ == (PinPolicy {
                min_length,
                max_length,
                max_attempts,
                pinutil_path: pinutil_path@,
                tcti: None::<Seq<char>>,
            }),
    {
        PinPolicy { min_length, max_length, max_attempts, pinutil_path, tcti: None }
    }

    /// The TCTI specification to use for talking to the TPM, falling back to the
    /// kernel resource manager when nothing is configured.
    pub fn tcti_spec(&self) -> (r: &str)
        ensures
            r@ == backend(self@),
    {
        match &self.tcti {
            Some(spec) => spec.as_str(),
            None => DEFAULT_TCTI_SPEC,
        }
    }

    /// Validates an already-normalized PIN. Callers should use `Pin::new` rather
    /// than calling this directly, so that normalization is applied
    /// consistently.
    pub fn validate(&self, pin: &str) -> (r: PinResult<()>)
        ensures
            match r {
                Ok(()) => objection(self@, pin@) is None,
                Err(e) => objection(self@, pin@) == Some(e@),
            },
    {
        if pin.is_empty() {
            return Err(PinError::PinIsEmpty);
        }
        let length: usize = pin.as_bytes().len();
        if length < self.min_length {
            return Err(PinError::PinTooShort { length, limit: self.min_length });
        }
        if let Some(limit) = self.max_length {
            if length > limit {
                return Err(PinError::PinTooLong { length, limit });
            }
        }
        Ok(())
    }
}

/// The text of the error for a setting with a bad value.
pub const INVALID_PARAM: &'static str = "the provided parameter is invalid for that type.";

/// The text of the error for a setting without a value.
pub const MISSING_PARAM: &'static str = "some of the required parameters were not provided";

pub open spec fn invalid_param() -> PinError<Seq<char>> {
    PinError::TpmError(INVALID_PARAM@)
}

pub open spec fn missing_param() -> PinError<Seq<char>> {
    PinError::TpmError(MISSING_PARAM@)
}

/// What is known of a file that has been opened: whether it is a regular file,
/// its owner and its mode.
#[derive(Debug, Clone, Copy, PartialEq, Eq, Structural)]
pub struct FileFacts {
    pub regular: bool,
    pub uid: u32,
    pub mode: u32,
}

/// What the reading of a policy asks of the system.
#[derive(Debug)]
pub enum PolicyQuery<S = String> {
    /// Open a file.
    Open { path: S },
    /// Read the file that has just been opened.
    Contents { path: S },
    /// Check that there is a regular file.
    RegularFile { path: S },
    /// Check that a TCTI specification can be interpreted.
    TctiSpec { spec: S },
}

impl View for PolicyQuery<String> {
    type V = PolicyQuery<Seq<char>>;

    open spec fn view(&self) -> PolicyQuery<Seq<char>> {
        match *self {
            PolicyQuery::Open { path } => PolicyQuery::Open { path: path@ },
            PolicyQuery::Contents { path } => PolicyQuery::Contents { path: path@ },
            PolicyQuery::RegularFile { path } => PolicyQuery::RegularFile { path: path@ },
            PolicyQuery::TctiSpec { spec } => PolicyQuery::TctiSpec { spec: spec@ },
        }
    }
}

/// What the system answers. An answer of another sort than the question stands
/// for a failure.
#[derive(Debug)]
pub enum PolicyAnswer<S = String> {
    /// What is known of the file, if it could be opened.
    Opened(Option<FileFacts>),
    /// The text of the file, if it could be read.
    Contents(Option<S>),
    /// Whether a check was passed, and if not, why.
    Checked(Result<(), S>),
}

impl View for PolicyAnswer<String> {
    type V = PolicyAnswer<Seq<char>>;

    open spec fn view(&self) -> PolicyAnswer<Seq<char>> {
        match *self {
            PolicyAnswer::Opened(f) => PolicyAnswer::Opened(f),
            PolicyAnswer::Contents(t) => PolicyAnswer::Contents(text_option(t)),
            PolicyAnswer::Checked(Ok(())) => PolicyAnswer::Checked(Ok(())),
            PolicyAnswer::Checked(Err(e)) => PolicyAnswer::Checked(Err(e@)),
        }
    }
}

pub type Query = PolicyQuery<Seq<char>>;

pub type Finding = PolicyAnswer<Seq<char>>;

/// The reading of a policy.
pub type Reading<T> = Prog<Query, Finding, T>;

pub type Parsed = Result<PinPolicy<Seq<char>>, PinError<Seq<char>>>;

/// The outcome of a check.
pub open spec fn checked(a: Finding) -> Result<(), Seq<char>> {
    match a {
        PolicyAnswer::Checked(r) => r,
        _ => Err(Seq::empty()),
    }
}

/// What one setting does.
pub enum Effect {
    /// The policy becomes this.
    Becomes(PinPolicy<Seq<char>>),
    /// The path of the utility is to be set, if there is a regular file.
    UtilityPath(Seq<char>),
    /// The backend is to be set, if it can be interpreted.
    Backend(Seq<char>),
    /// The setting is refused.
    Refused(PinError<Seq<char>>),
}

/// True of an absolute path.
pub open spec fn absolute(path: Seq<char>) -> bool {
    path.len() > 0 && path[0] == '/'
}

/// What the setting `key=value` does. An unknown key does nothing.
pub open spec fn effect_of(
    policy: PinPolicy<Seq<char>>,
    key: Seq<char>,
    value: Seq<char>,
) -> Effect {
    if key == "pin_min_length"@ {
        match text::numeral_value(value, usize::MAX as nat) {
            Some(n) => Effect::Becomes(PinPolicy { min_length: n as usize, ..policy }),
            None => Effect::Refused(invalid_param()),
        }
    } else if key == "pin_max_length"@ {
        match text::numeral_value(value, usize::MAX as nat) {
            Some(n) => Effect::Becomes(PinPolicy { max_length: Some(n as usize), ..policy }),
            None => Effect::Refused(invalid_param()),
        }
    } else if key == "pin_lockout_max_attempts"@ {
        match text::numeral_value(value, u32::MAX as nat) {
            Some(n) => Effect::Becomes(PinPolicy { max_attempts: n as u32, ..policy }),
            None => Effect::Refused(invalid_param()),
        }
    } else if key == "pinutil_path"@ {
        if absolute(value) {
            Effect::UtilityPath(value)
        } else {
            Effect::Refused(invalid_param())
        }
    } else if key == "tcti"@ {
        if value.len() == 0 {
            Effect::Refused(invalid_param())
        } else {
            Effect::Backend(value)
        }
    } else {
        Effect::Becomes(policy)
    }
}

/// What a setting does. A word without `=` is an error.
pub open spec fn effect(policy: PinPolicy<Seq<char>>, word: Seq<char>) -> Effect {
    match text::split_at_char(word, '=') {
        Some((key, value)) => effect_of(policy, key, value),
        None => Effect::Refused(missing_param()),
    }
}

/// What follows the check of the utility's path.
pub open spec fn path_checked(
    policy: PinPolicy<Seq<char>>,
    path: Seq<char>,
    a: Finding,
) -> Parsed {
    match checked(a) {
        Ok(()) => Ok(PinPolicy { pinutil_path: path, ..policy }),
        Err(_) => Err(invalid_param()),
    }
}

/// What follows the check of the backend.
pub open spec fn backend_checked(
    policy: PinPolicy<Seq<char>>,
    spec: Seq<char>,
    a: Finding,
) -> Parsed {
    match checked(a) {
        Ok(()) => Ok(PinPolicy { tcti: Some(spec), ..policy }),
        Err(e) => Err(PinError::TpmError(e)),
    }
}

/// Applying settings one after the other, until one is refused.
pub open spec fn apply(policy: PinPolicy<Seq<char>>, words: Seq<Seq<char>>) -> Reading<Parsed>
    decreases words.len(),
{
    if words.len() == 0 {
        Prog::Return(Ok(policy))
    } else {
        let rest = words.skip(1);
        match effect(policy, words[0]) {
            Effect::Becomes(p) => apply(p, rest),
            Effect::UtilityPath(path) => Prog::Ask(
                PolicyQuery::RegularFile { path },
                |a: Finding|
                    match path_checked(policy, path, a) {
                        Ok(p) => apply(p, rest),
                        Err(e) => Prog::Return(Err(e)),
                    },
            ),
            Effect::Backend(spec) => Prog::Ask(
                PolicyQuery::TctiSpec { spec },
                |a: Finding|
                    match backend_checked(policy, spec, a) {
                        Ok(p) => apply(p, rest),
                        Err(e) => Prog::Return(Err(e)),
                    },
            ),
            Effect::Refused(e) => Prog::Return(Err(e)),
        }
    }
}

/// True of a setting of the path of the utility.
pub open spec fn names_utility(word: Seq<char>) -> bool {
    match text::split_at_char(word, '=') {
        Some((key, _)) => key == "pinutil_path"@,
        None => false,
    }
}

/// What applying all the settings comes to: the path of the utility has to be among
/// them.
pub open spec fn complete(words: Seq<Seq<char>>, r: Parsed) -> Parsed {
    match r {
        Ok(p) => if exists|i: int| 0 <= i < words.len() && names_utility(#[trigger] words[i]) {
            Ok(p)
        } else {
            Err(missing_param())
        },
        Err(e) => Err(e),
    }
}

/// Applying the settings `rest`, the last of the settings `words`.
pub open spec fn finish(
    policy: PinPolicy<Seq<char>>,
    rest: Seq<Seq<char>>,
    words: Seq<Seq<char>>,
) -> Reading<Parsed> {
    flow::bind(apply(policy, rest), |r: Parsed| Prog::Return(complete(words, r)))
}

/// Reading a configuration: its words are settings that are applied to the
/// default policy. The path of the utility is mandatory.
pub open spec fn parse(config: Seq<char>) -> Reading<Parsed> {
    finish(default_policy(), text::words(config), text::words(config))
}

/// The outcome of reading a configuration.
pub struct ParsedPolicy(pub PinResult<PinPolicy>);

impl Modelled for ParsedPolicy {
    type Model = Parsed;

    open spec fn model(&self) -> Parsed {
        match self.0 {
            Ok(p) => Ok(p@),
            Err(e) => Err(e@),
        }
    }
}

/// A setting that waits for a check.
pub enum PendingSetting {
    UtilityPath(String),
    Backend(String),
}

/// The reading of a configuration, waiting for a check. The settings from `next`
/// on are still to be applied.
pub struct Parsing {
    pub policy: PinPolicy,
    pub words: Vec<String>,
    pub next: usize,
    pub pending: PendingSetting,
}

impl Parsing {
    /// The settings that are still to be applied.
    pub open spec fn rest(self) -> Seq<Seq<char>> {
        if self.next <= self.words@.len() {
            text::views(self.words@).skip(self.next as int)
        } else {
            Seq::empty()
        }
    }

    /// The policy after the check.
    pub open spec fn settled(self, a: Finding) -> Parsed {
        match self.pending {
            PendingSetting::UtilityPath(path) => path_checked(self.policy@, path@, a),
            PendingSetting::Backend(spec) => backend_checked(self.policy@, spec@, a),
        }
    }
}

impl Paused<Query, Finding, Parsed> for Parsing {
    open spec fn after(self, a: Finding) -> Prog<Query, Finding, Parsed> {
        match self.settled(a) {
            Ok(p) => finish(p, self.rest(), text::views(self.words@)),
            Err(e) => Prog::Return(Err(e)),
        }
    }
}

type ParseStep = Step<PolicyQuery, Parsing, ParsedPolicy>;

fn invalid_param_error() -> (e: PinError)
    ensures
        e@ == invalid_param(),
{
    PinError::TpmError(INVALID_PARAM.to_owned())
}

/// What a setting asks for, once its value has been read.
enum Change {
    Become(PinPolicy),
    Check(PinPolicy, PendingSetting),
    Refuse(PinError),
}

/// Reads a setting.
fn read_setting(policy: PinPolicy, word: &str) -> (c: Change)
    ensures
        match c {
            Change::Become(p) => effect(policy@, word@) == Effect::Becomes(p@),
            Change::Check(p, PendingSetting::UtilityPath(path)) => p@ == policy@ && effect(
                policy@,
                word@,
            ) == Effect::UtilityPath(path@),
            Change::Check(p, PendingSetting::Backend(spec)) => p@ == policy@ && effect(
                policy@,
                word@,
            ) == Effect::Backend(spec@),
            Change::Refuse(e) => effect(policy@, word@) == Effect::Refused(e@),
        },
{
    let (key, value) = match text::split_once(word, '=') {
        Some(pair) => pair,
        None => return Change::Refuse(PinError::TpmError(MISSING_PARAM.to_owned())),
    };
    let mut policy = policy;
    let key = key.as_str();
    if text::same_text(key, "pin_min_length") {
        match text::parse_numeral(value.as_str(), usize::MAX as u64) {
            Some(n) => {
                policy.min_length = n as usize;
                Change::Become(policy)
            },
            None => Change::Refuse(invalid_param_error()),
        }
    } else if text::same_text(key, "pin_max_length") {
        match text::parse_numeral(value.as_str(), usize::MAX as u64) {
            Some(n) => {
                policy.max_length = Some(n as usize);
                Change::Become(policy)
            },
            None => Change::Refuse(invalid_param_error()),
        }
    } else if text::same_text(key, "pin_lockout_max_attempts") {
        match text::parse_numeral(value.as_str(), u32::MAX as u64) {
            Some(n) => {
                policy.max_attempts = n as u32;
                Change::Become(policy)
            },
            None => Change::Refuse(invalid_param_error()),
        }
    } else if text::same_text(key, "pinutil_path") {
        if !value.as_str().is_empty() && value.as_str().get_char(0) == '/' {
            Change::Check(policy, PendingSetting::UtilityPath(value))
        } else {
            Change::Refuse(invalid_param_error())
        }
    } else if text::same_text(key, "tcti") {
        if value.as_str().is_empty() {
            Change::Refuse(invalid_param_error())
        } else {
            Change::Check(policy, PendingSetting::Backend(value))
        }
    } else {
        Change::Become(policy)
    }
}

/// Decides whether a word sets the path of the utility.
fn sets_utility(word: &str) -> (b: bool)
    ensures
        b == names_utility(word@),
{
    match text::split_once(word, '=') {
        Some((key, _)) => text::same_text(key.as_str(), "pinutil_path"),
        None => false,
    }
}

/// Ends the reading with a policy, if the path of the utility was among the settings.
fn conclude(policy: PinPolicy, words: &Vec<String>) -> (r: PinResult<PinPolicy>)
    ensures
        ParsedPolicy(r).model() == complete(text::views(words@), Ok(policy@)),
{
    let mut i: usize = 0;
    while i < words.len()
        invariant
            i <= words@.len(),
            forall|j: int| 0 <= j < i ==> !names_utility(#[trigger] text::views(words@)[j]),
        decreases words@.len() - i,
    {
        assert(text::views(words@)[i as int] == words@[i as int]@);
        if sets_utility(words[i].as_str()) {
            return Ok(policy);
        }
        i = i + 1;
    }
    Err(PinError::TpmError(MISSING_PARAM.to_owned()))
}

/// Applies the settings from `first` on, up to the first that needs a check.
fn advance(initial: PinPolicy, words: Vec<String>, first: usize) -> (s: ParseStep)
    requires
        first <= words@.len(),
    ensures
        flow::performs(
            s,
            finish(initial@, text::views(words@).skip(first as int), text::views(words@)),
        ),
{
    let ghost start = apply(initial@, text::views(words@).skip(first as int));
    let mut policy = initial;
    let mut next: usize = first;
    while next < words.len()
        invariant
            next <= words@.len(),
            apply(policy@, text::views(words@).skip(next as int)) == start,
            apply(initial@, text::views(words@).skip(first as int)) == start,
        decreases words@.len() - next,
    {
        let ghost todo = text::views(words@).skip(next as int);
        proof {
            reveal_with_fuel(apply, 2);
            reveal_with_fuel(flow::bind, 2);
            assert(todo.len() > 0);
            assert(todo[0] == words@[next as int]@);
            assert(todo.skip(1) =~= text::views(words@).skip(next + 1));
        }
        match read_setting(policy, words[next].as_str()) {
            Change::Become(p) => {
                policy = p;
                next = next + 1;
            },
            Change::Check(p, PendingSetting::UtilityPath(path)) => {
                let query = PolicyQuery::RegularFile { path: path.clone() };
                return Step::Ask(
                    query,
                    Parsing {
                        policy: p,
                        words,
                        next: next + 1,
                        pending: PendingSetting::UtilityPath(path),
                    },
                );
            },
            Change::Check(p, PendingSetting::Backend(spec)) => {
                let query = PolicyQuery::TctiSpec { spec: spec.clone() };
                return Step::Ask(
                    query,
                    Parsing {
                        policy: p,
                        words,
                        next: next + 1,
                        pending: PendingSetting::Backend(spec),
                    },
                );
            },
            Change::Refuse(e) => {
                return Step::Done(ParsedPolicy(Err(e)));
            },
        }
    }
    Step::Done(ParsedPolicy(conclude(policy, &words)))
}

/// The outcome of a check.
fn take_check(answer: PolicyAnswer) -> (r: Result<(), String>)
    ensures
        match r {
            Ok(()) => checked(answer@) == Ok::<(), Seq<char>>(()),
            Err(e) => checked(answer@) == Err::<(), Seq<char>>(e@),
        },
{
    match answer {
        PolicyAnswer::Checked(Ok(())) => Ok(()),
        PolicyAnswer::Checked(Err(e)) => Err(e),
        _ => {
            let none = String::new();
            assert(none@ =~= Seq::<char>::empty());
            Err(none)
        },
    }
}

impl Parsing {
    pub fn resume(self, answer: PolicyAnswer) -> (s: Step<PolicyQuery, Parsing, ParsedPolicy>)
        ensures
            flow::performs(s, self.after(answer@)),
    {
        let mut policy = self.policy;
        match self.pending {
            PendingSetting::UtilityPath(path) => match take_check(answer) {
                Ok(()) => {
                    policy.pinutil_path = path;
                },
                Err(_) => return Step::Done(ParsedPolicy(Err(invalid_param_error()))),
            },
            PendingSetting::Backend(spec) => match take_check(answer) {
                Ok(()) => {
                    policy.tcti = Some(spec);
                },
                Err(e) => return Step::Done(ParsedPolicy(Err(PinError::TpmError(e)))),
            },
        }
        if self.next <= self.words.len() {
            advance(policy, self.words, self.next)
        } else {
            Step::Done(ParsedPolicy(conclude(policy, &self.words)))
        }
    }
}

impl PinPolicy<String> {
    /// Reads a configuration.
    pub fn parse_config(config: &str) -> (s: Step<PolicyQuery, Parsing, ParsedPolicy>)
        ensures
            flow::performs(s, parse(config@)),
    {
        let words = text::split_words(config);
        assert(text::views(words@).skip(0) =~= text::views(words@));
        advance(PinPolicy::default(), words, 0)
    }
}

/// True if a file with that owner and mode can be trusted: it is root's, nobody
/// else may write to it, and it is not executable.
pub open spec fn secure(uid: u32, mode: u32) -> bool {
    uid == 0 && (mode & 0o777) & 0o133 == 0
}

/// Decides whether a file with that owner and mode can be trusted.
pub fn metadata_is_secure(uid: u32, mode: u32) -> (b: bool)
    ensures
        b == secure(uid, mode),
{
    // Write access for others than root would let them choose the program that
    // is run as root during authentication; execute bits have no business on a
    // configuration file.
    uid == 0 && (mode & 0o777) & 0o133 == 0
}

/// True of a policy file that can be trusted.
pub open spec fn trusted(facts: FileFacts) -> bool {
    facts.regular && secure(facts.uid, facts.mode)
}

/// A trusted file is root's and has permissions of at most 0644.
pub proof fn law_trusted_files_are_roots(facts: FileFacts)
    requires
        trusted(facts),
    ensures
        facts.uid == 0,
        (facts.mode & 0o777) & !0o644u32 == 0,
        (facts.mode & 0o777) <= 0o644,
        facts.mode & 0o022 == 0,
{
    let mode = facts.mode;
    assert((mode & 0o777) & 0o133 == 0 ==> (mode & 0o777) & !0o644u32 == 0 && (mode & 0o777)
        <= 0o644 && mode & 0o022 == 0) by (bit_vector);
}

pub type Loaded = Option<PinPolicy<Seq<char>>>;

/// Loading a policy from a file, if it can be trusted.
pub open spec fn load(path: Seq<char>) -> Reading<Loaded> {
    Prog::Ask(PolicyQuery::Open { path }, |a: Finding| load_opened(path, a))
}

pub open spec fn load_opened(path: Seq<char>, a: Finding) -> Reading<Loaded> {
    match a {
        PolicyAnswer::Opened(Some(facts)) => if trusted(facts) {
            Prog::Ask(PolicyQuery::Contents { path }, |a: Finding| load_read(a))
        } else {
            Prog::Return(None)
        },
        _ => Prog::Return(None),
    }
}

pub open spec fn load_read(a: Finding) -> Reading<Loaded> {
    match a {
        PolicyAnswer::Contents(Some(config)) => flow::bind(
            parse(config),
            |r: Parsed| Prog::Return(accepted(r)),
        ),
        _ => Prog::Return(None),
    }
}

/// A policy that could not be parsed is no policy.
pub open spec fn accepted(r: Parsed) -> Loaded {
    match r {
        Ok(p) => Some(p),
        Err(_) => None,
    }
}

/// Where the policy is looked for.
pub const STANDARD_LOCATION: &'static str = "/etc/pinpam/policy";

/// Loading the policy from its standard location. Without one the default
/// holds.
pub open spec fn load_standard() -> Reading<PinPolicy<Seq<char>>> {
    flow::bind(load(STANDARD_LOCATION@), |l: Loaded| Prog::Return(or_default(l)))
}

pub open spec fn or_default(l: Loaded) -> PinPolicy<Seq<char>> {
    match l {
        Some(p) => p,
        None => default_policy(),
    }
}

/// The outcome of loading a policy.
pub struct LoadedPolicy(pub Option<PinPolicy>);

impl Modelled for LoadedPolicy {
    type Model = Loaded;

    open spec fn model(&self) -> Loaded {
        match self.0 {
            Some(p) => Some(p@),
            None => None,
        }
    }
}

impl Modelled for PinPolicy<String> {
    type Model = PinPolicy<Seq<char>>;

    open spec fn model(&self) -> PinPolicy<Seq<char>> {
        self@
    }
}

/// The loading of a policy, waiting for an answer.
pub enum Loading {
    Opening(String),
    Fetching,
    Parsing(Parsing),
}

impl Paused<Query, Finding, Loaded> for Loading {
    open spec fn after(self, a: Finding) -> Prog<Query, Finding, Loaded> {
        match self {
            Loading::Opening(path) => load_opened(path@, a),
            Loading::Fetching => load_read(a),
            Loading::Parsing(parsing) => flow::bind(
                parsing.after(a),
                |r: Parsed| Prog::Return(accepted(r)),
            ),
        }
    }
}

type LoadStep = Step<PolicyQuery, Loading, LoadedPolicy>;

/// Goes on with the loading after a step of the parsing.
fn while_parsing(step: ParseStep, Ghost(talk): Ghost<Reading<Parsed>>) -> (s: LoadStep)
    requires
        flow::performs(step, talk),
    ensures
        flow::performs(s, flow::bind(talk, |r: Parsed| Prog::Return(accepted(r)))),
{
    proof {
        reveal_with_fuel(flow::bind, 2);
    }
    match step {
        Step::Ask(query, parsing) => Step::Ask(query, Loading::Parsing(parsing)),
        Step::Done(ParsedPolicy(Ok(policy))) => Step::Done(LoadedPolicy(Some(policy))),
        Step::Done(ParsedPolicy(Err(_))) => Step::Done(LoadedPolicy(None)),
    }
}

impl Loading {
    pub fn resume(self, answer: PolicyAnswer) -> (s: Step<PolicyQuery, Loading, LoadedPolicy>)
        ensures
            flow::performs(s, self.after(answer@)),
    {
        match self {
            Loading::Opening(path) => match answer {
                PolicyAnswer::Opened(Some(facts)) => if facts.regular && metadata_is_secure(
                    facts.uid,
                    facts.mode,
                ) {
                    Step::Ask(PolicyQuery::Contents { path }, Loading::Fetching)
                } else {
                    Step::Done(LoadedPolicy(None))
                },
                _ => Step::Done(LoadedPolicy(None)),
            },
            Loading::Fetching => match answer {
                PolicyAnswer::Contents(Some(config)) => while_parsing(
                    PinPolicy::parse_config(config.as_str()),
                    Ghost(parse(config@)),
                ),
                _ => Step::Done(LoadedPolicy(None)),
            },
            Loading::Parsing(parsing) => {
                let ghost talk = parsing.after(answer@);
                while_parsing(parsing.resume(answer), Ghost(talk))
            },
        }
    }
}

/// The loading of the policy from its standard location, waiting for an answer.
pub struct LoadingStandard(pub Loading);

impl Paused<Query, Finding, PinPolicy<Seq<char>>> for LoadingStandard {
    open spec fn after(self, a: Finding) -> Prog<Query, Finding, PinPolicy<Seq<char>>> {
        flow::bind(self.0.after(a), |l: Loaded| Prog::Return(or_default(l)))
    }
}

/// Goes on with the loading from the standard location.
fn while_loading(step: LoadStep, Ghost(talk): Ghost<Reading<Loaded>>) -> (s: Step<
    PolicyQuery,
    LoadingStandard,
    PinPolicy,
>)
    requires
        flow::performs(step, talk),
    ensures
        flow::performs(s, flow::bind(talk, |l: Loaded| Prog::Return(or_default(l)))),
{
    proof {
        reveal_with_fuel(flow::bind, 2);
    }
    match step {
        Step::Ask(query, loading) => Step::Ask(query, LoadingStandard(loading)),
        Step::Done(LoadedPolicy(Some(policy))) => Step::Done(policy),
        Step::Done(LoadedPolicy(None)) => Step::Done(PinPolicy::default()),
    }
}

impl LoadingStandard {
    pub fn resume(self, answer: PolicyAnswer) -> (s: Step<PolicyQuery, LoadingStandard, PinPolicy>)
        ensures
            flow::performs(s, self.after(answer@)),
    {
        let ghost talk = self.0.after(answer@);
        while_loading(self.0.resume(answer), Ghost(talk))
    }
}

impl PinPolicy<String> {
    /// Loads a policy from a file, if it can be trusted.
    pub fn load_from_path(path: &str) -> (s: Step<PolicyQuery, Loading, LoadedPolicy>)
        ensures
            flow::performs(s, load(path@)),
    {
        Step::Ask(PolicyQuery::Open { path: path.to_owned() }, Loading::Opening(path.to_owned()))
    }

    /// Loads the policy from its standard location, falling back to the default.
    pub fn load_from_standard_locations() -> (s: Step<PolicyQuery, LoadingStandard, PinPolicy>)
        ensures
            flow::performs(s, load_standard()),
    {
        while_loading(
            PinPolicy::load_from_path(STANDARD_LOCATION),
            Ghost(load(STANDARD_LOCATION@)),
        )
    }
}

/// True of the opening of a file that can be trusted.
pub open spec fn vouched() -> spec_fn(Query, Finding) -> bool {
    |c: Query, a: Finding|
        match a {
            PolicyAnswer::Opened(Some(facts)) => c is Open && trusted(facts),
            _ => false,
        }
}

/// A policy file that cannot be trusted is not even read, and gives no policy.
pub proof fn law_untrusted_files_are_not_read(path: Seq<char>)
    ensures
        flow::locked_until(
            load(path),
            vouched(),
            |c: Query| c is Open,
            |l: Loaded| l is None,
        ),
{
    reveal_with_fuel(flow::locked_until, 2);
}

proof fn lemma_reading_ends<T>(p: Reading<T>)
    ensures
        flow::locked_until(p, |c: Query, a: Finding| false, |c: Query| true, |t: T| true),
    decreases p,
{
    match p {
        Prog::Return(_) => {},
        Prog::Ask(_, k) => {
            assert forall|a: Finding|
                flow::locked_until(
                    #[trigger] k(a),
                    |c: Query, a: Finding| false,
                    |c: Query| true,
                    |t: T| true,
                ) by {
                lemma_reading_ends(k(a));
            }
        },
    }
}

/// The path of the utility is mandatory: whatever the system answers, the reading of
/// a configuration that does not set it ends with an error, and a file with such a
/// configuration gives no policy.
pub proof fn law_utility_path_is_mandatory(config: Seq<char>)
    requires
        forall|i: int|
            0 <= i < text::words(config).len() ==> !names_utility(#[trigger] text::words(config)[i]),
    ensures
        flow::locked_until(
            parse(config),
            |c: Query, a: Finding| false,
            |c: Query| true,
            |r: Parsed| r is Err,
        ),
        flow::locked_until(
            load_read(PolicyAnswer::Contents(Some(config))),
            |c: Query, a: Finding| false,
            |c: Query| true,
            |l: Loaded| l is None,
        ),
{
    let words = text::words(config);
    let f = |r: Parsed| Prog::<Query, Finding, Parsed>::Return(complete(words, r));
    let all = apply(default_policy(), words);
    lemma_reading_ends(all);
    flow::lemma_locked_bind(
        all,
        f,
        |c: Query, a: Finding| false,
        |c: Query| true,
        |r: Parsed| true,
        |r: Parsed| r is Err,
    );
    flow::lemma_locked_bind(
        parse(config),
        |r: Parsed| Prog::<Query, Finding, Loaded>::Return(accepted(r)),
        |c: Query, a: Finding| false,
        |c: Query| true,
        |r: Parsed| r is Err,
        |l: Loaded| l is None,
    );
}

/// A configuration without settings is refused: the path of the utility is missing.
pub proof fn law_empty_configuration(config: Seq<char>)
    requires
        forall|i: int| 0 <= i < config.len() ==> text::white_space(#[trigger] config[i]),
    ensures
        parse(config) == Reading::<Parsed>::Return(Err(missing_param())),
{
    lemma_no_words(config);
}

proof fn lemma_no_words(s: Seq<char>)
    requires
        forall|i: int| 0 <= i < s.len() ==> text::white_space(#[trigger] s[i]),
    ensures
        text::words(s).len() == 0,
    decreases s.len(),
{
    if s.len() > 0 {
        lemma_no_words(s.skip(1));
    }
}

/// True of a setting with an unknown key.
pub open spec fn unknown(word: Seq<char>) -> bool {
    match text::split_at_char(word, '=') {
        Some((key, _)) => {
            &&& key != "pin_min_length"@
            &&& key != "pin_max_length"@
            &&& key != "pin_lockout_max_attempts"@
            &&& key != "pinutil_path"@
            &&& key != "tcti"@
        },
        None => false,
    }
}

proof fn lemma_apply_without(
    policy: PinPolicy<Seq<char>>,
    before: Seq<Seq<char>>,
    word: Seq<char>,
    after: Seq<Seq<char>>,
)
    requires
        unknown(word),
    ensures
        apply(policy, before + seq![word] + after) == apply(policy, before + after),
    decreases before.len(),
{
    reveal_with_fuel(apply, 2);
    let with = before + seq![word] + after;
    let without = before + after;
    if before.len() == 0 {
        assert(with[0] == word);
        assert(with.skip(1) =~= after);
        assert(without =~= after);
    } else {
        let rest = before.skip(1);
        assert(with[0] == before[0] && without[0] == before[0]);
        assert(with.skip(1) =~= rest + seq![word] + after);
        assert(without.skip(1) =~= rest + after);
        assert forall|p: PinPolicy<Seq<char>>| #[trigger]
            apply(p, with.skip(1)) == apply(p, without.skip(1)) by {
            lemma_apply_without(p, rest, word, after);
        }
        match effect(policy, before[0]) {
            Effect::UtilityPath(path) => {
                let f = apply(policy, with)->Ask_1;
                let g = apply(policy, without)->Ask_1;
                assert forall|a: Finding| #[trigger] f(a) == g(a) by {
                    match path_checked(policy, path, a) {
                        Ok(p) => {
                            assert(apply(p, with.skip(1)) == apply(p, without.skip(1)));
                        },
                        Err(_) => {},
                    }
                }
                assert(f =~= g);
            },
            Effect::Backend(spec) => {
                let f = apply(policy, with)->Ask_1;
                let g = apply(policy, without)->Ask_1;
                assert forall|a: Finding| #[trigger] f(a) == g(a) by {
                    match backend_checked(policy, spec, a) {
                        Ok(p) => {
                            assert(apply(p, with.skip(1)) == apply(p, without.skip(1)));
                        },
                        Err(_) => {},
                    }
                }
                assert(f =~= g);
            },
            Effect::Becomes(p) => {
                assert(apply(p, with.skip(1)) == apply(p, without.skip(1)));
            },
            Effect::Refused(_) => {},
        }
    }
}

/// A setting with an unknown key changes nothing, wherever it stands: the
/// configuration means the same without it.
pub proof fn law_unknown_settings_are_ignored(
    policy: PinPolicy<Seq<char>>,
    before: Seq<Seq<char>>,
    word: Seq<char>,
    after: Seq<Seq<char>>,
)
    requires
        unknown(word),
    ensures
        ({
            let with = before + seq![word] + after;
            let without = before + after;
            finish(policy, with, with) == finish(policy, without, without)
        }),
{
    let with = before + seq![word] + after;
    let without = before + after;
    let n = before.len() as int;
    lemma_apply_without(policy, before, word, after);
    let f = |r: Parsed| Prog::<Query, Finding, Parsed>::Return(complete(with, r));
    let g = |r: Parsed| Prog::<Query, Finding, Parsed>::Return(complete(without, r));
    assert forall|r: Parsed| #[trigger] complete(with, r) == complete(without, r) by {
        if exists|i: int| 0 <= i < without.len() && names_utility(#[trigger] without[i]) {
            let i = choose|i: int| 0 <= i < without.len() && names_utility(#[trigger] without[i]);
            let j = if i < n {
                i
            } else {
                i + 1
            };
            assert(with[j] == without[i]);
        }
        if exists|i: int| 0 <= i < with.len() && names_utility(#[trigger] with[i]) {
            let i = choose|i: int| 0 <= i < with.len() && names_utility(#[trigger] with[i]);
            assert(with[n] == word);
            let j = if i < n {
                i
            } else {
                i - 1
            };
            assert(without[j] == with[i]);
        }
    }
    assert(f =~= g);
}

/// A policy accepts exactly the texts that are not empty and whose length in bytes is
/// between its limits, and otherwise says which limit was missed.
pub proof fn law_policy_judges_the_length(policy: PinPolicy<Seq<char>>, pin: Seq<char>)
    requires
        vstd::utf8::encode_utf8(pin).len() <= usize::MAX,
    ensures
        ({
            let length = vstd::utf8::encode_utf8(pin).len();
            &&& objection(policy, pin) is None <==> pin.len() > 0 && policy.min_length <= length && (
            policy.max_length matches Some(limit) ==> length <= limit)
            &&& match objection(policy, pin) {
                None => true,
                Some(PinError::PinIsEmpty) => pin.len() == 0,
                Some(PinError::PinTooShort { length: l, limit }) => pin.len() > 0 && l == length
                    && limit == policy.min_length && l < limit,
                Some(PinError::PinTooLong { length: l, limit }) => pin.len() > 0 && l == length
                    && policy.max_length == Some(limit) && policy.min_length <= l && l > limit,
                Some(_) => false,
            }
        }),
{
}

/// A regular file of root's that nobody else may write to and nobody may execute is
/// trusted.
pub proof fn law_roots_files_are_trusted(facts: FileFacts)
    requires
        facts.regular,
        facts.uid == 0,
        facts.mode & 0o111 == 0,
        facts.mode & 0o022 == 0,
    ensures
        trusted(facts),
{
    let mode = facts.mode;
    assert(mode & 0o111 == 0 && mode & 0o022 == 0 ==> (mode & 0o777) & 0o133 == 0) by (bit_vector);
}

} // verus!

//! What a configuration means: for each setting the last word on it counts, whatever
//! else is set.
use crate::flow;
use crate::flow::Prog;
use crate::pinerror::PinError;
use crate::pinpolicy;
use crate::pinpolicy::{
    FileFacts, Finding, Loaded, Parsed, PinPolicy, PolicyAnswer, PolicyQuery, Query,
};
use crate::text;
use vstd::prelude::*;

verus! {

/// The value that a word gives to a key.
pub open spec fn value_for(word: Seq<char>, key: Seq<char>) -> Option<Seq<char>> {
    match text::split_at_char(word, '=') {
        Some((k, value)) => if k == key {
            Some(value)
        } else {
            None
        },
        None => None,
    }
}

/// The value that the last of the words on a key gives to it.
pub open spec fn last_value(words: Seq<Seq<char>>, key: Seq<char>) -> Option<Seq<char>>
    decreases words.len(),
{
    if words.len() == 0 {
        None
    } else {
        match value_for(words.last(), key) {
            Some(value) => Some(value),
            None => last_value(words.drop_last(), key),
        }
    }
}

/// The last word on a key counts, whatever comes before and whatever comes after on
/// other keys.
pub proof fn law_last_word(
    before: Seq<Seq<char>>,
    key: Seq<char>,
    value: Seq<char>,
    after: Seq<Seq<char>>,
)
    requires
        !key.contains('='),
        forall|i: int| 0 <= i < after.len() ==> value_for(#[trigger] after[i], key) is None,
    ensures
        last_value(before.push(key + seq!['='] + value) + after, key) == Some(value),
    decreases after.len(),
{
    let words = before.push(key + seq!['='] + value) + after;
    text::law_splitting(key, '=', value);
    if after.len() == 0 {
        assert(words.last() == key + seq!['='] + value);
    } else {
        let fewer = after.drop_last();
        assert forall|i: int| 0 <= i < fewer.len() implies value_for(#[trigger] fewer[i], key)
            is None by {
            assert(fewer[i] == after[i]);
        }
        law_last_word(before, key, value, fewer);
        assert(words.last() == after.last());
        assert(after.last() == after[after.len() - 1]);
        assert(words.drop_last() =~= before.push(key + seq!['='] + value) + fewer);
    }
}

/// The number that a value denotes, or the number that holds without it.
pub open spec fn number_or(value: Option<Seq<char>>, max: nat, otherwise: nat) -> nat {
    match value {
        Some(v) => text::numeral_value(v, max)->0,
        None => otherwise,
    }
}

/// The policy that the words stand for.
pub open spec fn meant(words: Seq<Seq<char>>) -> PinPolicy<Seq<char>> {
    PinPolicy {
        min_length: number_or(
            last_value(words, "pin_min_length"@),
            usize::MAX as nat,
            4,
        ) as usize,
        max_length: Some(
            number_or(last_value(words, "pin_max_length"@), usize::MAX as nat, 8) as usize,
        ),
        max_attempts: number_or(
            last_value(words, "pin_lockout_max_attempts"@),
            u32::MAX as nat,
            3,
        ) as u32,
        pinutil_path: match last_value(words, "pinutil_path"@) {
            Some(path) => path,
            None => "/usr/bin/pinutil"@,
        },
        tcti: last_value(words, "tcti"@),
    }
}

/// True of a word that can be a setting: it gives a value to a key, and the value is
/// of the right sort if the key is known.
pub open spec fn sensible(word: Seq<char>) -> bool {
    &&& word.contains('=')
    &&& value_for(word, "pin_min_length"@) matches Some(v) ==> text::numeral_value(
        v,
        usize::MAX as nat,
    ) is Some
    &&& value_for(word, "pin_max_length"@) matches Some(v) ==> text::numeral_value(
        v,
        usize::MAX as nat,
    ) is Some
    &&& value_for(word, "pin_lockout_max_attempts"@) matches Some(v) ==> text::numeral_value(
        v,
        u32::MAX as nat,
    ) is Some
    &&& value_for(word, "pinutil_path"@) matches Some(v) ==> v.len() > 0 && v[0] == '/'
    &&& value_for(word, "tcti"@) matches Some(v) ==> v.len() > 0
}

/// The error for a value of the wrong sort.
pub open spec fn bad_value() -> PinError<Seq<char>> {
    PinError::TpmError("the provided parameter is invalid for that type."@)
}

/// The error for something that is missing.
pub open spec fn no_value() -> PinError<Seq<char>> {
    PinError::TpmError("some of the required parameters were not provided"@)
}

/// The error for a word that is not sensible.
pub open spec fn refusal(word: Seq<char>) -> PinError<Seq<char>> {
    if word.contains('=') {
        bad_value()
    } else {
        no_value()
    }
}

/// What has to be checked before the words are taken: that each path of the utility is
/// that of a regular file, and that each backend can be interpreted.
pub open spec fn checks(words: Seq<Seq<char>>) -> Seq<Query>
    decreases words.len(),
{
    if words.len() == 0 {
        Seq::empty()
    } else {
        let before = checks(words.drop_last());
        match value_for(words.last(), "pinutil_path"@) {
            Some(path) => before.push(PolicyQuery::RegularFile { path }),
            None => match value_for(words.last(), "tcti"@) {
                Some(spec) => before.push(PolicyQuery::TctiSpec { spec }),
                None => before,
            },
        }
    }
}

/// What is known of the policy file: how it was found, and what it holds.
pub struct PolicyFile {
    pub facts: Option<FileFacts>,
    pub config: Option<Seq<char>>,
}

/// What has come out so far: the checks that were passed, and why one was not.
pub struct Checks {
    pub file: PolicyFile,
    pub passed: Seq<Query>,
    pub trouble: Option<PinError<Seq<char>>>,
}

/// Taking note of a question and its answer.
pub open spec fn check_noted(m: Checks, c: Query, a: Finding) -> Checks {
    match (c, a) {
        (PolicyQuery::Open { .. }, PolicyAnswer::Opened(facts)) => Checks {
            file: PolicyFile { facts, ..m.file },
            ..m
        },
        (PolicyQuery::Contents { .. }, PolicyAnswer::Contents(config)) => Checks {
            file: PolicyFile { config, ..m.file },
            ..m
        },
        (PolicyQuery::RegularFile { .. }, PolicyAnswer::Checked(Ok(_))) => Checks {
            passed: m.passed.push(c),
            ..m
        },
        (PolicyQuery::TctiSpec { .. }, PolicyAnswer::Checked(Ok(_))) => Checks {
            passed: m.passed.push(c),
            ..m
        },
        (PolicyQuery::RegularFile { .. }, _) => Checks {
            trouble: Some(bad_value()),
            ..m
        },
        (PolicyQuery::TctiSpec { .. }, PolicyAnswer::Checked(Err(e))) => Checks {
            trouble: Some(PinError::TpmError(e)),
            ..m
        },
        (PolicyQuery::TctiSpec { .. }, _) => Checks {
            trouble: Some(PinError::TpmError(Seq::empty())),
            ..m
        },
        _ => m,
    }
}

/// The checks are made in the order of the words.
pub open spec fn check_may(words: Seq<Seq<char>>, m: Checks, c: Query) -> bool {
    &&& m.trouble is None
    &&& m.passed.len() < checks(words).len()
    &&& m.passed == checks(words).take(m.passed.len() as int)
    &&& c == checks(words)[m.passed.len() as int]
}

/// What the first `n` words have come to: they are sensible, and their checks were
/// passed.
pub open spec fn taken(words: Seq<Seq<char>>, n: int, m: Checks) -> bool {
    &&& m.trouble is None
    &&& forall|i: int| 0 <= i < n ==> sensible(#[trigger] words[i])
    &&& m.passed == checks(words.take(n))
}

/// Why words are not taken: a check has failed, or the first word that is not sensible
/// was reached.
pub open spec fn not_taken(words: Seq<Seq<char>>, m: Checks, e: PinError<Seq<char>>) -> bool {
    ||| m.trouble == Some(e)
    ||| exists|n: int|
        0 <= n < words.len() && #[trigger] taken(words, n, m) && !sensible(words[n]) && e
            == refusal(words[n])
}

/// What applying the words may come to.
pub open spec fn apply_end(words: Seq<Seq<char>>, m: Checks, r: Parsed) -> bool {
    match r {
        Ok(p) => taken(words, words.len() as int, m) && p == meant(words),
        Err(e) => not_taken(words, m, e),
    }
}

/// What reading a configuration may come to.
pub open spec fn parse_end(words: Seq<Seq<char>>, m: Checks, r: Parsed) -> bool {
    let named = last_value(words, "pinutil_path"@) is Some;
    match r {
        Ok(p) => taken(words, words.len() as int, m) && named && p == meant(words),
        Err(e) => {
            ||| not_taken(words, m, e)
            ||| taken(words, words.len() as int, m) && !named && e == no_value()
        },
    }
}

proof fn lemma_keys()
    ensures
        "pin_min_length"@ != "pin_max_length"@,
        "pin_min_length"@.len() == 14,
        "pin_max_length"@.len() == 14,
        "pin_lockout_max_attempts"@.len() == 24,
        "pinutil_path"@.len() == 12,
        "tcti"@.len() == 4,
{
    reveal_strlit("pin_min_length");
    reveal_strlit("pin_max_length");
    reveal_strlit("pin_lockout_max_attempts");
    reveal_strlit("pinutil_path");
    reveal_strlit("tcti");
    assert("pin_min_length"@[5] == 'i');
    assert("pin_max_length"@[5] == 'a');
}

proof fn lemma_checks_sort(words: Seq<Seq<char>>)
    ensures
        forall|i: int|
            0 <= i < checks(words).len() ==> #[trigger] checks(words)[i] is RegularFile
                || checks(words)[i] is TctiSpec,
    decreases words.len(),
{
    if words.len() > 0 {
        lemma_checks_sort(words.drop_last());
    }
}

proof fn lemma_checks_prefix(words: Seq<Seq<char>>, n: int)
    requires
        0 <= n <= words.len(),
    ensures
        checks(words.take(n)).len() <= checks(words).len(),
        checks(words).take(checks(words.take(n)).len() as int) == checks(words.take(n)),
    decreases words.len(),
{
    if n == words.len() {
        assert(words.take(n) =~= words);
        assert(checks(words).take(checks(words).len() as int) =~= checks(words));
    } else {
        let fewer = words.drop_last();
        assert(fewer.take(n) =~= words.take(n));
        lemma_checks_prefix(fewer, n);
        let k = checks(words.take(n)).len() as int;
        assert(checks(words).take(k) =~= checks(fewer).take(k));
    }
}

/// One more word.
proof fn lemma_one_more(done: Seq<Seq<char>>, word: Seq<char>, key: Seq<char>)
    ensures
        last_value(done.push(word), key) == match value_for(word, key) {
            Some(v) => Some(v),
            None => last_value(done, key),
        },
        checks(done.push(word)) == match value_for(word, "pinutil_path"@) {
            Some(path) => checks(done).push(PolicyQuery::RegularFile { path }),
            None => match value_for(word, "tcti"@) {
                Some(spec) => checks(done).push(PolicyQuery::TctiSpec { spec }),
                None => checks(done),
            },
        },
{
    assert(done.push(word).drop_last() =~= done);
    assert(done.push(word).last() == word);
}

proof fn lemma_contains(word: Seq<char>)
    ensures
        word.contains('=') == (text::split_at_char(word, '=') is Some),
    decreases word.len(),
{
    if word.len() > 0 {
        let tail = word.skip(1);
        lemma_contains(tail);
        if word[0] != '=' {
            if word.contains('=') {
                let i = choose|i: int| 0 <= i < word.len() && word[i] == '=';
                assert(tail[i - 1] == '=');
            }
            if tail.contains('=') {
                let i = choose|i: int| 0 <= i < tail.len() && tail[i] == '=';
                assert(word[i + 1] == '=');
            }
        }
    }
}

proof fn lemma_apply(words: Seq<Seq<char>>, n: int, m: Checks)
    requires
        0 <= n <= words.len(),
        taken(words, n, m),
    ensures
        flow::watched(
            pinpolicy::apply(meant(words.take(n)), words.skip(n)),
            m,
            |m: Checks, c: Query, a: Finding| check_noted(m, c, a),
            |m: Checks, c: Query| check_may(words, m, c),
            |x: Checks, r: Parsed| x.file == m.file && apply_end(words, x, r),
        ),
    decreases words.len() - n,
{
    let note = |m: Checks, c: Query, a: Finding| check_noted(m, c, a);
    let may = |m: Checks, c: Query| check_may(words, m, c);
    let end = |x: Checks, r: Parsed| x.file == m.file && apply_end(words, x, r);
    let done = words.take(n);
    let policy = meant(done);
    let tree = pinpolicy::apply(policy, words.skip(n));
    if n == words.len() {
        assert(done =~= words);
        assert(words.skip(n).len() == 0);
    } else {
        let word = words[n];
        let rest = words.skip(n + 1);
        assert(words.skip(n)[0] == word);
        assert(words.skip(n).skip(1) =~= rest);
        assert(words.take(n + 1) =~= done.push(word));
        lemma_keys();
        lemma_contains(word);
        lemma_one_more(done, word, "pin_min_length"@);
        lemma_one_more(done, word, "pin_max_length"@);
        lemma_one_more(done, word, "pin_lockout_max_attempts"@);
        lemma_one_more(done, word, "pinutil_path"@);
        lemma_one_more(done, word, "tcti"@);
        lemma_checks_prefix(words, n);
        lemma_checks_prefix(words, n + 1);
        let next = meant(words.take(n + 1));
        if !sensible(word) {
            assert(taken(words, n, m));
            assert(tree == Prog::<Query, Finding, Parsed>::Return(Err(refusal(word))));
            assert(end(m, Err(refusal(word))));
        } else if value_for(word, "pinutil_path"@) is Some {
            let path = value_for(word, "pinutil_path"@)->0;
            let c: Query = PolicyQuery::RegularFile { path };
            assert(next == (PinPolicy { pinutil_path: path, ..policy }));
            assert(checks(words)[m.passed.len() as int] == c) by {
                assert(checks(words).take(m.passed.len() as int + 1)[m.passed.len() as int] == c);
            }
            assert(tree is Ask && tree->Ask_0 == c);
            let k = tree->Ask_1;
            assert forall|a: Finding| flow::watched(
                #[trigger] k(a),
                note(m, c, a),
                note,
                may,
                end,
            ) by {
                if a is Checked && a->Checked_0 is Ok {
                    assert(taken(words, n + 1, note(m, c, a)));
                    lemma_apply(words, n + 1, note(m, c, a));
                    assert(k(a) == pinpolicy::apply(next, rest));
                } else {
                    let e = note(m, c, a).trouble->0;
                    assert(k(a) == Prog::<Query, Finding, Parsed>::Return(Err(e)));
                    assert(end(note(m, c, a), Err(e)));
                }
            }
        } else if value_for(word, "tcti"@) is Some {
            let spec = value_for(word, "tcti"@)->0;
            let c: Query = PolicyQuery::TctiSpec { spec };
            assert(next == (PinPolicy { tcti: Some(spec), ..policy }));
            assert(checks(words)[m.passed.len() as int] == c) by {
                assert(checks(words).take(m.passed.len() as int + 1)[m.passed.len() as int] == c);
            }
            assert(tree is Ask && tree->Ask_0 == c);
            let k = tree->Ask_1;
            assert forall|a: Finding| flow::watched(
                #[trigger] k(a),
                note(m, c, a),
                note,
                may,
                end,
            ) by {
                if a is Checked && a->Checked_0 is Ok {
                    assert(taken(words, n + 1, note(m, c, a)));
                    lemma_apply(words, n + 1, note(m, c, a));
                    assert(k(a) == pinpolicy::apply(next, rest));
                } else {
                    let e = note(m, c, a).trouble->0;
                    assert(k(a) == Prog::<Query, Finding, Parsed>::Return(Err(e)));
                    assert(end(note(m, c, a), Err(e)));
                }
            }
        } else {
            assert(tree == pinpolicy::apply(next, rest));
            assert(taken(words, n + 1, m));
            lemma_apply(words, n + 1, m);
        }
    }
}

/// A configuration is accepted exactly when every word is sensible, every path and
/// backend has passed its check and the path of the utility is given. Each part of the
/// policy is then what the last word on it says, or the default if there is none. A
/// configuration that is not accepted is refused because of the first word that stands
/// in the way, or because the path is missing.
pub proof fn law_configuration(config: Seq<char>, file: PolicyFile)
    ensures
        flow::watched(
            pinpolicy::parse(config),
            (Checks { file, passed: Seq::empty(), trouble: None }),
            |m: Checks, c: Query, a: Finding| check_noted(m, c, a),
            |m: Checks, c: Query| check_may(text::words(config), m, c),
            |m: Checks, r: Parsed| m.file == file && parse_end(text::words(config), m, r),
        ),
{
    let words = text::words(config);
    let m = Checks { file, passed: Seq::empty(), trouble: None };
    let note = |m: Checks, c: Query, a: Finding| check_noted(m, c, a);
    let may = |m: Checks, c: Query| check_may(words, m, c);
    let mid = |x: Checks, r: Parsed| x.file == m.file && apply_end(words, x, r);
    let end = |m: Checks, r: Parsed| m.file == file && parse_end(words, m, r);
    let f = |r: Parsed| Prog::<Query, Finding, Parsed>::Return(pinpolicy::complete(words, r));
    assert(words.take(0) =~= Seq::empty());
    assert(words.skip(0) =~= words);
    assert(meant(words.take(0)) == pinpolicy::default_policy());
    assert(checks(words.take(0)) =~= Seq::empty());
    lemma_apply(words, 0, m);
    lemma_named(words);
    flow::lemma_watched_bind(
        pinpolicy::apply(pinpolicy::default_policy(), words),
        f,
        m,
        note,
        may,
        mid,
        end,
    );
}

/// True of a file that was found, is a regular file of root's, can be written by nobody
/// else and is not executable.
pub open spec fn safe(file: PolicyFile) -> bool {
    file.facts matches Some(facts) && facts.regular && facts.uid == 0 && facts.mode & 0o133 == 0
}

/// When the loading of a policy file may ask.
pub open spec fn load_may(path: Seq<char>, m: Checks, c: Query) -> bool {
    match c {
        PolicyQuery::Open { path: p } => p == path && m.file.facts is None,
        PolicyQuery::Contents { path: p } => p == path && safe(m.file) && m.file.config is None,
        _ => safe(m.file) && (m.file.config matches Some(config) && check_may(
            text::words(config),
            m,
            c,
        )),
    }
}

/// What the loading of a policy file may come to: the policy that its text stands for,
/// or none if the file is not safe, cannot be read or is refused.
pub open spec fn load_end(m: Checks, l: Loaded) -> bool {
    if safe(m.file) && m.file.config is Some {
        let words = text::words(m.file.config->0);
        match l {
            Some(p) => parse_end(words, m, Ok(p)),
            None => exists|e: PinError<Seq<char>>| #[trigger] parse_end(words, m, Err(e)),
        }
    } else {
        l is None
    }
}

/// Nothing is known yet.
pub open spec fn unknown_file() -> Checks {
    Checks {
        file: PolicyFile { facts: None, config: None },
        passed: Seq::empty(),
        trouble: None,
    }
}

/// Loading a policy asks for the file at the given path and reads it only if it is
/// safe. A policy comes of it exactly when the text of that file is an acceptable
/// configuration, and it is the policy that the text stands for.
pub proof fn law_policy_file(path: Seq<char>)
    ensures
        flow::watched(
            pinpolicy::load(path),
            unknown_file(),
            |m: Checks, c: Query, a: Finding| check_noted(m, c, a),
            |m: Checks, c: Query| load_may(path, m, c),
            |m: Checks, l: Loaded| load_end(m, l),
        ),
{
    let note = |m: Checks, c: Query, a: Finding| check_noted(m, c, a);
    let may = |m: Checks, c: Query| load_may(path, m, c);
    let end = |m: Checks, l: Loaded| load_end(m, l);
    let m = unknown_file();
    assert forall|mode: u32| #[trigger] (mode & 0o133) == ((mode & 0o777) & 0o133) by {
        assert(mode & 0o133 == ((mode & 0o777) & 0o133)) by (bit_vector);
    }
    let opened = |a: Finding| pinpolicy::load_opened(path, a);
    let open: Query = PolicyQuery::Open { path };
    assert forall|a: Finding| flow::watched(#[trigger] opened(a), note(m, open, a), note, may, end) by {
        let n = note(m, open, a);
        if opened(a) is Ask {
            assert(safe(n.file));
            let read = |b: Finding| pinpolicy::load_read(b);
            let c: Query = PolicyQuery::Contents { path };
            assert forall|b: Finding| flow::watched(
                #[trigger] read(b),
                note(n, c, b),
                note,
                may,
                end,
            ) by {
                let x = note(n, c, b);
                if b is Contents && b->Contents_0 is Some {
                    let config = b->Contents_0->0;
                    let words = text::words(config);
                    let inner = |m: Checks, c: Query| check_may(words, m, c);
                    let parsed = |y: Checks, r: Parsed| y.file == x.file && parse_end(words, y, r);
                    law_configuration(config, x.file);
                    lemma_checks_sort(words);
                    flow::lemma_watched_keeping(
                        pinpolicy::parse(config),
                        x,
                        note,
                        inner,
                        parsed,
                        |y: Checks| y.file == x.file,
                        may,
                        parsed,
                    );
                    let f = |r: Parsed|
                        Prog::<Query, Finding, Loaded>::Return(pinpolicy::accepted(r));
                    assert forall|y: Checks, r: Parsed| #[trigger] parsed(y, r) implies flow::watched(
                        f(r),
                        y,
                        note,
                        may,
                        end,
                    ) by {
                        assert(parse_end(words, y, r));
                        match r {
                            Ok(p) => {},
                            Err(e) => {
                                assert(parse_end(words, y, Err(e)));
                            },
                        }
                    }
                    flow::lemma_watched_bind(
                        pinpolicy::parse(config),
                        f,
                        x,
                        note,
                        may,
                        parsed,
                        end,
                    );
                }
            }
        }
    }
}

/// Without a policy at the standard location the defaults hold, and with one, that.
pub proof fn law_standard_location()
    ensures
        flow::watched(
            pinpolicy::load_standard(),
            unknown_file(),
            |m: Checks, c: Query, a: Finding| check_noted(m, c, a),
            |m: Checks, c: Query| load_may("/etc/pinpam/policy"@, m, c),
            |m: Checks, p: PinPolicy<Seq<char>>|
                load_end(m, Some(p)) || (load_end(m, None) && p == meant(Seq::empty())),
        ),
{
    let path = "/etc/pinpam/policy"@;
    let note = |m: Checks, c: Query, a: Finding| check_noted(m, c, a);
    let may = |m: Checks, c: Query| load_may(path, m, c);
    let mid = |m: Checks, l: Loaded| load_end(m, l);
    let end = |m: Checks, p: PinPolicy<Seq<char>>|
        load_end(m, Some(p)) || (load_end(m, None) && p == meant(Seq::empty()));
    let f = |l: Loaded|
        Prog::<Query, Finding, PinPolicy<Seq<char>>>::Return(pinpolicy::or_default(l));
    law_policy_file(path);
    flow::lemma_watched_bind(pinpolicy::load(path), f, unknown_file(), note, may, mid, end);
}

proof fn lemma_named(words: Seq<Seq<char>>)
    ensures
        (last_value(words, "pinutil_path"@) is Some) == (exists|i: int|
            0 <= i < words.len() && pinpolicy::names_utility(#[trigger] words[i])),
    decreases words.len(),
{
    if words.len() > 0 {
        let fewer = words.drop_last();
        lemma_named(fewer);
        if pinpolicy::names_utility(words.last()) {
            assert(pinpolicy::names_utility(words[words.len() - 1]));
        }
        if exists|i: int| 0 <= i < fewer.len() && pinpolicy::names_utility(#[trigger] fewer[i]) {
            let i = choose|i: int|
                0 <= i < fewer.len() && pinpolicy::names_utility(#[trigger] fewer[i]);
            assert(pinpolicy::names_utility(words[i]));
        }
        if exists|i: int| 0 <= i < words.len() && pinpolicy::names_utility(#[trigger] words[i]) {
            let i = choose|i: int|
                0 <= i < words.len() && pinpolicy::names_utility(#[trigger] words[i]);
            if i < fewer.len() {
                assert(pinpolicy::names_utility(fewer[i]));
            }
        }
    }
}

/// The backend that a policy selects is the one that the last word on it names, or the
/// kernel's resource manager.
pub proof fn law_backend(policy: PinPolicy<Seq<char>>)
    ensures
        policy.tcti is None ==> pinpolicy::backend(policy) == "device:/dev/tpmrm0"@,
        policy.tcti matches Some(spec) ==> pinpolicy::backend(policy) == spec,
{
}

/// Whatever the other settings are and whatever is answered, a configuration that is
/// accepted gives the policy that the last word on each key asks for: the lengths and the
/// limit are the numbers that the values denote, and the path and the backend are the
/// values themselves.
pub proof fn law_last_setting_counts(
    config: Seq<char>,
    before: Seq<Seq<char>>,
    key: Seq<char>,
    value: Seq<char>,
    after: Seq<Seq<char>>,
    file: PolicyFile,
)
    requires
        text::words(config) == before.push(key + seq!['='] + value) + after,
        !key.contains('='),
        forall|i: int| 0 <= i < after.len() ==> value_for(#[trigger] after[i], key) is None,
    ensures
        flow::watched(
            pinpolicy::parse(config),
            (Checks { file, passed: Seq::empty(), trouble: None }),
            |m: Checks, c: Query, a: Finding| check_noted(m, c, a),
            |m: Checks, c: Query| true,
            |m: Checks, r: Parsed| r matches Ok(p) ==> asked_for(p, key, value),
        ),
{
    let words = text::words(config);
    let note = |m: Checks, c: Query, a: Finding| check_noted(m, c, a);
    law_configuration(config, file);
    law_last_word(before, key, value, after);
    lemma_keys();
    assert(words[before.len() as int] == key + seq!['='] + value);
    text::law_splitting(key, '=', value);
    flow::lemma_watched_keeping(
        pinpolicy::parse(config),
        Checks { file, passed: Seq::empty(), trouble: None },
        note,
        |m: Checks, c: Query| check_may(words, m, c),
        |m: Checks, r: Parsed| m.file == file && parse_end(words, m, r),
        |m: Checks| true,
        |m: Checks, c: Query| true,
        |m: Checks, r: Parsed| r matches Ok(p) ==> asked_for(p, key, value),
    );
}

/// The policy has what the value of the key asks for.
pub open spec fn asked_for(p: PinPolicy<Seq<char>>, key: Seq<char>, value: Seq<char>) -> bool {
    &&& key == "pin_min_length"@ ==> text::numeral_value(value, usize::MAX as nat) == Some(
        p.min_length as nat,
    )
    &&& key == "pin_max_length"@ ==> p.max_length is Some && text::numeral_value(
        value,
        usize::MAX as nat,
    ) == Some(p.max_length->0 as nat)
    &&& key == "pin_lockout_max_attempts"@ ==> text::numeral_value(value, u32::MAX as nat) == Some(
        p.max_attempts as nat,
    )
    &&& key == "pinutil_path"@ ==> p.pinutil_path == value
    &&& key == "tcti"@ ==> p.tcti == Some(value)
}

} // verus!

//! Text handling shared by the configuration reader, the PIN type and the
//! command-line dialogues.
//!
//! Every function works on the characters of its argument (its view), so the
//! specifications below are plain functions over sequences of characters.
use vstd::prelude::*;

verus! {

/// The characters with the Unicode `White_Space` property.
pub open spec fn white_space(c: char) -> bool {
    let u = c as u32;
    ||| 0x09 <= u <= 0x0D
    ||| u == 0x20
    ||| u == 0x85
    ||| u == 0xA0
    ||| u == 0x1680
    ||| 0x2000 <= u <= 0x200A
    ||| u == 0x2028
    ||| u == 0x2029
    ||| u == 0x202F
    ||| u == 0x205F
    ||| u == 0x3000
}

/// `char::is_whitespace` tests for the Unicode `White_Space` property, which
/// holds of exactly the characters that `white_space` lists.
pub assume_specification[ char::is_whitespace ](c: char) -> (b: bool)
    ensures
        b == white_space(c),
;

/// `s` without the white space at its start.
pub open spec fn trimmed_start(s: Seq<char>) -> Seq<char>
    decreases s.len(),
{
    if s.len() > 0 && white_space(s[0]) {
        trimmed_start(s.skip(1))
    } else {
        s
    }
}

/// `s` without the white space at its end.
pub open spec fn trimmed_end(s: Seq<char>) -> Seq<char>
    decreases s.len(),
{
    if s.len() > 0 && white_space(s.last()) {
        trimmed_end(s.drop_last())
    } else {
        s
    }
}

/// `s` without the white space around it.
pub open spec fn trimmed(s: Seq<char>) -> Seq<char> {
    trimmed_end(trimmed_start(s))
}

/// True of a decimal digit of ASCII.
pub open spec fn ascii_digit(c: char) -> bool {
    '0' <= c <= '9'
}

/// True if every character is a decimal digit of ASCII.
pub open spec fn all_digits(s: Seq<char>) -> bool {
    forall|i: int| 0 <= i < s.len() ==> ascii_digit(#[trigger] s[i])
}

/// The position of the first white space in `s`, or the length of `s`.
pub open spec fn word_length(s: Seq<char>) -> nat
    decreases s.len(),
{
    if s.len() == 0 || white_space(s[0]) {
        0
    } else {
        1 + word_length(s.skip(1))
    }
}

pub proof fn lemma_word_length(s: Seq<char>)
    ensures
        word_length(s) <= s.len(),
        s.len() > 0 && !white_space(s[0]) ==> word_length(s) > 0,
    decreases s.len(),
{
    if s.len() > 0 && !white_space(s[0]) {
        lemma_word_length(s.skip(1));
    }
}

/// The maximal runs of non-white-space characters of `s`, in order.
pub open spec fn words(s: Seq<char>) -> Seq<Seq<char>>
    decreases s.len(),
    via words_decreases
{
    if s.len() == 0 {
        Seq::empty()
    } else if white_space(s[0]) {
        words(s.skip(1))
    } else {
        let n = word_length(s) as int;
        seq![s.take(n)] + words(s.skip(n))
    }
}

#[via_fn]
proof fn words_decreases(s: Seq<char>) {
    lemma_word_length(s);
}

/// The position of the first `c` in `s`, or the length of `s`.
pub open spec fn first_position(s: Seq<char>, c: char) -> nat
    decreases s.len(),
{
    if s.len() == 0 || s[0] == c {
        0
    } else {
        1 + first_position(s.skip(1), c)
    }
}

/// The value of a sequence of decimal digits, most significant first.
pub open spec fn digits_value(s: Seq<char>) -> nat
    decreases s.len(),
{
    if s.len() == 0 {
        0
    } else {
        10 * digits_value(s.drop_last()) + (s.last() as u32 - '0' as u32) as nat
    }
}

/// What a numeral denotes: an optional `+`, then at least one digit, then
/// nothing else, with a value of at most `max`.
pub open spec fn numeral_value(s: Seq<char>, max: nat) -> Option<nat> {
    let digits = if s.len() > 0 && s[0] == '+' {
        s.skip(1)
    } else {
        s
    };
    if digits.len() > 0 && all_digits(digits) && digits_value(digits) <= max {
        Some(digits_value(digits))
    } else {
        None
    }
}

/// The digit of value `d`.
pub open spec fn digit_char(d: nat) -> char {
    ('0' as u32 + d) as char
}

/// The decimal numeral of `n`, without leading zeros.
pub open spec fn numeral(n: nat) -> Seq<char>
    decreases n,
{
    if n < 10 {
        seq![digit_char(n)]
    } else {
        numeral(n / 10).push(digit_char(n % 10))
    }
}

/// The characters of `s`.
pub fn chars_of(s: &str) -> (r: Vec<char>)
    ensures
        r@ == s@,
{
    let mut out: Vec<char> = Vec::new();
    for c in it: s.chars()
        invariant
            it.seq() == s@,
            out@ == s@.take(it.index()),
    {
        out.push(c);
    }
    out
}

/// True if the two strings hold the same characters.
pub fn same_text(a: &str, b: &str) -> (r: bool)
    ensures
        r == (a@ == b@),
{
    let x = chars_of(a);
    let y = chars_of(b);
    if x.len() != y.len() {
        return false;
    }
    for i in 0..x.len()
        invariant
            x@ == a@,
            y@ == b@,
            x@.len() == y@.len(),
            forall|j: int| 0 <= j < i ==> x@[j] == y@[j],
    {
        if x[i] != y[i] {
            return false;
        }
    }
    assert(x@ =~= y@);
    true
}

proof fn lemma_trimmed_start_skip(s: Seq<char>, n: int)
    requires
        0 <= n <= s.len(),
        forall|i: int| 0 <= i < n ==> white_space(s[i]),
    ensures
        trimmed_start(s) == trimmed_start(s.skip(n)),
    decreases n,
{
    if n > 0 {
        lemma_trimmed_start_skip(s.skip(1), n - 1);
        assert(s.skip(1).skip(n - 1) =~= s.skip(n));
    } else {
        assert(s.skip(0) =~= s);
    }
}

proof fn lemma_trimmed_end_take(s: Seq<char>, n: int)
    requires
        0 <= n <= s.len(),
        forall|i: int| n <= i < s.len() ==> white_space(s[i]),
    ensures
        trimmed_end(s) == trimmed_end(s.take(n)),
    decreases s.len() - n,
{
    if n < s.len() {
        lemma_trimmed_end_take(s.drop_last(), n);
        assert(s.drop_last().take(n) =~= s.take(n));
    } else {
        assert(s.take(n) =~= s);
    }
}

/// The part of `s` without the white space around it.
pub fn trim(s: &str) -> (r: &str)
    ensures
        r@ == trimmed(s@),
{
    let chars = chars_of(s);
    let mut start: usize = 0;
    while start < chars.len() && chars[start].is_whitespace()
        invariant
            chars@ == s@,
            start <= chars@.len(),
            forall|i: int| 0 <= i < start ==> white_space(chars@[i]),
        decreases chars@.len() - start,
    {
        start = start + 1;
    }
    let mut end: usize = chars.len();
    while end > start && chars[end - 1].is_whitespace()
        invariant
            chars@ == s@,
            start <= end <= chars@.len(),
            forall|i: int| end <= i < chars@.len() ==> white_space(chars@[i]),
        decreases end,
    {
        end = end - 1;
    }
    proof {
        lemma_trimmed_start_skip(s@, start as int);
        let tail = s@.skip(start as int);
        assert(trimmed_start(s@) == tail);
        lemma_trimmed_end_take(tail, end - start);
        assert(tail.take(end - start) =~= s@.subrange(start as int, end as int));
    }
    s.substring_char(start, end)
}

/// True if `s` consists of decimal digits of ASCII.
pub fn is_all_digits(s: &str) -> (r: bool)
    ensures
        r == all_digits(s@),
{
    let chars = chars_of(s);
    for i in 0..chars.len()
        invariant
            chars@ == s@,
            forall|j: int| 0 <= j < i ==> ascii_digit(chars@[j]),
    {
        if chars[i] < '0' || chars[i] > '9' {
            return false;
        }
    }
    true
}

/// True if `c` occurs in `s`.
pub fn contains_char(s: &str, c: char) -> (r: bool)
    ensures
        r == s@.contains(c),
{
    let chars = chars_of(s);
    for i in 0..chars.len()
        invariant
            chars@ == s@,
            forall|j: int| 0 <= j < i ==> chars@[j] != c,
    {
        if chars[i] == c {
            assert(s@[i as int] == c);
            return true;
        }
    }
    false
}

proof fn lemma_word_length_is(s: Seq<char>, n: int)
    requires
        0 <= n <= s.len(),
        forall|i: int| 0 <= i < n ==> !white_space(s[i]),
        n < s.len() ==> white_space(s[n]),
    ensures
        word_length(s) == n,
    decreases n,
{
    if n > 0 {
        lemma_word_length_is(s.skip(1), n - 1);
    }
}

/// The views of a list of strings.
pub open spec fn views(v: Seq<String>) -> Seq<Seq<char>> {
    v.map_values(|s: String| s@)
}

/// Splits `s` at its white space.
pub fn split_words(s: &str) -> (r: Vec<String>)
    ensures
        views(r@) == words(s@),
{
    let chars = chars_of(s);
    let mut out: Vec<String> = Vec::new();
    let mut i: usize = 0;
    assert(s@.skip(0) =~= s@);
    assert(views(out@) + words(s@.skip(0)) =~= words(s@));
    while i < chars.len()
        invariant
            chars@ == s@,
            i <= chars@.len(),
            views(out@) + words(s@.skip(i as int)) == words(s@),
        decreases chars@.len() - i,
    {
        let ghost rest = s@.skip(i as int);
        if chars[i].is_whitespace() {
            assert(rest.skip(1) =~= s@.skip(i + 1));
            i = i + 1;
        } else {
            let mut j: usize = i;
            while j < chars.len() && !chars[j].is_whitespace()
                invariant
                    chars@ == s@,
                    i <= j <= chars@.len(),
                    forall|k: int| i <= k < j ==> !white_space(chars@[k]),
                decreases chars@.len() - j,
            {
                j = j + 1;
            }
            let word = s.substring_char(i, j).to_owned();
            let ghost before = views(out@);
            out.push(word);
            proof {
                lemma_word_length_is(rest, j - i);
                assert(rest.take(j - i) =~= s@.subrange(i as int, j as int));
                assert(rest.skip(j - i) =~= s@.skip(j as int));
                assert(views(out@) =~= before.push(word@));
                assert(before.push(word@) + words(s@.skip(j as int)) =~= before + (seq![word@]
                    + words(s@.skip(j as int))));
            }
            i = j;
        }
    }
    assert(words(s@.skip(i as int)) =~= Seq::<Seq<char>>::empty());
    assert(views(out@) + Seq::<Seq<char>>::empty() =~= views(out@));
    out
}

proof fn lemma_first_position_is(s: Seq<char>, c: char, n: int)
    requires
        0 <= n <= s.len(),
        forall|i: int| 0 <= i < n ==> s[i] != c,
        n < s.len() ==> s[n] == c,
    ensures
        first_position(s, c) == n,
    decreases n,
{
    if n > 0 {
        lemma_first_position_is(s.skip(1), c, n - 1);
    }
}

/// The parts of `s` before and after the first `c`, if there is one.
pub open spec fn split_at_char(s: Seq<char>, c: char) -> Option<(Seq<char>, Seq<char>)> {
    let n = first_position(s, c) as int;
    if n < s.len() {
        Some((s.take(n), s.skip(n + 1)))
    } else {
        None
    }
}

/// Splits `s` at the first `c`.
pub fn split_once(s: &str, c: char) -> (r: Option<(String, String)>)
    ensures
        match r {
            Some((key, value)) => split_at_char(s@, c) == Some((key@, value@)),
            None => split_at_char(s@, c) is None,
        },
{
    let chars = chars_of(s);
    let mut n: usize = 0;
    while n < chars.len() && chars[n] != c
        invariant
            chars@ == s@,
            n <= chars@.len(),
            forall|i: int| 0 <= i < n ==> chars@[i] != c,
        decreases chars@.len() - n,
    {
        n = n + 1;
    }
    proof {
        lemma_first_position_is(s@, c, n as int);
    }
    if n < chars.len() {
        let key = s.substring_char(0, n).to_owned();
        let value = s.substring_char(n + 1, chars.len()).to_owned();
        assert(key@ =~= s@.take(n as int));
        assert(value@ =~= s@.skip(n + 1));
        Some((key, value))
    } else {
        None
    }
}

proof fn lemma_digits_value_grows(s: Seq<char>, n: int)
    requires
        0 <= n <= s.len(),
        all_digits(s),
    ensures
        digits_value(s.take(n)) <= digits_value(s),
    decreases s.len() - n,
{
    if n < s.len() {
        lemma_digits_value_grows(s.drop_last(), n);
        assert(s.drop_last().take(n) =~= s.take(n));
    } else {
        assert(s.take(n) =~= s);
    }
}

/// Reads a numeral of a value of at most `max`.
pub fn parse_numeral(s: &str, max: u64) -> (r: Option<u64>)
    ensures
        match r {
            Some(v) => numeral_value(s@, max as nat) == Some(v as nat),
            None => numeral_value(s@, max as nat) is None,
        },
{
    let chars = chars_of(s);
    let start: usize = if chars.len() > 0 && chars[0] == '+' {
        1
    } else {
        0
    };
    let ghost digits = s@.skip(start as int);
    assert(s@.skip(0) =~= s@);
    if start == chars.len() {
        return None;
    }
    let mut value: u64 = 0;
    for i in start..chars.len()
        invariant
            chars@ == s@,
            start <= chars@.len(),
            digits == s@.skip(start as int),
            forall|j: int| start <= j < i ==> ascii_digit(chars@[j]),
            value == digits_value(digits.take(i - start)),
            value <= max,
            digits.len() > 0,
            numeral_value(s@, max as nat) == (if all_digits(digits) && digits_value(digits) <= max {
                Some(digits_value(digits))
            } else {
                None
            }),
    {
        let c = chars[i];
        assert(digits[i - start] == c);
        if c < '0' || c > '9' {
            return None;
        }
        let d: u64 = (c as u32 - '0' as u32) as u64;
        let ghost longer = digits.take(i - start + 1);
        assert(longer.drop_last() =~= digits.take(i - start));
        assert(digits_value(longer) == 10 * value + d);
        if d > max || value > (max - d) / 10 {
            proof {
                if all_digits(digits) {
                    lemma_digits_value_grows(digits, i - start + 1);
                }
            }
            return None;
        }
        value = value * 10 + d;
    }
    proof {
        assert(digits.take(digits.len() as int) =~= digits);
        assert forall|j: int| 0 <= j < digits.len() implies ascii_digit(#[trigger] digits[j]) by {
            assert(digits[j] == chars@[j + start]);
        }
    }
    Some(value)
}

/// The one-character string of the digit `d`.
fn digit_text(d: u64) -> (r: &'static str)
    requires
        d < 10,
    ensures
        r@ == seq![digit_char(d as nat)],
{
    proof {
        reveal_strlit("0");
        reveal_strlit("1");
        reveal_strlit("2");
        reveal_strlit("3");
        reveal_strlit("4");
        reveal_strlit("5");
        reveal_strlit("6");
        reveal_strlit("7");
        reveal_strlit("8");
        reveal_strlit("9");
    }
    let r = match d {
        0 => "0",
        1 => "1",
        2 => "2",
        3 => "3",
        4 => "4",
        5 => "5",
        6 => "6",
        7 => "7",
        8 => "8",
        _ => "9",
    };
    assert(r@ =~= seq![digit_char(d as nat)]);
    r
}

/// Writes `n` as a decimal numeral.
pub fn numeral_text(n: u64) -> (r: String)
    ensures
        r@ == numeral(n as nat),
    decreases n,
{
    if n < 10 {
        digit_text(n).to_owned()
    } else {
        let mut r = numeral_text(n / 10);
        r.append(digit_text(n % 10));
        assert(r@ =~= numeral((n / 10) as nat).push(digit_char((n % 10) as nat)));
        r
    }
}

/// Joins two texts.
pub fn joined(a: &str, b: &str) -> (r: String)
    ensures
        r@ == a@ + b@,
{
    let mut r = a.to_owned();
    r.append(b);
    r
}

proof fn lemma_trimmed_end_keeps_start(s: Seq<char>)
    requires
        s.len() > 0,
        !white_space(s[0]),
    ensures
        trimmed_end(s).len() > 0,
        trimmed_end(s)[0] == s[0],
        !white_space(trimmed_end(s).last()),
    decreases s.len(),
{
    if white_space(s.last()) {
        lemma_trimmed_end_keeps_start(s.drop_last());
    }
}

proof fn lemma_trimmed_start(s: Seq<char>)
    ensures
        trimmed_start(s).len() > 0 ==> !white_space(trimmed_start(s)[0]),
    decreases s.len(),
{
    if s.len() > 0 && white_space(s[0]) {
        lemma_trimmed_start(s.skip(1));
    }
}

/// Trimming what has been trimmed changes nothing.
pub proof fn law_trimming_is_stable(s: Seq<char>)
    ensures
        trimmed(trimmed(s)) == trimmed(s),
        trimmed(s).len() > 0 ==> !white_space(trimmed(s)[0]) && !white_space(trimmed(s).last()),
{
    lemma_trimmed_start(s);
    let t = trimmed_start(s);
    if t.len() > 0 {
        lemma_trimmed_end_keeps_start(t);
    }
}

/// True if every character is white space.
pub open spec fn blank(s: Seq<char>) -> bool {
    forall|i: int| 0 <= i < s.len() ==> white_space(#[trigger] s[i])
}

/// True if no character is white space.
pub open spec fn solid(s: Seq<char>) -> bool {
    forall|i: int| 0 <= i < s.len() ==> !white_space(#[trigger] s[i])
}

/// Trimming takes away all the white space around a text and nothing else: whatever
/// stands between white space and neither starts nor ends with any is left as it is.
pub proof fn law_trimming(before: Seq<char>, core: Seq<char>, after: Seq<char>)
    requires
        blank(before),
        blank(after),
        core.len() > 0 ==> !white_space(core[0]) && !white_space(core.last()),
    ensures
        trimmed(before + core + after) == core,
{
    let s = before + core + after;
    let n = before.len() as int;
    assert forall|i: int| 0 <= i < n implies white_space(s[i]) by {
        assert(s[i] == before[i]);
    }
    lemma_trimmed_start_skip(s, n);
    let tail = s.skip(n);
    assert(tail =~= core + after);
    if core.len() == 0 {
        assert(tail =~= after);
        lemma_trimmed_start_skip(after, after.len() as int);
        assert(after.skip(after.len() as int).len() == 0);
        assert(trimmed_start(s) =~= core);
    } else {
        assert(tail[0] == core[0]);
        assert(trimmed_start(s) == tail);
        assert forall|i: int| core.len() <= i < tail.len() implies white_space(tail[i]) by {
            assert(tail[i] == after[i - core.len()]);
        }
        lemma_trimmed_end_take(tail, core.len() as int);
        assert(tail.take(core.len() as int) =~= core);
    }
}

/// Words are what stands between white space: white space before them does not
/// matter, and a word ends where white space or the text does.
pub proof fn law_words(w: Seq<char>, space: char, s: Seq<char>)
    requires
        white_space(space),
    ensures
        words(Seq::empty()).len() == 0,
        words(seq![space] + s) == words(s),
        w.len() > 0 && solid(w) ==> words(w) == seq![w],
        w.len() > 0 && solid(w) ==> words(w + seq![space] + s) == seq![w] + words(s),
{
    reveal_with_fuel(words, 3);
    let t = seq![space] + s;
    assert(t.skip(1) =~= s);
    if w.len() > 0 && solid(w) {
        let n = w.len() as int;
        lemma_word_length_is(w, n);
        assert(w.take(n) =~= w);
        assert(w.skip(n) =~= Seq::empty());
        assert(words(w) =~= seq![w]);
        let u = w + seq![space] + s;
        assert forall|i: int| 0 <= i < n implies !white_space(u[i]) by {
            assert(u[i] == w[i]);
        }
        assert(u[n] == space);
        lemma_word_length_is(u, n);
        assert(u.take(n) =~= w);
        assert(u.skip(n) =~= t);
        assert(u[0] == w[0]);
    }
}

/// A text is split at the first occurrence of the character, and what stands before
/// and after it is kept as it is; a text without it is not split.
pub proof fn law_splitting(key: Seq<char>, c: char, value: Seq<char>)
    requires
        !key.contains(c),
    ensures
        split_at_char(key + seq![c] + value, c) == Some((key, value)),
        split_at_char(key, c) is None,
{
    let s = key + seq![c] + value;
    let n = key.len() as int;
    assert forall|i: int| 0 <= i < n implies s[i] != c by {
        assert(s[i] == key[i]);
        assert(key.contains(key[i]));
    }
    lemma_first_position_is(s, c, n);
    assert(s.take(n) =~= key);
    assert(s.skip(n + 1) =~= value);
    assert forall|i: int| 0 <= i < n implies key[i] != c by {
        assert(key.contains(key[i]));
    }
    lemma_first_position_is(key, c, n);
}

proof fn lemma_numeral(n: nat)
    ensures
        numeral(n).len() > 0,
        all_digits(numeral(n)),
        digits_value(numeral(n)) == n,
        numeral(n)[0] != '+',
        n > 0 ==> numeral(n)[0] != '0',
    decreases n,
{
    reveal_with_fuel(digits_value, 2);
    if n < 10 {
        let s = numeral(n);
        assert(s.drop_last().len() == 0);
        assert(s.last() == digit_char(n));
    } else {
        lemma_numeral(n / 10);
        let s = numeral(n);
        assert(s.drop_last() =~= numeral(n / 10));
        assert(s.last() == digit_char(n % 10));
        assert(s[0] == numeral(n / 10)[0]);
        assert forall|i: int| 0 <= i < s.len() implies ascii_digit(#[trigger] s[i]) by {
            if i < s.len() - 1 {
                assert(s[i] == numeral(n / 10)[i]);
            }
        }
    }
}

/// Reading the numeral of a number gives the number, if it is not too large, with or
/// without a plus sign.
pub proof fn law_numerals_are_read(n: nat, max: nat)
    ensures
        numeral_value(numeral(n), max) == (if n <= max {
            Some(n)
        } else {
            None::<nat>
        }),
        numeral_value(seq!['+'] + numeral(n), max) == numeral_value(numeral(n), max),
{
    lemma_numeral(n);
    let s = seq!['+'] + numeral(n);
    assert(s.skip(1) =~= numeral(n));
}

proof fn lemma_leading_zero(s: Seq<char>)
    ensures
        digits_value(seq!['0'] + s) == digits_value(s),
    decreases s.len(),
{
    let t = seq!['0'] + s;
    if s.len() == 0 {
        reveal_with_fuel(digits_value, 2);
        assert(t.drop_last().len() == 0);
    } else {
        assert(t.drop_last() =~= seq!['0'] + s.drop_last());
        assert(t.last() == s.last());
        lemma_leading_zero(s.drop_last());
    }
}

/// Leading zeros do not change what a numeral denotes, and a text with anything but
/// digits in it denotes nothing.
pub proof fn law_numerals_are_decimal(s: Seq<char>, max: nat)
    ensures
        s.len() > 0 && all_digits(s) ==> numeral_value(seq!['0'] + s, max) == numeral_value(
            s,
            max,
        ),
        !all_digits(s) && !(s.len() > 0 && s[0] == '+' && all_digits(s.skip(1)))
            ==> numeral_value(s, max) is None,
        s.len() == 0 ==> numeral_value(s, max) is None,
{
    lemma_leading_zero(s);
    let t = seq!['0'] + s;
    if all_digits(s) {
        assert forall|i: int| 0 <= i < t.len() implies ascii_digit(#[trigger] t[i]) by {
            if i > 0 {
                assert(t[i] == s[i - 1]);
            }
        }
    }
}

/// Each digit more at the end of a numeral multiplies what it denotes by ten and adds the
/// digit.
pub proof fn law_numerals_are_positional(s: Seq<char>, c: char, max: nat)
    requires
        all_digits(s),
        '0' <= c <= '9',
    ensures
        ({
            let d = (c as int - '0' as int) as nat;
            &&& numeral_value(seq![c], max) == (if d <= max {
                Some(d)
            } else {
                None::<nat>
            })
            &&& s.len() > 0 ==> match numeral_value(s.push(c), max) {
                Some(n) => numeral_value(s, max) matches Some(m) && n == 10 * m + d && n <= max,
                None => numeral_value(s, max) matches Some(m) ==> 10 * m + d > max,
            }
        }),
{
    reveal_with_fuel(digits_value, 2);
    assert(seq![c].drop_last().len() == 0);
    let t = s.push(c);
    assert(t.drop_last() =~= s);
    assert forall|i: int| 0 <= i < t.len() implies ascii_digit(#[trigger] t[i]) by {
        if i < s.len() {
            assert(t[i] == s[i]);
        }
    }
    if s.len() > 0 {
        assert(t[0] == s[0]);
    }
}

} // verus!

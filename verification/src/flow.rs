//! Conversations with the outside world.
//!
//! An operation that needs the TPM, a file or a terminal is a conversation: it
//! asks for something to be done, is told what came back, and goes on from
//! there. The library takes the decisions. Whoever drives it does what is asked
//! and hands the reply back:
//!
//! ```text
//! let mut step = operation(..);
//! let outcome = loop {
//!     match step {
//!         Step::Ask(request, paused) => step = paused.resume(perform(request)),
//!         Step::Done(outcome) => break outcome,
//!     }
//! };
//! ```
//!
//! What an operation does is specified by a `Prog`, the tree of all its
//! possible conversations. An operation returns a `Step` that `performs` its
//! program, and so does every `resume`.
use vstd::prelude::*;

verus! {

/// Where a conversation stands: it asks for something and waits in the state
/// `F`, or it is over with the outcome `O`.
pub enum Step<C, F, O> {
    Ask(C, F),
    Done(O),
}

/// A conversation in which `C` is asked, `R` is replied, and whose outcome is a
/// `T`: either it is over, or it asks something and goes on depending on the
/// reply.
#[verifier::reject_recursive_types(C)]
#[verifier::reject_recursive_types(R)]
#[verifier::reject_recursive_types(T)]
pub enum Prog<C, R, T> {
    Return(T),
    Ask(C, spec_fn(R) -> Prog<C, R, T>),
}

/// `p` followed by what `f` makes of its outcome.
pub open spec fn bind<C, R, T, U>(
    p: Prog<C, R, T>,
    f: spec_fn(T) -> Prog<C, R, U>,
) -> Prog<C, R, U>
    decreases p,
{
    match p {
        Prog::Return(t) => f(t),
        Prog::Ask(c, k) => Prog::Ask(c, |r: R| bind(k(r), f)),
    }
}

/// `p` followed, if it succeeds, by what `f` makes of its value. A failure of
/// `p` is a failure of the whole.
pub open spec fn and_then<C, R, T, U, E>(
    p: Prog<C, R, Result<T, E>>,
    f: spec_fn(T) -> Prog<C, R, Result<U, E>>,
) -> Prog<C, R, Result<U, E>> {
    bind(
        p,
        |t: Result<T, E>|
            match t {
                Ok(v) => f(v),
                Err(e) => Prog::Return(Err(e)),
            },
    )
}

/// The outcome of `p`, and the state of the world after it, if it is held with
/// a world that starts in the state `s` and answers according to `world`.
pub open spec fn run<C, R, S, T>(
    p: Prog<C, R, T>,
    s: S,
    world: spec_fn(S, C) -> (S, R),
) -> (T, S)
    decreases p,
{
    match p {
        Prog::Return(t) => (t, s),
        Prog::Ask(c, k) => {
            let (next, r) = world(s, c);
            run(k(r), next, world)
        },
    }
}

/// True if everything that `p` asks, whatever it is answered, satisfies `ok`.
pub open spec fn asks_only<C, R, T>(p: Prog<C, R, T>, ok: spec_fn(C) -> bool) -> bool
    decreases p,
{
    match p {
        Prog::Return(_) => true,
        Prog::Ask(c, k) => ok(c) && forall|r: R| asks_only(#[trigger] k(r), ok),
    }
}

/// True if `p`, whatever it is answered, asks at most `n` times for something
/// that satisfies `what`.
pub open spec fn asks_at_most<C, R, T>(
    p: Prog<C, R, T>,
    what: spec_fn(C) -> bool,
    n: int,
) -> bool
    decreases p,
{
    match p {
        Prog::Return(_) => n >= 0,
        Prog::Ask(c, k) => forall|r: R|
            asks_at_most(
                #[trigger] k(r),
                what,
                if what(c) {
                    n - 1
                } else {
                    n
                },
            ),
    }
}

/// True if, as long as no request and reply have satisfied `key`, `p` asks only
/// what satisfies `open`, and ends with an outcome that satisfies `closed` if it
/// ends.
pub open spec fn locked_until<C, R, T>(
    p: Prog<C, R, T>,
    key: spec_fn(C, R) -> bool,
    open: spec_fn(C) -> bool,
    closed: spec_fn(T) -> bool,
) -> bool
    decreases p,
{
    match p {
        Prog::Return(t) => closed(t),
        Prog::Ask(c, k) => open(c) && forall|r: R|
            key(c, r) || locked_until(#[trigger] k(r), key, open, closed),
    }
}

/// True if `p`, whatever it is answered, is over with an outcome that satisfies `good`
/// as soon as a request and its reply have satisfied `key`.
pub open spec fn settled_by<C, R, T>(
    p: Prog<C, R, T>,
    key: spec_fn(C, R) -> bool,
    good: spec_fn(T) -> bool,
) -> bool
    decreases p,
{
    match p {
        Prog::Return(_) => true,
        Prog::Ask(c, k) => forall|r: R|
            {
                &&& key(c, r) ==> (k(r) matches Prog::Return(t) && good(t))
                &&& settled_by(#[trigger] k(r), key, good)
            },
    }
}

/// True if `p` keeps to the rules, whatever it is answered. A watcher starts with the
/// memory `m` and takes `note` of every request with its reply: each request has to be
/// one that `may` be made, and the outcome one that `end` allows, given what was noted
/// before.
pub open spec fn watched<C, R, M, T>(
    p: Prog<C, R, T>,
    m: M,
    note: spec_fn(M, C, R) -> M,
    may: spec_fn(M, C) -> bool,
    end: spec_fn(M, T) -> bool,
) -> bool
    decreases p,
{
    match p {
        Prog::Return(t) => end(m, t),
        Prog::Ask(c, k) => may(m, c) && forall|r: R|
            watched(#[trigger] k(r), note(m, c, r), note, may, end),
    }
}

/// What is left of `p` after these replies.
pub open spec fn rest<C, R, T>(p: Prog<C, R, T>, replies: Seq<R>) -> Prog<C, R, T>
    decreases replies.len(),
{
    match p {
        Prog::Return(_) => p,
        Prog::Ask(_, k) => if replies.len() == 0 {
            p
        } else {
            rest(k(replies[0]), replies.skip(1))
        },
    }
}

/// What a watcher remembers when `p` has been held with a world.
pub open spec fn remembered<C, R, S, M, T>(
    p: Prog<C, R, T>,
    s: S,
    world: spec_fn(S, C) -> (S, R),
    m: M,
    note: spec_fn(M, C, R) -> M,
) -> M
    decreases p,
{
    match p {
        Prog::Return(_) => m,
        Prog::Ask(c, k) => {
            let (next, r) = world(s, c);
            remembered(k(r), next, world, note(m, c, r), note)
        },
    }
}

/// What is watched ends as it may, in every world.
pub proof fn law_watched_ends<C, R, S, M, T>(
    p: Prog<C, R, T>,
    s: S,
    world: spec_fn(S, C) -> (S, R),
    m: M,
    note: spec_fn(M, C, R) -> M,
    may: spec_fn(M, C) -> bool,
    end: spec_fn(M, T) -> bool,
)
    requires
        watched(p, m, note, may, end),
    ensures
        end(remembered(p, s, world, m, note), run(p, s, world).0),
    decreases p,
{
    match p {
        Prog::Return(_) => {},
        Prog::Ask(c, k) => {
            let (next, r) = world(s, c);
            law_watched_ends(k(r), next, world, note(m, c, r), note, may, end);
        },
    }
}

/// `bind(p, f)` keeps to the rules if `p` does and every outcome of `p` leads to
/// something that does.
pub proof fn lemma_watched_bind<C, R, M, T, U>(
    p: Prog<C, R, T>,
    f: spec_fn(T) -> Prog<C, R, U>,
    m: M,
    note: spec_fn(M, C, R) -> M,
    may: spec_fn(M, C) -> bool,
    mid: spec_fn(M, T) -> bool,
    end: spec_fn(M, U) -> bool,
)
    requires
        watched(p, m, note, may, mid),
        forall|n: M, t: T| #[trigger] mid(n, t) ==> watched(f(t), n, note, may, end),
    ensures
        watched(bind(p, f), m, note, may, end),
    decreases p,
{
    match p {
        Prog::Return(t) => {
            assert(mid(m, t));
        },
        Prog::Ask(c, k) => {
            let h = bind(p, f)->Ask_1;
            assert forall|r: R| watched(#[trigger] h(r), note(m, c, r), note, may, end) by {
                assert(watched(k(r), note(m, c, r), note, may, mid));
                lemma_watched_bind(k(r), f, note(m, c, r), note, may, mid, end);
            }
        },
    }
}

/// `and_then(p, f)` keeps to the rules if `p` does, every success of `p` leads to
/// something that does, and every failure of `p` is one that may be the outcome.
pub proof fn lemma_watched_and_then<C, R, M, T, U, E>(
    p: Prog<C, R, Result<T, E>>,
    f: spec_fn(T) -> Prog<C, R, Result<U, E>>,
    m: M,
    note: spec_fn(M, C, R) -> M,
    may: spec_fn(M, C) -> bool,
    mid: spec_fn(M, Result<T, E>) -> bool,
    end: spec_fn(M, Result<U, E>) -> bool,
)
    requires
        watched(p, m, note, may, mid),
        forall|n: M, t: T| #[trigger] mid(n, Ok(t)) ==> watched(f(t), n, note, may, end),
        forall|n: M, e: E| #[trigger] mid(n, Err(e)) ==> end(n, Err(e)),
    ensures
        watched(and_then(p, f), m, note, may, end),
{
    let g = |t: Result<T, E>|
        match t {
            Ok(v) => f(v),
            Err(e) => Prog::Return(Err(e)),
        };
    assert forall|n: M, t: Result<T, E>| #[trigger] mid(n, t) implies watched(
        g(t),
        n,
        note,
        may,
        end,
    ) by {
        match t {
            Ok(v) => {
                assert(mid(n, Ok(v)));
            },
            Err(e) => {
                assert(mid(n, Err(e)));
            },
        }
    }
    lemma_watched_bind(p, g, m, note, may, mid, end);
}

/// What keeps to some rules keeps to wider ones too, and whatever `keep` says of what is
/// remembered holds to the end, if taking note of a request that may be made keeps it.
pub proof fn lemma_watched_keeping<C, R, M, T>(
    p: Prog<C, R, T>,
    m: M,
    note: spec_fn(M, C, R) -> M,
    may: spec_fn(M, C) -> bool,
    end: spec_fn(M, T) -> bool,
    keep: spec_fn(M) -> bool,
    wider: spec_fn(M, C) -> bool,
    other: spec_fn(M, T) -> bool,
)
    requires
        watched(p, m, note, may, end),
        keep(m),
        forall|n: M, c: C| keep(n) && #[trigger] may(n, c) ==> wider(n, c),
        forall|n: M, c: C, r: R| keep(n) && may(n, c) ==> keep(#[trigger] note(n, c, r)),
        forall|n: M, t: T| keep(n) && #[trigger] end(n, t) ==> other(n, t),
    ensures
        watched(p, m, note, wider, other),
    decreases p,
{
    match p {
        Prog::Return(t) => {
            assert(end(m, t));
        },
        Prog::Ask(c, k) => {
            assert forall|r: R| watched(#[trigger] k(r), note(m, c, r), note, wider, other) by {
                lemma_watched_keeping(k(r), note(m, c, r), note, may, end, keep, wider, other);
            }
        },
    }
}

/// A value that is described by a value of the specification language.
pub trait Modelled {
    type Model;

    spec fn model(&self) -> Self::Model;
}

/// The state of a conversation that waits for a reply.
pub trait Paused<C, R, T>: Sized {
    /// How the conversation goes on after a reply.
    spec fn after(self, reply: R) -> Prog<C, R, T>;
}

/// True if `step` is where the conversation `p` starts.
pub open spec fn performs<C: View, F: Paused<C::V, R, O::Model>, O: Modelled, R>(
    step: Step<C, F, O>,
    p: Prog<C::V, R, O::Model>,
) -> bool {
    match step {
        Step::Ask(c, f) => {
            &&& p matches Prog::Ask(d, k)
            &&& c@ == d
            &&& forall|r: R| #[trigger] f.after(r) == k(r)
        },
        Step::Done(o) => p == Prog::<C::V, R, O::Model>::Return(o.model()),
    }
}

/// Holding `bind(p, f)` is holding `p` and then what `f` makes of its outcome.
pub proof fn lemma_run_bind<C, R, S, T, U>(
    p: Prog<C, R, T>,
    f: spec_fn(T) -> Prog<C, R, U>,
    s: S,
    world: spec_fn(S, C) -> (S, R),
)
    ensures
        run(bind(p, f), s, world) == ({
            let (t, next) = run(p, s, world);
            run(f(t), next, world)
        }),
    decreases p,
{
    match p {
        Prog::Return(t) => {},
        Prog::Ask(c, k) => {
            let (next, r) = world(s, c);
            lemma_run_bind(k(r), f, next, world);
        },
    }
}

/// What `bind(p, f)` asks is asked by `p` or by what follows it.
pub proof fn lemma_asks_bind<C, R, T, U>(
    p: Prog<C, R, T>,
    f: spec_fn(T) -> Prog<C, R, U>,
    ok: spec_fn(C) -> bool,
)
    requires
        asks_only(p, ok),
        forall|t: T| asks_only(#[trigger] f(t), ok),
    ensures
        asks_only(bind(p, f), ok),
    decreases p,
{
    match p {
        Prog::Return(t) => {
            assert(asks_only(f(t), ok));
        },
        Prog::Ask(c, k) => {
            let h = bind(p, f)->Ask_1;
            assert forall|r: R| asks_only(#[trigger] h(r), ok) by {
                assert(asks_only(k(r), ok));
                lemma_asks_bind(k(r), f, ok);
            }
        },
    }
}

/// `bind(p, f)` stays locked if `p` does and every outcome of `p` that can come
/// of it leads to something that stays locked.
pub proof fn lemma_locked_bind<C, R, T, U>(
    p: Prog<C, R, T>,
    f: spec_fn(T) -> Prog<C, R, U>,
    key: spec_fn(C, R) -> bool,
    open: spec_fn(C) -> bool,
    mid: spec_fn(T) -> bool,
    closed: spec_fn(U) -> bool,
)
    requires
        locked_until(p, key, open, mid),
        forall|t: T| mid(t) ==> locked_until(#[trigger] f(t), key, open, closed),
    ensures
        locked_until(bind(p, f), key, open, closed),
    decreases p,
{
    match p {
        Prog::Return(t) => {
            assert(locked_until(f(t), key, open, closed));
        },
        Prog::Ask(c, k) => {
            let h = bind(p, f)->Ask_1;
            assert forall|r: R|
                key(c, r) || locked_until(#[trigger] h(r), key, open, closed) by {
                if !key(c, r) {
                    assert(locked_until(k(r), key, open, mid));
                    lemma_locked_bind(k(r), f, key, open, mid, closed);
                }
            }
        },
    }
}

} // verus!

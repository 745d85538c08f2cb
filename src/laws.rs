//! Laws of the hosted provider, proved over its model.
use vstd::prelude::*;
use crate::hosted::{State, acquire_spec, release_spec};
use crate::restore::ConvertRestoreState;

verus! {

/// `n` calls of `acquire` by thread `t` in a row, none of them released:
/// the state after them and what each call handed out.
pub open spec fn acquire_n(s: State, t: nat, n: nat) -> (State, Seq<Option<bool>>)
    decreases n,
{
    if n == 0 {
        (s, Seq::empty())
    } else {
        let (s1, outs) = acquire_n(s, t, (n - 1) as nat);
        let (s2, r) = acquire_spec(s1, t);
        (s2, outs.push(r))
    }
}

/// Thread `t` releases the restore states `tokens`, the last one first: the
/// state after them and how many of the calls freed the lock.
pub open spec fn release_all(s: State, t: nat, tokens: Seq<bool>) -> (State, nat)
    decreases tokens.len(),
{
    if tokens.len() == 0 {
        (s, 0)
    } else {
        let (s1, freed) = release_spec(s, t, tokens.last(), false);
        let (s2, k) = release_all(s1, t, tokens.drop_last());
        (s2, k + if freed { 1nat } else { 0nat })
    }
}

/// How many of the calls that handed out `outs` took the lock.
pub open spec fn count_taken(outs: Seq<Option<bool>>) -> nat
    decreases outs.len(),
{
    if outs.len() == 0 {
        0
    } else {
        count_taken(outs.drop_last()) + if outs.last() == Some(false) { 1nat } else { 0nat }
    }
}

/// Both steps keep the provider's invariant: `acquire` by any thread, and
/// `release` by a thread that is inside.
pub proof fn lemma_steps_keep_wf(s: State, t: nat, nested: bool, panicking: bool)
    requires
        s.wf(),
        t < s.flags.len(),
    ensures
        acquire_spec(s, t).0.wf(),
        s.inside(t) ==> release_spec(s, t, nested, panicking).0.wf(),
{
}

/// Mutual exclusion: two threads are never inside at once, and while one
/// thread is inside, any other that calls `acquire` waits, changing nothing.
pub proof fn lemma_mutual_exclusion(s: State, t: nat, u: nat)
    requires
        s.wf(),
        s.inside(t),
        u < s.flags.len(),
        u != t,
    ensures
        !s.inside(u),
        acquire_spec(s, u) == (s, None::<bool>),
{
    assert(s.flags[t as int]);
}

/// A thread never waits on itself: `acquire` waits only while another
/// thread holds the lock.
pub proof fn lemma_never_blocked_by_itself(s: State, t: nat)
    requires
        s.wf(),
        t < s.flags.len(),
        acquire_spec(s, t).1 is None,
    ensures
        s.holder matches Some(h) && h != t,
{
    assert(!s.flags[t as int]);
}

/// Once inside, a thread enters again any number of times without waiting:
/// each nested `acquire` hands out a nested restore state and leaves the
/// state as it was.
pub proof fn lemma_nested_never_blocks(s: State, t: nat, n: nat)
    requires
        s.wf(),
        s.inside(t),
    ensures
        acquire_n(s, t, n).0 == s,
        acquire_n(s, t, n).1 == Seq::new(n, |i: int| Some(true)),
    decreases n,
{
    if n > 0 {
        lemma_nested_never_blocks(s, t, (n - 1) as nat);
        assert(acquire_n(s, t, n).1 =~= Seq::new(n, |i: int| Some(true)));
    }
}

/// Round trip: when `acquire` does not wait, the byte it hands out brings
/// back its restore state, and `release` of that state on the same thread
/// returns the provider to where it was, poison cleared if the lock was
/// taken.
pub proof fn lemma_round_trip(s: State, t: nat)
    requires
        s.wf(),
        t < s.flags.len(),
        acquire_spec(s, t).1 is Some,
    ensures
        ({
            let (s1, r) = acquire_spec(s, t);
            let token = r->Some_0;
            let carried = <bool as ConvertRestoreState>::spec_from_u8(token.spec_to_u8());
            &&& s1.inside(t)
            &&& carried == token
            &&& release_spec(s1, t, carried, false).0 == (State { poisoned: s.poisoned && token, ..s })
        }),
{
    let (s1, r) = acquire_spec(s, t);
    if r == Some(false) {
        assert(s1.flags.update(t as int, false) =~= s.flags);
    }
}

/// Reuse after a panic: when the holder leaves by unwinding, the lock is
/// poisoned, and still the next `acquire` of any thread takes it, clears
/// the poison and returns normally; its `release` leaves the provider idle.
pub proof fn lemma_reusable_after_panic(s: State, t: nat, u: nat)
    requires
        s.wf(),
        s.holder == Some(t),
        u < s.flags.len(),
    ensures
        ({
            let s1 = release_spec(s, t, false, true).0;
            let (s2, r) = acquire_spec(s1, u);
            &&& s1.wf()
            &&& s1.poisoned
            &&& r == Some(false)
            &&& !s2.poisoned
            &&& s2.inside(u)
            &&& release_spec(s2, u, false, false).0 == State::idle(s.flags.len(), false)
        }),
{
    let s1 = release_spec(s, t, false, true).0;
    let s2 = acquire_spec(s1, u).0;
    assert(!s1.flags[u as int]);
    assert(s2.flags.update(u as int, false) =~= State::idle(s.flags.len(), false).flags);
}

proof fn lemma_acquire_n_from_idle(s: State, t: nat, n: nat)
    requires
        s.wf(),
        t < s.flags.len(),
        s.holder is None,
        n >= 1,
    ensures
        acquire_n(s, t, n).0 == acquire_spec(s, t).0,
        acquire_n(s, t, n).1 == Seq::new(n, |i: int| Some(i != 0)),
        acquire_spec(s, t).1 == Some(false),
    decreases n,
{
    assert(!s.flags[t as int]);
    if n == 1 {
        assert(acquire_n(s, t, 0).1 =~= Seq::<Option<bool>>::empty());
        assert(acquire_n(s, t, 1).1 =~= Seq::new(1, |i: int| Some(i != 0)));
    } else {
        lemma_acquire_n_from_idle(s, t, (n - 1) as nat);
        assert(acquire_spec(s, t).0.flags[t as int]);
        assert(acquire_n(s, t, n).1 =~= Seq::new(n, |i: int| Some(i != 0)));
    }
}

proof fn lemma_count_taken_once(n: nat)
    requires
        n >= 1,
    ensures
        count_taken(Seq::new(n, |i: int| Some(i != 0))) == 1,
    decreases n,
{
    let outs = Seq::new(n, |i: int| Some(i != 0));
    if n == 1 {
        assert(outs.drop_last() =~= Seq::<Option<bool>>::empty());
        assert(count_taken(Seq::<Option<bool>>::empty()) == 0);
    } else {
        lemma_count_taken_once((n - 1) as nat);
        assert(outs.drop_last() =~= Seq::new((n - 1) as nat, |i: int| Some(i != 0)));
    }
}

proof fn lemma_release_all_once(s: State, t: nat, n: nat)
    requires
        n >= 1,
    ensures
        release_all(s, t, Seq::new(n, |i: int| i != 0)) == (release_spec(s, t, false, false).0, 1nat),
    decreases n,
{
    let tokens = Seq::new(n, |i: int| i != 0);
    if n == 1 {
        assert(tokens.drop_last() =~= Seq::<bool>::empty());
        let s1 = release_spec(s, t, false, false).0;
        assert(release_all(s1, t, Seq::<bool>::empty()) == (s1, 0nat));
    } else {
        lemma_release_all_once(s, t, (n - 1) as nat);
        assert(tokens.drop_last() =~= Seq::new((n - 1) as nat, |i: int| i != 0));
    }
}

/// Nesting to depth `n` on one thread: the first `acquire` takes the lock
/// and the other `n - 1` are nested, so the lock is taken exactly once;
/// releasing the restore states in reverse frees it exactly once and leaves
/// the provider as it was, unpoisoned.
pub proof fn lemma_nesting_depth(s: State, t: nat, n: nat)
    requires
        s.wf(),
        t < s.flags.len(),
        s.holder is None,
        n >= 1,
    ensures
        ({
            let (s1, outs) = acquire_n(s, t, n);
            &&& outs == Seq::new(n, |i: int| Some(i != 0))
            &&& count_taken(outs) == 1
            &&& s1.holder == Some(t)
            &&& release_all(s1, t, Seq::new(n, |i: int| i != 0)) == (
            State { poisoned: false, ..s },
            1nat,
            )
        }),
{
    lemma_acquire_n_from_idle(s, t, n);
    lemma_count_taken_once(n);
    let s1 = acquire_n(s, t, n).0;
    lemma_release_all_once(s1, t, n);
    assert(!s.flags[t as int]);
    assert(s1.flags.update(t as int, false) =~= s.flags);
}

} // verus!

//! The hosted provider: a critical section for a multi-threaded process
//! that has no interrupt masking. One process-wide lock serialises the
//! threads; a flag of each thread lets a thread that is already inside enter
//! again without touching the lock.
//!
//! `enter` and `leave` are the decisions a thread makes on its own flag and
//! token. `Provider` is the provider's whole state (the lock's holder, the
//! lock's poison marker and every thread's flag), stepped by those same
//! decisions, with the laws of the region proved over its model `State`.
use vstd::prelude::*;

verus! {

/// What a thread does on `acquire`, given its own flag.
#[derive(PartialEq, Eq, Structural, Clone, Copy, Debug)]
pub enum EnterStep {
    /// The thread is already inside: hand out a nested token, leave the
    /// lock alone.
    Nested,
    /// The thread is outside: set its flag, take the lock (clearing any
    /// poison) and store the guard, then hand out an outer token.
    TakeLock,
}

/// What a thread does on `release`, given the token of its `acquire`.
#[derive(PartialEq, Eq, Structural, Clone, Copy, Debug)]
pub enum LeaveStep {
    /// A nested token: the outer holder releases later.
    Stay,
    /// An outer token: drop the stored guard, which frees the lock, then
    /// clear the thread's flag.
    Unlock,
}

pub open spec fn enter_spec(is_locked: bool) -> EnterStep {
    if is_locked {
        EnterStep::Nested
    } else {
        EnterStep::TakeLock
    }
}

pub open spec fn leave_spec(nested: bool) -> LeaveStep {
    if nested {
        LeaveStep::Stay
    } else {
        LeaveStep::Unlock
    }
}

impl EnterStep {
    /// The raw restore state that this step hands out: `true` for a nested
    /// entry, `false` for the one that took the lock.
    pub open spec fn spec_token(self) -> bool {
        self == EnterStep::Nested
    }

    pub fn token(&self) -> (r: bool)
        ensures
            r == self.spec_token(),
    {
        match self {
            EnterStep::Nested => true,
            EnterStep::TakeLock => false,
        }
    }
}

/// Decides `acquire` for a thread whose flag reads `is_locked`. The thread's
/// flag is set afterwards in either case.
pub fn enter(is_locked: bool) -> (step: EnterStep)
    ensures
        step == enter_spec(is_locked),
        step.spec_token() == is_locked,
{
    if is_locked {
        EnterStep::Nested
    } else {
        EnterStep::TakeLock
    }
}

/// Decides `release` for the raw restore state `nested` that the matching
/// `acquire` handed out.
pub fn leave(nested: bool) -> (step: LeaveStep)
    ensures
        step == leave_spec(nested),
        (step == LeaveStep::Unlock) == !nested,
{
    if nested {
        LeaveStep::Stay
    } else {
        LeaveStep::Unlock
    }
}


/// The provider's whole state: which thread holds the lock, whether the lock
/// is poisoned, and each thread's flag, threads being numbered from zero.
pub struct State {
    pub holder: Option<nat>,
    pub poisoned: bool,
    pub flags: Seq<bool>,
}

impl State {
    /// The state in which no thread is inside.
    pub open spec fn idle(n: nat, poisoned: bool) -> State {
        State { holder: None, poisoned, flags: Seq::new(n, |i: int| false) }
    }

    /// Thread `t` is inside the region.
    pub open spec fn inside(self, t: nat) -> bool {
        t < self.flags.len() && self.flags[t as int]
    }

    /// A thread's flag is set exactly while it holds the lock (the stored
    /// guard belongs to it), and a lock that is held is not poisoned, since
    /// poison is cleared by whoever takes the lock.
    pub open spec fn wf(self) -> bool {
        &&& forall|t: nat| t < self.flags.len() ==> (#[trigger] self.flags[t as int] <==> self.holder
            == Some(t))
        &&& self.holder matches Some(h) ==> h < self.flags.len() && !self.poisoned
    }
}

/// `acquire` by thread `t`: the next state and the raw restore state handed
/// out, or `None` where the thread has to wait for the lock.
pub open spec fn acquire_spec(s: State, t: nat) -> (State, Option<bool>) {
    match enter_spec(s.flags[t as int]) {
        EnterStep::Nested => (s, Some(true)),
        EnterStep::TakeLock => if s.holder is None {
            (State { holder: Some(t), poisoned: false, flags: s.flags.update(t as int, true) }, Some(false))
        } else {
            (s, None)
        },
    }
}

/// `release` by thread `t` with the raw restore state `nested`, unwinding
/// from a panic where `panicking` holds: the next state, and whether the
/// lock was freed.
pub open spec fn release_spec(s: State, t: nat, nested: bool, panicking: bool) -> (State, bool) {
    match leave_spec(nested) {
        LeaveStep::Stay => (s, false),
        LeaveStep::Unlock => (State { holder: None, poisoned: panicking, flags: s.flags.update(t as int, false) }, true),
    }
}

/// The hosted provider, with threads numbered from zero.
pub struct Provider {
    holder: Option<usize>,
    poisoned: bool,
    flags: Vec<bool>,
}

impl View for Provider {
    type V = State;

    closed spec fn view(&self) -> State {
        State {
            holder: match self.holder {
                Some(h) => Some(h as nat),
                None => None,
            },
            poisoned: self.poisoned,
            flags: self.flags@,
        }
    }
}

impl Provider {
    pub closed spec fn wf(&self) -> bool {
        self@.wf()
    }

    /// A provider for `n` threads, none of them inside, the lock unpoisoned.
    pub fn new(n: usize) -> (p: Provider)
        ensures
            p.wf(),
            p@ == State::idle(n as nat, false),
    {
        let mut flags: Vec<bool> = Vec::new();
        let mut i: usize = 0;
        while i < n
            invariant
                i <= n,
                flags@ == Seq::new(i as nat, |j: int| false),
            decreases n - i,
        {
            flags.push(false);
            i = i + 1;
        }
        let p = Provider { holder: None, poisoned: false, flags };
        assert(p@.flags =~= State::idle(n as nat, false).flags);
        p
    }

    /// The number of threads.
    pub fn threads(&self) -> (r: usize)
        ensures
            r == self@.flags.len(),
    {
        self.flags.len()
    }

    /// Whether thread `t` is inside the region.
    pub fn is_inside(&self, t: usize) -> (r: bool)
        requires
            t < self@.flags.len(),
        ensures
            r == self@.inside(t as nat),
    {
        self.flags[t]
    }

    /// Whether the lock is poisoned.
    pub fn is_poisoned(&self) -> (r: bool)
        ensures
            r == self@.poisoned,
    {
        self.poisoned
    }

    /// `acquire` by thread `t`. Returns the raw restore state, `true` for a
    /// nested entry and `false` for the entry that took the lock, or `None`
    /// where another thread holds the lock and `t` has to wait (nothing
    /// changes then).
    pub fn acquire(&mut self, t: usize) -> (r: Option<bool>)
        requires
            old(self).wf(),
            t < old(self)@.flags.len(),
        ensures
            final(self).wf(),
            (final(self)@, r) == acquire_spec(old(self)@, t as nat),
    {
        match enter(self.flags[t]) {
            EnterStep::Nested => Some(true),
            EnterStep::TakeLock => {
                if self.holder.is_none() {
                    self.flags.set(t, true);
                    self.holder = Some(t);
                    self.poisoned = false;
                    Some(false)
                } else {
                    None
                }
            },
        }
    }

    /// `release` by thread `t`, which is inside, with the raw restore state
    /// `nested` of its matching `acquire`; `panicking` tells that the thread
    /// leaves the region by unwinding. Returns whether the lock was freed.
    pub fn release(&mut self, t: usize, nested: bool, panicking: bool) -> (r: bool)
        requires
            old(self).wf(),
            old(self)@.inside(t as nat),
        ensures
            final(self).wf(),
            (final(self)@, r) == release_spec(old(self)@, t as nat, nested, panicking),
    {
        match leave(nested) {
            LeaveStep::Stay => false,
            LeaveStep::Unlock => {
                self.holder = None;
                self.poisoned = panicking;
                self.flags.set(t, false);
                true
            },
        }
    }
}

} // verus!

//! Wake conduits: the objects through which a task is marked due again.
//!
//! A conduit follows an explicit registration protocol: a wake target (a
//! boolean readiness flag) is bound with `register`, `wake` marks it, and
//! `unregister` unbinds it and hands the flag's value back. A `wake` with
//! no target bound is a no-op, which guards against stale or
//! not-yet-initialised wiring.

use vstd::prelude::*;

verus! {

/// A wake conduit confined to a single thread.
///
/// It owns its registration target for as long as one is bound: `register`
/// takes the flag's current value, `wake` raises the flag, and
/// `unregister` returns the flag's final value to the caller. Because the
/// conduit is exclusively owned, no locking is needed.
pub struct SingleThreadMarshall {
    registered: bool,
    flag: bool,
}

impl SingleThreadMarshall {
    /// Whether a wake target is currently bound.
    pub closed spec fn is_registered(&self) -> bool {
        self.registered
    }

    /// The value of the bound readiness flag.
    pub closed spec fn flag_set(&self) -> bool {
        self.flag
    }

    /// A fresh conduit with no target bound.
    pub fn new() -> (m: Self)
        ensures
            !m.is_registered(),
            !m.flag_set(),
    {
        SingleThreadMarshall { registered: false, flag: false }
    }

    /// Binds a readiness flag, taking over its current value.
    pub fn register(&mut self, current: bool)
        ensures
            final(self).is_registered(),
            final(self).flag_set() == current,
    {
        self.registered = true;
        self.flag = current;
    }

    /// Unbinds the readiness flag and returns its value.
    pub fn unregister(&mut self) -> (r: bool)
        ensures
            !final(self).is_registered(),
            r == old(self).flag_set(),
            final(self).flag_set() == old(self).flag_set(),
    {
        self.registered = false;
        self.flag
    }

    /// Marks the bound target due. Idempotent, and a no-op while no
    /// target is bound.
    pub fn wake(&mut self)
        ensures
            final(self).is_registered() == old(self).is_registered(),
            final(self).flag_set() == (old(self).flag_set() || old(self).is_registered()),
    {
        if self.registered {
            self.flag = true;
        }
    }
}

} // verus!

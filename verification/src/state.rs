//! Shared application state: the process-wide developer-mode flag.
//!
//! The host application creates one [`AppState`] at process start and
//! shares it with every command invocation for the process lifetime. The
//! mutual-exclusion lock that serializes concurrent access lives with the
//! host, outside this crate; the functions here are the operations a
//! caller performs while it holds the lock, and under the lock neither
//! operation can fail. A lemma below states what that serialization
//! guarantees: any sequence of writes leaves the flag equal to the last
//! write, never a torn value.

use vstd::prelude::*;

verus! {

/// The one piece of process-wide mutable state: the developer-mode flag.
pub struct AppState {
    dev_mode: bool,
}

impl AppState {
    /// The current value of the developer-mode flag.
    pub closed spec fn dev_mode_flag(self) -> bool {
        self.dev_mode
    }

    /// The state after the developer-mode flag is set to `enabled`.
    pub closed spec fn spec_set(self, enabled: bool) -> AppState {
        AppState { dev_mode: enabled }
    }

    /// Fresh state, as created at process start: developer mode is off.
    pub fn new() -> (s: AppState)
        ensures
            !s.dev_mode_flag(),
    {
        AppState { dev_mode: false }
    }

    /// Sets the developer-mode flag. Performed under the host's lock;
    /// cannot fail once the lock is held.
    pub fn set(&mut self, enabled: bool)
        ensures
            *final(self) == old(self).spec_set(enabled),
            final(self).dev_mode_flag() == enabled,
    {
        self.dev_mode = enabled;
    }

    /// Reads the developer-mode flag. Performed under the host's lock;
    /// cannot fail once the lock is held.
    pub fn get(&self) -> (r: bool)
        ensures
            r == self.dev_mode_flag(),
    {
        self.dev_mode
    }
}

/// The state after a sequence of writes to the developer-mode flag,
/// applied in order. This is how concurrent writers appear once the lock
/// has serialized them.
pub open spec fn apply_writes(s: AppState, writes: Seq<bool>) -> AppState
    decreases writes.len(),
{
    if writes.len() == 0 {
        s
    } else {
        apply_writes(s.spec_set(writes.first()), writes.drop_first())
    }
}

/// Writing the flag and then reading it yields the written value,
/// whatever the state held before.
pub proof fn lemma_set_then_get(s: AppState, b: bool)
    ensures
        s.spec_set(b).dev_mode_flag() == b,
{
}

/// Writes serialized by the lock cannot tear: after any nonempty sequence
/// of writes, the flag equals exactly the last written value, never a
/// value no writer submitted.
pub proof fn lemma_last_write_wins(s: AppState, writes: Seq<bool>)
    requires
        writes.len() > 0,
    ensures
        apply_writes(s, writes).dev_mode_flag() == writes.last(),
    decreases writes.len(),
{
    if writes.len() == 1 {
        assert(apply_writes(s, writes) == apply_writes(s.spec_set(writes.first()), writes.drop_first()));
        assert(apply_writes(s.spec_set(writes.first()), writes.drop_first()) == s.spec_set(
            writes.first(),
        ));
    } else {
        lemma_last_write_wins(s.spec_set(writes.first()), writes.drop_first());
        assert(writes.drop_first().last() == writes.last());
    }
}

} // verus!

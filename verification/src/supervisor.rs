//! The shell-process supervisor.
//!
//! A dedicated background task owns the wait on the spawned shell. Its
//! life is the three-state machine `Unspawned -> Running -> Exited`:
//! there is no way back, the session is single-shot. When the child
//! exits — normally, by signal, or by crash — the supervisor ends the
//! whole host process with the child's own exit code; that is the
//! application's deliberate "session ends the application" policy, and
//! the only process-fatal event in the bridge.

use vstd::prelude::*;

verus! {

/// Where the supervised shell process stands.
#[derive(Clone, Copy, PartialEq, Eq, Structural, Debug)]
pub enum SupervisorState {
    /// No shell has been spawned yet.
    Unspawned,
    /// The shell runs; the supervisor blocks on its exit.
    Running,
    /// The shell ended with the recorded exit code.
    Exited(u32),
}

impl SupervisorState {
    /// A supervisor for a session with no shell.
    pub fn new() -> (r: SupervisorState)
        ensures
            r is Unspawned,
    {
        SupervisorState::Unspawned
    }

    /// The shell was spawned: the supervisor starts waiting on it.
    pub fn start(&mut self)
        requires
            *old(self) is Unspawned,
        ensures
            *final(self) is Running,
    {
        *self = SupervisorState::Running;
    }

    /// The wait returned: the child ended with `code`. The returned
    /// value is the exit code the host process must itself exit with —
    /// the child's code, unchanged, not some fixed convention.
    pub fn on_child_exit(&mut self, code: u32) -> (host_code: u32)
        requires
            *old(self) is Running,
        ensures
            *final(self) == SupervisorState::Exited(code),
            host_code == code,
    {
        *self = SupervisorState::Exited(code);
        code
    }
}

} // verus!

//! Shell creation: the create operation of the bridge.
//!
//! A session spawns at most one shell in its lifetime. The decision is
//! carried by [`SpawnState`], a checked-then-set flag that only ever
//! moves from "no shell" to "shell": the host asks [`SpawnState::create_shell`]
//! what a create request amounts to, performs the spawn when — and only
//! when — it is told to, and reports back through
//! [`SpawnState::record_spawn_outcome`].

use vstd::prelude::*;

verus! {

use vstd::string::StringExecFns;

/// What the host must do to serve one create-shell request.
#[derive(Clone, Copy, PartialEq, Eq, Structural, Debug)]
pub enum CreateAction {
    /// A shell was already spawned: report success, spawn nothing.
    AlreadyCreated,
    /// No shell yet: spawn one on the pseudo-terminal slave.
    Spawn,
}

/// The create decision for a session whose flag reads `has_shell`:
/// spawn exactly when no shell exists yet.
pub open spec fn create_decision(has_shell: bool) -> CreateAction {
    if has_shell {
        CreateAction::AlreadyCreated
    } else {
        CreateAction::Spawn
    }
}

/// The flag's value after a spawn attempt: set only by a successful
/// spawn, and never cleared again.
pub open spec fn has_shell_after(has_shell: bool, spawned: bool) -> bool {
    has_shell || spawned
}

/// The session-wide record of whether a shell has been spawned.
pub struct SpawnState {
    has_shell: bool,
}

impl SpawnState {
    /// Whether this session has spawned its shell.
    pub closed spec fn has_shell(&self) -> bool {
        self.has_shell
    }

    /// A fresh session: no shell yet.
    pub fn new() -> (r: SpawnState)
        ensures
            !r.has_shell(),
    {
        SpawnState { has_shell: false }
    }

    /// The decision for one create-shell request. Idempotent: once a
    /// shell exists, every further request succeeds without a spawn.
    pub fn create_shell(&self) -> (a: CreateAction)
        ensures
            a == create_decision(self.has_shell()),
    {
        if self.has_shell {
            CreateAction::AlreadyCreated
        } else {
            CreateAction::Spawn
        }
    }

    /// Records whether the spawn the host performed succeeded. The flag
    /// is set only on success, so a failed spawn leaves the session free
    /// to retry.
    pub fn record_spawn_outcome(&mut self, spawned: bool)
        ensures
            final(self).has_shell() == has_shell_after(old(self).has_shell(), spawned),
    {
        if spawned {
            self.has_shell = true;
        }
    }
}

/// Idempotent creation: from a fresh session the first create request
/// orders one spawn; once that spawn succeeds, a second request — and
/// every one after it — orders nothing more. A failed spawn leaves the
/// flag clear, so the next request may try again.
pub proof fn lemma_create_shell_idempotent()
    ensures
        create_decision(false) is Spawn,
        create_decision(has_shell_after(false, true)) is AlreadyCreated,
        create_decision(true) is AlreadyCreated,
        create_decision(has_shell_after(false, false)) is Spawn,
{
}

/// The command descriptor for the shell to spawn: the program to run and
/// the terminal-type environment value its environment gets.
#[derive(Debug)]
pub struct ShellCommand {
    pub program: String,
    pub term: String,
}

/// Resolves the user's preferred shell from the shell-path environment
/// value the host read: the program is taken verbatim, the terminal type
/// is fixed, and a missing value is a resolution error with a
/// descriptive message — nothing is spawned from a guess.
pub fn resolve_shell(shell_env: Option<String>) -> (r: Result<ShellCommand, String>)
    ensures
        shell_env matches Some(p) ==> (r matches Ok(c) && c.program@ == p@ && c.term@
            == "xterm-256color"@),
        shell_env is None ==> (r matches Err(m) && m@
            == "Could not grab preferred shell from $SHELL"@),
{
    match shell_env {
        Some(p) => Ok(
            ShellCommand { program: p, term: String::from_str("xterm-256color") },
        ),
        None => Err(String::from_str("Could not grab preferred shell from $SHELL")),
    }
}

} // verus!

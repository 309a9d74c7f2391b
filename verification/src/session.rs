//! The outer session state machine: one session runs the loop against one
//! resource locator; a re-target quit request tears the whole session down
//! and builds a fresh one, carrying only the session-independent
//! configuration over; a plain termination request ends the process.

use vstd::prelude::*;

verus! {

/// The locator of the resource a session runs against.
pub struct RepoPath {
    pub path: Vec<u8>,
}

/// Opaque handle for the loaded display theme; the driver never inspects it,
/// it only carries the value from one session to the next.
#[derive(Clone, Copy, Debug, PartialEq, Eq, Structural)]
pub struct Theme {
    pub id: u64,
}

/// Opaque handle for the loaded keybinding table; carried like the theme.
#[derive(Clone, Copy, Debug, PartialEq, Eq, Structural)]
pub struct KeyConfig {
    pub id: u64,
}

/// The default keybinding table, substituted when loading fails.
pub open spec fn default_key_config() -> KeyConfig {
    KeyConfig { id: 0 }
}

impl Default for KeyConfig {
    /// The fallback table used when the keybinding loader fails.
    fn default() -> (r: KeyConfig)
        ensures
            r == default_key_config(),
    {
        KeyConfig { id: 0 }
    }
}

/// A keybinding-load failure is non-fatal: the loop substitutes the default
/// table and carries on; a loaded table is used as it is.
pub fn key_config_or_default(loaded: Option<KeyConfig>) -> (r: KeyConfig)
    ensures
        loaded matches Some(k) ==> r == k,
        loaded is None ==> r == default_key_config(),
{
    match loaded {
        Some(k) => k,
        None => KeyConfig::default(),
    }
}

/// The session-independent configuration, carried over unchanged when a
/// session is rebuilt.
#[derive(Clone, Copy, Debug, PartialEq, Eq, Structural)]
pub struct SessionConfig {
    pub theme: Theme,
    pub key_config: KeyConfig,
}

/// The terminal state of a session: the application either asks for plain
/// termination or to re-target a different resource locator.
pub enum SessionRequest {
    Terminate,
    Retarget(RepoPath),
}

/// One run of the loop against one locator. The generation counts rebuilds:
/// a new generation stands for a fresh application instance and a fresh
/// channel set, since neither outlives its session.
pub struct Session {
    pub repo: RepoPath,
    pub config: SessionConfig,
    pub generation: u64,
}

/// The first session of the process.
pub fn initial_session(repo: RepoPath, config: SessionConfig) -> (r: Session)
    ensures
        r.repo == repo,
        r.config == config,
        r.generation == 0,
{
    Session { repo, config, generation: 0 }
}

/// Honors a session's quit request. Termination ends the outer loop; a
/// re-target request consumes the old session whole and yields a fresh one
/// against the new locator, with the theme and keybinding configuration
/// identical by value and a generation no earlier session ever had.
pub fn apply_request(s: Session, req: SessionRequest) -> (r: Option<Session>)
    requires
        s.generation < u64::MAX,
    ensures
        req is Terminate ==> r is None,
        req matches SessionRequest::Retarget(p) ==> r matches Some(n) && n.repo == p && n.config
            == s.config && n.generation == s.generation + 1,
{
    match req {
        SessionRequest::Terminate => None,
        SessionRequest::Retarget(p) => Some(
            Session { repo: p, config: s.config, generation: s.generation + 1 },
        ),
    }
}

/// Law: a re-target request rebuilds the session fresh: the new session has
/// the new locator, a generation distinct from the old one (so the old
/// application instance and channel set cannot be the new ones), while the
/// display theme and the keybinding table are identical by value.
pub proof fn lemma_retarget_rebuilds_fresh(s: Session, n: Session, p: RepoPath)
    requires
        s.generation < u64::MAX,
        n.repo == p,
        n.config == s.config,
        n.generation == s.generation + 1,
    ensures
        n.generation != s.generation,
        n.config.theme == s.config.theme,
        n.config.key_config == s.config.key_config,
        n.repo == p,
{
}

} // verus!

use vstd::prelude::*;

use crate::error::PillError;

verus! {

/// The kind of backend a process has chosen.
#[derive(PartialEq, Eq, Structural, Clone, Copy, Debug)]
pub enum DbType {
    InMemory,
    Local,
    Remote,
    EmbeddedReplica,
}

/// What `init` is asked to open.
#[derive(Debug)]
pub enum ConnectionConfig {
    InMemory,
    LocalFile { path: String },
    Remote { url: String, auth_token: String },
    EmbeddedReplica {
        path: String,
        url: String,
        auth_token: String,
        sync_interval_secs: Option<u64>,
    },
}

/// Life cycle of the single connection of a process.
#[derive(PartialEq, Eq, Structural, Clone, Copy, Debug)]
pub enum ConnectionState {
    /// No backend chosen yet.
    Uninitialized,
    /// The backend is chosen and its handle is held.
    Open(DbType),
    /// The backend was chosen and its handle released; it cannot be chosen again.
    Closed(DbType),
}

/// What a synchronisation request amounts to for the open backend.
#[derive(PartialEq, Eq, Structural, Clone, Copy, Debug)]
pub enum SyncStep {
    /// Nothing to exchange: the progress value is 0.
    Skip,
    /// A push/pull round trip with the remote counterpart is due.
    RoundTrip,
}

pub open spec fn config_kind(c: ConnectionConfig) -> DbType {
    match c {
        ConnectionConfig::InMemory => DbType::InMemory,
        ConnectionConfig::LocalFile { .. } => DbType::Local,
        ConnectionConfig::Remote { .. } => DbType::Remote,
        ConnectionConfig::EmbeddedReplica { .. } => DbType::EmbeddedReplica,
    }
}

/// A URL with a non-empty scheme followed by "://" and a non-empty rest.
pub open spec fn has_scheme(s: Seq<char>) -> bool {
    exists|k: int|
        1 <= k && k + 3 < s.len() && #[trigger] s[k] == ':' && s[k + 1] == '/' && s[k + 2] == '/'
}

/// The paths and URLs of a configuration are usable: paths are not empty
/// and URLs carry a scheme.
pub open spec fn config_well_formed(c: ConnectionConfig) -> bool {
    match c {
        ConnectionConfig::InMemory => true,
        ConnectionConfig::LocalFile { path } => path@.len() > 0,
        ConnectionConfig::Remote { url, .. } => has_scheme(url@),
        ConnectionConfig::EmbeddedReplica { path, url, .. } => path@.len() > 0 && has_scheme(url@),
    }
}

/// Only an embedded replica exchanges frames with a remote counterpart.
pub open spec fn sync_step_of(kind: DbType) -> SyncStep {
    if kind == DbType::EmbeddedReplica {
        SyncStep::RoundTrip
    } else {
        SyncStep::Skip
    }
}

/// The backend chosen so far, open or closed.
pub open spec fn chosen(s: ConnectionState) -> Option<DbType> {
    match s {
        ConnectionState::Uninitialized => None,
        ConnectionState::Open(k) => Some(k),
        ConnectionState::Closed(k) => Some(k),
    }
}

/// Whether an `init` may still choose a backend.
pub open spec fn accepts_init(s: ConnectionState) -> bool {
    s == ConnectionState::Uninitialized
}

/// The state after an attempt to open a backend of kind `kind`, given
/// whether opening it succeeded.
pub open spec fn init_transition(s: ConnectionState, kind: DbType, opened: bool) -> ConnectionState {
    if accepts_init(s) && opened {
        ConnectionState::Open(kind)
    } else {
        s
    }
}

/// Write-once holder of the backend choice: initialised at most once per
/// process, then only closed.
pub struct ConnectionManager {
    state: ConnectionState,
}

impl View for ConnectionManager {
    type V = ConnectionState;

    closed spec fn view(&self) -> ConnectionState {
        self.state
    }
}

fn url_has_scheme(url: &str) -> (r: bool)
    ensures
        r == has_scheme(url@),
{
    let n = url.unicode_len();
    if n < 5 {
        return false;
    }
    let mut k: usize = 1;
    while k + 3 < n
        invariant
            1 <= k,
            k + 3 <= n,
            n == url@.len(),
            forall|q: int|
                1 <= q < k ==> !(#[trigger] url@[q] == ':' && url@[q + 1] == '/' && url@[q + 2] == '/'),
        decreases n - k,
    {
        if url.get_char(k) == ':' && url.get_char(k + 1) == '/' && url.get_char(k + 2) == '/' {
            return true;
        }
        k = k + 1;
    }
    false
}

/// Whether the paths and URLs of `config` are usable.
pub fn is_well_formed(config: &ConnectionConfig) -> (r: bool)
    ensures
        r == config_well_formed(*config),
{
    match config {
        ConnectionConfig::InMemory => true,
        ConnectionConfig::LocalFile { path } => path.unicode_len() > 0,
        ConnectionConfig::Remote { url, .. } => url_has_scheme(url.as_str()),
        ConnectionConfig::EmbeddedReplica { path, url, .. } => path.unicode_len() > 0
            && url_has_scheme(url.as_str()),
    }
}

/// The backend kind that `config` selects.
pub fn kind_of(config: &ConnectionConfig) -> (k: DbType)
    ensures
        k == config_kind(*config),
{
    match config {
        ConnectionConfig::InMemory => DbType::InMemory,
        ConnectionConfig::LocalFile { .. } => DbType::Local,
        ConnectionConfig::Remote { .. } => DbType::Remote,
        ConnectionConfig::EmbeddedReplica { .. } => DbType::EmbeddedReplica,
    }
}

impl ConnectionManager {
    /// A manager with no backend chosen.
    pub fn new() -> (m: ConnectionManager)
        ensures
            m@ == ConnectionState::Uninitialized,
    {
        ConnectionManager { state: ConnectionState::Uninitialized }
    }

    /// The state of the connection.
    pub fn state(&self) -> (s: ConnectionState)
        ensures
            s == self@,
    {
        self.state
    }

    /// First half of `init`: decides, before anything is opened, whether
    /// `config` may be opened. Once a backend was chosen every further
    /// attempt fails with `AlreadyInitialized`; a malformed path or URL fails
    /// with `ConnectionError`; otherwise the backend kind to open is returned.
    pub fn plan_init(&self, config: &ConnectionConfig) -> (r: Result<DbType, PillError>)
        ensures
            self@ != ConnectionState::Uninitialized ==> r matches Err(PillError::AlreadyInitialized),
            self@ == ConnectionState::Uninitialized && !config_well_formed(*config) ==> r matches Err(
                PillError::ConnectionError(_),
            ),
            self@ == ConnectionState::Uninitialized && config_well_formed(*config) ==> r == Ok::<
                DbType,
                PillError,
            >(config_kind(*config)),
    {
        if self.state != ConnectionState::Uninitialized {
            return Err(PillError::AlreadyInitialized);
        }
        if !is_well_formed(config) {
            return Err(PillError::ConnectionError(String::from_str("malformed path or URL")));
        }
        Ok(kind_of(config))
    }

    /// Second half of `init`: records the outcome of opening a backend of
    /// kind `kind`. Success makes it the open backend for good; a failure to
    /// open becomes `ConnectionError` and leaves nothing chosen, so the
    /// caller may try again.
    pub fn finish_init(&mut self, kind: DbType, opened: Result<(), String>) -> (r: Result<
        (),
        PillError,
    >)
        ensures
            final(self)@ == init_transition(old(self)@, kind, opened is Ok),
            old(self)@ != ConnectionState::Uninitialized ==> (r matches Err(
                PillError::AlreadyInitialized,
            )) && final(self)@ == old(self)@,
            old(self)@ == ConnectionState::Uninitialized && opened is Err ==> (r matches Err(
                PillError::ConnectionError(_),
            )) && final(self)@ == old(self)@,
            old(self)@ == ConnectionState::Uninitialized && opened is Ok ==> r is Ok && final(self)@
                == ConnectionState::Open(kind),
    {
        if self.state != ConnectionState::Uninitialized {
            return Err(PillError::AlreadyInitialized);
        }
        match opened {
            Ok(()) => {
                self.state = ConnectionState::Open(kind);
                Ok(())
            },
            Err(msg) => Err(PillError::ConnectionError(msg)),
        }
    }

    /// The open backend, or `NotInitialized` when no handle is held.
    pub fn get(&self) -> (r: Result<DbType, PillError>)
        ensures
            self@ matches ConnectionState::Open(k) ==> r == Ok::<DbType, PillError>(k),
            !(self@ is Open) ==> r matches Err(PillError::NotInitialized),
    {
        match self.state {
            ConnectionState::Open(k) => Ok(k),
            _ => Err(PillError::NotInitialized),
        }
    }

    /// First half of `sync`: what a synchronisation amounts to for the open backend.
    pub fn plan_sync(&self) -> (r: Result<SyncStep, PillError>)
        ensures
            self@ matches ConnectionState::Open(k) ==> r == Ok::<SyncStep, PillError>(
                sync_step_of(k),
            ),
            !(self@ is Open) ==> r matches Err(PillError::NotInitialized),
    {
        match self.state {
            ConnectionState::Open(k) => {
                if k == DbType::EmbeddedReplica {
                    Ok(SyncStep::RoundTrip)
                } else {
                    Ok(SyncStep::Skip)
                }
            },
            _ => Err(PillError::NotInitialized),
        }
    }

    /// Releases the handle. Safe to repeat, and safe before any `init`; the
    /// backend stays chosen, so a later `init` still fails.
    pub fn close(&mut self)
        ensures
            old(self)@ matches ConnectionState::Open(k) ==> final(self)@ == ConnectionState::Closed(k),
            !(old(self)@ is Open) ==> final(self)@ == old(self)@,
    {
        if let ConnectionState::Open(k) = self.state {
            self.state = ConnectionState::Closed(k);
        }
    }
}

/// Second half of `sync`: the progress value of a round trip (the frame
/// number it reached, 0 when none is reported, saturated at `i64::MAX`), or
/// `SyncError` when it failed.
pub fn sync_progress(outcome: Result<Option<u64>, String>) -> (r: Result<i64, PillError>)
    ensures
        outcome is Err ==> r matches Err(PillError::SyncError(_)),
        outcome == Ok::<Option<u64>, String>(None) ==> r == Ok::<i64, PillError>(0),
        outcome matches Ok(Some(f)) ==> r == Ok::<i64, PillError>(
            if f <= i64::MAX {
                f as i64
            } else {
                i64::MAX
            },
        ),
{
    match outcome {
        Ok(Some(f)) => {
            if f <= i64::MAX as u64 {
                Ok(f as i64)
            } else {
                Ok(i64::MAX)
            }
        },
        Ok(None) => Ok(0),
        Err(msg) => Err(PillError::SyncError(msg)),
    }
}

/// Whether the chosen backend lives on a remote server: a remote
/// connection or an embedded replica.
pub fn is_remote(manager: &ConnectionManager) -> (r: bool)
    ensures
        r == (chosen(manager@) == Some(DbType::Remote) || chosen(manager@) == Some(
            DbType::EmbeddedReplica,
        )),
{
    match manager.state() {
        ConnectionState::Open(k) | ConnectionState::Closed(k) => k == DbType::Remote || k
            == DbType::EmbeddedReplica,
        ConnectionState::Uninitialized => false,
    }
}

/// Former name of [`is_remote`], kept for existing callers.
pub fn is_turso(manager: &ConnectionManager) -> (r: bool)
    ensures
        r == (chosen(manager@) == Some(DbType::Remote) || chosen(manager@) == Some(
            DbType::EmbeddedReplica,
        )),
{
    is_remote(manager)
}

} // verus!

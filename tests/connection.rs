use pillmom::connection::{
    is_remote, is_turso, is_well_formed, sync_progress, ConnectionConfig, ConnectionManager,
    ConnectionState, DbType, SyncStep,
};
use pillmom::error::PillError;

fn remote(url: &str) -> ConnectionConfig {
    ConnectionConfig::Remote { url: url.to_string(), auth_token: "SECRET-REDACTED".to_string() }
}

#[test]
fn init_is_write_once() {
    let mut m = ConnectionManager::new();
    let kind = m.plan_init(&remote("libsql://db.example.org")).unwrap();
    assert_eq!(kind, DbType::Remote);
    m.finish_init(kind, Ok(())).unwrap();
    assert!(matches!(m.plan_init(&ConnectionConfig::InMemory), Err(PillError::AlreadyInitialized)));
    assert!(matches!(m.finish_init(DbType::Local, Ok(())), Err(PillError::AlreadyInitialized)));
    assert_eq!(m.get().unwrap(), DbType::Remote);
}

#[test]
fn failed_open_can_be_retried() {
    let mut m = ConnectionManager::new();
    let r = m.finish_init(DbType::Local, Err("disk full".to_string()));
    assert!(matches!(r, Err(PillError::ConnectionError(_))));
    assert_eq!(m.state(), ConnectionState::Uninitialized);
    assert!(m.finish_init(DbType::Local, Ok(())).is_ok());
    assert_eq!(m.state(), ConnectionState::Open(DbType::Local));
}

#[test]
fn malformed_config_is_a_connection_error() {
    let m = ConnectionManager::new();
    let no_path = ConnectionConfig::LocalFile { path: String::new() };
    assert!(matches!(m.plan_init(&no_path), Err(PillError::ConnectionError(_))));
    assert!(matches!(m.plan_init(&remote("db.example.org")), Err(PillError::ConnectionError(_))));
    assert!(!is_well_formed(&remote("://x")));
    assert!(is_well_formed(&remote("https://x")));
    let replica = ConnectionConfig::EmbeddedReplica {
        path: "local.db".to_string(),
        url: "libsql://x.turso.io".to_string(),
        auth_token: String::new(),
        sync_interval_secs: Some(60),
    };
    assert_eq!(m.plan_init(&replica).unwrap(), DbType::EmbeddedReplica);
    let local = ConnectionConfig::LocalFile { path: "pillmom.db".to_string() };
    assert_eq!(m.plan_init(&local).unwrap(), DbType::Local);
}

#[test]
fn get_before_init_is_not_initialized() {
    let m = ConnectionManager::new();
    assert!(matches!(m.get(), Err(PillError::NotInitialized)));
    assert!(matches!(m.plan_sync(), Err(PillError::NotInitialized)));
}

#[test]
fn sync_runs_only_for_replicas() {
    for (kind, step) in [
        (DbType::InMemory, SyncStep::Skip),
        (DbType::Local, SyncStep::Skip),
        (DbType::Remote, SyncStep::Skip),
        (DbType::EmbeddedReplica, SyncStep::RoundTrip),
    ] {
        let mut m = ConnectionManager::new();
        m.finish_init(kind, Ok(())).unwrap();
        assert_eq!(m.plan_sync().unwrap(), step);
    }
}

#[test]
fn sync_progress_values() {
    assert_eq!(sync_progress(Ok(Some(17))).unwrap(), 17);
    assert_eq!(sync_progress(Ok(None)).unwrap(), 0);
    assert_eq!(sync_progress(Ok(Some(u64::MAX))).unwrap(), i64::MAX);
    assert!(matches!(sync_progress(Err("timeout".to_string())), Err(PillError::SyncError(_))));
}

#[test]
fn close_keeps_the_choice() {
    let mut m = ConnectionManager::new();
    m.close();
    assert_eq!(m.state(), ConnectionState::Uninitialized);
    m.finish_init(DbType::EmbeddedReplica, Ok(())).unwrap();
    m.close();
    m.close();
    assert_eq!(m.state(), ConnectionState::Closed(DbType::EmbeddedReplica));
    assert!(matches!(m.get(), Err(PillError::NotInitialized)));
    assert!(is_remote(&m));
}

#[test]
fn remote_kinds() {
    let mut local = ConnectionManager::new();
    assert!(!is_remote(&local));
    local.finish_init(DbType::Local, Ok(())).unwrap();
    assert!(!is_remote(&local));
    assert!(!is_turso(&local));
    let mut far = ConnectionManager::new();
    far.finish_init(DbType::Remote, Ok(())).unwrap();
    assert!(is_remote(&far));
    assert!(is_turso(&far));
}

#[test]
fn error_messages_are_readable() {
    assert_eq!(PillError::NotInitialized.message(), "database not initialized");
    assert_eq!(
        PillError::StorageError("disk I/O".to_string()).message(),
        "storage error: disk I/O"
    );
}

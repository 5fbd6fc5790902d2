use std::path::PathBuf;
use std::sync::Arc;

use nitro_share::config::{SessionConfig, SessionManagerConfig};
use nitro_share::user::session::dyn_session::{DynSessionManager, SessionError};
use nitro_share::user::session::{Session, SessionManager};

/// A persistent store that keeps its table in a vector and fails on demand.
struct FileStore {
    file: PathBuf,
    rows: Vec<Session>,
    config: Arc<SessionConfig>,
}

impl SessionManager for FileStore {
    type Error = String;
    type Config = PathBuf;

    fn new(file: PathBuf, session_config: SessionConfig) -> Result<Self, String> {
        if file == PathBuf::from("missing.redb") {
            return Err("no such file".to_string());
        }
        Ok(FileStore { file, rows: Vec::new(), config: Arc::new(session_config) })
    }

    fn create_session_with_life(&mut self, user_id: i64, life: i64) -> Result<Session, String> {
        if user_id < 0 {
            return Err("table is locked".to_string());
        }
        let id = format!("id{:05}", self.rows.len());
        let session = Session::starting_at(user_id, id, 1_000, life);
        self.rows.push(session.clone());
        Ok(session)
    }

    fn get_session(&self, session_id: &str) -> Result<Option<Session>, String> {
        if session_id == "broken" {
            return Err("read failed".to_string());
        }
        Ok(self.rows.iter().find(|row| row.session_id == session_id).cloned())
    }

    fn delete_session(&mut self, session_id: &str) -> Result<Option<Session>, String> {
        if session_id == "broken" {
            return Err("write failed".to_string());
        }
        match self.rows.iter().position(|row| row.session_id == session_id) {
            Some(at) => Ok(Some(self.rows.remove(at))),
            None => Ok(None),
        }
    }

    fn get_session_config(&self) -> Arc<SessionConfig> {
        self.config.clone()
    }

    fn get_session_config_ref(&self) -> &SessionConfig {
        &self.config
    }
}

type Store = DynSessionManager<FileStore>;

fn config() -> SessionConfig {
    SessionConfig { cookie_name: "sid".to_string(), allow_in_header: false, session_lifetime: 7_000 }
}

fn persistent() -> Store {
    Store::new(SessionManagerConfig::Redb { file: PathBuf::from("sessions.redb") }, config())
        .ok()
        .unwrap()
}

#[test]
fn memory_config_opens_the_volatile_store() {
    let store = Store::new(SessionManagerConfig::Memory { start_size: 4 }, config()).ok().unwrap();
    assert!(matches!(store, DynSessionManager::Memory(_)));
    assert_eq!(store.get_session_config_ref(), &config());
    assert_eq!(*store.get_session_config(), config());
}

#[test]
fn redb_config_opens_the_persistent_store() {
    match persistent() {
        DynSessionManager::Redb(store) => assert_eq!(store.file, PathBuf::from("sessions.redb")),
        DynSessionManager::Memory(_) => panic!("volatile store"),
    }
    assert_eq!(persistent().get_session_config_ref(), &config());
}

#[test]
fn persistent_store_that_cannot_open_reports_its_cause() {
    let opened = Store::new(SessionManagerConfig::Redb { file: PathBuf::from("missing.redb") }, config());
    assert_eq!(opened.err(), Some(SessionError::RedbError("no such file".to_string())));
}

#[test]
fn both_kinds_keep_the_same_contract() {
    let volatile = Store::new(SessionManagerConfig::default(), config()).ok().unwrap();
    for mut store in [volatile, persistent()] {
        let first = store.create_session(1).unwrap();
        let second = store.create_session_with_life(2, 50).unwrap();
        assert_ne!(first.session_id, second.session_id);
        assert_eq!(first.expires - first.created, 7_000);
        assert_eq!(second.expires - second.created, 50);
        assert_eq!(store.get_session(&first.session_id), Ok(Some(first.clone())));
        assert_eq!(store.get_session("nothere"), Ok(None));
        assert_eq!(store.delete_session(&first.session_id), Ok(Some(first.clone())));
        assert_eq!(store.delete_session(&first.session_id), Ok(None));
        assert_eq!(store.get_session(&first.session_id), Ok(None));
        assert_eq!(store.get_session(&second.session_id), Ok(Some(second)));
    }
}

#[test]
fn persistent_failures_surface_as_storage_errors() {
    let mut store = persistent();
    assert_eq!(
        store.create_session(-1),
        Err(SessionError::RedbError("table is locked".to_string()))
    );
    assert_eq!(store.get_session("broken"), Err(SessionError::RedbError("read failed".to_string())));
    assert_eq!(
        store.delete_session("broken"),
        Err(SessionError::RedbError("write failed".to_string()))
    );
}

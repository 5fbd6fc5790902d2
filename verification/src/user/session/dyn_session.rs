//! The session store of a deployment, whichever kind it runs, and the one
//! error kind behind which every kind of store reports its failures.

use std::path::PathBuf;
use std::sync::Arc;
use vstd::prelude::*;
use vstd::string::StringExecFns;

use super::memory::MemorySessionManager;
use super::{Session, SessionManager, SessionTable};
use crate::config::{SessionConfig, SessionManagerConfig};

verus! {

/// Why a session store could not do what it was asked.
///
/// `Infallible` stands for a store that has nothing to report, `RedbError`
/// carries the cause that a persistent store met, and `NoUnusedId` says that
/// the search for a free session id gave up.
#[derive(Debug, PartialEq, Eq)]
#[non_exhaustive]
pub enum SessionError {
    Infallible,
    RedbError(String),
    NoUnusedId,
}

impl Clone for SessionError {
    fn clone(&self) -> (copy: Self)
        ensures
            copy == *self,
    {
        match self {
            SessionError::Infallible => SessionError::Infallible,
            SessionError::RedbError(cause) => SessionError::RedbError(cause.clone()),
            SessionError::NoUnusedId => SessionError::NoUnusedId,
        }
    }
}

impl SessionError {
    /// What [`SessionError::to_text`] spells.
    pub open spec fn spec_to_text(&self) -> Seq<char> {
        match self {
            SessionError::Infallible => "Infallible. This is cool."@,
            SessionError::RedbError(cause) =>
                "Redb Error: Must likely the database is locked or corrupted. These sessions are short lived. So just delete the database and restart the server. If this problem persists. Please report it. "@
                    + cause@,
            SessionError::NoUnusedId => "No unused session id was found."@,
        }
    }

    /// The error in words, for logs and operators.
    pub fn to_text(&self) -> (text: String)
        ensures
            text@ == self.spec_to_text(),
    {
        match self {
            SessionError::Infallible => "Infallible. This is cool.".to_owned(),
            SessionError::RedbError(cause) => {
                let advice =
                    "Redb Error: Must likely the database is locked or corrupted. These sessions are short lived. So just delete the database and restart the server. If this problem persists. Please report it. ".to_owned();
                advice.concat(cause.as_str())
            },
            SessionError::NoUnusedId => "No unused session id was found.".to_owned(),
        }
    }
}

/// The session store of a deployment: the volatile store, or a persistent
/// store `R` that keeps its table in a file and reports its failures as
/// text.
pub enum DynSessionManager<R> {
    Memory(MemorySessionManager),
    Redb(R),
}

impl<R: SessionManager<Config = PathBuf, Error = String>> SessionManager for DynSessionManager<R> {
    type Error = SessionError;

    type Config = SessionManagerConfig;

    open spec fn sessions(&self) -> SessionTable {
        match self {
            DynSessionManager::Memory(store) => store.sessions(),
            DynSessionManager::Redb(store) => store.sessions(),
        }
    }

    open spec fn settings(&self) -> SessionConfig {
        match self {
            DynSessionManager::Memory(store) => store.settings(),
            DynSessionManager::Redb(store) => store.settings(),
        }
    }

    open spec fn wf(&self) -> bool {
        match self {
            DynSessionManager::Memory(store) => store.wf(),
            DynSessionManager::Redb(store) => store.wf(),
        }
    }

    /// The volatile store fails as it says; a persistent store fails with a
    /// storage error that carries one of its own causes.
    open spec fn creation_error(&self, error: SessionError) -> bool {
        match self {
            DynSessionManager::Memory(store) => store.creation_error(error),
            DynSessionManager::Redb(store) => error matches SessionError::RedbError(cause)
                && store.creation_error(cause),
        }
    }

    /// Opens the kind of store that `manager_config` names. A persistent
    /// store that cannot be opened fails with its cause.
    fn new(manager_config: SessionManagerConfig, session_config: SessionConfig) -> (opened: Result<
        Self,
        SessionError,
    >)
        ensures
            manager_config is Memory ==> opened is Ok && opened->Ok_0 is Memory,
            manager_config is Redb ==> match opened {
                Ok(store) => store is Redb,
                Err(error) => error is RedbError,
            },
    {
        match manager_config {
            SessionManagerConfig::Memory { start_size } => {
                match MemorySessionManager::new(start_size, session_config) {
                    Ok(store) => Ok(DynSessionManager::Memory(store)),
                    Err(error) => Err(error),
                }
            },
            SessionManagerConfig::Redb { file } => {
                match R::new(file, session_config) {
                    Ok(store) => Ok(DynSessionManager::Redb(store)),
                    Err(cause) => Err(SessionError::RedbError(cause)),
                }
            },
        }
    }

    fn create_session_with_life(&mut self, user_id: i64, life: i64) -> (created: Result<
        Session,
        SessionError,
    >) {
        match self {
            DynSessionManager::Memory(store) => store.create_session_with_life(user_id, life),
            DynSessionManager::Redb(store) => match store.create_session_with_life(user_id, life) {
                Ok(session) => Ok(session),
                Err(cause) => Err(SessionError::RedbError(cause)),
            },
        }
    }

    fn get_session(&self, session_id: &str) -> (found: Result<Option<Session>, SessionError>)
        ensures
            self is Memory ==> found is Ok,
            found matches Err(error) ==> error is RedbError,
    {
        match self {
            DynSessionManager::Memory(store) => store.get_session(session_id),
            DynSessionManager::Redb(store) => match store.get_session(session_id) {
                Ok(session) => Ok(session),
                Err(cause) => Err(SessionError::RedbError(cause)),
            },
        }
    }

    fn delete_session(&mut self, session_id: &str) -> (removed: Result<
        Option<Session>,
        SessionError,
    >)
        ensures
            *old(self) is Memory ==> removed is Ok,
            removed matches Err(error) ==> error is RedbError,
    {
        match self {
            DynSessionManager::Memory(store) => store.delete_session(session_id),
            DynSessionManager::Redb(store) => match store.delete_session(session_id) {
                Ok(session) => Ok(session),
                Err(cause) => Err(SessionError::RedbError(cause)),
            },
        }
    }

    fn get_session_config(&self) -> (config: Arc<SessionConfig>) {
        match self {
            DynSessionManager::Memory(store) => store.get_session_config(),
            DynSessionManager::Redb(store) => store.get_session_config(),
        }
    }

    fn get_session_config_ref(&self) -> (config: &SessionConfig) {
        match self {
            DynSessionManager::Memory(store) => store.get_session_config_ref(),
            DynSessionManager::Redb(store) => store.get_session_config_ref(),
        }
    }
}

} // verus!

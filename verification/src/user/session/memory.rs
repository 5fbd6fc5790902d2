//! The volatile session store: sessions in a hash map owned by the store.

use ahash::HashMapExt;
use std::collections::HashMap;
use std::sync::Arc;
use vstd::prelude::*;

use super::dyn_session::SessionError;
use super::{
    create_session_id, filed_by_id, found_view, is_creation, lookup, no_sessions, Session,
    SessionManager, SessionTable,
};
use crate::config::SessionConfig;
use crate::utils::clock::now_millis;

verus! {

/// The hasher state of the `ahash` crate. The map carries it; nothing looks
/// into it.
#[verifier::external_type_specification]
#[verifier::external_body]
pub struct ExRandomState(ahash::RandomState);

/// The map the volatile store keeps its sessions in.
pub type SessionMap = HashMap<String, Session, ahash::RandomState>;

/// The most entries a new store reserves room for.
pub const MAX_START_SIZE: usize = 65536;

/// What a `SessionMap` holds: the session filed under each key, as plain
/// values.
pub uninterp spec fn session_map_entries(table: SessionMap) -> SessionTable;

/// `ahash::HashMapExt::with_capacity`, which builds a standard `HashMap`
/// with the `ahash` hasher: the map is empty. The bound keeps the
/// reservation far below the size at which the table's layout no longer fits
/// the address space and the call gives up.
#[verifier::external_body]
fn map_with_capacity(capacity: usize) -> (table: SessionMap)
    requires
        capacity <= MAX_START_SIZE,
    ensures
        session_map_entries(table) == no_sessions(),
{
    SessionMap::with_capacity(capacity)
}

/// `HashMap::contains_key` of the standard library: whether the map holds
/// the key `session_id`.
#[verifier::external_body]
fn map_contains_key(table: &SessionMap, session_id: &str) -> (found: bool)
    ensures
        found == session_map_entries(*table).contains_key(session_id@),
{
    table.contains_key(session_id)
}

/// `HashMap::get` of the standard library: the session filed under
/// `session_id`, if there is one.
#[verifier::external_body]
fn map_get<'a>(table: &'a SessionMap, session_id: &str) -> (found: Option<&'a Session>)
    ensures
        match found {
            Some(session) => lookup(session_map_entries(*table), session_id@) == Some(session@),
            None => lookup(session_map_entries(*table), session_id@) is None,
        },
{
    table.get(session_id)
}

/// `HashMap::insert` of the standard library: files `session` under
/// `session_id`, replacing what was there, and hands back what was there.
#[verifier::external_body]
fn map_insert(table: &mut SessionMap, session_id: String, session: Session) -> (previous: Option<
    Session,
>)
    ensures
        session_map_entries(*final(table)) == session_map_entries(*old(table)).insert(
            session_id@,
            session@,
        ),
        found_view(previous) == lookup(session_map_entries(*old(table)), session_id@),
{
    table.insert(session_id, session)
}

/// `HashMap::remove` of the standard library: takes out the session filed
/// under `session_id` and hands it back; a map without such a session stays
/// as it is.
#[verifier::external_body]
fn map_remove(table: &mut SessionMap, session_id: &str) -> (removed: Option<Session>)
    ensures
        session_map_entries(*final(table)) == session_map_entries(*old(table)).remove(
            session_id@,
        ),
        found_view(removed) == lookup(session_map_entries(*old(table)), session_id@),
{
    table.remove(session_id)
}

/// The volatile session store. Its sessions are lost when it is dropped.
pub struct MemorySessionManager {
    sessions: SessionMap,
    config: Arc<SessionConfig>,
}

impl MemorySessionManager {
    /// Files a new session for `user_id` under `session_id`, created at
    /// `created` with a lifetime of `life` milliseconds, unless the store
    /// already holds that id. Probing and filing happen while the store is
    /// held exclusively, so no other writer comes between them.
    pub fn create_session_under(
        &mut self,
        session_id: String,
        user_id: i64,
        created: i64,
        life: i64,
    ) -> (filed: Option<Session>)
        requires
            old(self).wf(),
        ensures
            final(self).wf(),
            final(self).settings() == old(self).settings(),
            match filed {
                Some(session) => {
                    &&& !old(self).sessions().contains_key(session_id@)
                    &&& session@ == Session::spec_starting_at(user_id, session_id@, created, life)
                    &&& final(self).sessions() == old(self).sessions().insert(
                        session_id@,
                        session@,
                    )
                },
                None => old(self).sessions().contains_key(session_id@) && final(self).sessions()
                    == old(self).sessions(),
            },
    {
        if map_contains_key(&self.sessions, session_id.as_str()) {
            return None;
        }
        let session = Session::starting_at(user_id, session_id.clone(), created, life);
        let filed = session.clone();
        map_insert(&mut self.sessions, session_id, filed);
        Some(session)
    }
}

impl SessionManager for MemorySessionManager {
    type Error = SessionError;

    type Config = usize;

    closed spec fn sessions(&self) -> SessionTable {
        session_map_entries(self.sessions)
    }

    closed spec fn settings(&self) -> SessionConfig {
        *self.config
    }

    closed spec fn wf(&self) -> bool {
        filed_by_id(session_map_entries(self.sessions))
    }

    /// The volatile store fails to create a session only when the search
    /// for an unused id gives up.
    open spec fn creation_error(&self, error: SessionError) -> bool {
        error == SessionError::NoUnusedId
    }

    /// An empty store with room for `start_size` sessions, or for
    /// `MAX_START_SIZE` where more is asked for.
    fn new(start_size: usize, session_config: SessionConfig) -> (opened: Result<Self, SessionError>)
        ensures
            opened is Ok,
            opened->Ok_0.sessions() == no_sessions(),
    {
        let capacity: usize = if start_size <= MAX_START_SIZE {
            start_size
        } else {
            MAX_START_SIZE
        };
        Ok(MemorySessionManager {
            sessions: map_with_capacity(capacity),
            config: Arc::new(session_config),
        })
    }

    fn create_session_with_life(&mut self, user_id: i64, life: i64) -> (created: Result<
        Session,
        SessionError,
    >) {
        let sessions = &self.sessions;
        let in_use = |id: &str| -> (found: bool)
            ensures
                found == session_map_entries(*sessions).contains_key(id@),
            { map_contains_key(sessions, id) };
        let picked = create_session_id(in_use);
        match picked {
            None => Err(SessionError::NoUnusedId),
            Some(session_id) => {
                let created = now_millis();
                match self.create_session_under(session_id, user_id, created, life) {
                    Some(session) => Ok(session),
                    None => Err(SessionError::NoUnusedId),
                }
            },
        }
    }

    fn get_session(&self, session_id: &str) -> (found: Result<Option<Session>, SessionError>)
        ensures
            found is Ok,
    {
        match map_get(&self.sessions, session_id) {
            Some(session) => Ok(Some(session.clone())),
            None => Ok(None),
        }
    }

    fn delete_session(&mut self, session_id: &str) -> (removed: Result<
        Option<Session>,
        SessionError,
    >)
        ensures
            removed is Ok,
    {
        Ok(map_remove(&mut self.sessions, session_id))
    }

    fn get_session_config(&self) -> (config: Arc<SessionConfig>) {
        self.config.clone()
    }

    fn get_session_config_ref(&self) -> (config: &SessionConfig) {
        &self.config
    }
}

} // verus!

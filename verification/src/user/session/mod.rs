//! Sessions, the rule that mints their ids, and the contract every session
//! store keeps.

pub mod dyn_session;
pub mod memory;

use std::sync::Arc;
use vstd::prelude::*;

use crate::config::SessionConfig;
use crate::utils::clock::now_millis;
use crate::utils::random::{random_alphanumeric, seeded_rng};
use rand::rngs::StdRng;
use crate::utils::text::all_alphanumeric;

verus! {

/// Number of characters in a session id.
pub const SESSION_ID_LENGTH: usize = 7;

/// A server-issued proof of a login. `expires` and `created` are
/// milliseconds since the Unix epoch.
#[derive(Debug, PartialEq, Eq)]
pub struct Session {
    pub user_id: i64,
    pub session_id: String,
    pub expires: i64,
    pub created: i64,
}

/// A session as plain mathematical values.
pub struct SessionView {
    pub user_id: int,
    pub session_id: Seq<char>,
    pub expires: int,
    pub created: int,
}

/// A session laid out for a key-value table:
/// `(user_id, session_id, expires, created)`.
pub type SessionTuple<'value> = (i64, &'value str, i64, i64);

impl View for Session {
    type V = SessionView;

    open spec fn view(&self) -> SessionView {
        SessionView {
            user_id: self.user_id as int,
            session_id: self.session_id@,
            expires: self.expires as int,
            created: self.created as int,
        }
    }
}

impl Clone for Session {
    fn clone(&self) -> (copy: Self)
        ensures
            copy == *self,
    {
        Session {
            user_id: self.user_id,
            session_id: self.session_id.clone(),
            expires: self.expires,
            created: self.created,
        }
    }
}

/// The instant at which a session created at `created` with lifetime `life`
/// expires: their sum, held inside the range of `i64`.
pub open spec fn expiry_of(created: int, life: int) -> int {
    if created + life > i64::MAX {
        i64::MAX as int
    } else if created + life < i64::MIN {
        i64::MIN as int
    } else {
        created + life
    }
}

/// The shape of a generated session id: seven ASCII letters or digits.
pub open spec fn is_session_id(id: Seq<char>) -> bool {
    id.len() == SESSION_ID_LENGTH && all_alphanumeric(id)
}

/// `created + life`, held inside the range of `i64`.
fn expiry(created: i64, life: i64) -> (expires: i64)
    ensures
        expires == expiry_of(created as int, life as int),
{
    match created.checked_add(life) {
        Some(sum) => sum,
        None => if life > 0 {
            i64::MAX
        } else {
            i64::MIN
        },
    }
}

impl Session {
    /// A session for `user_id` that starts now and lives for `life`
    /// milliseconds. The clock decides `created`; everything else follows
    /// from it as in [`Session::starting_at`].
    pub fn new(user_id: i64, session_id: String, life: i64) -> (session: Session)
        ensures
            session.created < i64::MAX,
            session@ == Self::spec_starting_at(user_id, session_id@, session.created, life),
    {
        let created = now_millis();
        Session::starting_at(user_id, session_id, created, life)
    }

    /// What [`Session::starting_at`] builds.
    pub open spec fn spec_starting_at(
        user_id: i64,
        session_id: Seq<char>,
        created: i64,
        life: i64,
    ) -> SessionView {
        SessionView {
            user_id: user_id as int,
            session_id,
            expires: expiry_of(created as int, life as int),
            created: created as int,
        }
    }

    /// A session for `user_id` created at `created` that lives for `life`
    /// milliseconds.
    pub fn starting_at(user_id: i64, session_id: String, created: i64, life: i64) -> (session:
        Session)
        ensures
            session@ == Self::spec_starting_at(user_id, session_id@, created, life),
            session.session_id == session_id,
    {
        Session { user_id, session_id, expires: expiry(created, life), created }
    }

    /// A session is valid at `now` exactly while `now < expires`.
    pub open spec fn valid_at(&self, now: i64) -> bool {
        now < self.expires
    }

    /// Whether the session has run out at the instant `now`.
    pub fn is_expired_at(&self, now: i64) -> (expired: bool)
        ensures
            expired == !self.valid_at(now),
    {
        self.expires <= now
    }

    /// Whether the session has run out by the clock's present reading.
    pub fn is_expired(&self) -> (expired: bool)
        ensures
            exists|now: i64| now < i64::MAX && expired == !self.valid_at(now),
    {
        let now = now_millis();
        self.is_expired_at(now)
    }

    /// A table layout as plain values.
    pub open spec fn tuple_view(tuple: SessionTuple) -> (int, Seq<char>, int, int) {
        (tuple.0 as int, tuple.1@, tuple.2 as int, tuple.3 as int)
    }

    /// The session that a table layout stands for.
    pub open spec fn spec_from_tuple(tuple: (int, Seq<char>, int, int)) -> SessionView {
        SessionView { user_id: tuple.0, session_id: tuple.1, expires: tuple.2, created: tuple.3 }
    }

    /// The table layout of a session:
    /// `(user_id, session_id, expires, created)`.
    pub open spec fn spec_as_tuple(session: SessionView) -> (int, Seq<char>, int, int) {
        (session.user_id, session.session_id, session.expires, session.created)
    }

    /// Rebuilds a session from its table layout.
    pub fn from_tuple(tuple: SessionTuple) -> (session: Session)
        ensures
            session@ == Self::spec_from_tuple(Self::tuple_view(tuple)),
    {
        let (user_id, session_id, expires, created) = tuple;
        Session { user_id, session_id: session_id.to_owned(), expires, created }
    }

    /// The session in its table layout, borrowing the id.
    pub fn as_tuple_ref(&self) -> (tuple: SessionTuple)
        ensures
            Self::tuple_view(tuple) == Self::spec_as_tuple(self@),
    {
        (self.user_id, self.session_id.as_str(), self.expires, self.created)
    }

    /// A session with a positive lifetime, created before the end of time,
    /// expires after it was created.
    pub proof fn lemma_expires_after_created(user_id: i64, session_id: Seq<char>, created: i64, life: i64)
        requires
            life > 0,
            created < i64::MAX,
        ensures
            Self::spec_starting_at(user_id, session_id, created, life).expires
                > Self::spec_starting_at(user_id, session_id, created, life).created,
    {
    }

    /// Laying a session out as a tuple and reading it back gives the same
    /// session, and the other way round.
    pub proof fn lemma_tuple_round_trip(session: SessionView, tuple: (int, Seq<char>, int, int))
        ensures
            Self::spec_from_tuple(Self::spec_as_tuple(session)) == session,
            Self::spec_as_tuple(Self::spec_from_tuple(tuple)) == tuple,
    {
    }
}

/// Decides on one candidate id: it is taken exactly when the store says it
/// is not in use.
pub fn unused_session_id(candidate: String, exists_call_back: &impl Fn(&str) -> bool) -> (picked:
    Option<String>)
    requires
        forall|id: &str| call_requires(*exists_call_back, (id,)),
    ensures
        match picked {
            Some(id) => id == candidate && exists|probe: &str|
                probe@ == candidate@ && call_ensures(*exists_call_back, (probe,), false),
            None => exists|probe: &str|
                probe@ == candidate@ && call_ensures(*exists_call_back, (probe,), true),
        },
{
    let in_use = exists_call_back(candidate.as_str());
    if in_use {
        None
    } else {
        Some(candidate)
    }
}

/// Every candidate of `rejected` has the shape of a generated id and was
/// reported as in use.
pub open spec fn all_in_use<F: Fn(&str) -> bool>(exists_call_back: F, rejected: Seq<&str>) -> bool {
    forall|i: int|
        0 <= i < rejected.len() ==> is_session_id((#[trigger] rejected[i])@) && call_ensures(
            exists_call_back,
            (rejected[i],),
            true,
        )
}

/// `id` is the first candidate that was reported as unused: it has the shape
/// of a generated id, the callback said so of it, and it came after fewer
/// than `attempts` candidates that were all in use.
pub open spec fn is_first_unused<F: Fn(&str) -> bool>(
    exists_call_back: F,
    attempts: u64,
    id: Seq<char>,
) -> bool {
    &&& is_session_id(id)
    &&& exists|probe: &str| probe@ == id && call_ensures(exists_call_back, (probe,), false)
    &&& exists|rejected: Seq<&str>|
        rejected.len() < attempts && all_in_use(exists_call_back, rejected)
}

/// Draws candidate ids from `rng` until `exists_call_back` reports one as
/// unused, for at most `attempts` draws.
///
/// The first candidate reported as unused is the result. `None` means that
/// `attempts` candidates were drawn and every one of them was in use.
pub fn create_session_id_from(
    rng: &mut StdRng,
    attempts: u64,
    exists_call_back: impl Fn(&str) -> bool,
) -> (picked: Option<String>)
    requires
        forall|id: &str| call_requires(exists_call_back, (id,)),
    ensures
        match picked {
            Some(id) => is_first_unused(exists_call_back, attempts, id@),
            None => exists|rejected: Seq<&str>|
                rejected.len() == attempts && all_in_use(exists_call_back, rejected),
        },
{
    let ghost mut rejected: Seq<&str> = Seq::empty();
    for attempt in 0..attempts
        invariant
            forall|id: &str| call_requires(exists_call_back, (id,)),
            rejected.len() == attempt,
            all_in_use(exists_call_back, rejected),
    {
        let candidate = random_alphanumeric(rng, SESSION_ID_LENGTH);
        let ghost text = candidate@;
        match unused_session_id(candidate, &exists_call_back) {
            Some(id) => {
                return Some(id);
            },
            None => {
                proof {
                    let probe = choose|probe: &str|
                        probe@ == text && call_ensures(exists_call_back, (probe,), true);
                    rejected = rejected.push(probe);
                }
            },
        }
    }
    None
}

/// Draws candidate ids from a freshly seeded generator until
/// `exists_call_back` reports one as unused, for at most `attempts` draws.
///
/// The first candidate reported as unused is the result. `None` means that
/// the operating system handed out no entropy, or that every candidate
/// drawn was in use.
pub fn create_session_id_within(attempts: u64, exists_call_back: impl Fn(&str) -> bool) -> (picked:
    Option<String>)
    requires
        forall|id: &str| call_requires(exists_call_back, (id,)),
    ensures
        picked matches Some(id) ==> is_first_unused(exists_call_back, attempts, id@),
        attempts == 0 ==> picked is None,
{
    match seeded_rng() {
        Some(mut rng) => create_session_id_from(&mut rng, attempts, exists_call_back),
        None => None,
    }
}

/// Draws candidate ids from a freshly seeded generator until
/// `exists_call_back` reports one as unused.
///
/// The first candidate reported as unused is the result. The search stops
/// only after `u64::MAX` candidates in a row were in use, or at once where
/// the operating system hands out no entropy; both give `None`.
pub fn create_session_id(exists_call_back: impl Fn(&str) -> bool) -> (picked: Option<String>)
    requires
        forall|id: &str| call_requires(exists_call_back, (id,)),
    ensures
        picked matches Some(id) ==> is_first_unused(exists_call_back, u64::MAX, id@),
{
    create_session_id_within(u64::MAX, exists_call_back)
}

/// What a store holds: its sessions by id.
pub type SessionTable = Map<Seq<char>, SessionView>;

/// The table of a store that holds no session.
pub open spec fn no_sessions() -> SessionTable {
    Map::empty()
}

/// The session stored under `session_id`, if there is one.
pub open spec fn lookup(table: SessionTable, session_id: Seq<char>) -> Option<SessionView> {
    if table.contains_key(session_id) {
        Some(table[session_id])
    } else {
        None
    }
}

/// A found or missing session, as plain values.
pub open spec fn found_view(found: Option<Session>) -> Option<SessionView> {
    match found {
        Some(session) => Some(session@),
        None => None,
    }
}

/// Every session of the table is filed under its own id.
pub open spec fn filed_by_id(table: SessionTable) -> bool {
    forall|id: Seq<char>| #[trigger] table.contains_key(id) ==> table[id].session_id == id
}

/// `after` is `before` with the new session `created` for `user_id`: an id
/// of the generated shape that `before` did not hold, a lifetime of `life`
/// counted from the moment of creation, and nothing else touched.
pub open spec fn is_creation(
    before: SessionTable,
    created: SessionView,
    after: SessionTable,
    user_id: i64,
    life: i64,
) -> bool {
    &&& is_session_id(created.session_id)
    &&& !before.contains_key(created.session_id)
    &&& created.user_id == user_id
    &&& created.created < i64::MAX
    &&& created.expires == expiry_of(created.created, life as int)
    &&& after == before.insert(created.session_id, created)
}

/// `after` is `before` with `created` filed under an id that `before` did
/// not hold: what every creation does to a table, whoever it is for.
pub open spec fn files_new(before: SessionTable, created: SessionView, after: SessionTable) -> bool {
    !before.contains_key(created.session_id) && after == before.insert(
        created.session_id,
        created,
    )
}

/// Sessions created one after another on the same store, with no deletion
/// in between, all have different ids, however many there are and whoever
/// asked for them.
///
/// `tables[i]` is the table before the `i`-th creation and `tables[i + 1]`
/// the table after it. Each creation holds the store exclusively, so the
/// creations of concurrent callers line up in such a sequence.
pub proof fn lemma_created_ids_are_distinct(tables: Seq<SessionTable>, created: Seq<SessionView>)
    requires
        tables.len() == created.len() + 1,
        forall|i: int|
            0 <= i < created.len() ==> files_new(
                #[trigger] tables[i],
                created[i],
                tables[i + 1],
            ),
    ensures
        forall|i: int, j: int|
            0 <= i < j < created.len() ==> created[i].session_id != created[j].session_id,
{
    assert forall|i: int, j: int| 0 <= i < j < created.len() implies created[i].session_id
        != created[j].session_id by {
        lemma_created_id_stays(tables, created, i, j);
        assert(files_new(tables[j], created[j], tables[j + 1]));
    }
}

/// The id of the `i`-th creation is still held before every later one.
proof fn lemma_created_id_stays(
    tables: Seq<SessionTable>,
    created: Seq<SessionView>,
    i: int,
    j: int,
)
    requires
        tables.len() == created.len() + 1,
        forall|k: int|
            0 <= k < created.len() ==> files_new(
                #[trigger] tables[k],
                created[k],
                tables[k + 1],
            ),
        0 <= i < j <= created.len(),
    ensures
        tables[j].contains_key(created[i].session_id),
    decreases j - i,
{
    assert(files_new(tables[j - 1], created[j - 1], tables[j]));
    if i < j - 1 {
        lemma_created_id_stays(tables, created, i, j - 1);
    }
}

/// A session that was just created is found under its id, equal in every
/// field to what the creation handed out; and where its lifetime is
/// positive it expires after it was created.
pub proof fn lemma_created_session_is_found(
    before: SessionTable,
    created: SessionView,
    after: SessionTable,
    user_id: i64,
    life: i64,
)
    requires
        is_creation(before, created, after, user_id, life),
    ensures
        lookup(after, created.session_id) == Some(created),
        files_new(before, created, after),
        life > 0 ==> created.expires > created.created,
{
}

/// Deleting an id that the store does not hold finds nothing and changes
/// nothing; and after an id was deleted, deleting it again finds nothing.
pub proof fn lemma_delete_is_idempotent(table: SessionTable, session_id: Seq<char>)
    ensures
        !table.contains_key(session_id) ==> lookup(table, session_id) is None && table.remove(
            session_id,
        ) == table,
        lookup(table.remove(session_id), session_id) is None,
        table.remove(session_id).remove(session_id) == table.remove(session_id),
{
    assert(table.remove(session_id).remove(session_id) =~= table.remove(session_id));
    if !table.contains_key(session_id) {
        assert(table.remove(session_id) =~= table);
    }
}

/// A store hands out whatever is filed under an id, however long ago the
/// session expired: looking up does not ask for the time.
pub proof fn lemma_lookup_ignores_expiry(table: SessionTable, session_id: Seq<char>, now: i64)
    requires
        table.contains_key(session_id),
        table[session_id].expires <= now,
    ensures
        lookup(table, session_id) == Some(table[session_id]),
{
}

/// The contract every session store keeps, whatever holds its sessions.
///
/// A store owns its sessions: creating and deleting take the store
/// exclusively, so probing for a free id and filing the new session under it
/// cannot be separated by another writer.
pub trait SessionManager: Sized {
    type Error;

    type Config;

    /// The sessions the store holds. A store that does not say how it keeps
    /// them leaves the table open.
    open spec fn sessions(&self) -> SessionTable {
        arbitrary()
    }

    /// The settings the store was opened with. A store that does not say
    /// where it keeps them leaves them open.
    open spec fn settings(&self) -> SessionConfig {
        arbitrary()
    }

    /// The store's invariant. A store that states none has none.
    open spec fn wf(&self) -> bool {
        true
    }

    /// Whether creating a session on this store can fail with `error`. A
    /// store that does not say which failures it has can fail with any.
    open spec fn creation_error(&self, error: Self::Error) -> bool {
        true
    }

    /// Opens a store.
    fn new(manager_config: Self::Config, session_config: SessionConfig) -> (opened: Result<
        Self,
        Self::Error,
    >)
        ensures
            opened matches Ok(store) ==> store.wf() && store.settings() == session_config,
    ;

    /// Creates a session for `user_id` that lives for `life` milliseconds,
    /// under an id the store did not hold.
    fn create_session_with_life(&mut self, user_id: i64, life: i64) -> (created: Result<
        Session,
        Self::Error,
    >)
        requires
            old(self).wf(),
        ensures
            final(self).wf(),
            final(self).settings() == old(self).settings(),
            match created {
                Ok(session) => is_creation(
                    old(self).sessions(),
                    session@,
                    final(self).sessions(),
                    user_id,
                    life,
                ),
                Err(error) => final(self).sessions() == old(self).sessions()
                    && old(self).creation_error(error),
            },
    ;

    /// Creates a session for `user_id` with the configured lifetime.
    fn create_session(&mut self, user_id: i64) -> (created: Result<Session, Self::Error>)
        requires
            old(self).wf(),
        ensures
            final(self).wf(),
            final(self).settings() == old(self).settings(),
            match created {
                Ok(session) => is_creation(
                    old(self).sessions(),
                    session@,
                    final(self).sessions(),
                    user_id,
                    old(self).settings().session_lifetime,
                ),
                Err(error) => final(self).sessions() == old(self).sessions()
                    && old(self).creation_error(error),
            },
    {
        let life = self.get_session_config_ref().session_lifetime;
        self.create_session_with_life(user_id, life)
    }

    /// The session stored under `session_id`, expired or not.
    fn get_session(&self, session_id: &str) -> (found: Result<Option<Session>, Self::Error>)
        requires
            self.wf(),
        ensures
            found matches Ok(session) ==> found_view(session) == lookup(
                self.sessions(),
                session_id@,
            ),
    ;

    /// Removes the session stored under `session_id` and hands it back.
    fn delete_session(&mut self, session_id: &str) -> (removed: Result<
        Option<Session>,
        Self::Error,
    >)
        requires
            old(self).wf(),
        ensures
            final(self).wf(),
            final(self).settings() == old(self).settings(),
            match removed {
                Ok(session) => found_view(session) == lookup(old(self).sessions(), session_id@)
                    && final(self).sessions() == old(self).sessions().remove(session_id@),
                Err(_) => final(self).sessions() == old(self).sessions(),
            },
    ;

    /// A shared handle on the store's settings.
    fn get_session_config(&self) -> (config: Arc<SessionConfig>)
        ensures
            *config == self.settings(),
    ;

    /// The store's settings.
    fn get_session_config_ref(&self) -> (config: &SessionConfig)
        ensures
            *config == self.settings(),
    ;
}

} // verus!

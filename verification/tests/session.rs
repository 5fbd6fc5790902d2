use nitro_share::config::SessionConfig;
use nitro_share::user::session::dyn_session::SessionError;
use nitro_share::user::session::memory::MemorySessionManager;
use nitro_share::user::session::{
    create_session_id, create_session_id_from, create_session_id_within, unused_session_id,
    Session, SessionManager,
};
use nitro_share::utils::random::random_alphanumeric;
use rand::rngs::StdRng;
use rand::SeedableRng;
use std::cell::{Cell, RefCell};

fn config(lifetime: i64) -> SessionConfig {
    SessionConfig { cookie_name: "session".to_string(), allow_in_header: true, session_lifetime: lifetime }
}

fn store() -> MemorySessionManager {
    MemorySessionManager::new(16, config(86_400_000)).unwrap()
}

fn is_generated_id(id: &str) -> bool {
    id.len() == 7 && id.bytes().all(|b| b.is_ascii_alphanumeric())
}

#[test]
fn session_expires_after_its_lifetime() {
    let session = Session::starting_at(42, "abcdefg".to_string(), 1_000, 500);
    assert_eq!(
        session,
        Session { user_id: 42, session_id: "abcdefg".to_string(), expires: 1_500, created: 1_000 }
    );
}

#[test]
fn session_expiry_stays_inside_the_range() {
    let late = Session::starting_at(1, "a".to_string(), i64::MAX - 10, 11);
    assert_eq!(late.expires, i64::MAX);
    let exact = Session::starting_at(1, "a".to_string(), i64::MAX - 10, 10);
    assert_eq!(exact.expires, i64::MAX);
    let early = Session::starting_at(1, "a".to_string(), i64::MIN + 10, -11);
    assert_eq!(early.expires, i64::MIN);
    let negative = Session::starting_at(1, "a".to_string(), 100, -30);
    assert_eq!(negative.expires, 70);
}

#[test]
fn session_is_valid_strictly_before_it_expires() {
    let session = Session::starting_at(42, "abcdefg".to_string(), 1_000, 500);
    assert!(!session.is_expired_at(1_000));
    assert!(!session.is_expired_at(1_499));
    assert!(session.is_expired_at(1_500));
    assert!(session.is_expired_at(1_501));
}

#[test]
fn new_session_starts_now() {
    let session = Session::new(42, "abcdefg".to_string(), 86_400_000);
    assert_eq!(session.user_id, 42);
    assert_eq!(session.session_id, "abcdefg");
    assert_eq!(session.expires, session.created + 86_400_000);
    assert!(session.created > 1_600_000_000_000);
    assert!(!session.is_expired());
    let stale = Session::new(42, "abcdefg".to_string(), -1);
    assert!(stale.is_expired());
}

#[test]
fn tuple_layout_round_trips() {
    let session = Session { user_id: 7, session_id: "Ab3dE9z".to_string(), expires: 99, created: 11 };
    let tuple = session.as_tuple_ref();
    assert_eq!(tuple, (7, "Ab3dE9z", 99, 11));
    assert_eq!(Session::from_tuple(tuple), session);
    assert_eq!(
        Session::from_tuple((-3, "x", i64::MAX, i64::MIN)),
        Session { user_id: -3, session_id: "x".to_string(), expires: i64::MAX, created: i64::MIN }
    );
}

#[test]
fn candidate_is_taken_only_when_unused() {
    let in_use = |id: &str| id == "taken00";
    assert_eq!(unused_session_id("taken00".to_string(), &in_use), None);
    assert_eq!(unused_session_id("free000".to_string(), &in_use), Some("free000".to_string()));
}

#[test]
fn generated_id_has_seven_letters_or_digits() {
    for _ in 0..200 {
        let id = create_session_id(|_| false).unwrap();
        assert!(is_generated_id(&id), "{}", id);
    }
}

#[test]
fn generated_ids_differ() {
    let first = create_session_id(|_| false).unwrap();
    let second = create_session_id(|_| false).unwrap();
    let third = create_session_id(|_| false).unwrap();
    assert!(first != second || second != third);
}

#[test]
fn generator_skips_ids_in_use() {
    let id = create_session_id(|candidate| candidate.as_bytes()[0] != b'q').unwrap();
    assert!(is_generated_id(&id));
    assert_eq!(id.as_bytes()[0], b'q');
}

#[test]
fn generator_gives_up_after_its_attempts() {
    assert_eq!(create_session_id_within(3, |_| true), None);
    assert_eq!(create_session_id_within(0, |_| false), None);
    assert!(create_session_id_within(1, |_| false).is_some());
}

#[test]
fn created_session_is_found_again() {
    let mut store = store();
    let session = store.create_session_with_life(42, 1_000).unwrap();
    assert_eq!(session.user_id, 42);
    assert!(is_generated_id(&session.session_id));
    assert_eq!(session.expires, session.created + 1_000);
    assert!(session.expires > session.created);
    assert_eq!(store.get_session(&session.session_id), Ok(Some(session)));
}

#[test]
fn create_session_uses_the_configured_lifetime() {
    let mut store = MemorySessionManager::new(0, config(5_000)).unwrap();
    let session = store.create_session(9).unwrap();
    assert_eq!(session.user_id, 9);
    assert_eq!(session.expires - session.created, 5_000);
    assert_eq!(store.get_session_config_ref(), &config(5_000));
    assert_eq!(*store.get_session_config(), config(5_000));
}

#[test]
fn default_lifetime_is_one_day() {
    let mut store = MemorySessionManager::new(100, SessionConfig::default()).unwrap();
    let session = store.create_session(42).unwrap();
    assert_eq!(session.expires - session.created, 86_400_000);
}

#[test]
fn unknown_id_is_not_found() {
    let mut store = store();
    store.create_session(1).unwrap();
    assert_eq!(store.get_session("nothere"), Ok(None));
    assert_eq!(store.get_session(""), Ok(None));
}

#[test]
fn many_sessions_have_distinct_ids() {
    let mut store = store();
    let mut ids = Vec::new();
    for user_id in 0..500 {
        ids.push(store.create_session(user_id).unwrap().session_id);
    }
    for (i, id) in ids.iter().enumerate() {
        assert_eq!(store.get_session(id).unwrap().unwrap().user_id, i as i64);
    }
    ids.sort();
    ids.dedup();
    assert_eq!(ids.len(), 500);
}

#[test]
fn deleting_hands_back_the_session_once() {
    let mut store = store();
    let kept = store.create_session(1).unwrap();
    let session = store.create_session(2).unwrap();
    assert_eq!(store.delete_session(&session.session_id), Ok(Some(session.clone())));
    assert_eq!(store.get_session(&session.session_id), Ok(None));
    assert_eq!(store.delete_session(&session.session_id), Ok(None));
    assert_eq!(store.get_session(&kept.session_id), Ok(Some(kept)));
}

#[test]
fn deleting_an_unknown_id_finds_nothing() {
    let mut store = store();
    assert_eq!(store.delete_session("nothere"), Ok(None));
    let session = store.create_session(1).unwrap();
    assert_eq!(store.delete_session("nothere"), Ok(None));
    assert_eq!(store.get_session(&session.session_id), Ok(Some(session)));
}

#[test]
fn store_hands_out_expired_sessions() {
    let mut store = store();
    let session = store.create_session_with_life(42, -1_000).unwrap();
    assert!(session.is_expired());
    assert_eq!(store.get_session(&session.session_id), Ok(Some(session)));
}

#[test]
fn a_large_start_size_is_accepted() {
    let mut store = MemorySessionManager::new(usize::MAX, config(1)).unwrap();
    let session = store.create_session(3).unwrap();
    assert_eq!(store.get_session(&session.session_id), Ok(Some(session)));
}

#[test]
fn session_errors_read_as_text() {
    assert_eq!(SessionError::Infallible.to_text(), "Infallible. This is cool.");
    assert_eq!(SessionError::NoUnusedId.to_text(), "No unused session id was found.");
    assert_eq!(
        SessionError::RedbError("disk full".to_string()).to_text(),
        "Redb Error: Must likely the database is locked or corrupted. These sessions are short lived. So just delete the database and restart the server. If this problem persists. Please report it. disk full"
    );
    let cause = SessionError::RedbError("x".to_string());
    assert_eq!(cause.clone(), cause);
}

#[test]
fn an_id_in_use_is_never_filed_twice() {
    let mut store = store();
    let first = store.create_session_under("Ab3dE9z".to_string(), 1, 1_000, 500).unwrap();
    assert_eq!(
        first,
        Session { user_id: 1, session_id: "Ab3dE9z".to_string(), expires: 1_500, created: 1_000 }
    );
    assert_eq!(store.create_session_under("Ab3dE9z".to_string(), 2, 2_000, 500), None);
    assert_eq!(store.get_session("Ab3dE9z"), Ok(Some(first)));
    let second = store.create_session_under("Ab3dE9y".to_string(), 2, 2_000, 500).unwrap();
    assert_eq!(second.user_id, 2);
    assert_eq!(store.delete_session("Ab3dE9z").unwrap().unwrap().user_id, 1);
    assert!(store.create_session_under("Ab3dE9z".to_string(), 3, 3_000, 500).is_some());
}

#[test]
fn generator_takes_the_first_unused_candidate() {
    let mut reference = StdRng::seed_from_u64(7);
    let drawn: Vec<String> = (0..4)
        .map(|_| random_alphanumeric(&mut reference, 7))
        .collect();

    let probed = RefCell::new(Vec::new());
    let mut rng = StdRng::seed_from_u64(7);
    let picked = create_session_id_from(&mut rng, 10, |id| {
        probed.borrow_mut().push(id.to_string());
        id == drawn[0] || id == drawn[1]
    });
    assert_eq!(picked, Some(drawn[2].clone()));
    assert_eq!(*probed.borrow(), drawn[..3].to_vec());
}

#[test]
fn generator_stops_after_its_attempts_were_all_in_use() {
    let calls = Cell::new(0u64);
    let mut rng = StdRng::seed_from_u64(1);
    let picked = create_session_id_from(&mut rng, 5, |_| {
        calls.set(calls.get() + 1);
        true
    });
    assert_eq!(picked, None);
    assert_eq!(calls.get(), 5);

    let mut rng = StdRng::seed_from_u64(1);
    let none = create_session_id_from(&mut rng, 0, |_| false);
    assert_eq!(none, None);
}

#[test]
fn volatile_store_reports_only_a_missing_id() {
    let mut store = store();
    match store.create_session(1) {
        Ok(session) => assert_eq!(store.get_session(&session.session_id), Ok(Some(session))),
        Err(error) => assert_eq!(error, SessionError::NoUnusedId),
    }
}

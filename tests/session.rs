use async_session::{MemoryStore, Session, SessionStore};
use futures::executor::block_on;
use warp_sessions::binder::{BoundReply, PendingBind, StoreEvent, StoreOp};
use warp_sessions::cookie::CookieOptions;
use warp_sessions::error::SessionError;

fn perform<S: SessionStore>(op: StoreOp, session: Session, store: &S) -> StoreEvent {
    match op {
        StoreOp::Destroy => StoreEvent::Destroyed(block_on(store.destroy_session(session))),
        StoreOp::Persist => StoreEvent::Stored(block_on(store.store_session(session))),
        StoreOp::Keep => StoreEvent::Skipped,
    }
}

fn bind_with<S: SessionStore>(
    session: Session,
    store: &S,
    cookie_options: CookieOptions,
) -> Result<BoundReply<String>, SessionError> {
    let pending = PendingBind::begin(session.is_destroyed(), session.data_changed(), cookie_options);
    let event = perform(pending.op(), session, store);
    pending.bind("".to_string(), event)
}

#[test]
fn test_session_reply_with_no_data_changed() {
    let session = Session::new();
    let session_store = MemoryStore::new();
    let cookie_options = CookieOptions::default();

    assert_eq!(session.data_changed(), false);
    bind_with(session, &session_store, cookie_options).unwrap();
}

#[test]
fn test_session_reply_with_data_changed() {
    let mut session = Session::new();
    session.insert("key", "value").unwrap();
    let session_store = MemoryStore::new();
    let cookie_options = CookieOptions::default();

    assert_eq!(session.data_changed(), true);
    bind_with(session, &session_store, cookie_options).unwrap();
}

#[test]
fn test_session_reply_with_session_destroyed() {
    let mut session = Session::new();
    session.destroy();
    let session_store = MemoryStore::new();
    let cookie_options = CookieOptions::default();

    assert_eq!(session.is_destroyed(), true);
    bind_with(session, &session_store, cookie_options).unwrap();
}

#[test]
fn untouched_session_gets_no_header() {
    let session = Session::new();
    let store = MemoryStore::new();
    let pending = PendingBind::begin(session.is_destroyed(), session.data_changed(), CookieOptions::default());
    assert_eq!(pending.op(), StoreOp::Keep);
    let bound = bind_with(session, &store, CookieOptions::default()).unwrap();
    assert_eq!(bound.cookie_options().cookie_value, None);
    let (reply, header) = bound.into_parts();
    assert_eq!(reply, "");
    assert!(header.is_none());
    assert_eq!(block_on(store.count()), 0);
}

#[test]
fn untouched_session_drops_a_preset_value() {
    let mut options = CookieOptions::default();
    options.cookie_value = Some("stale".to_string());
    let bound = bind_with(Session::new(), &MemoryStore::new(), options).unwrap();
    assert_eq!(bound.cookie_options().cookie_value, None);
    assert!(bound.into_parts().1.is_none());
}

#[test]
fn changed_session_is_stored_and_gets_its_id() {
    let mut session = Session::new();
    session.insert("key", "value").unwrap();
    let store = MemoryStore::new();
    let bound = bind_with(session, &store, CookieOptions::default()).unwrap();
    assert_eq!(block_on(store.count()), 1);
    let value = bound.cookie_options().cookie_value.clone().unwrap();
    assert!(!value.is_empty());
    assert_eq!(bound.cookie_options().max_age, Some(60));
    let header = bound.into_parts().1.unwrap();
    assert_eq!(header, format!("sid={}; Max-Age=60; HttpOnly; SameSite=Strict", value));
}

#[test]
fn destroyed_session_is_removed_and_cookie_expires() {
    let mut session = Session::new();
    session.insert("key", "value").unwrap();
    let store = MemoryStore::new();
    let cookie = block_on(store.store_session(session)).unwrap().unwrap();
    assert_eq!(block_on(store.count()), 1);
    let mut session = block_on(store.load_session(cookie.clone())).unwrap().unwrap();
    session.destroy();
    let bound = bind_with(session, &store, CookieOptions::default()).unwrap();
    assert_eq!(block_on(store.count()), 0);
    assert!(block_on(store.load_session(cookie)).unwrap().is_none());
    assert_eq!(bound.cookie_options().cookie_value, Some("".to_string()));
    assert_eq!(bound.cookie_options().max_age, Some(0));
    let header = bound.into_parts().1.unwrap();
    assert_eq!(header, "sid=; Max-Age=0; HttpOnly; SameSite=Strict");
}

#[test]
fn destroy_takes_precedence_over_change() {
    let pending = PendingBind::begin(true, true, CookieOptions::default());
    assert_eq!(pending.op(), StoreOp::Destroy);
    assert!(pending.fits(&StoreEvent::Destroyed(Ok(()))));
    assert!(!pending.fits(&StoreEvent::Stored(Ok(None))));
    assert!(!pending.fits(&StoreEvent::Skipped));
}

#[test]
fn store_failure_gives_store_error() {
    let pending = PendingBind::begin(false, true, CookieOptions::default());
    assert_eq!(pending.op(), StoreOp::Persist);
    let event = StoreEvent::Stored(Err(async_session::Error::msg("connection reset")));
    match pending.bind("reply".to_string(), event) {
        Err(SessionError::StoreError { source }) => assert_eq!(source.to_string(), "connection reset"),
        _ => panic!("expected a store error"),
    }
}

#[test]
fn destroy_failure_gives_destroy_error() {
    let pending = PendingBind::begin(true, false, CookieOptions::default());
    let event = StoreEvent::Destroyed(Err(async_session::Error::msg("timeout")));
    match pending.bind("reply".to_string(), event) {
        Err(SessionError::DestroyError { source }) => assert_eq!(source.to_string(), "timeout"),
        _ => panic!("expected a destroy error"),
    }
}

#[test]
fn store_without_new_id_sets_no_cookie() {
    let mut options = CookieOptions::default();
    options.cookie_value = Some("old".to_string());
    let pending = PendingBind::begin(false, true, options);
    let bound = pending.bind(1u8, StoreEvent::Stored(Ok(None))).unwrap();
    assert_eq!(bound.cookie_options().cookie_value, None);
    let (reply, header) = bound.into_parts();
    assert_eq!(reply, 1u8);
    assert!(header.is_none());
}

#[test]
fn rotated_id_is_sent() {
    let mut options = CookieOptions::default();
    options.max_age = Some(3600);
    let pending = PendingBind::begin(false, true, options);
    let bound = pending.bind((), StoreEvent::Stored(Ok(Some("rotated".to_string())))).unwrap();
    assert_eq!(bound.cookie_options().cookie_value, Some("rotated".to_string()));
    assert_eq!(bound.cookie_options().max_age, Some(3600));
    let header = bound.into_parts().1.unwrap();
    assert_eq!(header, "sid=rotated; Max-Age=3600; HttpOnly; SameSite=Strict");
}

#[test]
fn unencodable_cookie_gives_encoding_error() {
    let pending = PendingBind::begin(false, true, CookieOptions::default());
    let event = StoreEvent::Stored(Ok(Some("bad\nvalue".to_string())));
    assert!(matches!(pending.bind((), event), Err(SessionError::CookieEncodingError)));
}

#[test]
fn stored_session_loads_with_same_data() {
    let mut session = Session::new();
    session.insert("key", "value").unwrap();
    let store = MemoryStore::new();
    let bound = bind_with(session, &store, CookieOptions::default()).unwrap();
    let cookie = bound.cookie_options().cookie_value.clone().unwrap();
    let loaded = block_on(store.load_session(cookie)).unwrap().unwrap();
    assert_eq!(loaded.get::<String>("key"), Some("value".to_string()));
    assert_eq!(loaded.len(), 1);
}

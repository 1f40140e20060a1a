use flutter_realtime_player::api::simple::{self, SessionCounter};
use flutter_realtime_player::engine::fluttersink::{self, ResizeError};
use flutter_realtime_player::engine::session::registry::{self, session_expired, SessionEntry, SessionRegistry};
use flutter_realtime_player::engine::software_decoder::DimensionError;

fn entry(engine_handle: i64, mark: u64, handle: &'static str) -> SessionEntry<&'static str, u8> {
    SessionEntry { engine_handle, last_alive_mark_ms: mark, events_sink: None, handle }
}

fn sorted(mut v: Vec<i64>) -> Vec<i64> {
    v.sort();
    v
}

#[test]
fn session_ids_count_up() {
    let mut c = SessionCounter::new();
    assert_eq!(simple::create_new_session(&mut c), 1);
    assert_eq!(simple::create_new_session(&mut c), 2);
    assert_eq!(simple::create_new_session(&mut c), 3);
}

#[test]
fn all_sessions_lists_each_id_once() {
    let mut r: SessionRegistry<&str, u8> = SessionRegistry::new();
    r.insert_session(3, entry(1, 0, "a"));
    r.insert_session(1, entry(1, 0, "b"));
    r.insert_session(3, entry(2, 0, "c"));
    assert_eq!(sorted(registry::get_all_sessions(&r)), vec![1, 3]);
    assert_eq!(r.get_session(3).map(|e| e.handle), Some("c"));
}

#[test]
fn marking_alive_updates_only_known_sessions() {
    let mut r: SessionRegistry<&str, u8> = SessionRegistry::new();
    r.insert_session(1, entry(1, 100, "a"));
    simple::mark_session_alive(&mut r, 1, 9_000);
    simple::mark_session_alive(&mut r, 2, 9_000);
    assert_eq!(r.get_session(1).map(|e| e.last_alive_mark_ms), Some(9_000));
    assert!(r.get_session(2).is_none());
}

#[test]
fn expiry_needs_more_than_two_seconds() {
    assert!(!session_expired(2_000, 0));
    assert!(session_expired(2_001, 0));
    assert!(session_expired(3_000, 0));
    assert!(!session_expired(10, 20));
    let mut r: SessionRegistry<&str, u8> = SessionRegistry::new();
    r.insert_session(1, entry(1, 0, "old"));
    r.insert_session(2, entry(1, 4_500, "fresh"));
    assert_eq!(registry::expired_sessions(&r, 6_000), vec![1]);
    fluttersink::mark_session_alive(&mut r, 1, 6_000);
    assert!(registry::expired_sessions(&r, 6_000).is_empty());
}

#[test]
fn destroying_a_session_returns_its_handle() {
    let mut r: SessionRegistry<&str, u8> = SessionRegistry::new();
    r.insert_session(7, entry(1, 0, "seven"));
    assert_eq!(simple::destroy_stream_session(&mut r, 7), Some("seven"));
    assert_eq!(registry::destroy_stream_session(&mut r, 7), None);
    assert!(registry::get_all_sessions(&r).is_empty());
}

#[test]
fn destroying_engine_streams_keeps_other_engines() {
    let mut r: SessionRegistry<&str, u8> = SessionRegistry::new();
    r.insert_session(1, entry(10, 0, "a"));
    r.insert_session(2, entry(20, 0, "b"));
    r.insert_session(3, entry(10, 0, "c"));
    let mut removed = fluttersink::destroy_engine_streams(&mut r, 10);
    removed.sort();
    assert_eq!(removed, vec![(1, "a"), (3, "c")]);
    assert_eq!(registry::get_all_sessions(&r), vec![2]);
    assert!(registry::destroy_engine_streams(&mut r, 10).is_empty());
}

#[test]
fn destroying_all_sessions_empties_the_table() {
    let mut r: SessionRegistry<&str, u8> = SessionRegistry::new();
    r.insert_session(1, entry(10, 0, "a"));
    r.insert_session(2, entry(20, 0, "b"));
    let mut removed = simple::destroy_all_sessions(&mut r);
    removed.sort();
    assert_eq!(removed, vec![(1, "a"), (2, "b")]);
    assert!(registry::get_all_sessions(&r).is_empty());
}

#[test]
fn events_sink_is_attached_to_known_sessions() {
    let mut r: SessionRegistry<&str, u8> = SessionRegistry::new();
    r.insert_session(1, entry(10, 0, "a"));
    registry::register_events_sink(&mut r, 1, 42);
    registry::register_events_sink(&mut r, 9, 43);
    assert_eq!(r.get_session(1).and_then(|e| e.events_sink), Some(42));
    assert!(r.get_session(9).is_none());
}

#[test]
fn new_playable_is_marked_alive_now() {
    let mut r: SessionRegistry<&str, u8> = SessionRegistry::new();
    fluttersink::create_new_playable(&mut r, 5, 99, 1_234, "h");
    let e = r.get_session(5).unwrap();
    assert_eq!((e.engine_handle, e.last_alive_mark_ms, e.handle), (99, 1_234, "h"));
}

#[test]
fn resize_session_errors() {
    let mut r: SessionRegistry<&str, u8> = SessionRegistry::new();
    r.insert_session(1, entry(10, 0, "a"));
    assert_eq!(
        fluttersink::resize_stream_session(&r, 2, 640, 480).err(),
        Some(ResizeError::SessionNotFound(2))
    );
    assert_eq!(
        fluttersink::resize_stream_session(&r, 1, 0, 480).err(),
        Some(ResizeError::Dimensions(DimensionError::Invalid { width: 0, height: 480 }))
    );
    let (h, dims) = fluttersink::resize_stream_session(&r, 1, 641, 480).unwrap();
    assert_eq!((*h, dims), ("a", (640, 480)));
}

#[test]
fn remove_sessions_in_order() {
    let mut r: SessionRegistry<&str, u8> = SessionRegistry::new();
    r.insert_session(1, entry(10, 0, "a"));
    r.insert_session(2, entry(20, 0, "b"));
    assert_eq!(r.remove_sessions(&vec![2, 1]), vec![(2, "b"), (1, "a")]);
    let ids: Vec<i64> = r.sessions_of_engine(10);
    assert!(ids.is_empty());
}

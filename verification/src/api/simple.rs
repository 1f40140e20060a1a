//! The entry points the UI calls.
use crate::engine::session::registry::{self as reg, SessionEntry, SessionRegistry};
use vstd::prelude::*;

verus! {

/// Source of session ids: each new session gets the next number.
pub struct SessionCounter {
    value: i64,
}

impl SessionCounter {
    pub closed spec fn last(&self) -> i64 {
        self.value
    }

    /// The last id handed out, 0 before the first.
    pub fn current(&self) -> (r: i64)
        ensures
            r == self.last(),
    {
        self.value
    }

    /// A counter that has handed out no id yet.
    pub fn new() -> (c: Self)
        ensures
            c.last() == 0,
    {
        SessionCounter { value: 0 }
    }
}

/// Raises the counter and returns the new value as a session id; creates
/// nothing else.
pub fn create_new_session(counter: &mut SessionCounter) -> (id: i64)
    requires
        old(counter).last() < i64::MAX,
    ensures
        id == old(counter).last() + 1,
        final(counter).last() == id,
{
    counter.value = counter.value + 1;
    counter.value
}

/// Consecutive ids are distinct and increasing.
pub proof fn lemma_session_ids_increase(c0: SessionCounter, c1: SessionCounter, c2: SessionCounter, a: i64, b: i64)
    requires
        a == c0.last() + 1,
        c1.last() == a,
        b == c1.last() + 1,
        c2.last() == b,
    ensures
        a < b,
{
}

/// Marks the session as still wanted by the UI at `now_ms`.
pub fn mark_session_alive<H, E>(registry: &mut SessionRegistry<H, E>, session_id: i64, now_ms: u64)
    ensures
        old(registry)@.contains_key(session_id) ==> final(registry)@ == old(registry)@.insert(
            session_id,
            SessionEntry { last_alive_mark_ms: now_ms, ..old(registry)@[session_id] },
        ),
        !old(registry)@.contains_key(session_id) ==> final(registry)@ == old(registry)@,
{
    reg::mark_session_alive(registry, session_id, now_ms)
}

/// Removes every session and hands back the ids and handles to stop.
pub fn destroy_all_sessions<H, E>(registry: &mut SessionRegistry<H, E>) -> (removed: Vec<(i64, H)>)
    ensures
        final(registry)@ == Map::<i64, SessionEntry<H, E>>::empty(),
        removed@.map_values(|p: (i64, H)| p.0).to_set() == old(registry)@.dom(),
        removed@.map_values(|p: (i64, H)| p.0).no_duplicates(),
        forall|j: int| 0 <= j < removed@.len() ==> #[trigger] removed@[j].1 == old(registry)@[removed@[j].0].handle,
{
    reg::destroy_all_sessions(registry)
}

/// Removes one session and hands back its handle to stop.
pub fn destroy_stream_session<H, E>(registry: &mut SessionRegistry<H, E>, session_id: i64) -> (r: Option<H>)
    ensures
        final(registry)@ == old(registry)@.remove(session_id),
        match r {
            Some(h) => old(registry)@.contains_key(session_id) && h == old(registry)@[session_id].handle,
            None => !old(registry)@.contains_key(session_id),
        },
{
    reg::destroy_stream_session(registry, session_id)
}

} // verus!

//! The table of live playback sessions, keyed by session id.
use std::collections::HashMap;
use vstd::std_specs::iter::IteratorSpec;
use vstd::prelude::*;

verus! {

broadcast use vstd::std_specs::hash::group_hash_axioms;

/// Milliseconds a session may go without a keep-alive mark before it is
/// closed.
pub const ALIVE_TIMEOUT_MS: u64 = 2000;

/// What the table keeps for one session: the engine that owns its texture,
/// when it was last marked alive (milliseconds on the caller's clock), the
/// sink its events go to, and the handle through which it is stopped.
pub struct SessionEntry<H, E> {
    pub engine_handle: i64,
    pub last_alive_mark_ms: u64,
    pub events_sink: Option<E>,
    pub handle: H,
}

/// The sessions, keyed by session id.
pub struct SessionRegistry<H, E> {
    sessions: HashMap<i64, SessionEntry<H, E>>,
}

impl<H, E> View for SessionRegistry<H, E> {
    type V = Map<i64, SessionEntry<H, E>>;

    closed spec fn view(&self) -> Map<i64, SessionEntry<H, E>> {
        self.sessions@
    }
}

/// A session marked at `mark_ms` has expired at `now_ms` when more than the
/// timeout has passed; a mark in the future never expires.
pub open spec fn is_expired(now_ms: u64, mark_ms: u64) -> bool {
    now_ms >= mark_ms && now_ms - mark_ms > ALIVE_TIMEOUT_MS
}

/// Whether a session marked at `mark_ms` has expired at `now_ms`.
pub fn session_expired(now_ms: u64, mark_ms: u64) -> (r: bool)
    ensures
        r == is_expired(now_ms, mark_ms),
{
    now_ms >= mark_ms && now_ms - mark_ms > ALIVE_TIMEOUT_MS
}

impl<H, E> SessionRegistry<H, E> {
    /// An empty table.
    pub fn new() -> (r: Self)
        ensures
            r@ == Map::<i64, SessionEntry<H, E>>::empty(),
    {
        SessionRegistry { sessions: HashMap::new() }
    }

    /// The ids of all sessions, each once.
    pub fn get_all_sessions(&self) -> (ids: Vec<i64>)
        ensures
            ids@.to_set() == self@.dom(),
            ids@.no_duplicates(),
    {
        let ghost all = vstd::std_specs::hash::spec_keys_iter(&self.sessions).remaining();
        let mut ids: Vec<i64> = Vec::new();
        for k in it: self.sessions.keys()
            invariant
                it.seq() == all,
                ids@ == all.take(it.index()).unref(),
        {
            ids.push(*k);
            assert(ids@ =~= all.take(it.index() + 1).unref());
        }
        assert(ids@ =~= all.unref());
        ids
    }

    /// The entry of session `session_id`, if there is one.
    pub fn get_session(&self, session_id: i64) -> (r: Option<&SessionEntry<H, E>>)
        ensures
            match r {
                Some(e) => self@.contains_key(session_id) && *e == self@[session_id],
                None => !self@.contains_key(session_id),
            },
    {
        self.sessions.get(&session_id)
    }

    /// Adds session `session_id`, replacing any entry it had.
    pub fn insert_session(&mut self, session_id: i64, entry: SessionEntry<H, E>)
        ensures
            final(self)@ == old(self)@.insert(session_id, entry),
    {
        self.sessions.insert(session_id, entry);
    }

    /// Removes session `session_id` and hands back its entry.
    pub fn remove_session(&mut self, session_id: i64) -> (r: Option<SessionEntry<H, E>>)
        ensures
            final(self)@ == old(self)@.remove(session_id),
            match r {
                Some(e) => old(self)@.contains_key(session_id) && e == old(self)@[session_id],
                None => !old(self)@.contains_key(session_id),
            },
    {
        self.sessions.remove(&session_id)
    }

    /// The ids of the sessions owned by engine `engine_handle`, each once.
    pub fn sessions_of_engine(&self, engine_handle: i64) -> (ids: Vec<i64>)
        ensures
            ids@.to_set() == owned_by(self@, engine_handle),
            ids@.no_duplicates(),
    {
        let all = self.get_all_sessions();
        let mut ids: Vec<i64> = Vec::new();
        let mut i: usize = 0;
        while i < all.len()
            invariant
                all@.to_set() == self@.dom(),
                all@.no_duplicates(),
                i <= all@.len(),
                ids@.no_duplicates(),
                forall|k: i64| ids@.contains(k) <==> (exists|j: int| 0 <= j < i && all@[j] == k
                    && self@[k].engine_handle == engine_handle),
            decreases all@.len() - i,
        {
            let id = all[i];
            let ghost old_ids = ids@;
            assert(all@.to_set().contains(id));
            let e = self.get_session(id);
            match e {
                Some(entry) => {
                    if entry.engine_handle == engine_handle {
                        assert(!ids@.contains(id)) by {
                            if ids@.contains(id) {
                                let j = choose|j: int| 0 <= j < i && all@[j] == id
                                    && self@[id].engine_handle == engine_handle;
                                assert(all@[j] == all@[i as int]);
                            }
                        }
                        ids.push(id);
                    }
                },
                None => {},
            }
            assert forall|k: i64| ids@.contains(k) <==> (exists|j: int| 0 <= j < i + 1 && all@[j] == k
                && self@[k].engine_handle == engine_handle) by {
                if ids@ != old_ids {
                    vstd::seq_lib::lemma_seq_contains_after_push(old_ids, id, k);
                }
                if exists|j: int| 0 <= j < i + 1 && all@[j] == k && self@[k].engine_handle == engine_handle {
                    let j = choose|j: int| 0 <= j < i + 1 && all@[j] == k && self@[k].engine_handle == engine_handle;
                    if j < i {
                    } else {
                        assert(k == id);
                    }
                }
            }
            i = i + 1;
        }
        proof {
            assert forall|k: i64| ids@.to_set().contains(k) <==> owned_by(self@, engine_handle).contains(k) by {
                if owned_by(self@, engine_handle).contains(k) {
                    assert(all@.to_set().contains(k));
                    let j = choose|j: int| 0 <= j < all@.len() && all@[j] == k;
                    assert(all@[j] == k);
                }
            }
            assert(ids@.to_set() =~= owned_by(self@, engine_handle));
        }
        ids
    }

    /// Removes the sessions `ids` and hands back their handles, in order.
    pub fn remove_sessions(&mut self, ids: &Vec<i64>) -> (removed: Vec<(i64, H)>)
        requires
            ids@.no_duplicates(),
            ids@.to_set().subset_of(old(self)@.dom()),
        ensures
            final(self)@ == old(self)@.remove_keys(ids@.to_set()),
            removed@.len() == ids@.len(),
            forall|j: int| 0 <= j < ids@.len() ==> #[trigger] removed@[j].0 == ids@[j]
                && removed@[j].1 == old(self)@[ids@[j]].handle,
    {
        let ghost start = self@;
        let mut removed: Vec<(i64, H)> = Vec::new();
        let mut i: usize = 0;
        while i < ids.len()
            invariant
                ids@.no_duplicates(),
                ids@.to_set().subset_of(start.dom()),
                i <= ids@.len(),
                self@ == start.remove_keys(ids@.take(i as int).to_set()),
                removed@.len() == i,
                forall|j: int| 0 <= j < i ==> #[trigger] removed@[j].0 == ids@[j]
                    && removed@[j].1 == start[ids@[j]].handle,
            decreases ids@.len() - i,
        {
            let id = ids[i];
            assert(ids@.to_set().contains(id));
            assert(!ids@.take(i as int).to_set().contains(id)) by {
                if ids@.take(i as int).to_set().contains(id) {
                    let j = choose|j: int| 0 <= j < i && ids@.take(i as int)[j] == id;
                    assert(ids@[j] == ids@[i as int]);
                }
            }
            let r = self.remove_session(id);
            match r {
                Some(entry) => {
                    removed.push((id, entry.handle));
                },
                None => {
                    assert(false);
                },
            }
            assert(ids@.take(i + 1).to_set() =~= ids@.take(i as int).to_set().insert(id)) by {
                assert(ids@.take(i + 1) =~= ids@.take(i as int).push(id));
                ids@.take(i as int).lemma_push_to_set_commute(id);
            }
            assert(self@ =~= start.remove_keys(ids@.take(i + 1).to_set()));
            i = i + 1;
        }
        assert(ids@.take(ids@.len() as int) =~= ids@);
        removed
    }
}

/// The ids of the sessions in `m` owned by engine `engine_handle`.
pub open spec fn owned_by<H, E>(m: Map<i64, SessionEntry<H, E>>, engine_handle: i64) -> Set<i64> {
    m.dom().filter(|k: i64| m[k].engine_handle == engine_handle)
}

/// The ids of the sessions in `m` that have expired at `now_ms`.
pub open spec fn expired_in<H, E>(m: Map<i64, SessionEntry<H, E>>, now_ms: u64) -> Set<i64> {
    m.dom().filter(|k: i64| is_expired(now_ms, m[k].last_alive_mark_ms))
}

/// The ids of all sessions, each once.
pub fn get_all_sessions<H, E>(registry: &SessionRegistry<H, E>) -> (ids: Vec<i64>)
    ensures
        ids@.to_set() == registry@.dom(),
        ids@.no_duplicates(),
{
    registry.get_all_sessions()
}

/// Marks session `session_id` alive at `now_ms`; unknown ids are ignored.
pub fn mark_session_alive<H, E>(registry: &mut SessionRegistry<H, E>, session_id: i64, now_ms: u64)
    ensures
        old(registry)@.contains_key(session_id) ==> final(registry)@ == old(registry)@.insert(
            session_id,
            SessionEntry { last_alive_mark_ms: now_ms, ..old(registry)@[session_id] },
        ),
        !old(registry)@.contains_key(session_id) ==> final(registry)@ == old(registry)@,
{
    match registry.remove_session(session_id) {
        Some(mut entry) => {
            entry.last_alive_mark_ms = now_ms;
            registry.insert_session(session_id, entry);
            assert(final(registry)@ =~= old(registry)@.insert(
                session_id,
                SessionEntry { last_alive_mark_ms: now_ms, ..old(registry)@[session_id] },
            ));
        },
        None => {
            assert(final(registry)@ =~= old(registry)@);
        },
    }
}

/// Gives session `session_id` a sink for its events; unknown ids are ignored.
pub fn register_events_sink<H, E>(registry: &mut SessionRegistry<H, E>, session_id: i64, sink: E)
    ensures
        old(registry)@.contains_key(session_id) ==> final(registry)@ == old(registry)@.insert(
            session_id,
            SessionEntry { events_sink: Some(sink), ..old(registry)@[session_id] },
        ),
        !old(registry)@.contains_key(session_id) ==> final(registry)@ == old(registry)@,
{
    match registry.remove_session(session_id) {
        Some(mut entry) => {
            entry.events_sink = Some(sink);
            registry.insert_session(session_id, entry);
            assert(final(registry)@ =~= old(registry)@.insert(
                session_id,
                SessionEntry { events_sink: Some(sink), ..old(registry)@[session_id] },
            ));
        },
        None => {
            assert(final(registry)@ =~= old(registry)@);
        },
    }
}

/// Removes session `session_id` and hands back its handle so that the caller
/// can stop it; `None` when there is no such session.
pub fn destroy_stream_session<H, E>(registry: &mut SessionRegistry<H, E>, session_id: i64) -> (r: Option<H>)
    ensures
        final(registry)@ == old(registry)@.remove(session_id),
        match r {
            Some(h) => old(registry)@.contains_key(session_id) && h == old(registry)@[session_id].handle,
            None => !old(registry)@.contains_key(session_id),
        },
{
    match registry.remove_session(session_id) {
        Some(entry) => Some(entry.handle),
        None => None,
    }
}

/// Removes every session owned by engine `engine_handle` and hands back
/// their ids and handles; the other sessions stay as they were.
pub fn destroy_engine_streams<H, E>(registry: &mut SessionRegistry<H, E>, engine_handle: i64) -> (removed: Vec<(i64, H)>)
    ensures
        final(registry)@ == old(registry)@.remove_keys(owned_by(old(registry)@, engine_handle)),
        removed@.map_values(|p: (i64, H)| p.0).to_set() == owned_by(old(registry)@, engine_handle),
        removed@.map_values(|p: (i64, H)| p.0).no_duplicates(),
        forall|j: int| 0 <= j < removed@.len() ==> #[trigger] removed@[j].1 == old(registry)@[removed@[j].0].handle,
{
    let ids = registry.sessions_of_engine(engine_handle);
    proof {
        assert forall|k: i64| ids@.to_set().contains(k) implies old(registry)@.dom().contains(k) by {}
    }
    let removed = registry.remove_sessions(&ids);
    assert(removed@.map_values(|p: (i64, H)| p.0) =~= ids@);
    removed
}

/// Removes every session and hands back their ids and handles.
pub fn destroy_all_sessions<H, E>(registry: &mut SessionRegistry<H, E>) -> (removed: Vec<(i64, H)>)
    ensures
        final(registry)@ == Map::<i64, SessionEntry<H, E>>::empty(),
        removed@.map_values(|p: (i64, H)| p.0).to_set() == old(registry)@.dom(),
        removed@.map_values(|p: (i64, H)| p.0).no_duplicates(),
        forall|j: int| 0 <= j < removed@.len() ==> #[trigger] removed@[j].1 == old(registry)@[removed@[j].0].handle,
{
    let ids = registry.get_all_sessions();
    let removed = registry.remove_sessions(&ids);
    assert(removed@.map_values(|p: (i64, H)| p.0) =~= ids@);
    assert(final(registry)@ =~= Map::<i64, SessionEntry<H, E>>::empty());
    removed
}

/// The ids of the sessions that have expired at `now_ms`, each once.
pub fn expired_sessions<H, E>(registry: &SessionRegistry<H, E>, now_ms: u64) -> (ids: Vec<i64>)
    ensures
        ids@.to_set() == expired_in(registry@, now_ms),
        ids@.no_duplicates(),
{
    let all = registry.get_all_sessions();
    let mut ids: Vec<i64> = Vec::new();
    let mut i: usize = 0;
    while i < all.len()
        invariant
            all@.to_set() == registry@.dom(),
            all@.no_duplicates(),
            i <= all@.len(),
            ids@.no_duplicates(),
            forall|k: i64| ids@.contains(k) <==> (exists|j: int| 0 <= j < i && all@[j] == k
                && is_expired(now_ms, registry@[k].last_alive_mark_ms)),
        decreases all@.len() - i,
    {
        let id = all[i];
        let ghost old_ids = ids@;
        assert(all@.to_set().contains(id));
        match registry.get_session(id) {
            Some(entry) => {
                if session_expired(now_ms, entry.last_alive_mark_ms) {
                    assert(!ids@.contains(id)) by {
                        if ids@.contains(id) {
                            let j = choose|j: int| 0 <= j < i && all@[j] == id
                                && is_expired(now_ms, registry@[id].last_alive_mark_ms);
                            assert(all@[j] == all@[i as int]);
                        }
                    }
                    ids.push(id);
                }
            },
            None => {},
        }
        assert forall|k: i64| ids@.contains(k) <==> (exists|j: int| 0 <= j < i + 1 && all@[j] == k
            && is_expired(now_ms, registry@[k].last_alive_mark_ms)) by {
            if ids@ != old_ids {
                vstd::seq_lib::lemma_seq_contains_after_push(old_ids, id, k);
            }
            if exists|j: int| 0 <= j < i + 1 && all@[j] == k && is_expired(now_ms, registry@[k].last_alive_mark_ms) {
                let j = choose|j: int| 0 <= j < i + 1 && all@[j] == k && is_expired(now_ms, registry@[k].last_alive_mark_ms);
                if j == i {
                    assert(k == id);
                }
            }
        }
        i = i + 1;
    }
    proof {
        assert forall|k: i64| ids@.to_set().contains(k) <==> expired_in(registry@, now_ms).contains(k) by {
            if expired_in(registry@, now_ms).contains(k) {
                assert(all@.to_set().contains(k));
                let j = choose|j: int| 0 <= j < all@.len() && all@[j] == k;
                assert(all@[j] == k);
            }
        }
        assert(ids@.to_set() =~= expired_in(registry@, now_ms));
    }
    ids
}


/// Why a request for a session could not be served.
#[derive(Debug, Clone, Copy, PartialEq, Eq, Structural)]
pub enum SessionError {
    /// No session has this id.
    NotFound(i64),
}

/// The session a seek request goes to; refused for an unknown id.
pub fn seek_session<'a, H, E>(registry: &'a SessionRegistry<H, E>, session_id: i64) -> (r: Result<&'a H, SessionError>)
    ensures
        registry@.contains_key(session_id) ==> (r matches Ok(h) && *h == registry@[session_id].handle),
        !registry@.contains_key(session_id) ==> r == Err::<&'a H, SessionError>(SessionError::NotFound(session_id)),
{
    match registry.get_session(session_id) {
        Some(e) => Ok(&e.handle),
        None => Err(SessionError::NotFound(session_id)),
    }
}

/// The session a go-live request goes to; refused for an unknown id.
pub fn wsc_rtp_live_session<'a, H, E>(registry: &'a SessionRegistry<H, E>, session_id: i64) -> (r: Result<&'a H, SessionError>)
    ensures
        registry@.contains_key(session_id) ==> (r matches Ok(h) && *h == registry@[session_id].handle),
        !registry@.contains_key(session_id) ==> r == Err::<&'a H, SessionError>(SessionError::NotFound(session_id)),
{
    seek_session(registry, session_id)
}

/// The session a speed request goes to; refused for an unknown id.
pub fn set_speed_session<'a, H, E>(registry: &'a SessionRegistry<H, E>, session_id: i64) -> (r: Result<&'a H, SessionError>)
    ensures
        registry@.contains_key(session_id) ==> (r matches Ok(h) && *h == registry@[session_id].handle),
        !registry@.contains_key(session_id) ==> r == Err::<&'a H, SessionError>(SessionError::NotFound(session_id)),
{
    seek_session(registry, session_id)
}

/// Whether to keep waiting for the other holders of a session's resources
/// to let go before releasing them: while others hold them and attempts
/// remain.
pub fn should_wait_for_release(retry_count: usize, max_retries: usize, strong_count: usize) -> (wait: bool)
    ensures
        wait == (retry_count < max_retries && strong_count != 1),
{
    retry_count < max_retries && strong_count != 1
}

/// After the UI marks a session alive at `now_ms`, the session is not among
/// the expired ones at any time up to two seconds later, and it is among
/// them once more than two seconds have passed without another mark.
pub proof fn lemma_marked_session_not_expired<H, E>(
    before: Map<i64, SessionEntry<H, E>>,
    session_id: i64,
    now_ms: u64,
    later_ms: u64,
)
    requires
        before.contains_key(session_id),
        now_ms <= later_ms,
    ensures
        ({
            let after = before.insert(
                session_id,
                SessionEntry { last_alive_mark_ms: now_ms, ..before[session_id] },
            );
            &&& later_ms - now_ms <= ALIVE_TIMEOUT_MS ==> !expired_in(after, later_ms).contains(session_id)
            &&& later_ms - now_ms > ALIVE_TIMEOUT_MS ==> expired_in(after, later_ms).contains(session_id)
        }),
{
}

/// After destroying the streams of an engine, no remaining session belongs
/// to it, and every other session is still there, unchanged.
pub proof fn lemma_destroy_engine_leaves_others<H, E>(before: Map<i64, SessionEntry<H, E>>, engine_handle: i64, k: i64)
    ensures
        before.remove_keys(owned_by(before, engine_handle)).contains_key(k)
            ==> before.remove_keys(owned_by(before, engine_handle))[k].engine_handle != engine_handle,
        before.contains_key(k) && before[k].engine_handle != engine_handle
            ==> before.remove_keys(owned_by(before, engine_handle)).contains_key(k)
            && before.remove_keys(owned_by(before, engine_handle))[k] == before[k],
{
}

} // verus!

//! The connections that are kept for sessions, and what has happened on them.
use crate::assoc;
use crate::assoc::{lookup, put, removed};
use crate::codex_transport::{
    cached_request_body, continued, input_of, body_input, Continuation, ContinuationV,
};
use crate::json::{member, text_of, Json, JsonV};
use crate::text::same;
use crate::tool_call_ids::contains_name;
use vstd::prelude::*;

verus! {

/// What has happened on the connections of a session.
#[derive(Debug, PartialEq)]
pub struct OpenAICodexWebSocketDebugStats {
    pub requests: u64,
    pub connections_created: u64,
    pub connections_reused: u64,
    pub cached_context_requests: u64,
    pub store_true_requests: u64,
    pub full_context_requests: u64,
    pub delta_requests: u64,
    pub last_input_items: usize,
    pub last_delta_input_items: Option<usize>,
    pub last_previous_response_id: Option<String>,
    pub websocket_failures: u64,
    pub sse_fallbacks: u64,
    pub websocket_fallback_active: Option<bool>,
    pub last_websocket_error: Option<String>,
}

/// The model of [`OpenAICodexWebSocketDebugStats`].
pub struct OpenAICodexWebSocketDebugStatsV {
    pub requests: u64,
    pub connections_created: u64,
    pub connections_reused: u64,
    pub cached_context_requests: u64,
    pub store_true_requests: u64,
    pub full_context_requests: u64,
    pub delta_requests: u64,
    pub last_input_items: usize,
    pub last_delta_input_items: Option<usize>,
    pub last_previous_response_id: Option<Seq<char>>,
    pub websocket_failures: u64,
    pub sse_fallbacks: u64,
    pub websocket_fallback_active: Option<bool>,
    pub last_websocket_error: Option<Seq<char>>,
}

impl View for OpenAICodexWebSocketDebugStats {
    type V = OpenAICodexWebSocketDebugStatsV;

    open spec fn view(&self) -> OpenAICodexWebSocketDebugStatsV {
        OpenAICodexWebSocketDebugStatsV {
            requests: self.requests.deep_view(),
            connections_created: self.connections_created.deep_view(),
            connections_reused: self.connections_reused.deep_view(),
            cached_context_requests: self.cached_context_requests.deep_view(),
            store_true_requests: self.store_true_requests.deep_view(),
            full_context_requests: self.full_context_requests.deep_view(),
            delta_requests: self.delta_requests.deep_view(),
            last_input_items: self.last_input_items.deep_view(),
            last_delta_input_items: self.last_delta_input_items.deep_view(),
            last_previous_response_id: self.last_previous_response_id.deep_view(),
            websocket_failures: self.websocket_failures.deep_view(),
            sse_fallbacks: self.sse_fallbacks.deep_view(),
            websocket_fallback_active: self.websocket_fallback_active.deep_view(),
            last_websocket_error: self.last_websocket_error.deep_view(),
        }
    }
}

impl DeepView for OpenAICodexWebSocketDebugStats {
    type V = OpenAICodexWebSocketDebugStatsV;

    open spec fn deep_view(&self) -> OpenAICodexWebSocketDebugStatsV {
        self@
    }
}

impl Clone for OpenAICodexWebSocketDebugStats {
    fn clone(&self) -> (r: Self)
        ensures
            r@ == self@,
    {
        OpenAICodexWebSocketDebugStats {
            requests: self.requests,
            connections_created: self.connections_created,
            connections_reused: self.connections_reused,
            cached_context_requests: self.cached_context_requests,
            store_true_requests: self.store_true_requests,
            full_context_requests: self.full_context_requests,
            delta_requests: self.delta_requests,
            last_input_items: self.last_input_items,
            last_delta_input_items: self.last_delta_input_items,
            last_previous_response_id: self.last_previous_response_id.clone(),
            websocket_failures: self.websocket_failures,
            sse_fallbacks: self.sse_fallbacks,
            websocket_fallback_active: self.websocket_fallback_active,
            last_websocket_error: self.last_websocket_error.clone(),
        }
    }
}

impl Default for OpenAICodexWebSocketDebugStats {
    fn default() -> (r: Self)
        ensures
            r.requests == 0,
            r.connections_created == 0,
            r.connections_reused == 0,
            r.cached_context_requests == 0,
            r.store_true_requests == 0,
            r.full_context_requests == 0,
            r.delta_requests == 0,
            r.last_input_items == 0,
            r.last_delta_input_items is None,
            r.last_previous_response_id is None,
            r.websocket_failures == 0,
            r.sse_fallbacks == 0,
            r.websocket_fallback_active is None,
            r.last_websocket_error is None,
    {
        OpenAICodexWebSocketDebugStats {
            requests: 0,
            connections_created: 0,
            connections_reused: 0,
            cached_context_requests: 0,
            store_true_requests: 0,
            full_context_requests: 0,
            delta_requests: 0,
            last_input_items: 0,
            last_delta_input_items: None,
            last_previous_response_id: None,
            websocket_failures: 0,
            sse_fallbacks: 0,
            websocket_fallback_active: None,
            last_websocket_error: None,
        }
    }
}

/// A connection that is kept for a session and an account.
#[derive(Debug, PartialEq)]
pub struct CachedConnection {
    pub session: String,
    pub account: String,
    /// Which connection it is.
    pub handle: u64,
    /// Whether a request uses it.
    pub busy: bool,
    /// When it came about, in milliseconds.
    pub created_at: u64,
    /// How often it has been given back.
    pub idle_generation: u64,
}

/// The model of [`CachedConnection`].
pub struct CachedConnectionV {
    pub session: Seq<char>,
    pub account: Seq<char>,
    pub handle: u64,
    pub busy: bool,
    pub created_at: u64,
    pub idle_generation: u64,
}

impl View for CachedConnection {
    type V = CachedConnectionV;

    open spec fn view(&self) -> CachedConnectionV {
        CachedConnectionV {
            session: self.session.deep_view(),
            account: self.account.deep_view(),
            handle: self.handle.deep_view(),
            busy: self.busy.deep_view(),
            created_at: self.created_at.deep_view(),
            idle_generation: self.idle_generation.deep_view(),
        }
    }
}

impl DeepView for CachedConnection {
    type V = CachedConnectionV;

    open spec fn deep_view(&self) -> CachedConnectionV {
        self@
    }
}

impl Clone for CachedConnection {
    fn clone(&self) -> (r: Self)
        ensures
            r@ == self@,
    {
        CachedConnection {
            session: self.session.clone(),
            account: self.account.clone(),
            handle: self.handle,
            busy: self.busy,
            created_at: self.created_at,
            idle_generation: self.idle_generation,
        }
    }
}

/// How old a connection may become, in milliseconds.
pub const SESSION_WEBSOCKET_MAX_AGE_MS: u64 = 3300000;

/// How long a connection is kept that nobody uses, in milliseconds.
pub const SESSION_WEBSOCKET_CACHE_TTL_MS: u64 = 300000;

/// The connections that are kept, one at most for each session and account, and what they remember.
#[derive(Debug)]
pub struct ConnectionCache {
    pub entries: Vec<CachedConnection>,
    /// What each connection that was kept at first remembers of its last response. A connection that
    /// is kept no longer remembers it as well, until nobody holds it.
    pub memory: Vec<(u64, Option<Continuation>)>,
}

impl ConnectionCache {
    /// What the connections remember.
    pub open spec fn remembered(&self) -> Seq<(u64, Option<ContinuationV>)> {
        self.memory.deep_view()
    }
}

impl View for ConnectionCache {
    type V = Seq<CachedConnectionV>;

    open spec fn view(&self) -> Seq<CachedConnectionV> {
        self.entries.deep_view()
    }
}

/// Whether a connection is the one that is kept for a session and an account.
pub open spec fn kept_for(entry: CachedConnectionV, session: Seq<char>, account: Seq<char>) -> bool {
    entry.session == session && entry.account == account
}

/// The position of the connection of a session and an account, or the length where there is none.
pub open spec fn entry_index(
    entries: Seq<CachedConnectionV>,
    session: Seq<char>,
    account: Seq<char>,
) -> nat
    decreases entries.len(),
{
    if entries.len() == 0 || kept_for(entries[0], session, account) {
        0
    } else {
        1 + entry_index(entries.drop_first(), session, account)
    }
}

/// The connection of a session and an account.
pub open spec fn kept(
    entries: Seq<CachedConnectionV>,
    session: Seq<char>,
    account: Seq<char>,
) -> Option<CachedConnectionV> {
    let i = entry_index(entries, session, account);
    if i < entries.len() {
        Some(entries[i as int])
    } else {
        None
    }
}

/// Whether no session and account have two connections.
pub open spec fn well_formed(entries: Seq<CachedConnectionV>) -> bool {
    forall|i: int, j: int|
        0 <= i < j < entries.len() ==> !kept_for(
            #[trigger] entries[j],
            (#[trigger] entries[i]).session,
            entries[i].account,
        )
}

proof fn lemma_entry_index(
    entries: Seq<CachedConnectionV>,
    session: Seq<char>,
    account: Seq<char>,
    i: int,
)
    requires
        0 <= i <= entries.len(),
        forall|k: int| 0 <= k < i ==> !kept_for(#[trigger] entries[k], session, account),
        i < entries.len() ==> kept_for(entries[i], session, account),
    ensures
        entry_index(entries, session, account) == i,
    decreases entries.len(),
{
    if entries.len() > 0 && !kept_for(entries[0], session, account) {
        let rest = entries.drop_first();
        assert forall|k: int| 0 <= k < i - 1 implies !kept_for(
            #[trigger] rest[k],
            session,
            account,
        ) by {
            assert(rest[k] == entries[k + 1]);
        }
        lemma_entry_index(rest, session, account, i - 1);
    }
}

proof fn lemma_entry_props(entries: Seq<CachedConnectionV>, session: Seq<char>, account: Seq<char>)
    ensures
        ({
            let i = entry_index(entries, session, account) as int;
            &&& i <= entries.len()
            &&& i < entries.len() ==> kept_for(entries[i], session, account)
            &&& forall|k: int| 0 <= k < i ==> !kept_for(#[trigger] entries[k], session, account)
        }),
    decreases entries.len(),
{
    if entries.len() > 0 && !kept_for(entries[0], session, account) {
        let rest = entries.drop_first();
        lemma_entry_props(rest, session, account);
        let i = entry_index(entries, session, account) as int;
        assert forall|k: int| 0 <= k < i implies !kept_for(
            #[trigger] entries[k],
            session,
            account,
        ) by {
            if k > 0 {
                assert(rest[k - 1] == entries[k]);
            }
        }
    }
}

/// What a request does for a connection.
#[derive(Clone, Copy, Debug, PartialEq, Eq, Structural)]
pub enum Acquisition {
    /// It uses the connection that is kept.
    Reuse { handle: u64 },
    /// It makes a new one.
    Connect,
    /// It makes a new one, and closes the one that was kept, which is too old.
    ReplaceAged { handle: u64 },
    /// It makes a new one, and closes the one that was kept, which is dead.
    ReplaceDead { handle: u64 },
}

/// What [`ConnectionCache::acquire`] does. A connection that is too old is not used again, nor one
/// that is dead or in use.
pub open spec fn acquired(
    entries: Seq<CachedConnectionV>,
    session: Seq<char>,
    account: Seq<char>,
    now: u64,
    alive: bool,
) -> (Seq<CachedConnectionV>, Acquisition) {
    let i = entry_index(entries, session, account) as int;
    if i >= entries.len() {
        (entries, Acquisition::Connect)
    } else {
        let entry = entries[i];
        if entry.busy {
            (entries, Acquisition::Connect)
        } else if now - entry.created_at >= SESSION_WEBSOCKET_MAX_AGE_MS {
            (entries.remove(i), Acquisition::ReplaceAged { handle: entry.handle })
        } else if alive {
            (
                entries.update(i, CachedConnectionV { busy: true, ..entry }),
                Acquisition::Reuse { handle: entry.handle },
            )
        } else {
            (entries.remove(i), Acquisition::ReplaceDead { handle: entry.handle })
        }
    }
}

/// A connection that has just come about and is in use.
pub open spec fn new_entry(
    session: Seq<char>,
    account: Seq<char>,
    handle: u64,
    now: u64,
) -> CachedConnectionV {
    CachedConnectionV {
        session,
        account,
        handle,
        busy: true,
        created_at: now,
        idle_generation: 0,
    }
}

/// What [`ConnectionCache::connected`] does: a new connection is kept, unless the one that is kept
/// is in use.
pub open spec fn connected(
    entries: Seq<CachedConnectionV>,
    session: Seq<char>,
    account: Seq<char>,
    handle: u64,
    now: u64,
) -> (Seq<CachedConnectionV>, bool) {
    let i = entry_index(entries, session, account) as int;
    let entry = new_entry(session, account, handle, now);
    if i >= entries.len() {
        (entries.push(entry), true)
    } else if entries[i].busy {
        (entries, false)
    } else {
        (entries.update(i, entry), true)
    }
}

/// What becomes of a connection that a request gives back.
#[derive(Clone, Copy, Debug, PartialEq, Eq, Structural)]
pub enum Release {
    /// It is closed.
    Close,
    /// It is kept until nobody has used it for a while; then [`ConnectionCache::idle_timeout`] is
    /// told the generation.
    Keep { generation: u64 },
    /// It is kept by nobody any more.
    Forgotten,
}

/// The number after another.
pub open spec fn next_generation(n: u64) -> u64 {
    if n == u64::MAX {
        0
    } else {
        (n + 1) as u64
    }
}

/// What [`ConnectionCache::release`] does.
pub open spec fn released(
    entries: Seq<CachedConnectionV>,
    session: Seq<char>,
    account: Seq<char>,
    handle: u64,
    keep: bool,
    alive: bool,
) -> (Seq<CachedConnectionV>, Release) {
    let i = entry_index(entries, session, account) as int;
    let present = i < entries.len() && entries[i].handle == handle;
    if !keep || !alive {
        (
            if present {
                entries.remove(i)
            } else {
                entries
            },
            Release::Close,
        )
    } else if present {
        let generation = next_generation(entries[i].idle_generation);
        (
            entries.update(
                i,
                CachedConnectionV { busy: false, idle_generation: generation, ..entries[i] },
            ),
            Release::Keep { generation },
        )
    } else {
        (entries, Release::Forgotten)
    }
}

/// What [`ConnectionCache::idle_timeout`] does: a connection that nobody has used since is closed.
pub open spec fn timed_out(
    entries: Seq<CachedConnectionV>,
    session: Seq<char>,
    account: Seq<char>,
    handle: u64,
    generation: u64,
) -> (Seq<CachedConnectionV>, bool) {
    let i = entry_index(entries, session, account) as int;
    if i < entries.len() && entries[i].handle == handle && !entries[i].busy
        && entries[i].idle_generation == generation {
        (entries.remove(i), true)
    } else {
        (entries, false)
    }
}

/// The connections that are not of a session.
pub open spec fn others(entries: Seq<CachedConnectionV>, session: Seq<char>) -> Seq<
    CachedConnectionV,
>
    decreases entries.len(),
{
    if entries.len() == 0 {
        Seq::empty()
    } else {
        let rest = others(entries.drop_last(), session);
        if entries.last().session == session {
            rest
        } else {
            rest.push(entries.last())
        }
    }
}

/// The connections of a session.
pub open spec fn handles_of(entries: Seq<CachedConnectionV>, session: Seq<char>) -> Seq<u64>
    decreases entries.len(),
{
    if entries.len() == 0 {
        Seq::empty()
    } else {
        let rest = handles_of(entries.drop_last(), session);
        if entries.last().session == session {
            rest.push(entries.last().handle)
        } else {
            rest
        }
    }
}

/// What [`ConnectionCache::close_sessions`] does: the connections of a session are given up, or all
/// where none is named.
pub open spec fn sessions_closed(entries: Seq<CachedConnectionV>, session: Option<Seq<char>>) -> (
    Seq<CachedConnectionV>,
    Seq<u64>,
) {
    if session is Some && session->Some_0.len() > 0 {
        (others(entries, session->Some_0), handles_of(entries, session->Some_0))
    } else {
        (Seq::empty(), entries.map_values(|e: CachedConnectionV| e.handle))
    }
}

impl ConnectionCache {
    /// A cache that keeps nothing.
    pub fn new() -> (r: Self)
        ensures
            r@ == Seq::<CachedConnectionV>::empty(),
            r.remembered() == Seq::<(u64, Option<ContinuationV>)>::empty(),
    {
        let r = ConnectionCache { entries: Vec::new(), memory: Vec::new() };
        assert(r@ =~= Seq::empty());
        assert(r.remembered() =~= Seq::empty());
        r
    }

    fn find(&self, session: &str, account: &str) -> (r: usize)
        ensures
            r == entry_index(self@, session@, account@),
            r <= self@.len(),
    {
        let ghost all = self@;
        let mut i: usize = 0;
        while i < self.entries.len()
            invariant
                all == self@,
                i <= self.entries@.len(),
                forall|k: int| 0 <= k < i ==> !kept_for(#[trigger] all[k], session@, account@),
            decreases self.entries@.len() - i,
        {
            assert(all[i as int] == self.entries@[i as int]@);
            if same(self.entries[i].session.as_str(), session) && same(
                self.entries[i].account.as_str(),
                account,
            ) {
                proof {
                    lemma_entry_index(all, session@, account@, i as int);
                }
                return i;
            }
            i += 1;
        }
        proof {
            lemma_entry_index(all, session@, account@, i as int);
        }
        i
    }

    /// The connection of a session and an account.
    pub fn get(&self, session: &str, account: &str) -> (r: Option<&CachedConnection>)
        ensures
            r.deep_view() == kept(self@, session@, account@),
    {
        let i = self.find(session, account);
        if i < self.entries.len() {
            Some(&self.entries[i])
        } else {
            None
        }
    }

    fn drop_entry(&mut self, i: usize)
        requires
            i < old(self)@.len(),
        ensures
            final(self)@ == old(self)@.remove(i as int),
            final(self).remembered() == old(self).remembered(),
    {
        let ghost all = self@;
        let _ = self.entries.remove(i);
        assert(self@ =~= all.remove(i as int));
    }

    fn set_entry(&mut self, i: usize, entry: CachedConnection)
        requires
            i < old(self)@.len(),
        ensures
            final(self)@ == old(self)@.update(i as int, entry@),
            final(self).remembered() == old(self).remembered(),
    {
        let ghost all = self@;
        let ghost new = entry@;
        self.entries.set(i, entry);
        assert(self@ =~= all.update(i as int, new));
    }

    /// What a request does for a connection. `alive` says whether the connection that is kept for
    /// the session and the account can still be used, and `now` is the time in milliseconds.
    pub fn acquire(&mut self, session: &str, account: &str, now: u64, alive: bool) -> (r:
        Acquisition)
        ensures
            (final(self)@, r) == acquired(old(self)@, session@, account@, now, alive),
            final(self).remembered() == old(self).remembered(),
            well_formed(old(self)@) ==> well_formed(final(self)@),
    {
        let ghost all = self@;
        proof {
            lemma_entry_props(all, session@, account@);
        }
        let i = self.find(session, account);
        if i >= self.entries.len() {
            return Acquisition::Connect;
        }
        let mut entry = self.entries[i].clone();
        assert(entry@ == all[i as int]);
        if entry.busy {
            return Acquisition::Connect;
        }
        let handle = entry.handle;
        if now >= entry.created_at && now - entry.created_at >= SESSION_WEBSOCKET_MAX_AGE_MS {
            self.drop_entry(i);
            return Acquisition::ReplaceAged { handle };
        }
        if alive {
            entry.busy = true;
            self.set_entry(i, entry);
            return Acquisition::Reuse { handle };
        }
        self.drop_entry(i);
        Acquisition::ReplaceDead { handle }
    }

    /// Keeps a new connection, unless the one that is kept is in use. Returns whether it is kept.
    pub fn connected(&mut self, session: &str, account: &str, handle: u64, now: u64) -> (r: bool)
        ensures
            (final(self)@, r) == connected(old(self)@, session@, account@, handle, now),
            final(self).remembered() == if r {
                put(old(self).remembered(), handle, None)
            } else {
                old(self).remembered()
            },
            well_formed(old(self)@) ==> well_formed(final(self)@),
    {
        let ghost all = self@;
        proof {
            lemma_entry_props(all, session@, account@);
        }
        let i = self.find(session, account);
        let entry = CachedConnection {
            session: session.to_owned(),
            account: account.to_owned(),
            handle,
            busy: true,
            created_at: now,
            idle_generation: 0,
        };
        let ghost new = entry@;
        if i >= self.entries.len() {
            self.entries.push(entry);
            assoc::insert_number(&mut self.memory, handle, None);
            assert(self@ =~= all.push(new));
            return true;
        }
        assert(self.entries@[i as int]@ == all[i as int]);
        if self.entries[i].busy {
            return false;
        }
        self.set_entry(i, entry);
        assoc::insert_number(&mut self.memory, handle, None);
        true
    }

    /// Takes a connection back. `keep` says whether the request that used it went well, and `alive`
    /// whether the connection can still be used.
    pub fn release(&mut self, session: &str, account: &str, handle: u64, keep: bool, alive: bool) -> (r:
        Release)
        ensures
            (final(self)@, r) == released(old(self)@, session@, account@, handle, keep, alive),
            final(self).remembered() == old(self).remembered(),
            well_formed(old(self)@) ==> well_formed(final(self)@),
    {
        let ghost all = self@;
        let i = self.find(session, account);
        let present = if i < self.entries.len() {
            assert(self.entries@[i as int]@ == all[i as int]);
            self.entries[i].handle == handle
        } else {
            false
        };
        if !keep || !alive {
            if present {
                self.drop_entry(i);
            }
            return Release::Close;
        }
        if !present {
            return Release::Forgotten;
        }
        let mut entry = self.entries[i].clone();
        assert(entry@ == all[i as int]);
        let generation: u64 = if entry.idle_generation == u64::MAX {
            0
        } else {
            entry.idle_generation + 1
        };
        entry.busy = false;
        entry.idle_generation = generation;
        self.set_entry(i, entry);
        Release::Keep { generation }
    }

    /// Gives up a connection that nobody has used since it was given back. Returns whether it is to
    /// be closed.
    pub fn idle_timeout(&mut self, session: &str, account: &str, handle: u64, generation: u64) -> (r:
        bool)
        ensures
            (final(self)@, r) == timed_out(old(self)@, session@, account@, handle, generation),
            final(self).remembered() == old(self).remembered(),
            well_formed(old(self)@) ==> well_formed(final(self)@),
    {
        let ghost all = self@;
        let i = self.find(session, account);
        if i >= self.entries.len() {
            return false;
        }
        assert(self.entries@[i as int]@ == all[i as int]);
        if self.entries[i].handle != handle || self.entries[i].busy
            || self.entries[i].idle_generation != generation {
            return false;
        }
        self.drop_entry(i);
        true
    }

    /// Gives up the connections of a session, or all where none is named. Returns those that are to
    /// be closed.
    pub fn close_sessions(&mut self, session: Option<&str>) -> (r: Vec<u64>)
        ensures
            (final(self)@, r@) == sessions_closed(
                old(self)@,
                match session {
                    Some(session) => Some(session@),
                    None => None,
                },
            ),
            final(self).remembered() == old(self).remembered(),
            well_formed(old(self)@) ==> well_formed(final(self)@),
    {
        let ghost all = self@;
        let named = match session {
            Some(session) => !session.is_empty(),
            None => false,
        };
        let mut left: Vec<CachedConnection> = Vec::new();
        let mut handles: Vec<u64> = Vec::new();
        let mut i: usize = 0;
        assert(all.take(0) =~= Seq::empty());
        assert(left.deep_view() =~= Seq::empty());
        assert(handles@ =~= all.take(0).map_values(|e: CachedConnectionV| e.handle));
        while i < self.entries.len()
            invariant
                all == self@,
                all == old(self)@,
                self.remembered() == old(self).remembered(),
                i <= self.entries@.len(),
                named ==> session is Some,
                named ==> left.deep_view() == others(all.take(i as int), session->Some_0@)
                    && handles@ == handles_of(all.take(i as int), session->Some_0@),
                !named ==> left.deep_view() == Seq::<CachedConnectionV>::empty() && handles@
                    == all.take(i as int).map_values(|e: CachedConnectionV| e.handle),
            decreases self.entries@.len() - i,
        {
            let ghost kept_so_far = left.deep_view();
            let ghost closed_so_far = handles@;
            assert(all.take(i + 1).drop_last() =~= all.take(i as int));
            assert(all.take(i + 1).last() == self.entries@[i as int]@);
            let leave = match session {
                Some(session) => named && !same(self.entries[i].session.as_str(), session),
                None => false,
            };
            if leave {
                left.push(self.entries[i].clone());
                assert(left.deep_view() =~= kept_so_far.push(self.entries@[i as int]@));
            } else {
                handles.push(self.entries[i].handle);
                assert(!named ==> handles@ =~= all.take(i + 1).map_values(
                    |e: CachedConnectionV| e.handle,
                ));
            }
            i += 1;
        }
        assert(all.take(i as int) =~= all);
        self.entries = left;
        proof {
            if named && well_formed(all) {
                lemma_others_well_formed(all, session->Some_0@);
            }
        }
        handles
    }

    /// The request that is sent over a connection, which may leave out what the connection has
    /// seen. That the connection is kept no longer makes no difference.
    pub fn cached_request_body(&mut self, handle: u64, body: &Json) -> (r: Json)
        ensures
            (final(self).remembered(), r@) == request_continued(
                old(self).remembered(),
                handle,
                body@,
            ),
            final(self)@ == old(self)@,
    {
        let ghost all = self.remembered();
        let i = assoc::find_number(&self.memory, handle);
        if i >= self.memory.len() {
            return body.clone();
        }
        assert(all[i as int] == (self.memory@[i as int].0, self.memory@[i as int].1.deep_view()));
        let mut continuation = self.memory[i].1.clone();
        let r = cached_request_body(&mut continuation, body);
        assoc::insert_number(&mut self.memory, handle, continuation);
        r
    }

    /// Remembers what a connection has seen, or forgets it. A connection that was never kept
    /// remembers nothing.
    pub fn set_continuation(&mut self, handle: u64, continuation: Option<Continuation>)
        ensures
            final(self).remembered() == noted(
                old(self).remembered(),
                handle,
                continuation.deep_view(),
            ),
            final(self)@ == old(self)@,
    {
        let i = assoc::find_number(&self.memory, handle);
        if i < self.memory.len() {
            assoc::insert_number(&mut self.memory, handle, continuation);
        }
    }

    /// Forgets what a connection remembers that nobody holds, unless it is still kept.
    pub fn forget(&mut self, handle: u64)
        ensures
            final(self).remembered() == if is_kept(old(self)@, handle) {
                old(self).remembered()
            } else {
                removed(old(self).remembered(), handle)
            },
            final(self)@ == old(self)@,
    {
        let ghost all = self@;
        let mut i: usize = 0;
        while i < self.entries.len()
            invariant
                all == self@,
                *self == *old(self),
                i <= all.len(),
                forall|k: int| 0 <= k < i ==> (#[trigger] all[k]).handle != handle,
            decreases all.len() - i,
        {
            assert(all[i as int] == self.entries@[i as int]@);
            if self.entries[i].handle == handle {
                return ;
            }
            i += 1;
        }
        let _ = assoc::remove_number(&mut self.memory, handle);
    }
}

/// Whether a connection is kept for some session and account.
pub open spec fn is_kept(entries: Seq<CachedConnectionV>, handle: u64) -> bool {
    exists|i: int| 0 <= i < entries.len() && (#[trigger] entries[i]).handle == handle
}

/// What [`ConnectionCache::set_continuation`] does.
pub open spec fn noted(
    memory: Seq<(u64, Option<ContinuationV>)>,
    handle: u64,
    continuation: Option<ContinuationV>,
) -> Seq<(u64, Option<ContinuationV>)> {
    match lookup(memory, handle) {
        Some(_) => put(memory, handle, continuation),
        None => memory,
    }
}

/// What [`ConnectionCache::cached_request_body`] does.
pub open spec fn request_continued(
    memory: Seq<(u64, Option<ContinuationV>)>,
    handle: u64,
    body: JsonV,
) -> (Seq<(u64, Option<ContinuationV>)>, JsonV) {
    match lookup(memory, handle) {
        Some(c) => {
            let (continuation, request) = continued(c, body);
            (put(memory, handle, continuation), request)
        },
        None => (memory, body),
    }
}

/// What a connection was told to remember decides the next request over it, whatever else happens
/// to other connections in between.
pub proof fn law_connections_remember(
    memory: Seq<(u64, Option<ContinuationV>)>,
    handle: u64,
    other: u64,
    continuation: Option<ContinuationV>,
    between: Option<ContinuationV>,
    body: JsonV,
)
    requires
        lookup(memory, handle) is Some,
        other != handle,
    ensures
        request_continued(
            noted(noted(memory, handle, continuation), other, between),
            handle,
            body,
        ).1 == continued(continuation, body).1,
{
    assoc::lemma_put(memory, handle, continuation, handle);
    assoc::lemma_put(noted(memory, handle, continuation), other, between, handle);
}

proof fn lemma_others_well_formed(entries: Seq<CachedConnectionV>, session: Seq<char>)
    requires
        well_formed(entries),
    ensures
        well_formed(others(entries, session)),
        forall|e: CachedConnectionV| others(entries, session).contains(e) ==> entries.contains(e),
    decreases entries.len(),
{
    if entries.len() > 0 {
        let rest = entries.drop_last();
        assert(well_formed(rest)) by {
            assert forall|i: int, j: int| 0 <= i < j < rest.len() implies !kept_for(
                #[trigger] rest[j],
                (#[trigger] rest[i]).session,
                rest[i].account,
            ) by {
                assert(rest[i] == entries[i] && rest[j] == entries[j]);
            }
        }
        lemma_others_well_formed(rest, session);
        let r = others(entries, session);
        let before = others(rest, session);
        assert forall|e: CachedConnectionV| r.contains(e) implies entries.contains(e) by {
            vstd::seq_lib::lemma_seq_contains_after_push(before, entries.last(), e);
            vstd::seq_lib::lemma_seq_contains_after_push(rest, entries.last(), e);
            assert(entries =~= rest.push(entries.last()));
        }
        assert forall|i: int, j: int| 0 <= i < j < r.len() implies !kept_for(
            #[trigger] r[j],
            (#[trigger] r[i]).session,
            r[i].account,
        ) by {
            if j < before.len() {
                assert(r[i] == before[i] && r[j] == before[j]);
            } else {
                assert(r[i] == before[i]);
                assert(before.contains(before[i]));
                assert(rest.contains(before[i]));
                let k = choose|k: int| 0 <= k < rest.len() && rest[k] == before[i];
                assert(entries[k] == before[i]);
                assert(entries[entries.len() - 1] == entries.last());
            }
        }
    }
}

/// A connection is in the hands of one request at a time: once it has been handed out, nobody gets
/// it until it is given back.
pub proof fn law_one_request_at_a_time(
    entries: Seq<CachedConnectionV>,
    session: Seq<char>,
    account: Seq<char>,
    first: u64,
    second: u64,
    alive: bool,
)
    requires
        acquired(entries, session, account, first, true).1 is Reuse,
    ensures
        ({
            let held = acquired(entries, session, account, first, true).0;
            acquired(held, session, account, second, alive) == (held, Acquisition::Connect)
        }),
{
    lemma_entry_props(entries, session, account);
    let i = entry_index(entries, session, account) as int;
    let held = acquired(entries, session, account, first, true).0;
    assert forall|k: int| 0 <= k < i implies !kept_for(#[trigger] held[k], session, account) by {
        assert(held[k] == entries[k]);
    }
    lemma_entry_index(held, session, account, i);
}

/// A new connection is in use as soon as it is kept, and given back it is handed out again while it
/// is young and alive.
pub proof fn law_returned_connection_is_reused(
    entries: Seq<CachedConnectionV>,
    session: Seq<char>,
    account: Seq<char>,
    handle: u64,
    now: u64,
    later: u64,
)
    requires
        connected(entries, session, account, handle, now).1,
        later - now < SESSION_WEBSOCKET_MAX_AGE_MS,
    ensures
        ({
            let held = connected(entries, session, account, handle, now).0;
            let back = released(held, session, account, handle, true, true);
            &&& acquired(held, session, account, later, true).1 == Acquisition::Connect
            &&& back.1 is Keep
            &&& acquired(back.0, session, account, later, true).1 == (Acquisition::Reuse { handle })
        }),
{
    lemma_entry_props(entries, session, account);
    let i = entry_index(entries, session, account) as int;
    let held = connected(entries, session, account, handle, now).0;
    assert forall|k: int| 0 <= k < i implies !kept_for(#[trigger] held[k], session, account) by {
        assert(held[k] == entries[k]);
    }
    assert(held[i] == new_entry(session, account, handle, now));
    lemma_entry_index(held, session, account, i);
    let back = released(held, session, account, handle, true, true).0;
    assert forall|k: int| 0 <= k < i implies !kept_for(#[trigger] back[k], session, account) by {
        assert(back[k] == held[k]);
    }
    lemma_entry_index(back, session, account, i);
}

/// What has happened on the connections of sessions, and which sessions do without them.
#[derive(Debug)]
pub struct CodexSessions {
    pub stats: Vec<(String, OpenAICodexWebSocketDebugStats)>,
    /// The sessions whose connections failed.
    pub fallbacks: Vec<String>,
}

/// The model of [`CodexSessions`].
pub struct CodexSessionsV {
    pub stats: Seq<(Seq<char>, OpenAICodexWebSocketDebugStatsV)>,
    pub fallbacks: Seq<Seq<char>>,
}

impl View for CodexSessions {
    type V = CodexSessionsV;

    open spec fn view(&self) -> CodexSessionsV {
        CodexSessionsV {
            stats: self.stats.deep_view(),
            fallbacks: self.fallbacks.deep_view(),
        }
    }
}

/// What is known of a session of which nothing has happened.
pub open spec fn no_stats() -> OpenAICodexWebSocketDebugStatsV {
    OpenAICodexWebSocketDebugStatsV {
        requests: 0,
        connections_created: 0,
        connections_reused: 0,
        cached_context_requests: 0,
        store_true_requests: 0,
        full_context_requests: 0,
        delta_requests: 0,
        last_input_items: 0,
        last_delta_input_items: None,
        last_previous_response_id: None,
        websocket_failures: 0,
        sse_fallbacks: 0,
        websocket_fallback_active: None,
        last_websocket_error: None,
    }
}

/// What has happened in a session.
pub open spec fn stats_of(s: CodexSessionsV, session: Seq<char>) -> OpenAICodexWebSocketDebugStatsV {
    match lookup(s.stats, session) {
        Some(stats) => stats,
        None => no_stats(),
    }
}

/// Whether every count can still go up.
pub open spec fn can_count(stats: OpenAICodexWebSocketDebugStatsV) -> bool {
    stats.requests < u64::MAX && stats.connections_created < u64::MAX && stats.connections_reused
        < u64::MAX && stats.cached_context_requests < u64::MAX && stats.store_true_requests
        < u64::MAX && stats.full_context_requests < u64::MAX && stats.delta_requests < u64::MAX
        && stats.websocket_failures < u64::MAX && stats.sse_fallbacks < u64::MAX
}

/// The response that a request goes on from, if it names one.
pub open spec fn previous_response(body: JsonV) -> Option<Seq<char>> {
    match text_of(member(body, "previous_response_id"@)) {
        Some(id) => if id.len() > 0 {
            Some(id)
        } else {
            None
        },
        None => None,
    }
}

/// Whether the counts that a request over a connection adds to can still go up.
pub open spec fn can_count_request(
    stats: OpenAICodexWebSocketDebugStatsV,
    reused: bool,
    cached_context: bool,
    body: JsonV,
) -> bool {
    &&& stats.requests < u64::MAX
    &&& reused ==> stats.connections_reused < u64::MAX
    &&& !reused ==> stats.connections_created < u64::MAX
    &&& cached_context ==> stats.cached_context_requests < u64::MAX
    &&& member(body, "store"@) == Some(JsonV::Bool(true)) ==> stats.store_true_requests < u64::MAX
    &&& previous_response(body) is Some ==> stats.delta_requests < u64::MAX
    &&& previous_response(body) is None ==> stats.full_context_requests < u64::MAX
}

/// The sessions with something else known of one.
pub open spec fn with_stats(
    s: CodexSessionsV,
    session: Seq<char>,
    stats: OpenAICodexWebSocketDebugStatsV,
) -> CodexSessionsV {
    CodexSessionsV { stats: put(s.stats, session, stats), ..s }
}

/// What a request over a connection adds.
pub open spec fn counted_request(
    stats: OpenAICodexWebSocketDebugStatsV,
    reused: bool,
    cached_context: bool,
    body: JsonV,
) -> OpenAICodexWebSocketDebugStatsV {
    let items = input_of(body).len() as usize;
    let previous = previous_response(body);
    OpenAICodexWebSocketDebugStatsV {
        requests: (stats.requests + 1) as u64,
        connections_reused: if reused {
            (stats.connections_reused + 1) as u64
        } else {
            stats.connections_reused
        },
        connections_created: if reused {
            stats.connections_created
        } else {
            (stats.connections_created + 1) as u64
        },
        cached_context_requests: if cached_context {
            (stats.cached_context_requests + 1) as u64
        } else {
            stats.cached_context_requests
        },
        store_true_requests: if member(body, "store"@) == Some(JsonV::Bool(true)) {
            (stats.store_true_requests + 1) as u64
        } else {
            stats.store_true_requests
        },
        last_input_items: items,
        delta_requests: if previous is Some {
            (stats.delta_requests + 1) as u64
        } else {
            stats.delta_requests
        },
        full_context_requests: if previous is Some {
            stats.full_context_requests
        } else {
            (stats.full_context_requests + 1) as u64
        },
        last_delta_input_items: if previous is Some {
            Some(items)
        } else {
            None
        },
        last_previous_response_id: previous,
        ..stats
    }
}

/// A request over a connection.
pub open spec fn request_recorded(
    s: CodexSessionsV,
    session: Option<Seq<char>>,
    reused: bool,
    cached_context: bool,
    body: JsonV,
) -> CodexSessionsV {
    match session {
        Some(session) => with_stats(
            s,
            session,
            counted_request(stats_of(s, session), reused, cached_context, body),
        ),
        None => s,
    }
}

/// A session that does without a connection once.
pub open spec fn fallback_recorded(s: CodexSessionsV, session: Option<Seq<char>>) -> CodexSessionsV {
    match session {
        Some(session) => {
            let stats = stats_of(s, session);
            with_stats(
                s,
                session,
                OpenAICodexWebSocketDebugStatsV {
                    sse_fallbacks: (stats.sse_fallbacks + 1) as u64,
                    websocket_fallback_active: Some(s.fallbacks.contains(session)),
                    ..stats
                },
            )
        },
        None => s,
    }
}

/// A session whose connection failed; it does without from then on.
pub open spec fn failure_recorded(
    s: CodexSessionsV,
    session: Option<Seq<char>>,
    message: Seq<char>,
) -> CodexSessionsV {
    match session {
        Some(session) => {
            let stats = stats_of(s, session);
            let failed = with_stats(
                s,
                session,
                OpenAICodexWebSocketDebugStatsV {
                    websocket_failures: (stats.websocket_failures + 1) as u64,
                    last_websocket_error: Some(message),
                    websocket_fallback_active: Some(true),
                    ..stats
                },
            );
            CodexSessionsV {
                fallbacks: if s.fallbacks.contains(session) {
                    s.fallbacks
                } else {
                    s.fallbacks.push(session)
                },
                ..failed
            }
        },
        None => s,
    }
}

/// Names without one.
pub open spec fn names_without(names: Seq<Seq<char>>, name: Seq<char>) -> Seq<Seq<char>>
    decreases names.len(),
{
    if names.len() == 0 {
        Seq::empty()
    } else {
        let rest = names_without(names.drop_last(), name);
        if names.last() == name {
            rest
        } else {
            rest.push(names.last())
        }
    }
}

/// A session forgotten, or all where none is named.
pub open spec fn stats_reset(s: CodexSessionsV, session: Option<Seq<char>>) -> CodexSessionsV {
    if session is Some && session->Some_0.len() > 0 {
        CodexSessionsV {
            stats: removed(s.stats, session->Some_0),
            fallbacks: names_without(s.fallbacks, session->Some_0),
        }
    } else {
        CodexSessionsV { stats: Seq::empty(), fallbacks: Seq::empty() }
    }
}

impl CodexSessions {
    /// Sessions of which nothing has happened.
    pub fn new() -> (r: Self)
        ensures
            r@ == (CodexSessionsV { stats: Seq::empty(), fallbacks: Seq::empty() }),
    {
        let r = CodexSessions { stats: Vec::new(), fallbacks: Vec::new() };
        assert(r.stats.deep_view() =~= Seq::empty());
        assert(r.fallbacks.deep_view() =~= Seq::empty());
        r
    }

    /// What has happened in a session, where anything has.
    pub fn get_debug_stats(&self, session: &str) -> (r: Option<&OpenAICodexWebSocketDebugStats>)
        ensures
            r.deep_view() == lookup(self@.stats, session@),
    {
        assoc::get(&self.stats, session)
    }

    fn copy_stats(&self, session: &str) -> (r: OpenAICodexWebSocketDebugStats)
        ensures
            r@ == stats_of(self@, session@),
    {
        match assoc::get(&self.stats, session) {
            Some(stats) => stats.clone(),
            None => OpenAICodexWebSocketDebugStats::default(),
        }
    }

    /// Whether every count of a session can still go up, so that whatever happens can be counted.
    pub fn can_record(&self, session: &str) -> (r: bool)
        ensures
            r == can_count(stats_of(self@, session@)),
    {
        let stats = self.copy_stats(session);
        stats.requests < u64::MAX && stats.connections_created < u64::MAX
            && stats.connections_reused < u64::MAX && stats.cached_context_requests < u64::MAX
            && stats.store_true_requests < u64::MAX && stats.full_context_requests < u64::MAX
            && stats.delta_requests < u64::MAX && stats.websocket_failures < u64::MAX
            && stats.sse_fallbacks < u64::MAX
    }

    /// Whether a session does without connections.
    pub fn fallback_active(&self, session: Option<&str>) -> (r: bool)
        ensures
            r == (session is Some && self@.fallbacks.contains(session->Some_0@)),
    {
        match session {
            Some(session) => contains_name(&self.fallbacks, session),
            None => false,
        }
    }

    /// Counts a session that does without a connection once.
    pub fn record_sse_fallback(&mut self, session: Option<&str>)
        requires
            session matches Some(session) ==> stats_of(old(self)@, session@).sse_fallbacks < u64::MAX,
        ensures
            final(self)@ == fallback_recorded(
                old(self)@,
                match session {
                    Some(session) => Some(session@),
                    None => None,
                },
            ),
    {
        if let Some(session) = session {
            let mut stats = self.copy_stats(session);
            stats.sse_fallbacks += 1;
            stats.websocket_fallback_active = Some(contains_name(&self.fallbacks, session));
            assoc::insert(&mut self.stats, session.to_owned(), stats);
        }
    }

    /// Counts a connection that failed; its session does without from then on.
    pub fn record_websocket_failure(&mut self, session: Option<&str>, message: &str)
        requires
            session matches Some(session) ==> stats_of(old(self)@, session@).websocket_failures
                < u64::MAX,
        ensures
            final(self)@ == failure_recorded(
                old(self)@,
                match session {
                    Some(session) => Some(session@),
                    None => None,
                },
                message@,
            ),
    {
        if let Some(session) = session {
            let mut stats = self.copy_stats(session);
            stats.websocket_failures += 1;
            stats.last_websocket_error = Some(message.to_owned());
            stats.websocket_fallback_active = Some(true);
            assoc::insert(&mut self.stats, session.to_owned(), stats);
            if !contains_name(&self.fallbacks, session) {
                let ghost before = self.fallbacks.deep_view();
                self.fallbacks.push(session.to_owned());
                assert(self.fallbacks.deep_view() =~= before.push(session@));
            }
        }
    }

    /// Counts a request over a connection.
    pub fn record_websocket_request(
        &mut self,
        session: Option<&str>,
        reused: bool,
        cached_context: bool,
        body: &Json,
    )
        requires
            session matches Some(session) ==> can_count_request(
                stats_of(old(self)@, session@),
                reused,
                cached_context,
                body@,
            ),
        ensures
            final(self)@ == request_recorded(
                old(self)@,
                match session {
                    Some(session) => Some(session@),
                    None => None,
                },
                reused,
                cached_context,
                body@,
            ),
    {
        if let Some(session) = session {
            let input = body_input(body);
            let items = input.len();
            assert(items == input.deep_view().len());
            let mut stats = self.copy_stats(session);
            stats.requests += 1;
            if reused {
                stats.connections_reused += 1;
            } else {
                stats.connections_created += 1;
            }
            if cached_context {
                stats.cached_context_requests += 1;
            }
            if let Some(Json::Bool(true)) = body.get("store") {
                stats.store_true_requests += 1;
            }
            stats.last_input_items = items;
            let previous = match body.text("previous_response_id") {
                Some(id) => if id.as_str().is_empty() {
                    None
                } else {
                    Some(id)
                },
                None => None,
            };
            if previous.is_some() {
                stats.delta_requests += 1;
                stats.last_delta_input_items = Some(items);
            } else {
                stats.full_context_requests += 1;
                stats.last_delta_input_items = None;
            }
            stats.last_previous_response_id = previous;
            assoc::insert(&mut self.stats, session.to_owned(), stats);
        }
    }

    /// Forgets a session, or all where none is named.
    pub fn reset_debug_stats(&mut self, session: Option<&str>)
        ensures
            final(self)@ == stats_reset(
                old(self)@,
                match session {
                    Some(session) => Some(session@),
                    None => None,
                },
            ),
    {
        if let Some(session) = session {
            if !session.is_empty() {
                assoc::remove(&mut self.stats, session);
                self.fallbacks = remove_name(&self.fallbacks, session);
                return ;
            }
        }
        self.stats = Vec::new();
        self.fallbacks = Vec::new();
        assert(self.stats.deep_view() =~= Seq::empty());
        assert(self.fallbacks.deep_view() =~= Seq::empty());
    }
}

fn remove_name(names: &Vec<String>, name: &str) -> (r: Vec<String>)
    ensures
        r.deep_view() == names_without(names.deep_view(), name@),
{
    let ghost all = names.deep_view();
    let mut r: Vec<String> = Vec::new();
    let mut i: usize = 0;
    assert(all.take(0) =~= Seq::empty());
    assert(r.deep_view() =~= Seq::empty());
    while i < names.len()
        invariant
            all == names.deep_view(),
            i <= names@.len(),
            r.deep_view() == names_without(all.take(i as int), name@),
        decreases names@.len() - i,
    {
        let ghost before = r.deep_view();
        assert(all.take(i + 1).drop_last() =~= all.take(i as int));
        assert(all.take(i + 1).last() == names@[i as int]@);
        if !same(names[i].as_str(), name) {
            r.push(names[i].clone());
            assert(r.deep_view() =~= before.push(names@[i as int]@));
        }
        i += 1;
    }
    assert(all.take(i as int) =~= all);
    r
}

} // verus!

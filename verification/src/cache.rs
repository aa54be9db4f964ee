//! Caching layer for Composio integration.
//!
//! Caches for tool schemas, tool lists, and OAuth connections with TTL support
//! and per-user eviction of the oldest connection. Times are milliseconds
//! since the Unix epoch; every operation has a variant that takes the current
//! time and one that reads the clock.

use vstd::prelude::*;
use crate::clock::now_millis;
use crate::json::{Json, JsonV, opt_jv_owned};
use crate::store::{KeyedStore, lemma_map_len, seq_to_map, unique_keys};
use crate::text::{append_str, chars_of, ends_with_chars, seq_ends_with, string_from_chars};

verus! {

/// Connection status
#[derive(Debug, Clone, Copy, PartialEq, Eq, Structural)]
pub enum ConnectionStatus {
    Active,
    Expired,
    Revoked,
}

/// Connection information for OAuth-authenticated toolkits
#[derive(Debug)]
pub struct ConnectionInfo {
    pub toolkit: String,
    pub connected_account_id: String,
    pub status: ConnectionStatus,
    /// Creation time, milliseconds since the Unix epoch.
    pub created_at: i64,
}

impl Clone for ConnectionInfo {
    fn clone(&self) -> (r: Self)
        ensures
            r == *self,
    {
        ConnectionInfo {
            toolkit: self.toolkit.clone(),
            connected_account_id: self.connected_account_id.clone(),
            status: self.status,
            created_at: self.created_at,
        }
    }
}

/// Cache entry with TTL support
#[derive(Debug)]
pub struct CachedEntry<T> {
    pub value: T,
    /// When the entry was stored, in milliseconds since the Unix epoch.
    pub cached_at: i64,
    /// How long the entry stays valid, in milliseconds.
    pub ttl_ms: i64,
}

/// An entry has expired at `now` once `cached_at + ttl` is reached.
pub open spec fn is_expired<T>(e: CachedEntry<T>, now: i64) -> bool {
    now >= e.cached_at + e.ttl_ms
}

/// Whether an entry has expired at `now`.
pub fn entry_expired<T>(e: &CachedEntry<T>, now: i64) -> (r: bool)
    ensures
        r == is_expired(*e, now),
{
    now as i128 >= e.cached_at as i128 + e.ttl_ms as i128
}

/// The key text of a (toolkit, user) pair: `"{toolkit}::{user_id}"`.
pub open spec fn cache_key(toolkit: Seq<char>, user_id: Seq<char>) -> Seq<char> {
    toolkit + "::"@ + user_id
}

/// Whether a key belongs to a user: it ends with `"::{user_id}"`.
pub open spec fn key_of_user(key: Seq<char>, user_id: Seq<char>) -> bool {
    seq_ends_with(key, "::"@ + user_id)
}

/// What a lookup finds in a cache map at time `now`: the value of an entry
/// that is present and not expired.
pub open spec fn lookup_valid<T>(m: Map<Seq<char>, CachedEntry<T>>, key: Seq<char>, now: i64) -> Option<T> {
    if m.contains_key(key) && !is_expired(m[key], now) {
        Some(m[key].value)
    } else {
        None
    }
}

/// The keys of a user in a cache map.
pub open spec fn user_keys<T>(m: Map<Seq<char>, CachedEntry<T>>, user_id: Seq<char>) -> Set<Seq<char>> {
    m.dom().filter(|k: Seq<char>| key_of_user(k, user_id))
}

/// A key of the user whose entry was cached earliest.
pub open spec fn is_oldest_of_user<T>(m: Map<Seq<char>, CachedEntry<T>>, user_id: Seq<char>, k0: Seq<char>) -> bool {
    &&& m.contains_key(k0)
    &&& key_of_user(k0, user_id)
    &&& forall|k: Seq<char>| m.contains_key(k) && key_of_user(k, user_id) ==> m[k0].cached_at <= m[k].cached_at
}

/// The map without the entries of a user.
pub open spec fn without_user<T>(m: Map<Seq<char>, CachedEntry<T>>, user_id: Seq<char>) -> Map<Seq<char>, CachedEntry<T>> {
    m.restrict(m.dom().filter(|k: Seq<char>| !key_of_user(k, user_id)))
}

/// Builds the cache key of a (toolkit, user) pair.
pub fn make_cache_key(toolkit: &str, user_id: &str) -> (k: String)
    ensures
        k@ == cache_key(toolkit@, user_id@),
{
    let mut v: Vec<char> = Vec::new();
    append_str(&mut v, toolkit);
    append_str(&mut v, "::");
    append_str(&mut v, user_id);
    string_from_chars(v.as_slice())
}

/// Builds the key suffix of a user.
fn user_suffix(user_id: &str) -> (v: Vec<char>)
    ensures
        v@ == "::"@ + user_id@,
{
    let mut v: Vec<char> = Vec::new();
    append_str(&mut v, "::");
    append_str(&mut v, user_id);
    v
}

/// Connection cache with TTL support and eviction of a user's oldest entry
///
/// Caches OAuth connections per (toolkit, user_id) pair with configurable TTL
/// and eviction when the user's entries reach `max_entries_per_user`.
pub struct ConnectionCache {
    store: KeyedStore<CachedEntry<ConnectionInfo>>,
    max_entries_per_user: usize,
    /// Whether every insert so far used toolkit and user ids without `:`.
    plain_ids: Ghost<bool>,
}

impl ConnectionCache {
    /// Whether every insert so far used toolkit and user ids without `:`, so
    /// that each key belongs to the one user it was inserted for.
    pub closed spec fn plain_ids(self) -> bool {
        self.plain_ids@
    }

    /// Every user holds at most `user_limit(max_per_user())` connections.
    pub open spec fn within_limit(self) -> bool {
        forall|u: Seq<char>| #[trigger] user_keys(self.entries(), u).len() <= user_limit(self.max_per_user())
    }

    /// A cache whose keys all belong to their own users keeps every user
    /// within the limit.
    #[verifier::type_invariant]
    spec fn users_within_limit(self) -> bool {
        self.plain_ids@ ==> self.within_limit()
    }

    /// The cached entries by key.
    pub closed spec fn entries(self) -> Map<Seq<char>, CachedEntry<ConnectionInfo>> {
        self.store.model()
    }

    /// Maximum number of cached connections per user.
    pub closed spec fn max_per_user(self) -> usize {
        self.max_entries_per_user
    }

    /// Number of stored entries whose key belongs to the user.
    pub closed spec fn user_entry_count(self, user_id: Seq<char>) -> nat {
        self.store.entry_seq().filter(|e: (Seq<char>, CachedEntry<ConnectionInfo>)| key_of_user(e.0, user_id)).len()
    }

    /// What inserting `info` under (toolkit, user) at time `now` makes of the
    /// entries: when the user already holds `max_per_user` entries (and at
    /// least one), one of the user's oldest entries is evicted first.
    pub open spec fn insert_outcome(
        self,
        next: Map<Seq<char>, CachedEntry<ConnectionInfo>>,
        toolkit: Seq<char>,
        user_id: Seq<char>,
        info: ConnectionInfo,
        ttl_ms: i64,
        now: i64,
    ) -> bool {
        let key = cache_key(toolkit, user_id);
        let entry = CachedEntry { value: info, cached_at: now, ttl_ms };
        let count = user_keys(self.entries(), user_id).len();
        if count >= self.max_per_user() && count > 0 {
            exists|k0: Seq<char>|
                is_oldest_of_user(self.entries(), user_id, k0) && next == self.entries().remove(k0).insert(
                    key,
                    entry,
                )
        } else {
            next == self.entries().insert(key, entry)
        }
    }

    /// Create a new connection cache
    pub fn new(max_entries_per_user: usize) -> (c: Self)
        ensures
            c.entries() == Map::<Seq<char>, CachedEntry<ConnectionInfo>>::empty(),
            c.max_per_user() == max_entries_per_user,
            c.plain_ids(),
            c.within_limit(),
    {
        let store: KeyedStore<CachedEntry<ConnectionInfo>> = KeyedStore::new();
        proof {
            assert forall|u: Seq<char>| #[trigger] user_keys(store.model(), u).len() <= user_limit(max_entries_per_user) by {
                assert(user_keys(store.model(), u) =~= Set::<Seq<char>>::empty());
            }
        }
        ConnectionCache { store, max_entries_per_user, plain_ids: Ghost(true) }
    }

    /// Get a cached connection if present and not expired at `now`
    pub fn get_at(&self, toolkit: &str, user_id: &str, now: i64) -> (r: Option<ConnectionInfo>)
        ensures
            r == lookup_valid(self.entries(), cache_key(toolkit@, user_id@), now),
    {
        let key = make_cache_key(toolkit, user_id);
        match self.store.get(key.as_str()) {
            Some(e) => if !entry_expired(e, now) {
                Some(e.value.clone())
            } else {
                None
            },
            None => None,
        }
    }

    /// Get a cached connection if valid now
    ///
    /// Returns None if the connection is not in cache or has expired.
    pub fn get(&self, toolkit: &str, user_id: &str) -> (r: Option<ConnectionInfo>)
        ensures
            exists|now: i64| r == lookup_valid(self.entries(), cache_key(toolkit@, user_id@), now),
    {
        self.get_at(toolkit, user_id, now_millis())
    }

    /// Finds the number of the user's entries and the index of the first of
    /// their oldest entries.
    fn scan_user(&self, suffix: &Vec<char>, Ghost(user_id): Ghost<Seq<char>>) -> (r: (usize, Option<usize>))
        requires
            suffix@ == "::"@ + user_id,
        ensures
            r.0 == self.user_entry_count(user_id),
            r.1 is None <==> r.0 == 0,
            r.1 matches Some(i) ==> i < self.store.entry_seq().len() && is_oldest_of_user(
                self.entries(),
                user_id,
                self.store.entry_seq()[i as int].0,
            ),
    {
        self.store.entry_facts();
        let ghost es = self.store.entry_seq();
        let ghost f = |e: (Seq<char>, CachedEntry<ConnectionInfo>)| key_of_user(e.0, user_id);
        let n = self.store.len();
        let mut count: usize = 0;
        let mut best: Option<usize> = None;
        let mut i: usize = 0;
        while i < n
            invariant
                n == es.len(),
                es == self.store.entry_seq(),
                suffix@ == "::"@ + user_id,
                i <= n,
                count == es.subrange(0, i as int).filter(f).len(),
                count <= i,
                best is None <==> count == 0,
                f == (|e: (Seq<char>, CachedEntry<ConnectionInfo>)| key_of_user(e.0, user_id)),
                best is None ==> forall|j: int| 0 <= j < i ==> !key_of_user(#[trigger] es[j].0, user_id),
                best matches Some(b) ==> b < i && key_of_user(es[b as int].0, user_id) && forall|j: int|
                    0 <= j < i && key_of_user(es[j].0, user_id) ==> es[b as int].1.cached_at
                        <= es[j].1.cached_at,
            decreases n - i,
        {
            let k = self.store.key_at(i);
            let kc = chars_of(k.as_str());
            let is_user = ends_with_chars(kc.as_slice(), suffix.as_slice());
            proof {
                assert(is_user == key_of_user(es[i as int].0, user_id));
                assert(is_user == f(es[i as int]));
                reveal(Seq::filter);
                assert(es.subrange(0, i + 1).drop_last() =~= es.subrange(0, i as int));
                assert(es.subrange(0, i + 1).last() == es[i as int]);
                assert(es.subrange(0, i + 1).filter(f) == if is_user {
                    es.subrange(0, i as int).filter(f).push(es[i as int])
                } else {
                    es.subrange(0, i as int).filter(f)
                });
            }
            if is_user {
                let e = self.store.value_at(i);
                match best {
                    None => {
                        best = Some(i);
                    },
                    Some(b) => {
                        let be = self.store.value_at(b);
                        if e.cached_at < be.cached_at {
                            best = Some(i);
                        }
                    },
                }
                count = count + 1;
            }
            i = i + 1;
        }
        proof {
            assert(es.subrange(0, n as int) =~= es);
            if let Some(b) = best {
                assert forall|k: Seq<char>| self.entries().contains_key(k) && key_of_user(k, user_id) implies self.entries()[es[b as int].0].cached_at <= self.entries()[k].cached_at by {
                    let j = choose|j: int| 0 <= j < es.len() && es[j].0 == k && self.entries()[k] == es[j].1;
                }
            }
        }
        (count, best)
    }

    /// Insert, at time `now`, a connection into the cache
    ///
    /// When the user already has `max_entries_per_user` entries (or more), the
    /// user's oldest entry is evicted first.
    pub fn insert_at(&mut self, toolkit: &str, user_id: &str, info: ConnectionInfo, ttl_ms: i64, now: i64)
        ensures
            final(self).max_per_user() == old(self).max_per_user(),
            old(self).insert_outcome(final(self).entries(), toolkit@, user_id@, info, ttl_ms, now),
            final(self).plain_ids() == (old(self).plain_ids() && plain_id(toolkit@) && plain_id(user_id@)),
            final(self).within_limit() || !final(self).plain_ids(),
    {
        proof {
            use_type_invariant(&*self);
        }
        let ghost plain = self.plain_ids@ && plain_id(toolkit@) && plain_id(user_id@);
        let ghost m = self.entries();
        self.plain_ids = Ghost(false);
        let key = make_cache_key(toolkit, user_id);
        let suffix = user_suffix(user_id);
        let (count, oldest) = self.scan_user(&suffix, Ghost(user_id@));
        self.store.entry_facts();
        proof {
            lemma_user_count(self.store.entry_seq(), user_id@);
        }
        let mut store: KeyedStore<CachedEntry<ConnectionInfo>> = KeyedStore::new();
        std::mem::swap(&mut store, &mut self.store);
        if count >= self.max_entries_per_user {
            match oldest {
                Some(i) => {
                    store.remove_at(i);
                },
                None => {},
            }
        }
        store.insert(key, CachedEntry { value: info, cached_at: now, ttl_ms });
        self.store = store;
        proof {
            assert(old(self).insert_outcome(self.entries(), toolkit@, user_id@, info, ttl_ms, now));
            if plain {
                let next = self.entries();
                let k = cache_key(toolkit@, user_id@);
                assert forall|u: Seq<char>| #[trigger] user_keys(next, u).len() <= user_limit(self.max_entries_per_user) by {
                    if u == user_id@ {
                        law_user_entries_within_limit(*old(self), next, toolkit@, user_id@, info, ttl_ms, now);
                    } else {
                        law_plain_key_belongs_to_one_user(toolkit@, user_id@, u);
                        lemma_fewer_user_keys(m, next, u);
                        assert(user_keys(m, u).len() <= user_limit(self.max_entries_per_user));
                    }
                }
            }
        }
        self.plain_ids = Ghost(plain);
    }

    /// Insert a connection into the cache, cached from now
    pub fn insert(&mut self, toolkit: &str, user_id: &str, info: ConnectionInfo, ttl_ms: i64)
        ensures
            final(self).max_per_user() == old(self).max_per_user(),
            exists|now: i64|
                old(self).insert_outcome(final(self).entries(), toolkit@, user_id@, info, ttl_ms, now),
            final(self).plain_ids() == (old(self).plain_ids() && plain_id(toolkit@) && plain_id(user_id@)),
            final(self).within_limit() || !final(self).plain_ids(),
    {
        self.insert_at(toolkit, user_id, info, ttl_ms, now_millis())
    }

    /// Remove a connection from the cache
    pub fn remove(&mut self, toolkit: &str, user_id: &str)
        ensures
            final(self).max_per_user() == old(self).max_per_user(),
            final(self).entries() == old(self).entries().remove(cache_key(toolkit@, user_id@)),
            final(self).plain_ids() == old(self).plain_ids(),
    {
        proof {
            use_type_invariant(&*self);
        }
        let ghost plain = self.plain_ids@;
        let ghost m = self.entries();
        self.plain_ids = Ghost(false);
        let key = make_cache_key(toolkit, user_id);
        let mut store: KeyedStore<CachedEntry<ConnectionInfo>> = KeyedStore::new();
        std::mem::swap(&mut store, &mut self.store);
        store.entry_facts();
        store.remove(key.as_str());
        proof {
            if plain {
                lemma_fewer_within(m, store.model(), self.max_entries_per_user);
            }
        }
        *self = ConnectionCache { store, max_entries_per_user: self.max_entries_per_user, plain_ids: Ghost(plain) };
    }

    /// Clear all cached connections for a user
    pub fn clear_user(&mut self, user_id: &str)
        ensures
            final(self).max_per_user() == old(self).max_per_user(),
            final(self).entries() == without_user(old(self).entries(), user_id@),
            final(self).plain_ids() == old(self).plain_ids(),
    {
        proof {
            use_type_invariant(&*self);
        }
        let ghost plain = self.plain_ids@;
        let ghost m = self.entries();
        self.plain_ids = Ghost(false);
        let suffix = user_suffix(user_id);
        let mut store: KeyedStore<CachedEntry<ConnectionInfo>> = KeyedStore::new();
        std::mem::swap(&mut store, &mut self.store);
        store.entry_facts();
        let ghost old_m = store.model();
        let mut i: usize = 0;
        while i < store.len()
            invariant
                suffix@ == "::"@ + user_id@,
                i <= store.entry_seq().len(),
                old_m.dom().finite(),
                forall|k: Seq<char>| !key_of_user(k, user_id@) ==> (store.model().contains_key(k) == old_m.contains_key(k)),
                forall|k: Seq<char>| !key_of_user(k, user_id@) && store.model().contains_key(k) ==> store.model()[k] == old_m[k],
                forall|k: Seq<char>| store.model().contains_key(k) ==> old_m.contains_key(k),
                forall|j: int| 0 <= j < i ==> !key_of_user(#[trigger] store.entry_seq()[j].0, user_id@),
            decreases store.entry_seq().len() - i,
        {
            let k = store.key_at(i);
            let kc = chars_of(k.as_str());
            if ends_with_chars(kc.as_slice(), suffix.as_slice()) {
                let ghost before = store.entry_seq();
                store.remove_at(i);
                proof {
                    assert forall|j: int| 0 <= j < i implies !key_of_user(#[trigger] store.entry_seq()[j].0, user_id@) by {
                        assert(store.entry_seq()[j] == before[j]);
                    }
                }
            } else {
                i = i + 1;
            }
        }
        store.entry_facts();
        proof {
            let target = without_user(old_m, user_id@);
            assert forall|k: Seq<char>| store.model().contains_key(k) implies !key_of_user(k, user_id@) by {
                let j = choose|j: int| 0 <= j < store.entry_seq().len() && store.entry_seq()[j].0 == k && store.model()[k] == store.entry_seq()[j].1;
            }
            assert(store.model() =~= target);
            assert(old_m == m);
            if plain {
                lemma_fewer_within(m, store.model(), self.max_entries_per_user);
            }
        }
        *self = ConnectionCache { store, max_entries_per_user: self.max_entries_per_user, plain_ids: Ghost(plain) };
    }
}

/// What a schema lookup finds at time `now`, as a document value.
pub open spec fn schema_lookup(m: Map<Seq<char>, CachedEntry<Json>>, tool_name: Seq<char>, now: i64) -> Option<JsonV> {
    match lookup_valid(m, tool_name, now) {
        Some(j) => Some(j.jv()),
        None => None,
    }
}

/// What a tool-list lookup finds at time `now`.
pub open spec fn list_lookup(entry: Option<CachedEntry<Vec<String>>>, now: i64) -> Option<Seq<String>> {
    match entry {
        Some(e) => if !is_expired(e, now) {
            Some(e.value@)
        } else {
            None
        },
        None => None,
    }
}

/// Tool schema cache with TTL support
///
/// Caches tool schemas to minimize MCP round-trips.
pub struct ToolSchemaCache {
    store: KeyedStore<CachedEntry<Json>>,
}

impl ToolSchemaCache {
    /// The cached schemas by tool name.
    pub closed spec fn entries(self) -> Map<Seq<char>, CachedEntry<Json>> {
        self.store.model()
    }

    /// Create a new tool schema cache
    pub fn new() -> (c: Self)
        ensures
            c.entries() == Map::<Seq<char>, CachedEntry<Json>>::empty(),
    {
        ToolSchemaCache { store: KeyedStore::new() }
    }

    /// Get a cached tool schema if present and not expired at `now`
    pub fn get_at(&self, tool_name: &str, now: i64) -> (r: Option<Json>)
        ensures
            opt_jv_owned(r) == schema_lookup(self.entries(), tool_name@, now),
    {
        match self.store.get(tool_name) {
            Some(e) => if !entry_expired(e, now) {
                Some(e.value.deep_clone())
            } else {
                None
            },
            None => None,
        }
    }

    /// Get a cached tool schema if valid now
    pub fn get(&self, tool_name: &str) -> (r: Option<Json>)
        ensures
            exists|now: i64| opt_jv_owned(r) == schema_lookup(self.entries(), tool_name@, now),
    {
        self.get_at(tool_name, now_millis())
    }

    /// Insert, at time `now`, a tool schema into the cache
    pub fn insert_at(&mut self, tool_name: &str, schema: Json, ttl_ms: i64, now: i64)
        ensures
            final(self).entries() == old(self).entries().insert(
                tool_name@,
                CachedEntry { value: schema, cached_at: now, ttl_ms },
            ),
    {
        self.store.insert(tool_name.to_owned(), CachedEntry { value: schema, cached_at: now, ttl_ms });
    }

    /// Insert a tool schema into the cache, cached from now
    pub fn insert(&mut self, tool_name: &str, schema: Json, ttl_ms: i64)
        ensures
            exists|now: i64|
                final(self).entries() == old(self).entries().insert(
                    tool_name@,
                    CachedEntry { value: schema, cached_at: now, ttl_ms },
                ),
    {
        self.insert_at(tool_name, schema, ttl_ms, now_millis())
    }

    /// Clear all cached schemas
    pub fn clear(&mut self)
        ensures
            final(self).entries() == Map::<Seq<char>, CachedEntry<Json>>::empty(),
    {
        self.store.clear();
    }
}

/// The contents of an optional list.
pub open spec fn opt_seq(r: Option<Vec<String>>) -> Option<Seq<String>> {
    match r {
        Some(v) => Some(v@),
        None => None,
    }
}

/// Copies a list of strings.
pub fn clone_strings(v: &Vec<String>) -> (r: Vec<String>)
    ensures
        r@ == v@,
{
    let mut r: Vec<String> = Vec::new();
    let mut i: usize = 0;
    while i < v.len()
        invariant
            i <= v@.len(),
            r@ == v@.subrange(0, i as int),
        decreases v.len() - i,
    {
        r.push(v[i].clone());
        i = i + 1;
    }
    r
}

/// Tool list cache with TTL support
///
/// Caches the list of available tools to minimize MCP calls.
pub struct ToolListCache {
    cache: Option<CachedEntry<Vec<String>>>,
}

impl ToolListCache {
    /// The cached entry, if any.
    pub closed spec fn entry(self) -> Option<CachedEntry<Vec<String>>> {
        self.cache
    }

    /// Create a new tool list cache
    pub fn new() -> (c: Self)
        ensures
            c.entry() is None,
    {
        ToolListCache { cache: None }
    }

    /// Get the cached tool list if present and not expired at `now`
    pub fn get_at(&self, now: i64) -> (r: Option<Vec<String>>)
        ensures
            opt_seq(r) == list_lookup(self.entry(), now),
    {
        match &self.cache {
            Some(e) => if !entry_expired(e, now) {
                Some(clone_strings(&e.value))
            } else {
                None
            },
            None => None,
        }
    }

    /// Get the cached tool list if valid now
    pub fn get(&self) -> (r: Option<Vec<String>>)
        ensures
            exists|now: i64| opt_seq(r) == list_lookup(self.entry(), now),
    {
        self.get_at(now_millis())
    }

    /// Insert, at time `now`, a tool list into the cache
    pub fn insert_at(&mut self, tools: Vec<String>, ttl_ms: i64, now: i64)
        ensures
            final(self).entry() == Some(CachedEntry { value: tools, cached_at: now, ttl_ms }),
    {
        self.cache = Some(CachedEntry { value: tools, cached_at: now, ttl_ms });
    }

    /// Insert a tool list into the cache, cached from now
    pub fn insert(&mut self, tools: Vec<String>, ttl_ms: i64)
        ensures
            exists|now: i64| final(self).entry() == Some(CachedEntry { value: tools, cached_at: now, ttl_ms }),
    {
        self.insert_at(tools, ttl_ms, now_millis())
    }

    /// Clear the cached tool list
    pub fn clear(&mut self)
        ensures
            final(self).entry() is None,
    {
        self.cache = None;
    }
}

/// A connection read back after it was cached at `now` with time-to-live
/// `ttl_ms` is the connection that was cached, until `now + ttl_ms`; from
/// then on the read finds nothing. Eviction never removes the entry being
/// inserted.
pub proof fn law_connection_read_after_insert(
    c: ConnectionCache,
    next: Map<Seq<char>, CachedEntry<ConnectionInfo>>,
    toolkit: Seq<char>,
    user_id: Seq<char>,
    info: ConnectionInfo,
    ttl_ms: i64,
    now: i64,
    later: i64,
)
    requires
        c.insert_outcome(next, toolkit, user_id, info, ttl_ms, now),
    ensures
        later < now + ttl_ms ==> lookup_valid(next, cache_key(toolkit, user_id), later) == Some(info),
        later >= now + ttl_ms ==> lookup_valid(next, cache_key(toolkit, user_id), later) is None,
{
    let key = cache_key(toolkit, user_id);
    let count = user_keys(c.entries(), user_id).len();
    if count >= c.max_per_user() && count > 0 {
        let k0 = choose|k0: Seq<char>|
            is_oldest_of_user(c.entries(), user_id, k0) && next == c.entries().remove(k0).insert(
                key,
                CachedEntry { value: info, cached_at: now, ttl_ms },
            );
        assert(next.contains_key(key));
    }
}

/// With unique keys, counting a user's entries in the sequence counts the
/// user's keys in the map it stands for.
proof fn lemma_user_count(es: Seq<(Seq<char>, CachedEntry<ConnectionInfo>)>, u: Seq<char>)
    requires
        unique_keys(es),
    ensures
        seq_to_map(es).dom().finite(),
        es.filter(|e: (Seq<char>, CachedEntry<ConnectionInfo>)| key_of_user(e.0, u)).len() == user_keys(
            seq_to_map(es),
            u,
        ).len(),
    decreases es.len(),
{
    let f = |e: (Seq<char>, CachedEntry<ConnectionInfo>)| key_of_user(e.0, u);
    lemma_map_len(es);
    reveal(Seq::filter);
    if es.len() == 0 {
        assert(es.filter(f) =~= Seq::<(Seq<char>, CachedEntry<ConnectionInfo>)>::empty());
        assert(user_keys(seq_to_map(es), u) =~= Set::<Seq<char>>::empty());
    } else {
        let p = es.drop_last();
        assert(unique_keys(p)) by {
            assert forall|i: int, j: int| 0 <= i < p.len() && 0 <= j < p.len() && i != j implies p[i].0 != p[j].0 by {
                assert(p[i] == es[i] && p[j] == es[j]);
            }
        }
        lemma_user_count(p, u);
        lemma_map_len(p);
        let x = es.last();
        let k = x.0;
        assert(es.filter(f) == if f(x) {
            p.filter(f).push(x)
        } else {
            p.filter(f)
        });
        assert(!seq_to_map(p).contains_key(k)) by {
            if seq_to_map(p).contains_key(k) {
                let j = choose|j: int| 0 <= j < p.len() && p[j].0 == k;
                assert(es[j].0 == es[es.len() - 1].0);
            }
        }
        assert(seq_to_map(es).dom() =~= seq_to_map(p).dom().insert(k)) by {
            assert forall|q: Seq<char>| seq_to_map(es).dom().contains(q) implies seq_to_map(p).dom().insert(k).contains(q) by {
                let j = choose|j: int| 0 <= j < es.len() && es[j].0 == q;
                if j < p.len() {
                    assert(p[j].0 == q);
                }
            }
            assert forall|q: Seq<char>| seq_to_map(p).dom().insert(k).contains(q) implies seq_to_map(es).dom().contains(q) by {
                if q == k {
                    assert(es[es.len() - 1].0 == q);
                } else {
                    let j = choose|j: int| 0 <= j < p.len() && p[j].0 == q;
                    assert(es[j].0 == q);
                }
            }
        }
        let before = user_keys(seq_to_map(p), u);
        if key_of_user(k, u) {
            assert(user_keys(seq_to_map(es), u) =~= before.insert(k));
        } else {
            assert(user_keys(seq_to_map(es), u) =~= before);
        }
    }
}

/// The number of connections a user can hold: the configured limit, and
/// at least one (the new connection itself).
pub open spec fn user_limit(max_per_user: usize) -> int {
    if max_per_user == 0 {
        1
    } else {
        max_per_user as int
    }
}

/// Inserting keeps the inserting user within the limit: a user who held at
/// most `user_limit(max_per_user)` connections still holds at most that many
/// after any insert the cache can make. Over whole caches this is the type
/// invariant of `ConnectionCache`: every cache that `new`, inserts with ids
/// free of `:`, removals and clears reach keeps every user within the limit.
pub proof fn law_user_entries_within_limit(
    c: ConnectionCache,
    next: Map<Seq<char>, CachedEntry<ConnectionInfo>>,
    toolkit: Seq<char>,
    user_id: Seq<char>,
    info: ConnectionInfo,
    ttl_ms: i64,
    now: i64,
)
    requires
        c.entries().dom().finite(),
        user_keys(c.entries(), user_id).len() <= user_limit(c.max_per_user()),
        c.insert_outcome(next, toolkit, user_id, info, ttl_ms, now),
    ensures
        user_keys(next, user_id).len() <= user_limit(c.max_per_user()),
{
    let m = c.entries();
    let key = cache_key(toolkit, user_id);
    let mine = user_keys(m, user_id);
    law_cache_key_belongs_to_user(toolkit, user_id);
    let count = mine.len();
    if count >= c.max_per_user() && count > 0 {
        let k0 = choose|k0: Seq<char>|
            is_oldest_of_user(m, user_id, k0) && next == m.remove(k0).insert(
                key,
                CachedEntry { value: info, cached_at: now, ttl_ms },
            );
        assert(mine.contains(k0));
        assert(user_keys(next, user_id) =~= mine.remove(k0).insert(key));
    } else {
        assert(user_keys(next, user_id) =~= mine.insert(key));
    }
}

/// Inserting under one (toolkit, user) pair leaves what is read under any
/// other key unchanged, unless that key was the user's oldest entry and was
/// evicted.
pub proof fn law_connection_insert_keeps_other_keys(
    c: ConnectionCache,
    next: Map<Seq<char>, CachedEntry<ConnectionInfo>>,
    toolkit: Seq<char>,
    user_id: Seq<char>,
    info: ConnectionInfo,
    ttl_ms: i64,
    now: i64,
    other: Seq<char>,
    later: i64,
)
    requires
        c.insert_outcome(next, toolkit, user_id, info, ttl_ms, now),
        other != cache_key(toolkit, user_id),
        !key_of_user(other, user_id),
    ensures
        lookup_valid(next, other, later) == lookup_valid(c.entries(), other, later),
{
}

/// After a connection is removed, reading it finds nothing.
pub proof fn law_connection_read_after_remove(
    before: Map<Seq<char>, CachedEntry<ConnectionInfo>>,
    after: Map<Seq<char>, CachedEntry<ConnectionInfo>>,
    toolkit: Seq<char>,
    user_id: Seq<char>,
    later: i64,
)
    requires
        after == before.remove(cache_key(toolkit, user_id)),
    ensures
        lookup_valid(after, cache_key(toolkit, user_id), later) is None,
{
}

/// After a user's connections are cleared, no key of that user is found;
/// the other users' entries read as before.
pub proof fn law_clear_user_isolates_users(
    before: Map<Seq<char>, CachedEntry<ConnectionInfo>>,
    user_id: Seq<char>,
    key: Seq<char>,
    later: i64,
)
    ensures
        key_of_user(key, user_id) ==> lookup_valid(without_user(before, user_id), key, later) is None,
        !key_of_user(key, user_id) ==> lookup_valid(without_user(before, user_id), key, later)
            == lookup_valid(before, key, later),
{
}

/// The key of a (toolkit, user) pair belongs to that user.
pub proof fn law_cache_key_belongs_to_user(toolkit: Seq<char>, user_id: Seq<char>)
    ensures
        key_of_user(cache_key(toolkit, user_id), user_id),
{
    let k = cache_key(toolkit, user_id);
    let suffix = "::"@ + user_id;
    assert(k.subrange(k.len() - suffix.len(), k.len() as int) =~= suffix);
}

/// A map whose entries of a user all come from another map holds no more
/// of that user's keys than it.
proof fn lemma_fewer_user_keys<T>(m: Map<Seq<char>, CachedEntry<T>>, next: Map<Seq<char>, CachedEntry<T>>, u: Seq<char>)
    requires
        m.dom().finite(),
        forall|k: Seq<char>| #[trigger] next.contains_key(k) && key_of_user(k, u) ==> m.contains_key(k),
    ensures
        user_keys(next, u).len() <= user_keys(m, u).len(),
{
    m.dom().lemma_len_filter(|k: Seq<char>| key_of_user(k, u));
    assert(user_keys(next, u).subset_of(user_keys(m, u)));
    vstd::set_lib::lemma_len_subset(user_keys(next, u), user_keys(m, u));
}

/// A map whose entries all come from a map that keeps every user within
/// the limit keeps them within it too.
proof fn lemma_fewer_within(
    m: Map<Seq<char>, CachedEntry<ConnectionInfo>>,
    next: Map<Seq<char>, CachedEntry<ConnectionInfo>>,
    max: usize,
)
    requires
        m.dom().finite(),
        forall|u: Seq<char>| #[trigger] user_keys(m, u).len() <= user_limit(max),
        forall|k: Seq<char>| #[trigger] next.contains_key(k) ==> m.contains_key(k),
    ensures
        forall|u: Seq<char>| #[trigger] user_keys(next, u).len() <= user_limit(max),
{
    assert forall|u: Seq<char>| #[trigger] user_keys(next, u).len() <= user_limit(max) by {
        lemma_fewer_user_keys(m, next, u);
        assert(user_keys(m, u).len() <= user_limit(max));
    }
}

/// An id without `:` in it.
pub open spec fn plain_id(id: Seq<char>) -> bool {
    !id.contains(':')
}

/// With toolkit and user ids free of `:`, the key of a (toolkit, user) pair
/// belongs to that user alone.
pub proof fn law_plain_key_belongs_to_one_user(toolkit: Seq<char>, user_id: Seq<char>, other: Seq<char>)
    requires
        plain_id(toolkit),
        plain_id(user_id),
        other != user_id,
    ensures
        !key_of_user(cache_key(toolkit, user_id), other),
{
    reveal_strlit("::");
    let k = cache_key(toolkit, user_id);
    let s = "::"@ + other;
    let t = toolkit.len() as int;
    assert(k[t] == ':' && k[t + 1] == ':');
    assert(k.len() == t + 2 + user_id.len());
    if key_of_user(k, other) {
        let p = k.len() - s.len();
        assert(k.subrange(p, k.len() as int) == s);
        assert(k[p] == ':' && k[p + 1] == ':') by {
            assert(k.subrange(p, k.len() as int)[0] == s[0]);
            assert(k.subrange(p, k.len() as int)[1] == s[1]);
        }
        if p < t {
            assert(k[p] == toolkit[p]);
            assert(toolkit.contains(':'));
        } else if p == t {
            assert(other.len() == user_id.len());
            assert forall|i: int| 0 <= i < other.len() implies other[i] == user_id[i] by {
                assert(k.subrange(p, k.len() as int)[i + 2] == s[i + 2]);
                assert(k[t + 2 + i] == user_id[i]);
            }
            assert(other =~= user_id);
        } else if p == t + 1 {
            assert(k[p + 1] == user_id[0]);
            assert(user_id.contains(':'));
        } else {
            assert(k[p] == user_id[p - t - 2]);
            assert(user_id.contains(':'));
        }
    }
}

/// A cached schema is read back as the document stored, until its
/// time-to-live has passed.
pub proof fn law_schema_read_after_insert(
    before: Map<Seq<char>, CachedEntry<Json>>,
    after: Map<Seq<char>, CachedEntry<Json>>,
    tool_name: Seq<char>,
    schema: Json,
    ttl_ms: i64,
    now: i64,
    later: i64,
)
    requires
        after == before.insert(tool_name, CachedEntry { value: schema, cached_at: now, ttl_ms }),
    ensures
        later < now + ttl_ms ==> schema_lookup(after, tool_name, later) == Some(schema.jv()),
        later >= now + ttl_ms ==> schema_lookup(after, tool_name, later) is None,
{
}

} // verus!

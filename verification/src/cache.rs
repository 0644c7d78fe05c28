//! The cache store: four independent namespaces, each a bounded map from a
//! key to a value with a time to live.
//!
//! Time is a parameter: every operation that depends on it takes `now`, in
//! seconds on the caller's clock. An entry written at `t` is live at `now`
//! as long as `now < t + ttl`; after that it is treated as absent, and it is
//! removed when the namespace is next written.
//!
//! Eviction: a write first drops the expired entries and the entry of the
//! same key. If the namespace is then still full, the entry that was
//! written longest ago leaves. With one time to live for the whole
//! namespace that is also the entry closest to its expiry.

use vstd::prelude::*;
use crate::models::{Country, Genre, Movie, MovieDetail};
use crate::text::{decimal, push_decimal, push_str, string_of};

verus! {

/// Seconds that a listing page stays cached.
pub const CACHE_TTL_MOVIES: u64 = 1800;

/// Seconds that the genre list stays cached.
pub const CACHE_TTL_GENRES: u64 = 86400;

/// Seconds that the country list stays cached.
pub const CACHE_TTL_COUNTRIES: u64 = 86400;

/// Seconds that a movie's page stays cached.
pub const CACHE_TTL_DETAILS: u64 = 3600;

/// Entries that the listing and the detail namespace hold at most.
pub const CACHE_MAX_CAPACITY: usize = 1000;

/// Entries that the genre and the country namespace hold at most.
pub const CACHE_REFERENCE_CAPACITY: usize = 100;

/// An entry of a namespace, as mathematical values.
pub ghost struct EntryView<V> {
    pub key: Seq<char>,
    pub value: V,
    pub inserted_at: u64,
}

/// A namespace, as mathematical values: its entries from the one written
/// longest ago to the one written last.
pub ghost struct NamespaceView<V> {
    pub entries: Seq<EntryView<V>>,
    pub ttl: u64,
    pub capacity: nat,
}

/// Whether an entry written at `inserted_at` is live at `now`.
pub open spec fn live_at(inserted_at: u64, ttl: u64, now: u64) -> bool {
    now < inserted_at + ttl
}

/// Whether some entry has the key `key`.
pub open spec fn has_key<V>(entries: Seq<EntryView<V>>, key: Seq<char>) -> bool {
    exists|i: int| 0 <= i < entries.len() && #[trigger] entries[i].key == key
}

/// Whether no two entries have the same key.
pub open spec fn distinct_keys<V>(entries: Seq<EntryView<V>>) -> bool {
    forall|i: int, j: int|
        0 <= i < j < entries.len() ==> #[trigger] entries[i].key != #[trigger] entries[j].key
}

/// The position of the entry with the key `key`.
pub open spec fn position<V>(entries: Seq<EntryView<V>>, key: Seq<char>) -> Option<int>
    decreases entries.len(),
{
    if entries.len() == 0 {
        None
    } else if entries.last().key == key {
        Some(entries.len() - 1)
    } else {
        position(entries.drop_last(), key)
    }
}

/// The entries that a write of `key` at `now` keeps: those that are live
/// and have another key.
pub open spec fn retained<V>(
    entries: Seq<EntryView<V>>,
    key: Seq<char>,
    ttl: u64,
    now: u64,
) -> Seq<EntryView<V>>
    decreases entries.len(),
{
    if entries.len() == 0 {
        entries
    } else {
        let rest = retained(entries.drop_last(), key, ttl, now);
        let e = entries.last();
        if live_at(e.inserted_at, ttl, now) && e.key != key {
            rest.push(e)
        } else {
            rest
        }
    }
}

/// The number of entries that are live at `now`.
pub open spec fn count_live<V>(entries: Seq<EntryView<V>>, ttl: u64, now: u64) -> nat
    decreases entries.len(),
{
    if entries.len() == 0 {
        0
    } else {
        let rest = count_live(entries.drop_last(), ttl, now);
        if live_at(entries.last().inserted_at, ttl, now) {
            rest + 1
        } else {
            rest
        }
    }
}

impl<V> NamespaceView<V> {
    /// A namespace has room for at least one entry, never holds more than
    /// its capacity, and holds no key twice.
    pub open spec fn wf(self) -> bool {
        &&& self.capacity >= 1
        &&& self.entries.len() <= self.capacity
        &&& distinct_keys(self.entries)
    }

    /// The live value under `key` at `now`.
    pub open spec fn lookup(self, key: Seq<char>, now: u64) -> Option<V> {
        match position(self.entries, key) {
            Some(i) => if live_at(self.entries[i].inserted_at, self.ttl, now) {
                Some(self.entries[i].value)
            } else {
                None
            },
            None => None,
        }
    }

    /// The namespace after `value` has been written under `key` at `now`.
    pub open spec fn put(self, key: Seq<char>, value: V, now: u64) -> Self {
        let kept = retained(self.entries, key, self.ttl, now);
        let room = if kept.len() >= self.capacity {
            kept.drop_first()
        } else {
            kept
        };
        NamespaceView {
            entries: room.push(EntryView { key: key, value: value, inserted_at: now }),
            ttl: self.ttl,
            capacity: self.capacity,
        }
    }

    /// The namespace without its entries.
    pub open spec fn clear(self) -> Self {
        NamespaceView { entries: Seq::empty(), ttl: self.ttl, capacity: self.capacity }
    }

    /// The number of entries that are live at `now`.
    pub open spec fn live_count(self, now: u64) -> nat {
        count_live(self.entries, self.ttl, now)
    }
}

/// What a write keeps was there before, under another key than the one
/// written; and it keeps no more than there was.
pub proof fn lemma_retained<V>(entries: Seq<EntryView<V>>, key: Seq<char>, ttl: u64, now: u64)
    ensures
        retained(entries, key, ttl, now).len() <= entries.len(),
        !has_key(retained(entries, key, ttl, now), key),
        forall|k: Seq<char>| #[trigger]
            has_key(retained(entries, key, ttl, now), k) ==> has_key(entries, k),
        distinct_keys(entries) ==> distinct_keys(retained(entries, key, ttl, now)),
    decreases entries.len(),
{
    if entries.len() > 0 {
        let front = entries.drop_last();
        let e = entries.last();
        lemma_retained(front, key, ttl, now);
        let rest = retained(front, key, ttl, now);
        let out = retained(entries, key, ttl, now);
        assert forall|k: Seq<char>| #[trigger] has_key(out, k) implies has_key(entries, k) by {
            let i = choose|i: int| 0 <= i < out.len() && #[trigger] out[i].key == k;
            if i < rest.len() {
                assert(rest[i].key == k);
                assert(has_key(rest, k));
                let j = choose|j: int| 0 <= j < front.len() && #[trigger] front[j].key == k;
                assert(entries[j].key == k);
            } else {
                assert(entries[entries.len() - 1].key == k);
            }
        }
        if has_key(out, key) {
            let i = choose|i: int| 0 <= i < out.len() && #[trigger] out[i].key == key;
            if i < rest.len() {
                assert(rest[i].key == key);
                assert(has_key(rest, key));
            }
        }
        if distinct_keys(entries) {
            assert forall|i: int, j: int| 0 <= i < j < front.len() implies #[trigger] front[i].key
                != #[trigger] front[j].key by {
                assert(entries[i].key != entries[j].key);
            }
            assert forall|i: int, j: int| 0 <= i < j < out.len() implies #[trigger] out[i].key
                != #[trigger] out[j].key by {
                if j == rest.len() {
                    assert(rest[i].key == out[i].key);
                    if out[i].key == e.key {
                        assert(has_key(rest, e.key));
                        let m = choose|m: int| 0 <= m < front.len() && #[trigger] front[m].key
                            == e.key;
                        assert(entries[m].key != entries[entries.len() - 1].key);
                    }
                } else {
                    assert(rest[i].key != rest[j].key);
                }
            }
        }
    }
}

/// A write leaves a namespace well formed.
pub proof fn lemma_put_wf<V>(ns: NamespaceView<V>, key: Seq<char>, value: V, now: u64)
    requires
        ns.wf(),
    ensures
        ns.put(key, value, now).wf(),
{
    lemma_retained(ns.entries, key, ns.ttl, now);
    let kept = retained(ns.entries, key, ns.ttl, now);
    let room = if kept.len() >= ns.capacity {
        kept.drop_first()
    } else {
        kept
    };
    let out = ns.put(key, value, now).entries;
    assert forall|i: int, j: int| 0 <= i < j < out.len() implies #[trigger] out[i].key
        != #[trigger] out[j].key by {
        let shift: int = if kept.len() >= ns.capacity {
            1
        } else {
            0
        };
        assert(out[i] == kept[i + shift]);
        if j < room.len() {
            assert(out[j] == kept[j + shift]);
            assert(kept[i + shift].key != kept[j + shift].key);
        } else {
            if out[i].key == key {
                assert(kept[i + shift].key == key);
                assert(has_key(kept, key));
            }
        }
    }
}

/// An entry of a namespace.
pub struct Entry<V> {
    key: String,
    value: V,
    inserted_at: u64,
}

/// One partition of the cache: a map from keys to values of one kind, with
/// its own time to live and its own capacity.
pub struct Namespace<V> {
    entries: Vec<Entry<V>>,
    ttl: u64,
    capacity: usize,
}

/// The entries of `v`, as mathematical values.
pub closed spec fn entry_views<V>(v: Seq<Entry<V>>) -> Seq<EntryView<V>> {
    Seq::new(
        v.len(),
        |i: int| EntryView { key: v[i].key@, value: v[i].value, inserted_at: v[i].inserted_at },
    )
}

impl<V> View for Namespace<V> {
    type V = NamespaceView<V>;

    closed spec fn view(&self) -> NamespaceView<V> {
        NamespaceView {
            entries: entry_views(self.entries@),
            ttl: self.ttl,
            capacity: self.capacity as nat,
        }
    }
}

fn is_live(inserted_at: u64, ttl: u64, now: u64) -> (r: bool)
    ensures
        r == live_at(inserted_at, ttl, now),
{
    now < inserted_at || now - inserted_at < ttl
}

impl<V> Namespace<V> {
    /// Whether the namespace is well formed. Every operation keeps it so.
    pub open spec fn wf(&self) -> bool {
        self@.wf()
    }

    /// An empty namespace whose entries live `ttl` seconds and which holds
    /// at most `capacity` of them; a capacity of zero is taken as one.
    pub fn new(ttl: u64, capacity: usize) -> (r: Self)
        ensures
            r.wf(),
            r@.entries == Seq::<EntryView<V>>::empty(),
            r@.ttl == ttl,
            r@.capacity == if capacity == 0 {
                1
            } else {
                capacity as nat
            },
    {
        let capacity: usize = if capacity == 0 {
            1
        } else {
            capacity
        };
        let r = Namespace { entries: Vec::new(), ttl, capacity };
        assert(r@.entries =~= Seq::<EntryView<V>>::empty());
        r
    }

    /// The seconds that an entry lives.
    pub fn ttl(&self) -> (r: u64)
        ensures
            r == self@.ttl,
    {
        self.ttl
    }

    /// The number of entries that the namespace holds at most.
    pub fn capacity(&self) -> (r: usize)
        ensures
            r == self@.capacity,
    {
        self.capacity
    }

    /// The live value under `key`: `None` when there is no entry under
    /// `key`, and when its time to live has elapsed at `now`.
    pub fn get(&self, key: &str, now: u64) -> (r: Option<&V>)
        ensures
            match r {
                Some(v) => self@.lookup(key@, now) == Some(*v),
                None => self@.lookup(key@, now) is None,
            },
    {
        let wanted = String::from_str(key);
        let mut i: usize = self.entries.len();
        let ghost all = entry_views(self.entries@);
        assert(all.subrange(0, i as int) =~= all);
        while i > 0
            invariant
                i <= self.entries.len(),
                wanted@ == key@,
                all == entry_views(self.entries@),
                position(all, key@) == position(all.subrange(0, i as int), key@),
            decreases i,
        {
            assert(all.subrange(0, i as int).drop_last() =~= all.subrange(0, i - 1));
            assert(all.subrange(0, i as int).last() == all[i - 1]);
            let e = &self.entries[i - 1];
            if e.key == wanted {
                if is_live(e.inserted_at, self.ttl, now) {
                    return Some(&e.value);
                } else {
                    return None;
                }
            }
            i -= 1;
        }
        None
    }

    /// Writes `value` under `key` at `now`, in place of what was there.
    /// Expired entries are dropped; if the namespace is still full, the
    /// entry written longest ago leaves.
    pub fn put(&mut self, key: String, value: V, now: u64)
        requires
            old(self).wf(),
        ensures
            final(self).wf(),
            final(self)@ == old(self)@.put(key@, value, now),
    {
        let ghost before = self@;
        let mut previous: Vec<Entry<V>> = Vec::new();
        core::mem::swap(&mut self.entries, &mut previous);
        let ghost all = entry_views(previous@);
        assert(all == before.entries);
        let mut kept: Vec<Entry<V>> = Vec::new();
        assert(all.subrange(0, 0) =~= Seq::<EntryView<V>>::empty());
        assert(entry_views(kept@) =~= Seq::<EntryView<V>>::empty());
        let ttl = self.ttl;
        for e in it: previous.into_iter()
            invariant
                it.seq() == previous@,
                all == entry_views(previous@),
                entry_views(kept@) == retained(all.subrange(0, it.index() as int), key@, ttl, now),
        {
            let ghost done = entry_views(kept@);
            let ghost n = it.index() as int;
            assert(all.subrange(0, n + 1).drop_last() =~= all.subrange(0, n));
            assert(all.subrange(0, n + 1).last() == all[n]);
            if is_live(e.inserted_at, ttl, now) && e.key != key {
                kept.push(e);
                assert(entry_views(kept@) =~= done.push(all[n]));
            }
        }
        assert(all.subrange(0, all.len() as int) =~= all);
        proof {
            lemma_retained(all, key@, ttl, now);
            lemma_put_wf(before, key@, value, now);
        }
        if kept.len() >= self.capacity {
            let ghost full = entry_views(kept@);
            kept.remove(0);
            assert(entry_views(kept@) =~= full.drop_first());
        }
        let ghost room = entry_views(kept@);
        kept.push(Entry { key, value, inserted_at: now });
        assert(entry_views(kept@) =~= room.push(
            EntryView { key: key@, value: value, inserted_at: now },
        ));
        self.entries = kept;
    }

    /// Drops every entry.
    pub fn invalidate_all(&mut self)
        requires
            old(self).wf(),
        ensures
            final(self).wf(),
            final(self)@ == old(self)@.clear(),
    {
        self.entries = Vec::new();
        assert(entry_views(self.entries@) =~= Seq::<EntryView<V>>::empty());
    }

    /// The number of entries that are live at `now`.
    pub fn entry_count(&self, now: u64) -> (r: u64)
        ensures
            r == self@.live_count(now),
    {
        let mut count: u64 = 0;
        let mut i: usize = 0;
        let ghost all = entry_views(self.entries@);
        assert(all.subrange(0, 0) =~= Seq::<EntryView<V>>::empty());
        while i < self.entries.len()
            invariant
                i <= self.entries.len(),
                all == entry_views(self.entries@),
                count == count_live(all.subrange(0, i as int), self.ttl, now),
                count <= i,
            decreases self.entries.len() - i,
        {
            assert(all.subrange(0, i + 1).drop_last() =~= all.subrange(0, i as int));
            assert(all.subrange(0, i + 1).last() == all[i as int]);
            if is_live(self.entries[i].inserted_at, self.ttl, now) {
                count += 1;
            }
            i += 1;
        }
        assert(all.subrange(0, i as int) =~= all);
        count
    }
}


/// The four namespaces.
#[derive(Clone, Copy, Debug, PartialEq, Eq, Structural)]
pub enum NamespaceKind {
    Movies,
    Genres,
    Countries,
    Details,
}

/// The number of live entries of each namespace.
#[derive(Clone, Copy, Debug, PartialEq, Eq, Structural)]
pub struct CacheStats {
    pub movies: u64,
    pub genres: u64,
    pub countries: u64,
    pub details: u64,
}

impl CacheStats {
    /// The counts in one line, as they are written to a log.
    pub open spec fn line(self) -> Seq<char> {
        "Cache Stats: Movies: "@ + decimal(self.movies as nat) + ", Genres: "@ + decimal(
            self.genres as nat,
        ) + ", Countries: "@ + decimal(self.countries as nat) + ", Details: "@ + decimal(
            self.details as nat,
        )
    }

    /// The counts in one line, as they are written to a log.
    pub fn summary(&self) -> (r: String)
        ensures
            r@ == self.line(),
    {
        let mut out: Vec<char> = Vec::new();
        push_str("Cache Stats: Movies: ", &mut out);
        push_decimal(self.movies, &mut out);
        push_str(", Genres: ", &mut out);
        push_decimal(self.genres, &mut out);
        push_str(", Countries: ", &mut out);
        push_decimal(self.countries, &mut out);
        push_str(", Details: ", &mut out);
        push_decimal(self.details, &mut out);
        assert(out@ =~= self.line());
        string_of(&out)
    }
}

/// The cache store: one namespace for each kind of entity.
pub struct CacheStore {
    /// Listing pages, by query.
    pub movies: Namespace<Vec<Movie>>,
    /// The genre list.
    pub genres: Namespace<Vec<Genre>>,
    /// The country list.
    pub countries: Namespace<Vec<Country>>,
    /// Movie pages, by movie.
    pub details: Namespace<MovieDetail>,
}

impl CacheStore {
    /// Whether each namespace is well formed.
    pub open spec fn wf(&self) -> bool {
        &&& self.movies.wf()
        &&& self.genres.wf()
        &&& self.countries.wf()
        &&& self.details.wf()
    }

    /// The number of live entries of each namespace at `now`.
    pub open spec fn live_counts(&self, now: u64) -> (nat, nat, nat, nat) {
        (
            self.movies@.live_count(now),
            self.genres@.live_count(now),
            self.countries@.live_count(now),
            self.details@.live_count(now),
        )
    }

    /// An empty store. Listing pages live half an hour, movie pages an
    /// hour, the two reference lists a day; the reference namespaces are a
    /// tenth of the size of the others.
    pub fn new() -> (r: Self)
        ensures
            r.wf(),
            r.is_empty(),
            r.movies@.ttl == CACHE_TTL_MOVIES && r.movies@.capacity == CACHE_MAX_CAPACITY,
            r.genres@.ttl == CACHE_TTL_GENRES && r.genres@.capacity == CACHE_REFERENCE_CAPACITY,
            r.countries@.ttl == CACHE_TTL_COUNTRIES && r.countries@.capacity
                == CACHE_REFERENCE_CAPACITY,
            r.details@.ttl == CACHE_TTL_DETAILS && r.details@.capacity == CACHE_MAX_CAPACITY,
    {
        CacheStore {
            movies: Namespace::new(CACHE_TTL_MOVIES, CACHE_MAX_CAPACITY),
            genres: Namespace::new(CACHE_TTL_GENRES, CACHE_REFERENCE_CAPACITY),
            countries: Namespace::new(CACHE_TTL_COUNTRIES, CACHE_REFERENCE_CAPACITY),
            details: Namespace::new(CACHE_TTL_DETAILS, CACHE_MAX_CAPACITY),
        }
    }

    /// Whether no namespace holds an entry.
    pub open spec fn is_empty(&self) -> bool {
        &&& self.movies@.entries.len() == 0
        &&& self.genres@.entries.len() == 0
        &&& self.countries@.entries.len() == 0
        &&& self.details@.entries.len() == 0
    }

    /// Clears every namespace.
    pub fn invalidate_all(&mut self)
        requires
            old(self).wf(),
        ensures
            final(self).wf(),
            final(self).movies@ == old(self).movies@.clear(),
            final(self).genres@ == old(self).genres@.clear(),
            final(self).countries@ == old(self).countries@.clear(),
            final(self).details@ == old(self).details@.clear(),
            forall|now: u64| #[trigger] final(self).live_counts(now) == (0nat, 0nat, 0nat, 0nat),
    {
        self.movies.invalidate_all();
        self.genres.invalidate_all();
        self.countries.invalidate_all();
        self.details.invalidate_all();
    }

    /// Clears one namespace and leaves the others as they are.
    pub fn invalidate_namespace(&mut self, kind: NamespaceKind)
        requires
            old(self).wf(),
        ensures
            final(self).wf(),
            final(self).movies@ == if kind == NamespaceKind::Movies {
                old(self).movies@.clear()
            } else {
                old(self).movies@
            },
            final(self).genres@ == if kind == NamespaceKind::Genres {
                old(self).genres@.clear()
            } else {
                old(self).genres@
            },
            final(self).countries@ == if kind == NamespaceKind::Countries {
                old(self).countries@.clear()
            } else {
                old(self).countries@
            },
            final(self).details@ == if kind == NamespaceKind::Details {
                old(self).details@.clear()
            } else {
                old(self).details@
            },
    {
        match kind {
            NamespaceKind::Movies => self.movies.invalidate_all(),
            NamespaceKind::Genres => self.genres.invalidate_all(),
            NamespaceKind::Countries => self.countries.invalidate_all(),
            NamespaceKind::Details => self.details.invalidate_all(),
        }
    }

    /// The number of live entries of each namespace at `now`.
    pub fn stats(&self, now: u64) -> (r: CacheStats)
        ensures
            (r.movies as nat, r.genres as nat, r.countries as nat, r.details as nat)
                == self.live_counts(now),
    {
        CacheStats {
            movies: self.movies.entry_count(now),
            genres: self.genres.entry_count(now),
            countries: self.countries.entry_count(now),
            details: self.details.entry_count(now),
        }
    }
}

/// A value that was written can be read back, unchanged, at any time before
/// its time to live has elapsed.
pub proof fn law_put_then_get<V>(
    ns: NamespaceView<V>,
    key: Seq<char>,
    value: V,
    written: u64,
    read: u64,
)
    requires
        read < written + ns.ttl,
    ensures
        ns.put(key, value, written).lookup(key, read) == Some(value),
{
    let after = ns.put(key, value, written);
    assert(after.entries.last().key == key);
}

/// Once its time to live has elapsed, a value that was written is absent,
/// though nothing removed it.
pub proof fn law_expired_is_absent<V>(
    ns: NamespaceView<V>,
    key: Seq<char>,
    value: V,
    written: u64,
    read: u64,
)
    requires
        read >= written + ns.ttl,
    ensures
        ns.put(key, value, written).lookup(key, read) is None,
{
    let after = ns.put(key, value, written);
    assert(after.entries.last().key == key);
}

/// Whatever entry a namespace holds under a key, it is absent once its time
/// to live has elapsed.
pub proof fn law_lookup_is_live<V>(ns: NamespaceView<V>, key: Seq<char>, now: u64)
    ensures
        ns.lookup(key, now) is Some ==> position(ns.entries, key) is Some && now < ns.entries[position(
            ns.entries,
            key,
        ).unwrap()].inserted_at + ns.ttl,
{
}

/// Of two writes under one key the later one wins, and the namespace stays
/// well formed: the second caller of two who missed the same key finds the
/// store as usable as the first.
pub proof fn law_last_write_wins<V>(
    ns: NamespaceView<V>,
    key: Seq<char>,
    first: V,
    second: V,
    t1: u64,
    t2: u64,
    read: u64,
)
    requires
        ns.wf(),
        read < t2 + ns.ttl,
    ensures
        ns.put(key, first, t1).put(key, second, t2).wf(),
        ns.put(key, first, t1).put(key, second, t2).lookup(key, read) == Some(second),
{
    lemma_put_wf(ns, key, first, t1);
    lemma_put_wf(ns.put(key, first, t1), key, second, t2);
    law_put_then_get(ns.put(key, first, t1), key, second, t2, read);
}

/// A cleared namespace has no live entry, whatever the time.
pub proof fn law_clear_counts_zero<V>(ns: NamespaceView<V>, now: u64)
    ensures
        ns.clear().live_count(now) == 0,
{
}

/// A write that finds the namespace full of live entries under other keys
/// makes room by dropping the entry written longest ago, and the namespace
/// is full again afterwards.
pub proof fn law_full_namespace_evicts<V>(ns: NamespaceView<V>, key: Seq<char>, value: V, now: u64)
    requires
        ns.wf(),
        ns.entries.len() == ns.capacity,
        !has_key(ns.entries, key),
        forall|i: int|
            0 <= i < ns.entries.len() ==> live_at(
                (#[trigger] ns.entries[i]).inserted_at,
                ns.ttl,
                now,
            ),
    ensures
        ns.put(key, value, now).entries.len() == ns.capacity,
        ns.put(key, value, now).entries == ns.entries.drop_first().push(
            EntryView { key: key, value: value, inserted_at: now },
        ),
{
    lemma_retained_all(ns.entries, key, ns.ttl, now);
}

/// A write keeps every entry when all are live and none has the key written.
pub proof fn lemma_retained_all<V>(entries: Seq<EntryView<V>>, key: Seq<char>, ttl: u64, now: u64)
    requires
        !has_key(entries, key),
        forall|i: int|
            0 <= i < entries.len() ==> live_at((#[trigger] entries[i]).inserted_at, ttl, now),
    ensures
        retained(entries, key, ttl, now) == entries,
    decreases entries.len(),
{
    if entries.len() > 0 {
        let front = entries.drop_last();
        assert forall|i: int| 0 <= i < front.len() implies live_at(
            (#[trigger] front[i]).inserted_at,
            ttl,
            now,
        ) by {
            assert(front[i] == entries[i]);
        }
        if has_key(front, key) {
            let j = choose|j: int| 0 <= j < front.len() && #[trigger] front[j].key == key;
            assert(entries[j].key == key);
        }
        lemma_retained_all(front, key, ttl, now);
        assert(entries[entries.len() - 1].key != key);
        assert(live_at(entries[entries.len() - 1].inserted_at, ttl, now));
        assert(front.push(entries.last()) =~= entries);
    }
}


/// Where no key stands twice, the position of a key is that of the entry
/// that has it.
pub proof fn lemma_position<V>(entries: Seq<EntryView<V>>, key: Seq<char>)
    ensures
        position(entries, key) matches Some(i) ==> 0 <= i < entries.len() && entries[i].key == key,
        position(entries, key) is None ==> !has_key(entries, key),
        distinct_keys(entries) ==> forall|j: int|
            0 <= j < entries.len() && (#[trigger] entries[j]).key == key ==> position(entries, key)
                == Some(j),
    decreases entries.len(),
{
    if entries.len() > 0 {
        let front = entries.drop_last();
        lemma_position(front, key);
        if entries.last().key != key {
            if has_key(entries, key) {
                let j = choose|j: int| 0 <= j < entries.len() && #[trigger] entries[j].key == key;
                assert(front[j].key == key);
            }
        }
        if distinct_keys(entries) {
            assert forall|a: int, b: int| 0 <= a < b < front.len() implies #[trigger] front[a].key
                != #[trigger] front[b].key by {
                assert(entries[a].key != entries[b].key);
            }
            assert forall|j: int|
                0 <= j < entries.len() && (#[trigger] entries[j]).key == key implies position(
                entries,
                key,
            ) == Some(j) by {
                if entries.last().key == key {
                    if j < entries.len() - 1 {
                        assert(entries[j].key != entries[entries.len() - 1].key);
                    }
                } else {
                    assert(front[j] == entries[j]);
                }
            }
        }
    }
}

/// Every entry that a write keeps was there before.
pub proof fn lemma_retained_from<V>(
    entries: Seq<EntryView<V>>,
    key: Seq<char>,
    ttl: u64,
    now: u64,
    i: int,
) -> (j: int)
    requires
        0 <= i < retained(entries, key, ttl, now).len(),
    ensures
        0 <= j < entries.len(),
        entries[j] == retained(entries, key, ttl, now)[i],
    decreases entries.len(),
{
    let front = entries.drop_last();
    let rest = retained(front, key, ttl, now);
    if i < rest.len() {
        let j = lemma_retained_from(front, key, ttl, now, i);
        assert(front[j] == entries[j]);
        j
    } else {
        entries.len() - 1
    }
}

/// A write under one key never changes what is read under another: the
/// value read there afterwards, if any, is the one that was there before.
/// (It may be gone, when it was the one to make room.)
pub proof fn law_put_keeps_other_values<V>(
    ns: NamespaceView<V>,
    key: Seq<char>,
    value: V,
    now: u64,
    other: Seq<char>,
    read: u64,
)
    requires
        ns.wf(),
        other != key,
    ensures
        ns.put(key, value, now).lookup(other, read) matches Some(v) ==> ns.lookup(other, read)
            == Some(v),
{
    let kept = retained(ns.entries, key, ns.ttl, now);
    let room = if kept.len() >= ns.capacity {
        kept.drop_first()
    } else {
        kept
    };
    let shift: int = if kept.len() >= ns.capacity {
        1
    } else {
        0
    };
    let after = ns.put(key, value, now);
    assert(after.entries.drop_last() =~= room);
    assert(after.entries.last().key == key);
    assert(position(after.entries, other) == position(room, other));
    lemma_position(room, other);
    if position(room, other) is Some {
        let i = position(room, other).unwrap();
        assert(room[i] == kept[i + shift]);
        let j = lemma_retained_from(ns.entries, key, ns.ttl, now, i + shift);
        lemma_position(ns.entries, other);
        assert(ns.entries[j].key == other);
        assert(position(ns.entries, other) == Some(j));
        assert(after.entries[i] == room[i]);
    }
}


/// Every entry after a write but the last was there before; the last is
/// the one written.
pub proof fn lemma_put_entries<V>(
    ns: NamespaceView<V>,
    key: Seq<char>,
    value: V,
    now: u64,
    i: int,
) -> (j: int)
    requires
        ns.wf(),
        0 <= i < ns.put(key, value, now).entries.len(),
    ensures
        i == ns.put(key, value, now).entries.len() - 1 ==> ns.put(key, value, now).entries[i] == (
        EntryView { key: key, value: value, inserted_at: now }),
        i < ns.put(key, value, now).entries.len() - 1 ==> 0 <= j < ns.entries.len()
            && ns.entries[j] == ns.put(key, value, now).entries[i],
{
    let kept = retained(ns.entries, key, ns.ttl, now);
    let shift: int = if kept.len() >= ns.capacity {
        1
    } else {
        0
    };
    let room = if kept.len() >= ns.capacity {
        kept.drop_first()
    } else {
        kept
    };
    let after = ns.put(key, value, now).entries;
    assert(after == room.push(EntryView { key: key, value: value, inserted_at: now }));
    assert(after.len() == room.len() + 1);
    if i < after.len() - 1 {
        assert(after[i] == room[i]);
        assert(room[i] == kept[i + shift]);
        lemma_retained_from(ns.entries, key, ns.ttl, now, i + shift)
    } else {
        0
    }
}

/// What is read under a key is the value of an entry with that key.
pub proof fn lemma_lookup_entry<V>(ns: NamespaceView<V>, key: Seq<char>, now: u64) -> (j: int)
    requires
        ns.lookup(key, now) is Some,
    ensures
        0 <= j < ns.entries.len(),
        ns.entries[j].key == key,
        ns.lookup(key, now) == Some(ns.entries[j].value),
{
    lemma_position(ns.entries, key);
    position(ns.entries, key).unwrap()
}

} // verus!

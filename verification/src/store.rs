//! The key/value cache: one entry per table and key, written whole and
//! read back as it was written.
//!
//! `KvStore` keeps the entries in memory and says what a write, a read and
//! a clearing mean; no write to it fails. The statements that drive a
//! store on disk are in `crate::sql`.

use vstd::prelude::*;
use crate::error::CacheError;
use crate::json::{
    decode_names,
    decode_seconds,
    encode_names,
    encode_seconds,
    json_names,
    json_seconds,
    names_json,
    seconds_json,
};

verus! {

/// One entry of the cache.
#[derive(Clone, Debug)]
pub struct CacheEntry {
    pub table: String,
    pub key: String,
    pub value: Vec<u8>,
    pub updated_at: i64,
}

/// What a cache holds: under each table and key the bytes and the time they
/// were written.
pub type CacheView = Map<(Seq<char>, Seq<char>), (Seq<u8>, i64)>;

/// The cache after `value` was written under `table` and `key` at `now`.
pub open spec fn written(
    cache: CacheView,
    table: Seq<char>,
    key: Seq<char>,
    value: Seq<u8>,
    now: i64,
) -> CacheView {
    cache.insert((table, key), (value, now))
}

/// The bytes the cache holds under `table` and `key`, if any.
pub open spec fn stored(cache: CacheView, table: Seq<char>, key: Seq<char>) -> Option<Seq<u8>> {
    if cache.dom().contains((table, key)) {
        Some(cache[(table, key)].0)
    } else {
        None
    }
}

/// The cache after every entry of `table` was deleted.
pub open spec fn cleared(cache: CacheView, table: Seq<char>) -> CacheView {
    Map::new(
        |at: (Seq<char>, Seq<char>)| cache.dom().contains(at) && at.0 != table,
        |at: (Seq<char>, Seq<char>)| cache[at],
    )
}

/// Whether entry `i` of `entries` is the one for `table` and `key`.
pub open spec fn slot(entries: Seq<CacheEntry>, table: Seq<char>, key: Seq<char>, i: int) -> bool {
    0 <= i < entries.len() && entries[i].table@ == table && entries[i].key@ == key
}

/// Whether two entries hold the same.
pub open spec fn same_entry(a: CacheEntry, b: CacheEntry) -> bool {
    a.table@ == b.table@ && a.key@ == b.key@ && a.value@ == b.value@ && a.updated_at == b.updated_at
}

/// Whether no two entries share table and key.
pub open spec fn one_entry_per_key(entries: Seq<CacheEntry>) -> bool {
    forall|i: int, j: int|
        0 <= i < entries.len() && 0 <= j < entries.len() && entries[i].table@ == entries[j].table@
            && entries[i].key@ == entries[j].key@ ==> i == j
}

/// What a list of entries holds.
pub open spec fn entries_view(entries: Seq<CacheEntry>) -> CacheView {
    Map::new(
        |at: (Seq<char>, Seq<char>)| exists|i: int| slot(entries, at.0, at.1, i),
        |at: (Seq<char>, Seq<char>)|
            {
                let i = choose|i: int| slot(entries, at.0, at.1, i);
                (entries[i].value@, entries[i].updated_at)
            },
    )
}

/// An entry is found under its own table and key.
proof fn lemma_entry_found(entries: Seq<CacheEntry>, i: int)
    requires
        one_entry_per_key(entries),
        0 <= i < entries.len(),
    ensures
        entries_view(entries).dom().contains((entries[i].table@, entries[i].key@)),
        entries_view(entries)[(entries[i].table@, entries[i].key@)] == (
            entries[i].value@,
            entries[i].updated_at,
        ),
{
    let at = (entries[i].table@, entries[i].key@);
    assert(slot(entries, at.0, at.1, i));
    let j = choose|j: int| slot(entries, at.0, at.1, j);
    assert(j == i);
}

/// The cache in memory.
#[derive(Debug, Clone)]
pub struct KvStore {
    entries: Vec<CacheEntry>,
}

impl View for KvStore {
    type V = CacheView;

    closed spec fn view(&self) -> CacheView {
        entries_view(self.entries@)
    }
}

impl KvStore {
    /// The store's invariant: one entry per table and key.
    pub closed spec fn wf(&self) -> bool {
        one_entry_per_key(self.entries@)
    }

    /// An empty store.
    pub fn new() -> (store: Self)
        ensures
            store.wf(),
            store@ == CacheView::empty(),
    {
        let store = KvStore { entries: Vec::new() };
        assert(store@ =~= CacheView::empty());
        store
    }

    /// The place of the entry for `table` and `key`, if there is one.
    fn find(&self, table: &str, key: &str) -> (at: Option<usize>)
        ensures
            match at {
                Some(i) => slot(self.entries@, table@, key@, i as int),
                None => forall|j: int| !slot(self.entries@, table@, key@, j),
            },
    {
        let mut i: usize = 0;
        while i < self.entries.len()
            invariant
                i <= self.entries.len(),
                forall|j: int| 0 <= j < i ==> !slot(self.entries@, table@, key@, j),
            decreases self.entries.len() - i,
        {
            if *self.entries[i].table.as_str() == *table && *self.entries[i].key.as_str() == *key {
                return Some(i);
            }
            i += 1;
        }
        None
    }

    /// Writes `value` under `table` and `key`, in place of whatever was
    /// there, and notes `now` as the time of the write.
    pub fn set_bytes(&mut self, table: &str, key: &str, value: Vec<u8>, now: i64)
        requires
            old(self).wf(),
        ensures
            final(self).wf(),
            final(self)@ == written(old(self)@, table@, key@, value@, now),
    {
        let entry = CacheEntry {
            table: String::from_str(table),
            key: String::from_str(key),
            value,
            updated_at: now,
        };
        let ghost before = self.entries@;
        match self.find(table, key) {
            Some(i) => {
                self.entries[i] = entry;
                proof {
                    let after = self.entries@;
                    assert forall|j: int| 0 <= j < after.len() implies #[trigger] after[j].table@
                        == before[j].table@ && after[j].key@ == before[j].key@ by {}
                    assert(one_entry_per_key(after));
                    assert forall|at: (Seq<char>, Seq<char>), j: int|
                        slot(after, at.0, at.1, j) == slot(before, at.0, at.1, j) by {}
                    assert forall|at: (Seq<char>, Seq<char>)|
                        #[trigger] entries_view(after).dom().contains(at) implies entries_view(
                        after,
                    )[at] == written(entries_view(before), table@, key@, value@, now)[at] by {
                        let j = choose|j: int| slot(after, at.0, at.1, j);
                        lemma_entry_found(after, j);
                        if j != i as int {
                            lemma_entry_found(before, j);
                        }
                    }
                    lemma_entry_found(before, i as int);
                    assert(entries_view(after) =~= written(
                        entries_view(before),
                        table@,
                        key@,
                        value@,
                        now,
                    ));
                }
            },
            None => {
                self.entries.push(entry);
                proof {
                    let after = self.entries@;
                    let last = before.len() as int;
                    assert(slot(after, table@, key@, last));
                    assert forall|j: int| 0 <= j < last implies #[trigger] after[j] == before[j] by {}
                    assert forall|a: int, b: int|
                        0 <= a < after.len() && 0 <= b < after.len() && after[a].table@
                            == after[b].table@ && after[a].key@ == after[b].key@ implies a == b by {
                        if a == last && b != last {
                            assert(slot(before, table@, key@, b));
                        }
                        if b == last && a != last {
                            assert(slot(before, table@, key@, a));
                        }
                    }
                    assert forall|at: (Seq<char>, Seq<char>), j: int|
                        slot(after, at.0, at.1, j) == (slot(before, at.0, at.1, j) || (j == last
                            && at == (table@, key@))) by {}
                    assert forall|at: (Seq<char>, Seq<char>)|
                        #[trigger] entries_view(after).dom().contains(at) implies entries_view(
                        after,
                    )[at] == written(entries_view(before), table@, key@, value@, now)[at] by {
                        let j = choose|j: int| slot(after, at.0, at.1, j);
                        lemma_entry_found(after, j);
                        if j != last {
                            lemma_entry_found(before, j);
                        }
                    }
                    assert forall|at: (Seq<char>, Seq<char>)|
                        entries_view(after).dom().contains(at) == written(
                            entries_view(before),
                            table@,
                            key@,
                            value@,
                            now,
                        ).dom().contains(at) by {
                        if entries_view(before).dom().contains(at) {
                            let j = choose|j: int| slot(before, at.0, at.1, j);
                            assert(slot(after, at.0, at.1, j));
                        }
                        if at == (table@, key@) {
                            assert(slot(after, at.0, at.1, last));
                        }
                        if entries_view(after).dom().contains(at) {
                            let j = choose|j: int| slot(after, at.0, at.1, j);
                            if j != last {
                                assert(slot(before, at.0, at.1, j));
                            } else {
                                assert(at.0 == table@ && at.1 == key@);
                                assert(at =~= (table@, key@));
                            }
                        }
                    }
                    assert(entries_view(after) =~= written(
                        entries_view(before),
                        table@,
                        key@,
                        value@,
                        now,
                    ));
                }
            },
        }
    }

    /// The bytes under `table` and `key`; `None` where nothing is stored
    /// there.
    pub fn get_bytes(&self, table: &str, key: &str) -> (found: Option<Vec<u8>>)
        requires
            self.wf(),
        ensures
            found.deep_view() == stored(self@, table@, key@),
    {
        match self.find(table, key) {
            Some(i) => {
                proof {
                    lemma_entry_found(self.entries@, i as int);
                }
                let value = self.entries[i].value.clone();
                assert(value@ =~= self.entries[i as int].value@);
                assert(value.deep_view() =~= value@);
                Some(value)
            },
            None => None,
        }
    }

    /// The time of the last write under `table` and `key`.
    pub fn updated_at(&self, table: &str, key: &str) -> (at: Option<i64>)
        requires
            self.wf(),
        ensures
            at == if self@.dom().contains((table@, key@)) {
                Some(self@[(table@, key@)].1)
            } else {
                None
            },
    {
        match self.find(table, key) {
            Some(i) => {
                proof {
                    lemma_entry_found(self.entries@, i as int);
                }
                Some(self.entries[i].updated_at)
            },
            None => None,
        }
    }

    /// Deletes every entry of `table`.
    pub fn clear_all_kv(&mut self, table: &str)
        requires
            old(self).wf(),
        ensures
            final(self).wf(),
            final(self)@ == cleared(old(self)@, table@),
    {
        let ghost before = self.entries@;
        let mut kept: Vec<CacheEntry> = Vec::new();
        let ghost mut origin: Seq<int> = Seq::empty();
        let mut i: usize = 0;
        while i < self.entries.len()
            invariant
                i <= self.entries.len(),
                self.entries@ == before,
                origin.len() == kept.len(),
                forall|k: int|
                    0 <= k < kept.len() ==> 0 <= #[trigger] origin[k] < i && same_entry(
                        kept[k],
                        before[origin[k]],
                    ) && before[origin[k]].table@ != table@,
                forall|k: int, l: int| 0 <= k < l < kept.len() ==> origin[k] < origin[l],
                forall|j: int|
                    0 <= j < i && before[j].table@ != table@ ==> exists|k: int|
                        0 <= k < kept.len() && #[trigger] origin[k] == j,
            decreases self.entries.len() - i,
        {
            if !(*self.entries[i].table.as_str() == *table) {
                let ghost old_origin = origin;
                let value = self.entries[i].value.clone();
                assert(value@ =~= self.entries[i as int].value@);
                kept.push(
                    CacheEntry {
                        table: self.entries[i].table.clone(),
                        key: self.entries[i].key.clone(),
                        value,
                        updated_at: self.entries[i].updated_at,
                    },
                );
                proof {
                    origin = origin.push(i as int);
                    assert forall|k: int| 0 <= k < old_origin.len() implies origin[k]
                        == old_origin[k] by {}
                    assert forall|j: int|
                        0 <= j < i + 1 && before[j].table@ != table@ implies exists|k: int|
                        0 <= k < kept.len() && #[trigger] origin[k] == j by {
                        if j < i {
                            let k = choose|k: int| 0 <= k < old_origin.len() && old_origin[k] == j;
                            assert(origin[k] == j);
                        } else {
                            assert(origin[old_origin.len() as int] == j);
                        }
                    }
                }
            }
            i += 1;
        }
        self.entries = kept;
        proof {
            let after = self.entries@;
            assert forall|a: int, b: int|
                0 <= a < after.len() && 0 <= b < after.len() && after[a].table@ == after[b].table@
                    && after[a].key@ == after[b].key@ implies a == b by {
                assert(origin[a] == origin[b]);
                if a < b {
                    assert(origin[a] < origin[b]);
                }
                if b < a {
                    assert(origin[b] < origin[a]);
                }
            }
            assert forall|at: (Seq<char>, Seq<char>)|
                entries_view(after).dom().contains(at) == cleared(
                    entries_view(before),
                    table@,
                ).dom().contains(at) by {
                if entries_view(after).dom().contains(at) {
                    let k = choose|k: int| slot(after, at.0, at.1, k);
                    assert(slot(before, at.0, at.1, origin[k]));
                }
                if cleared(entries_view(before), table@).dom().contains(at) {
                    let j = choose|j: int| slot(before, at.0, at.1, j);
                    let k = choose|k: int| 0 <= k < after.len() && origin[k] == j;
                    assert(slot(after, at.0, at.1, k));
                }
            }
            assert forall|at: (Seq<char>, Seq<char>)|
                #[trigger] entries_view(after).dom().contains(at) implies entries_view(after)[at]
                == entries_view(before)[at] by {
                let k = choose|k: int| slot(after, at.0, at.1, k);
                lemma_entry_found(after, k);
                lemma_entry_found(before, origin[k]);
            }
            assert(entries_view(after) =~= cleared(entries_view(before), table@));
        }
    }

    /// Writes a list of names as JSON under `table` and `key`.
    pub fn set_json(&mut self, table: &str, key: &str, names: &Vec<String>, now: i64)
        requires
            old(self).wf(),
        ensures
            final(self).wf(),
            final(self)@ == written(old(self)@, table@, key@, names_json(names.deep_view()), now),
    {
        self.set_bytes(table, key, encode_names(names), now);
    }

    /// Reads the list of names under `table` and `key`: `Ok(None)` where
    /// nothing is stored there, `DeserializeFailure` where what is stored
    /// is no list of names.
    pub fn get_json(&self, table: &str, key: &str) -> (r: Result<Option<Vec<String>>, CacheError>)
        requires
            self.wf(),
        ensures
            match stored(self@, table@, key@) {
                None => r matches Ok(None),
                Some(bytes) => match json_names(bytes) {
                    Some(names) => r matches Ok(Some(found)) && found.deep_view() == names,
                    None => r matches Err(e) && e.is_deserialize_of(key@),
                },
            },
    {
        match self.get_bytes(table, key) {
            None => Ok(None),
            Some(bytes) => {
                assert(bytes.deep_view() =~= bytes@);
                match decode_names(key, &bytes) {
                    Ok(names) => Ok(Some(names)),
                    Err(e) => Err(e),
                }
            },
        }
    }

    /// Writes a timestamp as JSON under `table` and `key`.
    pub fn set_json_seconds(&mut self, table: &str, key: &str, seconds: i64, now: i64)
        requires
            old(self).wf(),
        ensures
            final(self).wf(),
            final(self)@ == written(old(self)@, table@, key@, seconds_json(seconds as int), now),
    {
        self.set_bytes(table, key, encode_seconds(seconds), now);
    }

    /// Reads the timestamp under `table` and `key`.
    pub fn get_json_seconds(&self, table: &str, key: &str) -> (r: Result<Option<i64>, CacheError>)
        requires
            self.wf(),
        ensures
            match stored(self@, table@, key@) {
                None => r matches Ok(None),
                Some(bytes) => match json_seconds(bytes) {
                    Some(seconds) => r matches Ok(Some(found)) && found == seconds,
                    None => r matches Err(e) && e.is_deserialize_of(key@),
                },
            },
    {
        match self.get_bytes(table, key) {
            None => Ok(None),
            Some(bytes) => {
                assert(bytes.deep_view() =~= bytes@);
                match decode_seconds(key, &bytes) {
                    Ok(seconds) => Ok(Some(seconds)),
                    Err(e) => Err(e),
                }
            },
        }
    }
}

/// What was written under a key is what is read back from it.
pub proof fn lemma_set_then_get(
    cache: CacheView,
    table: Seq<char>,
    key: Seq<char>,
    value: Seq<u8>,
    now: i64,
)
    ensures
        stored(written(cache, table, key, value, now), table, key) == Some(value),
{
}

/// A write replaces: of two writes under one key the later is read back.
pub proof fn lemma_set_replaces(
    cache: CacheView,
    table: Seq<char>,
    key: Seq<char>,
    first: Seq<u8>,
    second: Seq<u8>,
    earlier: i64,
    later: i64,
)
    ensures
        written(written(cache, table, key, first, earlier), table, key, second, later) == written(
            cache,
            table,
            key,
            second,
            later,
        ),
{
    assert(written(written(cache, table, key, first, earlier), table, key, second, later)
        =~= written(cache, table, key, second, later));
}

/// A write under one key leaves every other key as it was.
pub proof fn lemma_set_keeps_others(
    cache: CacheView,
    table: Seq<char>,
    key: Seq<char>,
    value: Seq<u8>,
    now: i64,
    other_table: Seq<char>,
    other_key: Seq<char>,
)
    requires
        (other_table, other_key) != (table, key),
    ensures
        stored(written(cache, table, key, value, now), other_table, other_key) == stored(
            cache,
            other_table,
            other_key,
        ),
{
}

/// Nothing is read from a key that was never written.
pub proof fn lemma_get_never_written(table: Seq<char>, key: Seq<char>)
    ensures
        stored(CacheView::empty(), table, key).is_none(),
{
}

/// Nothing is read from a table that was cleared, and the other tables
/// are as they were.
pub proof fn lemma_get_after_clear(
    cache: CacheView,
    table: Seq<char>,
    other_table: Seq<char>,
    key: Seq<char>,
)
    ensures
        stored(cleared(cache, table), table, key).is_none(),
        other_table != table ==> stored(cleared(cache, table), other_table, key) == stored(
            cache,
            other_table,
            key,
        ),
{
}

} // verus!

//! The cache: the records in order, and an index from normalised key to
//! the position of a record.
use vstd::hash_map::StringHashMap;
use vstd::prelude::*;

use crate::error::ArchiveCorruptError;
use crate::index::{insert_record_keys, insert_segments};
use crate::record::{HgncRecord, NUM_COLUMNS};
use crate::text::{split, to_upper, trim, views};

verus! {

/// The records and the index over them. Each key is held once in `entries`,
/// in the order it was first added, beside the position it resolves to;
/// `slots` finds a key's entry.
pub struct HgncCache {
    records: Vec<HgncRecord>,
    slots: StringHashMap<usize>,
    entries: Vec<(String, usize)>,
}

/// The key-to-position pairs of an entry list.
pub open spec fn entry_views(es: Seq<(String, usize)>) -> Seq<(Seq<char>, int)> {
    es.map_values(|e: (String, usize)| (e.0@, e.1 as int))
}

/// The map that adding each pair of `es` in turn gives, a later pair
/// winning a shared key.
pub open spec fn index_of_entries(es: Seq<(Seq<char>, int)>) -> Map<Seq<char>, int>
    decreases es.len(),
{
    if es.len() == 0 {
        Map::empty()
    } else {
        index_of_entries(es.drop_last()).insert(es.last().0, es.last().1)
    }
}

impl HgncCache {
    /// The records, in order.
    pub closed spec fn records_view(&self) -> Seq<Seq<Seq<char>>> {
        self.records@.map_values(|r: HgncRecord| r@)
    }

    /// The index: each key and the position of the record it resolves to.
    pub closed spec fn index(&self) -> Map<Seq<char>, int> {
        Map::new(
            |k: Seq<char>| self.slots@.contains_key(k),
            |k: Seq<char>| self.entries@[self.slots@[k] as int].1 as int,
        )
    }

    /// The index entries in the order they are handed out.
    pub closed spec fn entry_view(&self) -> Seq<(Seq<char>, int)> {
        entry_views(self.entries@)
    }

    /// Every record holds all columns; `slots` and `entries` agree, so each
    /// key is held once; every entry names a record that exists.
    pub closed spec fn wf(&self) -> bool {
        &&& forall|i: int| 0 <= i < self.records@.len() ==> (#[trigger] self.records@[i]).wf()
        &&& forall|k: Seq<char>|
            #[trigger] self.slots@.contains_key(k) ==> self.slots@[k] < self.entries@.len()
                && self.entries@[self.slots@[k] as int].0@ == k
        &&& forall|j: int|
            0 <= j < self.entries@.len() ==> self.slots@.contains_key(
                (#[trigger] self.entries@[j]).0@,
            ) && self.slots@[self.entries@[j].0@] == j
        &&& forall|j: int|
            0 <= j < self.entries@.len() ==> (#[trigger] self.entries@[j]).1 < self.records@.len()
    }

    /// A well-formed cache has no position in its index past its records,
    /// and every record holds all columns.
    pub proof fn lemma_wf_bounds(&self)
        requires
            self.wf(),
        ensures
            forall|k: Seq<char>|
                #[trigger] self.index().contains_key(k) ==> 0 <= self.index()[k]
                    < self.records_view().len(),
            forall|i: int|
                0 <= i < self.records_view().len() ==> (#[trigger] self.records_view()[i]).len()
                    == NUM_COLUMNS,
    {
        assert forall|i: int| 0 <= i < self.records_view().len() implies (
        #[trigger] self.records_view()[i]).len() == NUM_COLUMNS by {
            assert(self.records@[i].wf());
        }
    }

    /// An empty cache.
    pub fn new() -> (r: HgncCache)
        ensures
            r.wf(),
            r.records_view() == Seq::<Seq<Seq<char>>>::empty(),
            r.index() == Map::<Seq<char>, int>::empty(),
    {
        let r = HgncCache { records: Vec::new(), slots: StringHashMap::new(), entries: Vec::new() };
        assert(r.records_view() =~= Seq::<Seq<Seq<char>>>::empty());
        assert(r.index() =~= Map::<Seq<char>, int>::empty());
        r
    }

    /// Number of records.
    pub fn len(&self) -> (r: usize)
        ensures
            r == self.records_view().len(),
    {
        self.records.len()
    }

    /// The record at position `i`.
    pub fn record(&self, i: usize) -> (r: &HgncRecord)
        requires
            self.wf(),
            i < self.records_view().len(),
        ensures
            r.wf(),
            r@ == self.records_view()[i as int],
    {
        &self.records[i]
    }

    /// Makes `key` resolve to position `pos`, replacing what it resolved to.
    fn insert_key(&mut self, key: String, pos: usize)
        requires
            old(self).wf(),
            pos < old(self).records_view().len(),
        ensures
            final(self).wf(),
            final(self).records@ == old(self).records@,
            final(self).records_view() == old(self).records_view(),
            final(self).index() == old(self).index().insert(key@, pos as int),
    {
        let ghost old_index = self.index();
        match self.slots.get(key.as_str()) {
            Some(s) => {
                let s = *s;
                self.entries.set(s, (key, pos));
            },
            None => {
                let s = self.entries.len();
                self.entries.push((key.clone(), pos));
                self.slots.insert(key, s);
                assert(self.entries@[s as int].0@ == key@);
            },
        }
        assert(self.index() =~= old_index.insert(key@, pos as int));
    }

    /// Adds the keys that the pieces of `segs` give, all resolving to `pos`.
    fn insert_segment_keys(&mut self, segs: &Vec<String>, pos: usize)
        requires
            old(self).wf(),
            pos < old(self).records_view().len(),
        ensures
            final(self).wf(),
            final(self).records_view() == old(self).records_view(),
            final(self).index() == insert_segments(old(self).index(), views(segs@), pos as int),
    {
        let ghost m0 = self.index();
        let mut j: usize = 0;
        while j < segs.len()
            invariant
                j <= segs@.len(),
                self.wf(),
                pos < self.records_view().len(),
                self.records_view() == old(self).records_view(),
                m0 == old(self).index(),
                self.index() == insert_segments(m0, views(segs@).take(j as int), pos as int),
            decreases segs@.len() - j,
        {
            assert(views(segs@).take(j + 1).drop_last() =~= views(segs@).take(j as int));
            let t = trim(segs[j].as_str());
            if !t.is_empty() {
                self.insert_key(to_upper(t), pos);
            }
            j = j + 1;
        }
        assert(views(segs@).take(segs@.len() as int) =~= views(segs@));
    }

    /// Appends `rec` and adds its keys: its symbol, then each alias, then
    /// each previous symbol, all resolving to its position.
    pub fn add_record(&mut self, rec: HgncRecord)
        requires
            old(self).wf(),
            rec.wf(),
            old(self).records_view().len() < usize::MAX,
        ensures
            final(self).wf(),
            final(self).records_view() == old(self).records_view().push(rec@),
            final(self).index() == insert_record_keys(
                old(self).index(),
                rec@,
                old(self).records_view().len() as int,
            ),
    {
        let pos = self.records.len();
        let symbol = to_upper(rec.symbol());
        let aliases = split(rec.alias_symbol(), '|');
        let prevs = split(rec.prev_symbol(), '|');
        let ghost rv = rec@;
        self.records.push(rec);
        assert(self.records_view() =~= old(self).records_view().push(rv));
        self.insert_key(symbol, pos);
        self.insert_segment_keys(&aliases, pos);
        self.insert_segment_keys(&prevs, pos);
    }

    /// The record that `key`, already normalised, resolves to.
    pub fn get(&self, key: &str) -> (r: Option<&HgncRecord>)
        requires
            self.wf(),
        ensures
            match r {
                Some(rec) => {
                    &&& self.index().contains_key(key@)
                    &&& rec.wf()
                    &&& rec@ == self.records_view()[self.index()[key@]]
                },
                None => !self.index().contains_key(key@),
            },
    {
        match self.slots.get(key) {
            Some(s) => {
                let p = self.entries[*s].1;
                Some(&self.records[p])
            },
            None => None,
        }
    }

    /// Takes the cache apart into its records and its index entries, each key
    /// once, in the order keys were first added.
    pub fn into_parts(self) -> (r: (Vec<HgncRecord>, Vec<(String, usize)>))
        requires
            self.wf(),
        ensures
            r.0@.map_values(|x: HgncRecord| x@) == self.records_view(),
            forall|i: int| 0 <= i < r.0@.len() ==> (#[trigger] r.0@[i]).wf(),
            forall|j: int| 0 <= j < r.1@.len() ==> (#[trigger] r.1@[j]).1 < r.0@.len(),
            entry_views(r.1@) == self.entry_view(),
    {
        (self.records, self.entries)
    }

    /// Puts a cache together from records and index entries, a later entry
    /// winning a repeated key. Fails when a record lacks columns or an entry
    /// names a position past the last record.
    pub fn from_parts(records: Vec<HgncRecord>, entries: Vec<(String, usize)>) -> (r: Result<
        HgncCache,
        ArchiveCorruptError,
    >)
        ensures
            match r {
                Ok(c) => {
                    &&& c.wf()
                    &&& c.records_view() == records@.map_values(|x: HgncRecord| x@)
                    &&& c.index() == index_of_entries(entry_views(entries@))
                },
                Err(ArchiveCorruptError::MalformedRecord { position }) => {
                    &&& position < records@.len()
                    &&& !records@[position as int].wf()
                },
                Err(ArchiveCorruptError::DanglingIndex { entry }) => {
                    &&& entry < entries@.len()
                    &&& entries@[entry as int].1 >= records@.len()
                },
            },
    {
        let mut i: usize = 0;
        while i < records.len()
            invariant
                i <= records@.len(),
                forall|j: int| 0 <= j < i ==> (#[trigger] records@[j]).wf(),
            decreases records@.len() - i,
        {
            if records[i].fields().len() != NUM_COLUMNS {
                return Err(ArchiveCorruptError::MalformedRecord { position: i });
            }
            i = i + 1;
        }
        let mut cache = HgncCache { records, slots: StringHashMap::new(), entries: Vec::new() };
        assert(cache.index() =~= Map::<Seq<char>, int>::empty());
        let ghost es = entry_views(entries@);
        let mut j: usize = 0;
        while j < entries.len()
            invariant
                j <= entries@.len(),
                es == entry_views(entries@),
                cache.wf(),
                cache.records@ == records@,
                cache.records_view() == records@.map_values(|x: HgncRecord| x@),
                cache.index() == index_of_entries(es.take(j as int)),
            decreases entries@.len() - j,
        {
            let (key, pos) = (entries[j].0.clone(), entries[j].1);
            if pos >= cache.records.len() {
                return Err(ArchiveCorruptError::DanglingIndex { entry: j });
            }
            assert(es.take(j + 1).drop_last() =~= es.take(j as int));
            cache.insert_key(key, pos);
            j = j + 1;
        }
        assert(es.take(entries@.len() as int) =~= es);
        Ok(cache)
    }

    proof fn lemma_entries_prefix(&self, n: int)
        requires
            self.wf(),
            0 <= n <= self.entries@.len(),
        ensures
            forall|k: Seq<char>|
                #[trigger] index_of_entries(self.entry_view().take(n)).contains_key(k) <==> (
                self.slots@.contains_key(k) && self.slots@[k] < n),
            forall|k: Seq<char>|
                #[trigger] index_of_entries(self.entry_view().take(n)).contains_key(k)
                    ==> index_of_entries(self.entry_view().take(n))[k] == self.index()[k],
        decreases n,
    {
        let es = self.entry_view();
        if n > 0 {
            self.lemma_entries_prefix(n - 1);
            assert(es.take(n).drop_last() =~= es.take(n - 1));
            let m = index_of_entries(es.take(n - 1));
            let e = self.entries@[n - 1];
            assert(es.take(n).last() == (e.0@, e.1 as int));
            assert(self.slots@.contains_key(e.0@) && self.slots@[e.0@] == n - 1);
            assert(index_of_entries(es.take(n)) == m.insert(e.0@, e.1 as int));
            assert forall|k: Seq<char>|
                #[trigger] index_of_entries(es.take(n)).contains_key(k) <==> (
                self.slots@.contains_key(k) && self.slots@[k] < n) by {
                if self.slots@.contains_key(k) && self.slots@[k] == n - 1 {
                    assert(self.entries@[self.slots@[k] as int].0@ == k);
                }
            }
            assert forall|k: Seq<char>|
                #[trigger] index_of_entries(es.take(n)).contains_key(k) implies index_of_entries(
                es.take(n),
            )[k] == self.index()[k] by {
                if k != e.0@ {
                    assert(m.contains_key(k));
                }
            }
        }
    }

    /// Taking a cache apart and putting it together again loses nothing:
    /// its entries, added in turn, give back its index.
    pub proof fn lemma_round_trip(&self)
        requires
            self.wf(),
        ensures
            index_of_entries(self.entry_view()) == self.index(),
    {
        let es = self.entry_view();
        self.lemma_entries_prefix(es.len() as int);
        assert(es.take(es.len() as int) =~= es);
        assert(index_of_entries(es) =~= self.index());
    }
}

} // verus!

//! The registry: the ordered collection of records of one kind of entity,
//! kept and found by the index that the server gave each of them.
//!
//! Records stand in the order in which they arrived. The order carries no
//! meaning, but it decides which record an index finds when, against the
//! server's promise, two records carry the same index: the first.

use vstd::prelude::*;

verus! {

/// What the registry keeps: a value with a view, known by an index.
pub trait Record: View + Sized {
    /// The index of the record that `v` is the view of.
    spec fn key(v: Self::V) -> u32;

    /// The index that the server gave this record.
    fn index(&self) -> (index: u32)
        ensures
            index == Self::key(self@),
    ;
}

/// Some record of `records` meets `wanted`.
pub open spec fn has_match<V>(records: Seq<V>, wanted: spec_fn(V) -> bool) -> bool {
    exists|k: int| 0 <= k < records.len() && wanted(#[trigger] records[k])
}

/// `k` is the place of the first record of `records` that meets `wanted`.
pub open spec fn is_first_match<V>(records: Seq<V>, wanted: spec_fn(V) -> bool, k: int) -> bool {
    &&& 0 <= k < records.len()
    &&& wanted(records[k])
    &&& forall|j: int| 0 <= j < k ==> !wanted(#[trigger] records[j])
}

/// The place of the first record that meets `wanted`, where there is one.
pub open spec fn first_match<V>(records: Seq<V>, wanted: spec_fn(V) -> bool) -> int {
    choose|k: int| is_first_match(records, wanted, k)
}

/// The first record that meets `wanted`, if any does.
pub open spec fn find_match<V>(records: Seq<V>, wanted: spec_fn(V) -> bool) -> Option<V> {
    if has_match(records, wanted) {
        Some(records[first_match(records, wanted)])
    } else {
        None
    }
}

/// What it is for a record to carry `index`.
pub open spec fn carries<T: Record>(index: u32) -> spec_fn(T::V) -> bool {
    |v: T::V| T::key(v) == index
}

/// Some record of `records` carries `index`.
pub open spec fn tracks<T: Record>(records: Seq<T::V>, index: u32) -> bool {
    has_match(records, carries::<T>(index))
}

/// `k` is the place of the first record of `records` that carries `index`.
pub open spec fn is_first<T: Record>(records: Seq<T::V>, index: u32, k: int) -> bool {
    is_first_match(records, carries::<T>(index), k)
}

/// The place of the first record that carries `index`, where there is one.
pub open spec fn first<T: Record>(records: Seq<T::V>, index: u32) -> int {
    first_match(records, carries::<T>(index))
}

/// The first record that carries `index`, if any does.
pub open spec fn found<T: Record>(records: Seq<T::V>, index: u32) -> Option<T::V> {
    find_match(records, carries::<T>(index))
}

/// `records` with `record` in the place of the first record that carries
/// `index`; `records` itself where none does.
pub open spec fn updated<T: Record>(records: Seq<T::V>, index: u32, record: T::V) -> Seq<T::V> {
    if tracks::<T>(records, index) {
        records.update(first::<T>(records, index), record)
    } else {
        records
    }
}

/// `records` without the first record that carries `index`; `records`
/// itself where none does.
pub open spec fn removed<T: Record>(records: Seq<T::V>, index: u32) -> Seq<T::V> {
    if tracks::<T>(records, index) {
        records.remove(first::<T>(records, index))
    } else {
        records
    }
}

/// No two records of `records` carry the same index. The server promises
/// this of the entities it announces, and a registry that is only ever fed
/// what the server announces keeps it.
pub open spec fn distinct<T: Record>(records: Seq<T::V>) -> bool {
    forall|i: int, j: int|
        0 <= i < j < records.len() ==> T::key(#[trigger] records[i]) != T::key(
            #[trigger] records[j],
        )
}

/// Exactly one record of `records` carries `index`.
pub open spec fn tracks_once<T: Record>(records: Seq<T::V>, index: u32) -> bool {
    exists|k: int|
        {
            &&& 0 <= k < records.len()
            &&& T::key(#[trigger] records[k]) == index
            &&& forall|j: int|
                0 <= j < records.len() && j != k ==> T::key(#[trigger] records[j]) != index
        }
}

/// At or below a record that meets `wanted` there is a first one.
proof fn lemma_first_match_below<V>(records: Seq<V>, wanted: spec_fn(V) -> bool, k: int)
    requires
        0 <= k < records.len(),
        wanted(records[k]),
    ensures
        exists|f: int| #[trigger] is_first_match(records, wanted, f) && f <= k,
    decreases k,
{
    if forall|j: int| 0 <= j < k ==> !wanted(#[trigger] records[j]) {
        assert(is_first_match(records, wanted, k));
    } else {
        let j = choose|j: int| 0 <= j < k && wanted(#[trigger] records[j]);
        lemma_first_match_below(records, wanted, j);
    }
}

/// Where some record meets `wanted`, `first_match` is the place of the
/// first that does.
pub proof fn lemma_first_match<V>(records: Seq<V>, wanted: spec_fn(V) -> bool)
    requires
        has_match(records, wanted),
    ensures
        is_first_match(records, wanted, first_match(records, wanted)),
{
    let k = choose|k: int| 0 <= k < records.len() && wanted(#[trigger] records[k]);
    lemma_first_match_below(records, wanted, k);
}

/// The first record that meets `wanted` stands at `k` and nowhere else.
pub proof fn lemma_first_match_is<V>(records: Seq<V>, wanted: spec_fn(V) -> bool, k: int)
    requires
        is_first_match(records, wanted, k),
    ensures
        has_match(records, wanted),
        first_match(records, wanted) == k,
        find_match(records, wanted) == Some(records[k]),
{
    let f = first_match(records, wanted);
    assert(is_first_match(records, wanted, f));
    if f < k {
        assert(!wanted(records[f]));
    } else if k < f {
        assert(!wanted(records[k]));
    }
}

/// A record whose index is not tracked yet is, once appended, the one
/// record that carries its index; and where no two records shared an index
/// before, none do after.
pub proof fn lemma_push_tracks_once<T: Record>(records: Seq<T::V>, record: T::V)
    requires
        !tracks::<T>(records, T::key(record)),
    ensures
        tracks_once::<T>(records.push(record), T::key(record)),
        found::<T>(records.push(record), T::key(record)) == Some(record),
        distinct::<T>(records) ==> distinct::<T>(records.push(record)),
{
    let after = records.push(record);
    let last = records.len() as int;
    assert forall|j: int| 0 <= j < last implies T::key(#[trigger] after[j]) != T::key(record) by {
        assert(after[j] == records[j]);
        assert(!carries::<T>(T::key(record))(records[j]));
    }
    assert(T::key(after[last]) == T::key(record));
    assert(is_first::<T>(after, T::key(record), last));
    lemma_first_match_is(after, carries::<T>(T::key(record)), last);
    if distinct::<T>(records) {
        assert forall|i: int, j: int| 0 <= i < j < after.len() implies T::key(
            #[trigger] after[i],
        ) != T::key(#[trigger] after[j]) by {
            if j < last {
                assert(after[i] == records[i] && after[j] == records[j]);
            }
        }
    }
}

/// Where no two records of `records` followed by `more` share an index,
/// each record of `more` is the one record that carries its index.
pub proof fn lemma_extended_tracks_once<T: Record>(records: Seq<T::V>, more: Seq<T::V>, k: int)
    requires
        distinct::<T>(records + more),
        0 <= k < more.len(),
    ensures
        tracks_once::<T>(records + more, T::key(more[k])),
        found::<T>(records + more, T::key(more[k])) == Some(more[k]),
{
    let all = records + more;
    let place = records.len() + k;
    assert(all[place] == more[k]);
    assert forall|j: int| 0 <= j < all.len() && j != place implies T::key(#[trigger] all[j])
        != T::key(more[k]) by {
        if j < place {
            assert(T::key(all[j]) != T::key(all[place]));
        } else {
            assert(T::key(all[place]) != T::key(all[j]));
        }
    }
    assert(is_first::<T>(all, T::key(more[k]), place));
    lemma_first_match_is(all, carries::<T>(T::key(more[k])), place);
}

/// Where no two records share an index, an index that is tracked is
/// tracked exactly once.
pub proof fn lemma_distinct_tracks_once<T: Record>(records: Seq<T::V>, index: u32)
    requires
        distinct::<T>(records),
        tracks::<T>(records, index),
    ensures
        tracks_once::<T>(records, index),
{
    lemma_first_match(records, carries::<T>(index));
    let k = first::<T>(records, index);
    assert(T::key(records[k]) == index);
    assert forall|j: int| 0 <= j < records.len() && j != k implies T::key(#[trigger] records[j])
        != index by {
        if j < k {
            assert(T::key(records[j]) != T::key(records[k]));
        } else {
            assert(T::key(records[k]) != T::key(records[j]));
        }
    }
}

/// After an update with a record that carries `index` itself, `index`
/// finds that record. The number of records stays, and where no two
/// records shared an index before, none do after.
pub proof fn lemma_updated_found<T: Record>(records: Seq<T::V>, index: u32, record: T::V)
    requires
        tracks::<T>(records, index),
        T::key(record) == index,
    ensures
        found::<T>(updated::<T>(records, index, record), index) == Some(record),
        updated::<T>(records, index, record).len() == records.len(),
        distinct::<T>(records) ==> distinct::<T>(updated::<T>(records, index, record)),
{
    lemma_first_match(records, carries::<T>(index));
    let k = first::<T>(records, index);
    let after = updated::<T>(records, index, record);
    assert(after == records.update(k, record));
    assert forall|j: int| 0 <= j < k implies !carries::<T>(index)(#[trigger] after[j]) by {
        assert(after[j] == records[j]);
    }
    assert(is_first::<T>(after, index, k));
    lemma_first_match_is(after, carries::<T>(index), k);
    if distinct::<T>(records) {
        assert forall|i: int, j: int| 0 <= i < j < after.len() implies T::key(
            #[trigger] after[i],
        ) != T::key(#[trigger] after[j]) by {
            assert(T::key(records[i]) != T::key(records[j]));
            assert(T::key(after[i]) == T::key(records[i]));
            assert(T::key(after[j]) == T::key(records[j]));
        }
    }
}

/// Where no two records share an index, a removed index is tracked no
/// longer, so that removing it once more changes nothing; and still no two
/// records share an index.
pub proof fn lemma_removed_twice<T: Record>(records: Seq<T::V>, index: u32)
    requires
        distinct::<T>(records),
    ensures
        !tracks::<T>(removed::<T>(records, index), index),
        removed::<T>(removed::<T>(records, index), index) == removed::<T>(records, index),
        distinct::<T>(removed::<T>(records, index)),
{
    let after = removed::<T>(records, index);
    if tracks::<T>(records, index) {
        lemma_first_match(records, carries::<T>(index));
        let k = first::<T>(records, index);
        assert(after == records.remove(k));
        assert forall|j: int| 0 <= j < after.len() implies T::key(#[trigger] after[j])
            != index by {
            if j < k {
                assert(after[j] == records[j]);
                assert(T::key(records[j]) != T::key(records[k]));
            } else {
                assert(after[j] == records[j + 1]);
                assert(T::key(records[k]) != T::key(records[j + 1]));
            }
        }
        assert forall|i: int, j: int| 0 <= i < j < after.len() implies T::key(
            #[trigger] after[i],
        ) != T::key(#[trigger] after[j]) by {
            let from_i = if i < k { i } else { i + 1 };
            let from_j = if j < k { j } else { j + 1 };
            assert(after[i] == records[from_i] && after[j] == records[from_j]);
            assert(T::key(records[from_i]) != T::key(records[from_j]));
        }
    }
    assert(!tracks::<T>(after, index)) by {
        if tracks::<T>(after, index) {
            let j = choose|j: int| 0 <= j < after.len() && carries::<T>(index)(#[trigger] after[j]);
            assert(T::key(after[j]) == index);
        }
    }
}

/// The records of one kind of entity, in the order of their arrival.
pub struct Registry<T> {
    items: Vec<T>,
}

impl<T: Record> View for Registry<T> {
    type V = Seq<T::V>;

    open spec fn view(&self) -> Seq<T::V> {
        self.records().map_values(|record: T| record@)
    }
}

impl<T: Record> Registry<T> {
    /// The records as they are held; the view of the registry is the
    /// sequence of their views.
    pub closed spec fn records(&self) -> Seq<T> {
        self.items@
    }

    /// No two records carry the same index. This is what the server
    /// promises of the entities it announces; a registry that is fed
    /// nothing else has it and keeps it.
    pub open spec fn well_formed(&self) -> bool {
        distinct::<T>(self@)
    }

    /// The registry of a client that has heard of nothing yet.
    pub fn new() -> (registry: Self)
        ensures
            registry@ == Seq::<T::V>::empty(),
            registry.well_formed(),
    {
        let registry = Registry { items: Vec::new() };
        assert(registry@ =~= Seq::<T::V>::empty());
        registry
    }

    /// The number of records.
    pub fn len(&self) -> (len: usize)
        ensures
            len == self@.len(),
    {
        self.items.len()
    }

    /// The record at `position`, counted from the oldest.
    pub fn get(&self, position: usize) -> (record: Option<&T>)
        ensures
            position < self@.len() ==> record == Some(&self.records()[position as int]),
            position >= self@.len() ==> record is None,
    {
        if position < self.items.len() {
            Some(&self.items[position])
        } else {
            None
        }
    }

    /// The place of the first record that carries `index`.
    pub fn position(&self, index: u32) -> (position: Option<usize>)
        ensures
            match position {
                Some(k) => is_first::<T>(self@, index, k as int),
                None => !tracks::<T>(self@, index),
            },
    {
        let mut k: usize = 0;
        while k < self.items.len()
            invariant
                k <= self.items@.len(),
                forall|j: int| 0 <= j < k ==> T::key(#[trigger] self@[j]) != index,
            decreases self.items@.len() - k,
        {
            if self.items[k].index() == index {
                return Some(k);
            }
            k += 1;
        }
        None
    }

    /// The first record that carries `index`.
    pub fn find(&self, index: u32) -> (record: Option<&T>)
        ensures
            match record {
                Some(hit) => found::<T>(self@, index) == Some(hit@),
                None => !tracks::<T>(self@, index),
            },
    {
        match self.position(index) {
            Some(k) => {
                proof {
                    lemma_first_match_is(self@, carries::<T>(index), k as int);
                }
                Some(&self.items[k])
            },
            None => None,
        }
    }

    /// The first record that `matches` accepts, found by looking at the
    /// records one by one from the oldest.
    pub fn find_by<F: Fn(&T) -> bool>(&self, matches: F) -> (record: Option<&T>)
        requires
            forall|k: int|
                0 <= k < self.records().len() ==> call_requires(
                    matches,
                    (&#[trigger] self.records()[k],),
                ),
        ensures
            match record {
                Some(hit) => exists|k: int|
                    {
                        &&& 0 <= k < self.records().len()
                        &&& *hit == #[trigger] self.records()[k]
                        &&& call_ensures(matches, (hit,), true)
                        &&& forall|j: int|
                            0 <= j < k ==> call_ensures(
                                matches,
                                (&#[trigger] self.records()[j],),
                                false,
                            )
                    },
                None => forall|j: int|
                    0 <= j < self.records().len() ==> call_ensures(
                        matches,
                        (&#[trigger] self.records()[j],),
                        false,
                    ),
            },
    {
        let mut k: usize = 0;
        while k < self.items.len()
            invariant
                k <= self.items@.len(),
                self.records() == self.items@,
                forall|k: int|
                    0 <= k < self.records().len() ==> call_requires(
                        matches,
                        (&#[trigger] self.records()[k],),
                    ),
                forall|j: int|
                    0 <= j < k ==> call_ensures(matches, (&#[trigger] self.items@[j],), false),
            decreases self.items@.len() - k,
        {
            let candidate = &self.items[k];
            if matches(candidate) {
                assert(*candidate == self.records()[k as int]);
                return Some(candidate);
            }
            k += 1;
        }
        None
    }

    /// Appends `record`. Whether its index is tracked already is not looked
    /// at: the server announces an entity once.
    pub fn apply_add(&mut self, record: T)
        ensures
            final(self)@ == old(self)@.push(record@),
            old(self).well_formed() && !tracks::<T>(old(self)@, T::key(record@))
                ==> final(self).well_formed(),
    {
        proof {
            if !tracks::<T>(self@, T::key(record@)) {
                lemma_push_tracks_once::<T>(self@, record@);
            }
        }
        self.items.push(record);
        assert(self@ =~= old(self)@.push(record@));
    }

    /// Puts `record` in the place of the first record that carries `index`
    /// and says whether there was one. Without one the registry stays as it
    /// is.
    pub fn apply_update(&mut self, index: u32, record: T) -> (applied: bool)
        ensures
            applied == tracks::<T>(old(self)@, index),
            final(self)@ == updated::<T>(old(self)@, index, record@),
            old(self).well_formed() && (applied ==> T::key(record@) == index)
                ==> final(self).well_formed(),
    {
        match self.position(index) {
            Some(k) => {
                proof {
                    lemma_first_match_is(self@, carries::<T>(index), k as int);
                    if T::key(record@) == index {
                        lemma_updated_found::<T>(self@, index, record@);
                    }
                }
                self.items[k] = record;
                assert(self@ =~= old(self)@.update(k as int, record@));
                true
            },
            None => false,
        }
    }

    /// Takes out the first record that carries `index` and hands it over.
    /// Without one the registry stays as it is: to remove what is not there
    /// is no error.
    pub fn apply_remove(&mut self, index: u32) -> (taken: Option<T>)
        ensures
            final(self)@ == removed::<T>(old(self)@, index),
            match taken {
                Some(record) => found::<T>(old(self)@, index) == Some(record@),
                None => !tracks::<T>(old(self)@, index),
            },
            old(self).well_formed() ==> final(self).well_formed() && !tracks::<T>(
                final(self)@,
                index,
            ),
    {
        proof {
            if self.well_formed() {
                lemma_removed_twice::<T>(self@, index);
            }
        }
        match self.position(index) {
            Some(k) => {
                proof {
                    lemma_first_match_is(self@, carries::<T>(index), k as int);
                }
                let record = self.items.remove(k);
                assert(self@ =~= old(self)@.remove(k as int));
                Some(record)
            },
            None => None,
        }
    }
}

} // verus!

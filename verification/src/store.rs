//! The entry store: an in-memory entries table with create, find, update and
//! delete operations. The table assigns ids itself, starting at one and never
//! reusing an id after deletion.

use vstd::prelude::*;

use crate::model::{materialized, Entries, Entry, EntryModel, StorageError};

verus! {

/// The models of a sequence of rows.
pub open spec fn models_of(rows: Seq<Entries>) -> Seq<EntryModel> {
    rows.map_values(|e: Entries| e@)
}

/// The predicate a row satisfies when its id is `id`.
pub open spec fn by_id(id: int) -> spec_fn(EntryModel) -> bool {
    |m: EntryModel| m.id == id
}

/// The predicate a row satisfies when its location code is `location`.
pub open spec fn by_location(location: int) -> spec_fn(EntryModel) -> bool {
    |m: EntryModel| m.location == location
}

/// The predicate a row satisfies when its id is not `id`.
pub open spec fn not_id(id: int) -> spec_fn(EntryModel) -> bool {
    |m: EntryModel| m.id != id
}

/// Whether some row of `s` has id `id`.
pub open spec fn has_id(s: Seq<EntryModel>, id: int) -> bool {
    exists|j: int| 0 <= j < s.len() && s[j].id == id
}

/// The entries table and the id counter for the next created row. It stands
/// in for the relational table the entries persist to: a caller constructs
/// one store at start and passes it to every operation.
pub struct EntryStore {
    rows: Vec<Entries>,
    next_id: i32,
}

impl EntryStore {
    /// The models of the stored rows, in storage order.
    pub closed spec fn rows_model(self) -> Seq<EntryModel> {
        models_of(self.rows@)
    }

    /// The id the next created row will receive.
    pub closed spec fn next(self) -> int {
        self.next_id as int
    }

    /// Well-formedness: ids are positive, below the next id, and unique.
    pub open spec fn wf(self) -> bool {
        &&& 1 <= self.next()
        &&& forall|i: int|
            0 <= i < self.rows_model().len() ==> 1 <= (#[trigger] self.rows_model()[i]).id
                < self.next()
        &&& forall|i: int, j: int|
            0 <= i < j < self.rows_model().len() ==> (#[trigger] self.rows_model()[i]).id != (
            #[trigger] self.rows_model()[j]).id
    }

    /// An empty store whose first assigned id will be one.
    pub fn new() -> (s: EntryStore)
        ensures
            s.wf(),
            s.rows_model() == Seq::<EntryModel>::empty(),
            s.next() == 1,
    {
        let s = EntryStore { rows: Vec::new(), next_id: 1 };
        proof {
            assert(s.rows_model() =~= Seq::<EntryModel>::empty());
        }
        s
    }
}

/// One step of filtering a prefix: extending the prefix by one element
/// extends the filtered prefix exactly when the element matches.
proof fn lemma_filter_take_step(s: Seq<EntryModel>, p: spec_fn(EntryModel) -> bool, i: int)
    requires
        0 <= i < s.len(),
    ensures
        p(s[i]) ==> s.take(i + 1).filter(p) == s.take(i).filter(p).push(s[i]),
        !p(s[i]) ==> s.take(i + 1).filter(p) == s.take(i).filter(p),
{
    reveal(Seq::filter);
    assert(s.take(i + 1).drop_last() =~= s.take(i));
    assert(s.take(i + 1).last() == s[i]);
}

/// Filtering keeps everything when every element satisfies the predicate.
proof fn lemma_filter_all(s: Seq<EntryModel>, p: spec_fn(EntryModel) -> bool)
    requires
        forall|j: int| 0 <= j < s.len() ==> p(#[trigger] s[j]),
    ensures
        s.filter(p) == s,
    decreases s.len(),
{
    reveal(Seq::filter);
    if s.len() == 0 {
        assert(s.filter(p) =~= s);
    } else {
        lemma_filter_all(s.drop_last(), p);
        assert(p(s.last()));
        assert(s.filter(p) =~= s.drop_last().push(s.last()));
        assert(s.drop_last().push(s.last()) =~= s);
    }
}

/// Filtering keeps nothing when no element satisfies the predicate.
pub proof fn lemma_filter_none(s: Seq<EntryModel>, p: spec_fn(EntryModel) -> bool)
    requires
        forall|j: int| 0 <= j < s.len() ==> !p(#[trigger] s[j]),
    ensures
        s.filter(p) == Seq::<EntryModel>::empty(),
    decreases s.len(),
{
    reveal(Seq::filter);
    if s.len() == 0 {
        assert(s.filter(p) =~= Seq::<EntryModel>::empty());
    } else {
        lemma_filter_none(s.drop_last(), p);
    }
}

/// The index of the row with id `id`, if one is stored.
fn find_index(store: &EntryStore, id: i32) -> (r: Option<usize>)
    ensures
        r matches Some(i) ==> i < store.rows_model().len() && store.rows_model()[i as int].id
            == id as int && (forall|k: int|
            0 <= k < i as int ==> (#[trigger] store.rows_model()[k]).id != id as int),
        r is None ==> !has_id(store.rows_model(), id as int),
{
    let n = store.rows.len();
    let mut i: usize = 0;
    while i < n
        invariant
            n == store.rows_model().len(),
            i <= n,
            forall|k: int| 0 <= k < i as int ==> (#[trigger] store.rows_model()[k]).id != id as int,
        decreases n - i,
    {
        if store.rows[i].id == id {
            return Some(i);
        }
        i += 1;
    }
    None
}

impl Entries {
    /// Returns a copy of every stored row, in storage order. With an
    /// in-memory table no storage failure can occur, so the result is
    /// always the full row sequence.
    pub fn find_all(store: &EntryStore) -> (r: Result<Vec<Entries>, StorageError>)
        ensures
            r matches Ok(v) && models_of(v@) == store.rows_model(),
    {
        let n = store.rows.len();
        let mut out: Vec<Entries> = Vec::new();
        let mut i: usize = 0;
        while i < n
            invariant
                n == store.rows@.len(),
                i <= n,
                out@.len() == i,
                forall|k: int| 0 <= k < i as int ==> (#[trigger] out@[k])@ == store.rows@[k]@,
            decreases n - i,
        {
            let row = &store.rows[i];
            out.push(row.duplicate());
            i += 1;
        }
        proof {
            assert(models_of(out@) =~= store.rows_model());
        }
        Ok(out)
    }

    /// Returns copies of exactly the rows whose location code equals
    /// `location`, in storage order; an empty result when none matches.
    pub fn find_location(store: &EntryStore, location: i32) -> (r: Result<
        Vec<Entries>,
        StorageError,
    >)
        ensures
            r matches Ok(v) && models_of(v@) == store.rows_model().filter(
                by_location(location as int),
            ),
    {
        let ghost s = store.rows_model();
        let ghost p = by_location(location as int);
        let n = store.rows.len();
        let mut out: Vec<Entries> = Vec::new();
        let mut i: usize = 0;
        while i < n
            invariant
                n == store.rows@.len(),
                s == store.rows_model(),
                p == by_location(location as int),
                i <= n,
                models_of(out@) == s.take(i as int).filter(p),
            decreases n - i,
        {
            let ghost pre = models_of(out@);
            let row = &store.rows[i];
            if row.location == location {
                out.push(row.duplicate());
                proof {
                    assert(models_of(out@) =~= pre.push(s[i as int]));
                }
            }
            proof {
                lemma_filter_take_step(s, p, i as int);
                assert(models_of(out@) == s.take(i as int + 1).filter(p));
            }
            i += 1;
        }
        proof {
            assert(s.take(n as int) =~= s);
        }
        Ok(out)
    }

    /// Returns copies of the rows whose id equals `id`: with well-formed
    /// storage that is zero or one row. Absence is an empty result, not an
    /// error.
    pub fn find_id(store: &EntryStore, id: i32) -> (r: Result<Vec<Entries>, StorageError>)
        ensures
            r matches Ok(v) && models_of(v@) == store.rows_model().filter(by_id(id as int)),
    {
        let ghost s = store.rows_model();
        let ghost p = by_id(id as int);
        let n = store.rows.len();
        let mut out: Vec<Entries> = Vec::new();
        let mut i: usize = 0;
        while i < n
            invariant
                n == store.rows@.len(),
                s == store.rows_model(),
                p == by_id(id as int),
                i <= n,
                models_of(out@) == s.take(i as int).filter(p),
            decreases n - i,
        {
            let ghost pre = models_of(out@);
            let row = &store.rows[i];
            if row.id == id {
                out.push(row.duplicate());
                proof {
                    assert(models_of(out@) =~= pre.push(s[i as int]));
                }
            }
            proof {
                lemma_filter_take_step(s, p, i as int);
                assert(models_of(out@) == s.take(i as int + 1).filter(p));
            }
            i += 1;
        }
        proof {
            assert(s.take(n as int) =~= s);
        }
        Ok(out)
    }

    /// Inserts one row built from the candidate, assigns it the next id, and
    /// returns the materialized row. The insert is rejected only when the id
    /// counter is exhausted; the store is then unchanged.
    pub fn create(store: &mut EntryStore, entry: Entry) -> (r: Result<Entries, StorageError>)
        requires
            old(store).wf(),
        ensures
            final(store).wf(),
            old(store).next() < i32::MAX ==> ({
                &&& r matches Ok(e) && e@ == materialized(old(store).next(), entry@)
                &&& final(store).rows_model() == old(store).rows_model().push(
                    materialized(old(store).next(), entry@),
                )
                &&& final(store).next() == old(store).next() + 1
            }),
            old(store).next() == i32::MAX ==> ({
                &&& r == Err::<Entries, StorageError>(StorageError)
                &&& final(store).rows_model() == old(store).rows_model()
                &&& final(store).next() == old(store).next()
            }),
    {
        if store.next_id == i32::MAX {
            return Err(StorageError);
        }
        let ghost em = entry@;
        let entry = Entry::from(entry);
        let row = Entries {
            id: store.next_id,
            user_name: entry.user_name,
            minutes: entry.minutes,
            location: entry.location,
        };
        let result = row.duplicate();
        proof {
            assert(row@ == materialized(old(store).next(), em));
        }
        store.rows.push(row);
        store.next_id = store.next_id + 1;
        proof {
            assert(store.rows_model() =~= old(store).rows_model().push(
                materialized(old(store).next(), em),
            ));
        }
        Ok(result)
    }

    /// Overwrites the candidate fields of the row whose id is `id` and
    /// returns the updated row. When no row has that id the store is left
    /// unchanged and the default (empty) row is returned: single-row update
    /// semantics, with no error surfaced.
    pub fn update(store: &mut EntryStore, id: i32, entry: Entry) -> (r: Result<
        Entries,
        StorageError,
    >)
        requires
            old(store).wf(),
        ensures
            final(store).wf(),
            final(store).next() == old(store).next(),
            final(store).rows_model().len() == old(store).rows_model().len(),
            forall|j: int|
                0 <= j < old(store).rows_model().len() && (#[trigger] old(
                    store,
                ).rows_model()[j]).id != id as int ==> final(store).rows_model()[j] == old(
                    store,
                ).rows_model()[j],
            forall|j: int|
                0 <= j < old(store).rows_model().len() && (#[trigger] old(
                    store,
                ).rows_model()[j]).id == id as int ==> final(store).rows_model()[j]
                    == materialized(id as int, entry@),
            has_id(old(store).rows_model(), id as int) ==> (r matches Ok(e) && e@ == materialized(
                id as int,
                entry@,
            )),
            !has_id(old(store).rows_model(), id as int) ==> ({
                &&& r matches Ok(e) && e@ == (EntryModel {
                    id: 0,
                    user_name: Seq::<char>::empty(),
                    minutes: 0,
                    location: 0,
                })
                &&& final(store).rows_model() == old(store).rows_model()
            }),
    {
        match find_index(store, id) {
            Some(i) => {
                let row = Entries {
                    id,
                    user_name: entry.user_name.clone(),
                    minutes: entry.minutes,
                    location: entry.location,
                };
                let result = row.duplicate();
                let _replaced = store.rows.remove(i);
                store.rows.insert(i, row);
                proof {
                    assert(store.rows_model() =~= old(store).rows_model().update(
                        i as int,
                        materialized(id as int, entry@),
                    ));
                    assert(has_id(old(store).rows_model(), id as int));
                }
                Ok(result)
            },
            None => {
                proof {
                    assert(store.rows_model() == old(store).rows_model());
                }
                Ok(Entries::default())
            },
        }
    }

    /// Removes the row whose id is `id` and returns how many rows were
    /// removed: one when such a row was stored, zero otherwise. Deleting an
    /// absent id is not an error.
    pub fn delete(store: &mut EntryStore, id: i32) -> (r: Result<usize, StorageError>)
        requires
            old(store).wf(),
        ensures
            final(store).wf(),
            final(store).next() == old(store).next(),
            final(store).rows_model() == old(store).rows_model().filter(not_id(id as int)),
            has_id(old(store).rows_model(), id as int) ==> r == Ok::<usize, StorageError>(1usize),
            !has_id(old(store).rows_model(), id as int) ==> r == Ok::<usize, StorageError>(0usize),
    {
        let ghost s = old(store).rows_model();
        let ghost p = not_id(id as int);
        match find_index(store, id) {
            Some(i) => {
                let _removed = store.rows.remove(i);
                proof {
                    let gi = i as int;
                    assert(store.rows_model() =~= s.remove(gi));
                    let prefix = s.take(gi);
                    let mid = s.subrange(gi, gi + 1);
                    let suffix = s.skip(gi + 1);
                    assert(s =~= prefix + mid + suffix);
                    Seq::filter_distributes_over_add(prefix + mid, suffix, p);
                    Seq::filter_distributes_over_add(prefix, mid, p);
                    assert(forall|j: int| 0 <= j < prefix.len() ==> p(#[trigger] prefix[j]));
                    lemma_filter_all(prefix, p);
                    assert(forall|j: int| 0 <= j < suffix.len() ==> p(#[trigger] suffix[j]));
                    lemma_filter_all(suffix, p);
                    assert(forall|j: int| 0 <= j < mid.len() ==> !p(#[trigger] mid[j]));
                    lemma_filter_none(mid, p);
                    assert(s.filter(p) == (prefix + mid).filter(p) + suffix.filter(p));
                    assert(prefix.filter(p) + mid.filter(p) =~= prefix);
                    assert(s.remove(gi) =~= prefix + suffix);
                    assert(s.filter(p) =~= s.remove(gi));
                    assert(has_id(s, id as int));
                }
                Ok(1)
            },
            None => {
                proof {
                    assert(forall|j: int| 0 <= j < s.len() ==> p(#[trigger] s[j]));
                    lemma_filter_all(s, p);
                }
                Ok(0)
            },
        }
    }
}

/// The query-precedence rule of the combined find operation: an id filter
/// wins over a location filter, and with neither the whole table is read.
pub open spec fn find_spec(s: Seq<EntryModel>, id: Option<i32>, location: Option<i32>) -> Seq<
    EntryModel,
> {
    match id {
        Some(i) => s.filter(by_id(i as int)),
        None => match location {
            Some(l) => s.filter(by_location(l as int)),
            None => s,
        },
    }
}

/// Looks entries up by the optional query parameters: by id when one is
/// given, else by location when one is given, else all entries.
pub fn find(store: &EntryStore, id: Option<i32>, location: Option<i32>) -> (r: Result<
    Vec<Entries>,
    StorageError,
>)
    ensures
        r matches Ok(v) && models_of(v@) == find_spec(store.rows_model(), id, location),
{
    if let Some(i) = id {
        return Entries::find_id(store, i);
    }
    if let Some(l) = location {
        return Entries::find_location(store, l);
    }
    Entries::find_all(store)
}

} // verus!

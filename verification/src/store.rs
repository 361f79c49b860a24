//! The record store: a single logical collection of URL records, keyed by a
//! uniqueness constraint on the short ID.
//!
//! [`MemStore`] is the in-memory model of that collection. It exposes the four
//! operations of the persistence boundary — insert with uniqueness-violation
//! detection, find by key, partial update by key, and idempotent constraint
//! setup — and enforces the uniqueness constraint itself, as the backend's
//! unique index does.

use vstd::prelude::*;

verus! {

/// One persisted URL record.
#[derive(Debug)]
pub struct UrlRecord {
    /// A short ID for the URL. Unique across all records.
    pub short_id: String,
    /// The full URL for this short ID. Immutable after creation.
    pub full_url: String,
    /// Number of times this link was accessed.
    pub view_count: u32,
    /// When the record was constructed, in milliseconds since the Unix epoch.
    /// Set once.
    pub created_at: i64,
    /// When the record last had a partial update applied, in milliseconds
    /// since the Unix epoch.
    pub updated_at: i64,
}

impl UrlRecord {
    /// An exact copy of the record.
    pub fn duplicate(&self) -> (r: UrlRecord)
        ensures
            r == *self,
    {
        UrlRecord {
            short_id: self.short_id.clone(),
            full_url: self.full_url.clone(),
            view_count: self.view_count,
            created_at: self.created_at,
            updated_at: self.updated_at,
        }
    }
}

/// The changes that can be pending against a [`UrlRecord`]: either nothing,
/// or a partial update carrying only the fields to rewrite.
#[derive(Debug)]
pub enum Changeset {
    /// No pending mutation.
    NoChange,
    /// A pending partial update; only the fields that are `Some` are applied.
    Delta { short_id: Option<String>, view_count: Option<u32> },
}

impl Changeset {
    /// The short ID the changeset would write, if any.
    pub open spec fn pending_short_id(self) -> Option<String> {
        match self {
            Changeset::NoChange => None,
            Changeset::Delta { short_id, .. } => short_id,
        }
    }

    /// The view count the changeset would write, if any.
    pub open spec fn pending_view_count(self) -> Option<u32> {
        match self {
            Changeset::NoChange => None,
            Changeset::Delta { view_count, .. } => view_count,
        }
    }

    /// An exact copy of the changeset.
    pub fn duplicate(&self) -> (c: Changeset)
        ensures
            c == *self,
    {
        match self {
            Changeset::NoChange => Changeset::NoChange,
            Changeset::Delta { short_id, view_count } => Changeset::Delta {
                short_id: match short_id {
                    Some(s) => Some(s.clone()),
                    None => None,
                },
                view_count: match view_count {
                    Some(v) => Some(*v),
                    None => None,
                },
            },
        }
    }
}

/// Errors surfaced by the record store boundary.
#[derive(Debug, PartialEq, Eq, Structural)]
pub enum StoreError {
    /// The uniqueness constraint on `short_id` rejected a write.
    DuplicateKey,
    /// A partial update targeted a short ID with no record.
    NotFound,
}

/// The record `r` rewritten by `cs`: only the fields present in the changeset
/// change, and `updated_at` is refreshed to `now`.
pub open spec fn spec_apply(r: UrlRecord, cs: Changeset, now: i64) -> UrlRecord {
    UrlRecord {
        short_id: match cs.pending_short_id() {
            Some(s) => s,
            None => r.short_id,
        },
        full_url: r.full_url,
        view_count: match cs.pending_view_count() {
            Some(v) => v,
            None => r.view_count,
        },
        created_at: r.created_at,
        updated_at: now,
    }
}

/// An in-memory record store. The verified logic runs against this model of
/// the persistence backend; it enforces the uniqueness constraint on
/// `short_id` that the backend's unique index provides.
pub struct MemStore {
    records: Vec<UrlRecord>,
}

impl MemStore {
    /// The stored records, in insertion order.
    pub closed spec fn records(self) -> Seq<UrlRecord> {
        self.records@
    }

    /// Well-formed: no two records share a short ID.
    pub open spec fn wf(self) -> bool {
        forall|i: int, j: int|
            0 <= i < j < self.records().len()
                ==> self.records()[i].short_id@ != self.records()[j].short_id@
    }

    /// Some record carries the given short ID.
    pub open spec fn contains_id(self, id: Seq<char>) -> bool {
        exists|i: int| 0 <= i < self.records().len() && self.records()[i].short_id@ == id
    }

    /// The index of the record carrying the given short ID.
    pub open spec fn idx_of(self, id: Seq<char>) -> int {
        choose|i: int| 0 <= i < self.records().len() && self.records()[i].short_id@ == id
    }

    /// The record carrying the given short ID.
    pub open spec fn record_for(self, id: Seq<char>) -> UrlRecord {
        self.records()[self.idx_of(id)]
    }

    /// In a well-formed store, the record carrying a short ID sits at a single
    /// index: any index whose record carries `id` is `idx_of(id)`.
    pub proof fn lemma_idx_unique(self, id: Seq<char>, i: int)
        requires
            self.wf(),
            0 <= i < self.records().len(),
            self.records()[i].short_id@ == id,
        ensures
            self.idx_of(id) == i,
            self.contains_id(id),
            self.record_for(id) == self.records()[i],
    {
        assert(self.contains_id(id));
        let j = self.idx_of(id);
        if i < j {
            assert(self.records()[i].short_id@ != self.records()[j].short_id@);
        } else if j < i {
            assert(self.records()[j].short_id@ != self.records()[i].short_id@);
        }
    }

    /// An empty store.
    pub fn new() -> (s: MemStore)
        ensures
            s.records().len() == 0,
            s.wf(),
    {
        MemStore { records: Vec::new() }
    }

    /// Idempotent setup of the uniqueness constraint on `short_id`. The
    /// in-memory store enforces uniqueness intrinsically, so there is nothing
    /// to create and the call always succeeds, leaving the store as it is.
    pub fn ensure_unique_index(&self) -> (res: Result<(), StoreError>)
        ensures
            res is Ok,
    {
        Ok(())
    }

    /// The index of the record carrying `id`, if any.
    fn index_of_id(&self, id: &str) -> (res: Option<usize>)
        ensures
            match res {
                Some(i) => i < self.records().len() && self.records()[i as int].short_id@ == id@,
                None => !self.contains_id(id@),
            },
    {
        let key: String = id.to_owned();
        let n = self.records.len();
        let mut i: usize = 0;
        while i < n
            invariant
                i <= n,
                n == self.records().len(),
                key@ == id@,
                forall|j: int| 0 <= j < i ==> self.records()[j].short_id@ != id@,
            decreases n - i,
        {
            if self.records[i].short_id == key {
                return Some(i);
            }
            i += 1;
        }
        None
    }

    /// Inserts a new record. Fails with `DuplicateKey`, leaving the store
    /// unchanged, when some record already carries the same short ID.
    pub fn insert(&mut self, record: UrlRecord) -> (res: Result<(), StoreError>)
        requires
            old(self).wf(),
        ensures
            final(self).wf(),
            old(self).contains_id(record.short_id@) ==> res == Err::<(), StoreError>(
                StoreError::DuplicateKey,
            ) && *final(self) == *old(self),
            !old(self).contains_id(record.short_id@) ==> res is Ok && final(self).records()
                == old(self).records().push(record),
    {
        match self.index_of_id(record.short_id.as_str()) {
            Some(_) => Err(StoreError::DuplicateKey),
            None => {
                self.records.push(record);
                proof {
                    assert(self.records() =~= old(self).records().push(record));
                }
                Ok(())
            }
        }
    }

    /// Finds the record carrying the given short ID, if any, and hands back a
    /// copy of it.
    pub fn find_by_short_id(&self, short_id: &str) -> (res: Option<UrlRecord>)
        requires
            self.wf(),
        ensures
            match res {
                Some(r) => self.contains_id(short_id@) && r == self.record_for(short_id@),
                None => !self.contains_id(short_id@),
            },
    {
        match self.index_of_id(short_id) {
            Some(i) => {
                proof {
                    self.lemma_idx_unique(short_id@, i as int);
                }
                Some(self.records[i].duplicate())
            }
            None => None,
        }
    }

    /// Applies only the fields present in the changeset to the record carrying
    /// `short_id`, refreshing its `updated_at` to `now`. Fails with `NotFound`
    /// when no record matches, and with `DuplicateKey` when the changeset
    /// would rewrite the short ID to one another record already carries; in
    /// both cases the store is unchanged.
    pub fn apply_changeset(&mut self, short_id: &str, changeset: &Changeset, now: i64) -> (res:
        Result<(), StoreError>)
        requires
            old(self).wf(),
        ensures
            final(self).wf(),
            !old(self).contains_id(short_id@) ==> res == Err::<(), StoreError>(StoreError::NotFound)
                && *final(self) == *old(self),
            old(self).contains_id(short_id@) && !old(self).delta_id_free(
                old(self).idx_of(short_id@),
                *changeset,
            ) ==> res == Err::<(), StoreError>(StoreError::DuplicateKey) && *final(self) == *old(
                self,
            ),
            old(self).contains_id(short_id@) && old(self).delta_id_free(
                old(self).idx_of(short_id@),
                *changeset,
            ) ==> res is Ok && final(self).records() == old(self).records().update(
                old(self).idx_of(short_id@),
                spec_apply(old(self).records()[old(self).idx_of(short_id@)], *changeset, now),
            ),
    {
        let i = match self.index_of_id(short_id) {
            Some(i) => i,
            None => {
                return Err(StoreError::NotFound);
            }
        };
        proof {
            self.lemma_idx_unique(short_id@, i as int);
        }
        let new_short_id: String = match changeset {
            Changeset::Delta { short_id: Some(s), .. } => {
                // The uniqueness constraint also guards rewrites: a short ID
                // may move onto this record only if no other record has it.
                let mut j: usize = 0;
                let n = self.records.len();
                while j < n
                    invariant
                        j <= n,
                        *self == *old(self),
                        old(self).wf(),
                        n == self.records().len(),
                        i < self.records().len(),
                        self.records()[i as int].short_id@ == short_id@,
                        self.idx_of(short_id@) == i,
                        self.contains_id(short_id@),
                        changeset.pending_short_id() == Some(*s),
                        forall|l: int|
                            0 <= l < j && l != i ==> self.records()[l].short_id@ != s@,
                    decreases n - j,
                {
                    if j != i && self.records[j].short_id == *s {
                        return Err(StoreError::DuplicateKey);
                    }
                    j += 1;
                }
                s.clone()
            }
            _ => self.records[i].short_id.clone(),
        };
        let new_view_count: u32 = match changeset {
            Changeset::Delta { view_count: Some(v), .. } => *v,
            _ => self.records[i].view_count,
        };
        let updated = UrlRecord {
            short_id: new_short_id,
            full_url: self.records[i].full_url.clone(),
            view_count: new_view_count,
            created_at: self.records[i].created_at,
            updated_at: now,
        };
        self.records[i] = updated;
        proof {
            assert(self.records() =~= old(self).records().update(
                i as int,
                spec_apply(old(self).records()[i as int], *changeset, now),
            ));
        }
        Ok(())
    }

    /// The changeset's pending short ID, if present, collides with no record
    /// other than the one at index `i`.
    pub open spec fn delta_id_free(self, i: int, cs: Changeset) -> bool {
        match cs.pending_short_id() {
            None => true,
            Some(s) => forall|j: int|
                0 <= j < self.records().len() && j != i ==> self.records()[j].short_id@ != s@,
        }
    }
}

/// The record freshly created for `url` under `id`.
pub open spec fn spec_created_record(r: UrlRecord, id: Seq<char>, url: Seq<char>) -> bool {
    r.short_id@ == id && r.full_url@ == url && r.view_count == 0
}

/// `s1` is `s0` with a fresh record for `url` appended under `id`: what a
/// successful `shorten` does to the store.
pub open spec fn spec_insert_new(s0: MemStore, s1: MemStore, id: Seq<char>, url: Seq<char>) -> bool {
    &&& !s0.contains_id(id)
    &&& s1.records().len() == s0.records().len() + 1
    &&& forall|i: int| 0 <= i < s0.records().len() ==> s1.records()[i] == s0.records()[i]
    &&& spec_created_record(s1.records().last(), id, url)
}

/// Appending a fresh record keeps the store well-formed, and the new ID now
/// resolves to the appended record.
pub proof fn lemma_insert_new_preserves(s0: MemStore, s1: MemStore, id: Seq<char>, url: Seq<char>)
    requires
        s0.wf(),
        spec_insert_new(s0, s1, id, url),
    ensures
        s1.wf(),
        s1.contains_id(id),
        s1.idx_of(id) == s0.records().len(),
        s1.record_for(id) == s1.records().last(),
{
    let n = s0.records().len() as int;
    assert forall|i: int, j: int|
        0 <= i < j < s1.records().len() implies s1.records()[i].short_id@
        != s1.records()[j].short_id@ by {
        if j < n {
            assert(s0.records()[i].short_id@ != s0.records()[j].short_id@);
        } else {
            assert(s1.records()[j].short_id@ == id);
            if s1.records()[i].short_id@ == id {
                assert(s0.records()[i].short_id@ == id);
                assert(s0.contains_id(id));
            }
        }
    }
    assert(s1.records()[n].short_id@ == id);
    s1.lemma_idx_unique(id, n);
}

/// Bumping the view count of the record under `id` keeps the store
/// well-formed, moves no record, and changes nothing but that record's view
/// count and timestamp.
pub proof fn lemma_bump_preserves(s0: MemStore, s1: MemStore, id: Seq<char>)
    requires
        s0.wf(),
        spec_bump_view(s0, s1, id),
    ensures
        s1.wf(),
        s1.contains_id(id),
        s1.idx_of(id) == s0.idx_of(id),
        s1.record_for(id).view_count == s0.record_for(id).view_count + 1,
        s1.record_for(id).full_url@ == s0.record_for(id).full_url@,
        s1.record_for(id).short_id@ == id,
{
    let i = s0.idx_of(id);
    assert(0 <= i < s0.records().len() && s0.records()[i].short_id@ == id);
    assert forall|k: int| 0 <= k < s1.records().len() implies s1.records()[k].short_id@
        == s0.records()[k].short_id@ by {
        if k != i {
            assert(s1.records()[k] == s0.records()[k]);
        }
    }
    assert(s1.wf());
    assert(s1.records()[i].short_id@ == id);
    s1.lemma_idx_unique(id, i);
}

/// `s1` is `s0` with the record under `id` bumped by one view: what a
/// successful `lengthen` does to the store.
pub open spec fn spec_bump_view(s0: MemStore, s1: MemStore, id: Seq<char>) -> bool {
    &&& s0.contains_id(id)
    &&& s1.records().len() == s0.records().len()
    &&& forall|j: int|
        0 <= j < s0.records().len() && j != s0.idx_of(id) ==> s1.records()[j] == s0.records()[j]
    &&& {
        let r0 = s0.records()[s0.idx_of(id)];
        let r1 = s1.records()[s0.idx_of(id)];
        r1.short_id@ == r0.short_id@ && r1.full_url@ == r0.full_url@ && r1.created_at
            == r0.created_at && r1.view_count == r0.view_count + 1
    }
}

} // verus!

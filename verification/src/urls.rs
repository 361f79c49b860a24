//! The URL aggregate: the in-memory representation of one record together
//! with its pending-mutation tracking.
//!
//! An aggregate is either **new** (no backing record) or **persisted** (backed
//! by a stored record). A pending [`Changeset`] records mutation intent; a
//! successful save clears it and, for a new aggregate, moves it to the
//! persisted state. A failed save changes nothing: the pending changeset is
//! retained for the caller.

use vstd::prelude::*;

use crate::store::{spec_apply, Changeset, MemStore, StoreError, UrlRecord};

verus! {

/// Relies on `chrono::Utc::now` for the current wall-clock time, reported in
/// milliseconds since the Unix epoch. Nothing is assumed about the value.
#[verifier::external_body]
fn now_millis() -> i64 {
    chrono::Utc::now().timestamp_millis()
}

/// The write the record store has to perform for a pending save. A backend
/// adapter performs the action and, on success, reports back through
/// [`Url::commit_save`].
pub enum SaveAction {
    /// Create this record.
    Insert(UrlRecord),
    /// Apply the changeset to the record carrying the short ID.
    Update { short_id: String, changeset: Changeset },
    /// Nothing to write: the record is persisted and has no pending change.
    Nothing,
}

/// The in-memory aggregate for one URL record.
#[derive(Debug)]
pub struct Url {
    /// The current record stored, or to be stored.
    model: UrlRecord,
    /// Changes to be applied to the model.
    changeset: Changeset,
    /// Set once the aggregate is backed by a stored record.
    is_persisted: bool,
}

impl Url {
    /// The backing record as currently known in memory.
    pub closed spec fn model(self) -> UrlRecord {
        self.model
    }

    /// The pending mutation.
    pub closed spec fn changeset(self) -> Changeset {
        self.changeset
    }

    /// Whether the aggregate is backed by a stored record.
    pub closed spec fn is_persisted(self) -> bool {
        self.is_persisted
    }

    /// The short ID a caller currently observes: the pending one when the
    /// changeset carries one, the stored one otherwise.
    pub open spec fn spec_short_id(self) -> Seq<char> {
        match self.changeset().pending_short_id() {
            Some(s) => s@,
            None => self.model().short_id@,
        }
    }

    /// The full URL of the record. It is immutable after creation.
    pub open spec fn spec_full_url(self) -> Seq<char> {
        self.model().full_url@
    }

    /// The view count a caller currently observes: the pending one when the
    /// changeset carries one, the stored one otherwise.
    pub open spec fn spec_view_count(self) -> u32 {
        match self.changeset().pending_view_count() {
            Some(v) => v,
            None => self.model().view_count,
        }
    }

    /// Creates a new `Url` with no backing record.
    pub fn new(short_id: String, full_url: &str, view_count: u32) -> (u: Url)
        ensures
            u.model().short_id == short_id,
            u.model().full_url@ == full_url@,
            u.model().view_count == view_count,
            u.changeset() is NoChange,
            !u.is_persisted(),
    {
        let now = now_millis();
        Url {
            model: UrlRecord {
                short_id,
                full_url: full_url.to_owned(),
                view_count,
                created_at: now,
                updated_at: now,
            },
            changeset: Changeset::NoChange,
            is_persisted: false,
        }
    }

    /// Constructs a `Url` from a record fetched from the store.
    pub fn from_fetched(record: UrlRecord) -> (u: Url)
        ensures
            u.model() == record,
            u.changeset() is NoChange,
            u.is_persisted(),
    {
        Url { model: record, changeset: Changeset::NoChange, is_persisted: true }
    }

    /// Records a pending view-count bump of one over the currently known
    /// stored count. Calling this again before a save overwrites the pending
    /// value rather than stacking increments: callers must save between
    /// logical increments.
    pub fn increment_view_count(&mut self)
        requires
            old(self).model().view_count < u32::MAX,
        ensures
            final(self).model() == old(self).model(),
            final(self).is_persisted() == old(self).is_persisted(),
            final(self).changeset() == (Changeset::Delta {
                short_id: None,
                view_count: Some((old(self).model().view_count + 1) as u32),
            }),
    {
        self.changeset = Changeset::Delta {
            short_id: None,
            view_count: Some(self.model.view_count + 1),
        };
    }

    /// Updates the short ID of the current URL, merging with any pending
    /// changeset. This is for the collision-retry path only, which is why a
    /// persisted aggregate may not use it: once a record is stored its short
    /// ID never changes through this API.
    pub fn update_short_id(&mut self, new_id: String)
        requires
            !old(self).is_persisted(),
        ensures
            final(self).model() == old(self).model(),
            final(self).is_persisted() == old(self).is_persisted(),
            final(self).changeset() == (Changeset::Delta {
                short_id: Some(new_id),
                view_count: old(self).changeset().pending_view_count(),
            }),
    {
        let pending_view_count: Option<u32> = match &self.changeset {
            Changeset::Delta { view_count: Some(v), .. } => Some(*v),
            _ => None,
        };
        self.changeset = Changeset::Delta { short_id: Some(new_id), view_count: pending_view_count };
    }

    /// Gets a reference to the short ID the caller currently observes.
    pub fn get_short_id(&self) -> (id: &str)
        ensures
            id@ == self.spec_short_id(),
    {
        match &self.changeset {
            Changeset::Delta { short_id: Some(s), .. } => s.as_str(),
            _ => self.model.short_id.as_str(),
        }
    }

    /// Whether the aggregate is backed by a stored record.
    pub fn persisted(&self) -> (p: bool)
        ensures
            p == self.is_persisted(),
    {
        self.is_persisted
    }

    /// The view count the caller currently observes: the pending one when the
    /// changeset carries one, the stored one otherwise.
    pub fn get_view_count(&self) -> (count: u32)
        ensures
            count == self.spec_view_count(),
            self.changeset() is NoChange ==> count == self.model().view_count,
    {
        match &self.changeset {
            Changeset::Delta { view_count: Some(v), .. } => *v,
            _ => self.model.view_count,
        }
    }

    /// Gets the full URL of the current document.
    pub fn get_full_url(&self) -> (url: &str)
        ensures
            url@ == self.spec_full_url(),
    {
        self.model.full_url.as_str()
    }

    /// The store write a save of this aggregate has to perform: an insert of
    /// the current record when the aggregate is new, an application of the
    /// pending changeset when it is persisted, and nothing when it is
    /// persisted and unchanged.
    pub fn save_action(&self) -> (action: SaveAction)
        ensures
            !self.is_persisted() ==> (action matches SaveAction::Insert(r) && r.short_id@
                == self.spec_short_id() && r.full_url == self.model().full_url && r.view_count
                == self.spec_view_count() && r.created_at == self.model().created_at
                && r.updated_at == self.model().updated_at),
            self.is_persisted() && self.changeset() is Delta ==> (action
                matches SaveAction::Update {
                short_id,
                changeset,
            } && short_id@ == self.model().short_id@ && changeset == self.changeset()),
            self.is_persisted() && self.changeset() is NoChange ==> action is Nothing,
    {
        if !self.is_persisted {
            let short_id: String = match &self.changeset {
                Changeset::Delta { short_id: Some(s), .. } => s.clone(),
                _ => self.model.short_id.clone(),
            };
            let view_count: u32 = match &self.changeset {
                Changeset::Delta { view_count: Some(v), .. } => *v,
                _ => self.model.view_count,
            };
            SaveAction::Insert(UrlRecord {
                short_id,
                full_url: self.model.full_url.clone(),
                view_count,
                created_at: self.model.created_at,
                updated_at: self.model.updated_at,
            })
        } else {
            match &self.changeset {
                Changeset::NoChange => SaveAction::Nothing,
                Changeset::Delta { .. } => SaveAction::Update {
                    short_id: self.model.short_id.clone(),
                    changeset: self.changeset.duplicate(),
                },
            }
        }
    }

    /// Acknowledges a successful save: mirrors the pending changeset into the
    /// in-memory model, clears it, and marks the aggregate persisted. The
    /// local timestamps are left as they are; the store refreshed its own
    /// `updated_at` when it applied the write.
    pub fn commit_save(&mut self)
        ensures
            final(self).is_persisted(),
            final(self).changeset() is NoChange,
            final(self).model().short_id@ == old(self).spec_short_id(),
            final(self).model().full_url == old(self).model().full_url,
            final(self).model().view_count == old(self).spec_view_count(),
            final(self).model().created_at == old(self).model().created_at,
            final(self).model().updated_at == old(self).model().updated_at,
    {
        let pending_id: Option<String> = match &self.changeset {
            Changeset::Delta { short_id: Some(s), .. } => Some(s.clone()),
            _ => None,
        };
        let pending_view_count: Option<u32> = match &self.changeset {
            Changeset::Delta { view_count: Some(v), .. } => Some(*v),
            _ => None,
        };
        if let Some(s) = pending_id {
            self.model.short_id = s;
        }
        if let Some(v) = pending_view_count {
            self.model.view_count = v;
        }
        self.changeset = Changeset::NoChange;
        self.is_persisted = true;
    }

    /// Saves the aggregate to the given store.
    ///
    /// A new aggregate is inserted as a fresh record; `DuplicateKey` signals
    /// that the chosen short ID is already taken. A persisted aggregate with a
    /// pending changeset has only that changeset applied. On success the
    /// changeset is cleared and the aggregate is persisted; on failure nothing
    /// changes and the pending changeset is retained.
    pub fn save(&mut self, store: &mut MemStore) -> (res: Result<(), StoreError>)
        requires
            old(store).wf(),
        ensures
            final(store).wf(),
            res is Err ==> *final(self) == *old(self) && *final(store) == *old(store),
            res is Ok ==> final(self).is_persisted() && final(self).changeset() is NoChange
                && final(self).model().short_id@ == old(self).spec_short_id()
                && final(self).model().full_url == old(self).model().full_url
                && final(self).model().view_count == old(self).spec_view_count()
                && final(self).model().created_at == old(self).model().created_at,
            !old(self).is_persisted() ==> {
                if old(store).contains_id(old(self).spec_short_id()) {
                    res == Err::<(), StoreError>(StoreError::DuplicateKey)
                } else {
                    res is Ok && final(store).records().len() == old(store).records().len() + 1
                        && (forall|i: int|
                        0 <= i < old(store).records().len()
                            ==> final(store).records()[i] == old(store).records()[i]) && {
                        let r = final(store).records().last();
                        r.short_id@ == old(self).spec_short_id()
                            && r.full_url == old(self).model().full_url
                            && r.view_count == old(self).spec_view_count()
                            && r.created_at == old(self).model().created_at
                    }
                }
            },
            old(self).is_persisted() && old(self).changeset() is NoChange ==> res is Ok
                && *final(store) == *old(store) && *final(self) == *old(self),
            old(self).is_persisted() && old(self).changeset() is Delta ==> {
                if !old(store).contains_id(old(self).model().short_id@) {
                    res == Err::<(), StoreError>(StoreError::NotFound)
                } else if !old(store).delta_id_free(
                    old(store).idx_of(old(self).model().short_id@),
                    old(self).changeset(),
                ) {
                    res == Err::<(), StoreError>(StoreError::DuplicateKey)
                } else {
                    res is Ok && {
                        let i = old(store).idx_of(old(self).model().short_id@);
                        let r0 = old(store).records()[i];
                        let r1 = final(store).records()[i];
                        final(store).records().len() == old(store).records().len() && (forall|
                            j: int,
                        |
                            0 <= j < old(store).records().len() && j != i
                                ==> final(store).records()[j] == old(store).records()[j])
                            && r1.short_id@ == old(self).spec_short_id()
                            && r1.full_url@ == r0.full_url@
                            && r1.view_count == (match old(self).changeset().pending_view_count() {
                            Some(v) => v,
                            None => r0.view_count,
                        })
                            && r1.created_at == r0.created_at
                    }
                }
            },
    {
        if !self.is_persisted {
            let action_record = match self.save_action() {
                SaveAction::Insert(r) => r,
                _ => {
                    proof {
                        assert(false);
                    }
                    return Err(StoreError::NotFound);
                }
            };
            match store.insert(action_record) {
                Ok(_) => {
                    self.commit_save();
                    Ok(())
                }
                Err(e) => Err(e),
            }
        } else {
            match &self.changeset {
                Changeset::NoChange => Ok(()),
                Changeset::Delta { .. } => {
                    let now = now_millis();
                    let cs = self.changeset.duplicate();
                    match store.apply_changeset(self.model.short_id.as_str(), &cs, now) {
                        Ok(_) => {
                            proof {
                                let id = old(self).model().short_id@;
                                assert(old(store).records()[old(store).idx_of(id)].short_id@
                                    == id);
                            }
                            self.commit_save();
                            Ok(())
                        }
                        Err(e) => Err(e),
                    }
                }
            }
        }
    }

    /// Fetches the URL stored under the provided short ID. The in-memory
    /// store cannot fail a read, so the result is always `Ok`.
    pub fn fetch_url(store: &MemStore, short_id: &str) -> (res: Result<Option<Url>, StoreError>)
        requires
            store.wf(),
        ensures
            res is Ok,
            store.contains_id(short_id@) ==> (res matches Ok(Some(u)) && u.model()
                == store.record_for(short_id@) && u.changeset() is NoChange && u.is_persisted()),
            !store.contains_id(short_id@) ==> res == Ok::<Option<Url>, StoreError>(None),
    {
        match store.find_by_short_id(short_id) {
            Some(record) => Ok(Some(Url::from_fetched(record))),
            None => Ok(None),
        }
    }

    /// Sets up the uniqueness constraint required by the `Url` model. The
    /// in-memory store enforces it intrinsically, so this always succeeds,
    /// and calling it again changes nothing.
    pub fn setup(store: &MemStore) -> (res: Result<(), StoreError>)
        ensures
            res is Ok,
    {
        store.ensure_unique_index()
    }
}

} // verus!

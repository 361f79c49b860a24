//! Shorty is a simple URL shortener. It generates a short ID for a provided
//! long URL and maps it back on request. Once created, the URLs are immutable
//! and only the view count is updated on every get request.
//!
//! The library is organised around four pieces: the identifier generator
//! ([`id`]), the record store with its uniqueness constraint ([`store`]), the
//! URL aggregate with its pending-changeset tracking ([`urls`]), and the
//! shortening service in this module, which ties them together into
//! [`create_url`] (shorten) and [`get_url`] (lengthen).

use vstd::prelude::*;

pub mod cli_utils;
pub mod id;
pub mod store;
pub mod urls;

verus! {

use crate::cli_utils::{spec_valid_url, ShortyArgs};
use crate::id::{spec_id, spec_next_salt, IdGen};
use crate::store::{spec_bump_view, spec_insert_new, MemStore};
use crate::urls::Url;

/// Errors surfaced by the shortening service.
#[derive(Debug, PartialEq, Eq, Structural)]
pub enum ShortyError {
    /// The provided full URL does not match the required pattern.
    Validation,
    /// The retry budget for allocating a unique short ID was exhausted.
    AllocationFailed,
    /// The view-count update for a successfully fetched record failed.
    LookupFailed,
}

/// How many insert attempts a [`create_url`] makes: the initial attempt plus
/// one retry with a fresh candidate.
pub const SAVE_ATTEMPTS: usize = 2;

/// Sets up the store required by the library: the uniqueness constraint on
/// the short ID. Safe to call on every start; the store is left as it is.
pub fn setup_db(store: &MemStore) -> (res: Result<(), String>)
    ensures
        res is Ok,
{
    match Url::setup(store) {
        Ok(_) => Ok(()),
        Err(_) => Err("could not set up the record store".to_owned()),
    }
}

/// Creates a shortened URL for the provided full URL, trying the given
/// candidate short IDs in order until one is free of collisions.
///
/// The URL is validated first: an input not matching `^https?://[^ "]+$` is
/// rejected before the store is ever touched. Each candidate is then offered
/// to the store through a fresh aggregate; a `DuplicateKey` answer moves on
/// to the next candidate, and running out of candidates fails the allocation.
pub fn create_url_with_ids(store: &mut MemStore, full_url: &str, candidates: &Vec<String>) -> (res:
    Result<String, ShortyError>)
    requires
        old(store).wf(),
    ensures
        final(store).wf(),
        !spec_valid_url(full_url@) ==> res == Err::<String, ShortyError>(ShortyError::Validation)
            && *final(store) == *old(store),
        res is Ok <==> spec_valid_url(full_url@) && (exists|k: int|
            0 <= k < candidates@.len() && !old(store).contains_id(candidates@[k]@)),
        spec_valid_url(full_url@) && (forall|k: int|
            0 <= k < candidates@.len() ==> old(store).contains_id(candidates@[k]@)) ==> res
            == Err::<String, ShortyError>(ShortyError::AllocationFailed),
        res is Err ==> *final(store) == *old(store),
        res matches Ok(sid) ==> exists|k: int|
            0 <= k < candidates@.len() && (forall|j: int|
                0 <= j < k ==> old(store).contains_id(candidates@[j]@)) && !old(store).contains_id(
                candidates@[k]@,
            ) && sid@ == candidates@[k]@ && spec_insert_new(
                *old(store),
                *final(store),
                candidates@[k]@,
                full_url@,
            ),
{
    if !ShortyArgs::is_valid_url(full_url) {
        return Err(ShortyError::Validation);
    }
    if candidates.len() == 0 {
        return Err(ShortyError::AllocationFailed);
    }
    let ghost s0 = *store;
    let mut url_obj = Url::new(candidates[0].clone(), full_url, 0);
    let mut k: usize = 0;
    while k < candidates.len()
        invariant
            k <= candidates@.len(),
            candidates@.len() > 0,
            spec_valid_url(full_url@),
            store.wf(),
            *store == s0,
            s0 == *old(store),
            !url_obj.is_persisted(),
            url_obj.spec_full_url() == full_url@,
            url_obj.spec_view_count() == 0,
            k < candidates@.len() ==> url_obj.spec_short_id() == candidates@[k as int]@,
            forall|j: int| 0 <= j < k ==> s0.contains_id(candidates@[j]@),
        decreases candidates@.len() - k,
    {
        match url_obj.save(store) {
            Ok(_) => {
                return Ok(url_obj.get_short_id().to_owned());
            }
            Err(_) => {
                k += 1;
                if k < candidates.len() {
                    url_obj.update_short_id(candidates[k].clone());
                }
            }
        }
    }
    Err(ShortyError::AllocationFailed)
}

/// Creates a shortened URL for the provided full URL, drawing candidate short
/// IDs from the given generator.
///
/// The first candidate comes from the generator's current salt; on a
/// collision one retry is made with the next salt. Exhausting both attempts
/// fails with `AllocationFailed`, and an input not matching
/// `^https?://[^ "]+$` is rejected with `Validation` before the store is
/// ever touched.
pub fn create_url(store: &mut MemStore, full_url: &str, gen: &mut IdGen) -> (res: Result<
    String,
    ShortyError,
>)
    requires
        old(store).wf(),
    ensures
        final(store).wf(),
        !spec_valid_url(full_url@) ==> res == Err::<String, ShortyError>(ShortyError::Validation)
            && *final(store) == *old(store) && *final(gen) == *old(gen),
        spec_valid_url(full_url@) ==> {
            let c0 = spec_id(full_url@, old(gen).salt());
            let c1 = spec_id(full_url@, spec_next_salt(old(gen).salt()));
            &&& final(gen).salt() == spec_next_salt(spec_next_salt(old(gen).salt()))
            &&& (res is Ok <==> !old(store).contains_id(c0) || !old(store).contains_id(c1))
            &&& (!old(store).contains_id(c0) ==> (res matches Ok(sid) && sid@ == c0
                && spec_insert_new(*old(store), *final(store), c0, full_url@)))
            &&& (old(store).contains_id(c0) && !old(store).contains_id(c1) ==> (res matches Ok(sid)
                && sid@ == c1 && spec_insert_new(*old(store), *final(store), c1, full_url@)))
            &&& (old(store).contains_id(c0) && old(store).contains_id(c1) ==> res == Err::<
                String,
                ShortyError,
            >(ShortyError::AllocationFailed) && *final(store) == *old(store))
        },
{
    if !ShortyArgs::is_valid_url(full_url) {
        return Err(ShortyError::Validation);
    }
    let id0 = gen.generate_id(full_url);
    let id1 = gen.generate_id(full_url);
    let mut candidates: Vec<String> = Vec::new();
    candidates.push(id0);
    candidates.push(id1);
    proof {
        assert(candidates@.len() == 2);
        assert(candidates@[0]@ == spec_id(full_url@, old(gen).salt()));
        assert(candidates@[1]@ == spec_id(full_url@, spec_next_salt(old(gen).salt())));
    }
    let res = create_url_with_ids(store, full_url, &candidates);
    proof {
        let c0 = spec_id(full_url@, old(gen).salt());
        let c1 = spec_id(full_url@, spec_next_salt(old(gen).salt()));
        if !old(store).contains_id(c0) {
            assert(!old(store).contains_id(candidates@[0]@));
        } else if !old(store).contains_id(c1) {
            assert(!old(store).contains_id(candidates@[1]@));
        }
    }
    res
}

/// Gets the full URL stored against the provided short ID and updates its
/// view count.
///
/// A short ID nobody ever issued yields `Ok(None)`: that is an empty result,
/// not an error. When the record exists, its view count is bumped by one and
/// the full URL is returned; the read only counts as successful once the
/// view-count update went through.
pub fn get_url(store: &mut MemStore, short_id: &str) -> (res: Result<Option<String>, ShortyError>)
    requires
        old(store).wf(),
        old(store).contains_id(short_id@) ==> old(store).record_for(short_id@).view_count
            < u32::MAX,
    ensures
        final(store).wf(),
        res is Ok,
        !old(store).contains_id(short_id@) ==> res == Ok::<Option<String>, ShortyError>(None)
            && *final(store) == *old(store),
        old(store).contains_id(short_id@) ==> (res matches Ok(found) && found matches Some(url)
            && url@ == old(store).record_for(short_id@).full_url@) && spec_bump_view(
            *old(store),
            *final(store),
            short_id@,
        ),
{
    let url_object = match Url::fetch_url(store, short_id) {
        Ok(obj) => obj,
        Err(_) => {
            return Err(ShortyError::LookupFailed);
        }
    };
    let mut url_object = match url_object {
        Some(u) => u,
        None => {
            return Ok(None);
        }
    };
    url_object.increment_view_count();
    match url_object.save(store) {
        Ok(_) => Ok(Some(url_object.get_full_url().to_owned())),
        Err(_) => Err(ShortyError::LookupFailed),
    }
}

/// Round trip: the short ID issued by a successful shorten maps back to
/// exactly the URL that was shortened — both in the store the lookup reads
/// (whose `record_for` is the string `get_url` returns) and after the
/// lookup's own view-count bump, which leaves the URL untouched and the
/// count at one.
pub proof fn lemma_shorten_lengthen_round_trip(
    s0: MemStore,
    s1: MemStore,
    s2: MemStore,
    id: Seq<char>,
    url: Seq<char>,
)
    requires
        s0.wf(),
        spec_insert_new(s0, s1, id, url),
        spec_bump_view(s1, s2, id),
    ensures
        s1.record_for(id).full_url@ == url,
        s1.record_for(id).view_count == 0,
        s2.contains_id(id),
        s2.record_for(id).full_url@ == url,
        s2.record_for(id).view_count == 1,
{
    let n = s0.records().len() as int;
    assert(s1.records()[n].short_id@ == id);
    assert(s1.contains_id(id));
    crate::store::lemma_insert_new_preserves(s0, s1, id, url);
    s1.lemma_idx_unique(id, n);
    crate::store::lemma_bump_preserves(s1, s2, id);
}

/// `view_count` counts the lookups: starting from a fresh record, after a
/// chain of N sequential lengthen calls on the same ID the stored view count
/// reads N.
pub proof fn lemma_view_count_counts_lengthens(stores: Seq<MemStore>, id: Seq<char>)
    requires
        stores.len() >= 1,
        stores[0].wf(),
        stores[0].contains_id(id),
        stores[0].record_for(id).view_count == 0,
        forall|i: int|
            0 <= i < stores.len() - 1 ==> #[trigger] spec_bump_view(stores[i], stores[i + 1], id),
    ensures
        stores.last().wf(),
        stores.last().contains_id(id),
        stores.last().record_for(id).view_count == stores.len() - 1,
    decreases stores.len(),
{
    if stores.len() == 1 {
    } else {
        let prefix = stores.drop_last();
        assert forall|i: int| 0 <= i < prefix.len() - 1 implies #[trigger] spec_bump_view(
            prefix[i],
            prefix[i + 1],
            id,
        ) by {
            assert(spec_bump_view(stores[i], stores[i + 1], id));
        }
        lemma_view_count_counts_lengthens(prefix, id);
        let m = stores.len() - 2;
        assert(spec_bump_view(stores[m], stores[m + 1], id));
        crate::store::lemma_bump_preserves(stores[m], stores[m + 1], id);
    }
}

/// A lengthen touches nothing but the view count of the record it looked up:
/// every record keeps its short ID, full URL and creation time, and no view
/// count ever decreases.
pub proof fn lemma_lengthen_touches_only_the_view_count(s0: MemStore, s1: MemStore, id: Seq<char>)
    requires
        s0.wf(),
        spec_bump_view(s0, s1, id),
    ensures
        s1.records().len() == s0.records().len(),
        forall|j: int|
            0 <= j < s0.records().len() ==> #[trigger] s1.records()[j].short_id@
                == s0.records()[j].short_id@ && s1.records()[j].full_url@
                == s0.records()[j].full_url@ && s1.records()[j].created_at
                == s0.records()[j].created_at && s1.records()[j].view_count
                >= s0.records()[j].view_count,
{
    let i = s0.idx_of(id);
    assert(0 <= i < s0.records().len() && s0.records()[i].short_id@ == id);
    assert forall|j: int|
        0 <= j < s0.records().len() implies #[trigger] s1.records()[j].short_id@
        == s0.records()[j].short_id@ && s1.records()[j].full_url@ == s0.records()[j].full_url@
        && s1.records()[j].created_at == s0.records()[j].created_at && s1.records()[j].view_count
        >= s0.records()[j].view_count by {
        if j != i {
            assert(s1.records()[j] == s0.records()[j]);
        }
    }
}

/// Uniqueness: two successful shortens never issue the same short ID, no
/// matter whether the URLs differ.
pub proof fn lemma_shorten_ids_distinct(
    s0: MemStore,
    s1: MemStore,
    s2: MemStore,
    id1: Seq<char>,
    url1: Seq<char>,
    id2: Seq<char>,
    url2: Seq<char>,
)
    requires
        spec_insert_new(s0, s1, id1, url1),
        spec_insert_new(s1, s2, id2, url2),
    ensures
        id1 != id2,
{
    let n = s0.records().len() as int;
    assert(s1.records()[n].short_id@ == id1);
    assert(s1.contains_id(id1));
}

} // verus!

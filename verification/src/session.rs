//! Session-key storage.
//!
//! A session store keeps at most one live secret per user identifier, with
//! an absolute expiry instant. Issuing a new secret for a user overwrites
//! the old one, which is what keeps a user down to a single live session.
//! The in-memory reference backend wraps a concurrent hash map.

use vstd::prelude::*;
use crate::clock::now;
use crate::error::Error;

verus! {

/// The number of seconds a session lives when the caller gives no
/// time-to-live of its own.
pub const YEAR_IN_SECS: i64 = 365 * 60 * 60 * 24;

/// A server-side session secret and the instant it expires, in seconds
/// since the Unix epoch.
pub struct AuthKey {
    /// The random secret a client must present.
    pub secret: String,
    /// The absolute expiry instant.
    pub expires: i64,
}

/// The client-held proof of login: the payload handed back to the request
/// layer, re-validated against the session store on each request.
pub struct Session {
    /// The authenticated user's identifier.
    pub id: u64,
    /// The authenticated user's email, denormalized for convenience.
    pub email: String,
    /// The secret that must match the stored one.
    pub auth_key: String,
    /// When the session was issued, in seconds since the Unix epoch.
    pub time_stamp: i64,
}

impl Clone for Session {
    /// Copies the payload field for field.
    fn clone(&self) -> (r: Self)
        ensures
            r == *self,
    {
        Session {
            id: self.id,
            email: self.email.clone(),
            auth_key: self.auth_key.clone(),
            time_stamp: self.time_stamp,
        }
    }
}

/// Whether a session with key `key` for user `id` is current against the
/// stored secrets: the user must have a stored secret and it must match
/// the key exactly.
pub open spec fn authenticated(secrets: Map<u64, Seq<char>>, id: u64, key: Seq<char>) -> bool {
    secrets.dom().contains(id) && secrets[id] == key
}

/// Keyed storage of session secrets with expiry.
///
/// Implementations must be linearizable per key; every operation is atomic
/// with respect to a single user identifier. A backend that cannot be
/// reached reports [`Error::StoreUnavailable`] on write paths and reads as
/// absent on the read path, so an outage denies access instead of granting
/// it.
pub trait SessionManager: Sized {
    /// The secrets currently stored, one per user identifier.
    spec fn secrets(&self) -> Map<u64, Seq<char>>;

    /// Inserts or replaces the secret for `id` with the default
    /// time-to-live of [`YEAR_IN_SECS`].
    fn insert(&mut self, id: u64, key: String) -> (r: Result<(), Error>)
        ensures
            r matches Ok(_) ==> final(self).secrets() == old(self).secrets().insert(id, key@),
            r matches Err(e) ==> e == Error::StoreUnavailable && final(self).secrets() == old(
                self,
            ).secrets(),
    ;

    /// Inserts or replaces the secret for `id` with a caller-chosen
    /// time-to-live in seconds.
    fn insert_for(&mut self, id: u64, key: String, seconds: i64) -> (r: Result<(), Error>)
        requires
            seconds >= 0,
        ensures
            r matches Ok(_) ==> final(self).secrets() == old(self).secrets().insert(id, key@),
            r matches Err(e) ==> e == Error::StoreUnavailable && final(self).secrets() == old(
                self,
            ).secrets(),
    ;

    /// Deletes the secret for `id`. Removing an absent key is not an
    /// error, so the operation is idempotent.
    fn remove(&mut self, id: u64) -> (r: Result<(), Error>)
        ensures
            r matches Ok(_) ==> final(self).secrets() == old(self).secrets().remove(id),
            r matches Err(e) ==> e == Error::StoreUnavailable && final(self).secrets() == old(
                self,
            ).secrets(),
    ;

    /// The secret currently stored for `id`, or `None` if there is none.
    fn get(&self, id: u64) -> (r: Option<String>)
        ensures
            match r {
                Some(s) => self.secrets().dom().contains(id) && s@ == self.secrets()[id],
                None => !self.secrets().dom().contains(id),
            },
    ;

    /// Administrative bulk wipe of every session.
    fn clear_all(&mut self) -> (r: Result<(), Error>)
        ensures
            r matches Ok(_) ==> final(self).secrets() == Map::<u64, Seq<char>>::empty(),
            r matches Err(e) ==> e == Error::StoreUnavailable && final(self).secrets() == old(
                self,
            ).secrets(),
    ;

    /// Removes entries whose expiry has passed. A backend with native
    /// expiry may keep every entry it still holds, so this promises only
    /// that no secret appears or changes.
    fn clear_expired(&mut self) -> (r: Result<(), Error>)
        ensures
            r matches Ok(_) ==> final(self).secrets().submap_of(old(self).secrets()),
            r matches Err(e) ==> e == Error::StoreUnavailable && final(self).secrets() == old(
                self,
            ).secrets(),
    ;
}

/// Removing a user's secret twice leaves the same state as removing it
/// once: the second removal finds nothing and changes nothing.
pub proof fn lemma_remove_idempotent(secrets: Map<u64, Seq<char>>, id: u64)
    ensures
        secrets.remove(id).remove(id) == secrets.remove(id),
{
    assert(secrets.remove(id).remove(id) =~= secrets.remove(id));
}

/// Once a new secret `k2` is issued for a user, a session holding any
/// older, different secret `k1` no longer authenticates for that user.
pub proof fn lemma_new_key_invalidates(
    secrets: Map<u64, Seq<char>>,
    id: u64,
    k1: Seq<char>,
    k2: Seq<char>,
)
    requires
        k1 != k2,
    ensures
        !authenticated(secrets.insert(id, k2), id, k1),
        authenticated(secrets.insert(id, k2), id, k2),
{
}

/// Once a user's secret is removed, no session authenticates for that
/// user, whatever key it holds.
pub proof fn lemma_remove_invalidates(secrets: Map<u64, Seq<char>>, id: u64, k: Seq<char>)
    ensures
        !authenticated(secrets.remove(id), id, k),
{
}

/// The entries the in-memory backend holds: each user's secret and its
/// absolute expiry instant.
pub uninterp spec fn chm_contents(m: chashmap::CHashMap<u64, AuthKey>) -> Map<
    u64,
    (Seq<char>, int),
>;

#[verifier::external_type_specification]
#[verifier::external_body]
#[verifier::reject_recursive_types(K)]
#[verifier::reject_recursive_types(V)]
pub struct ExCHashMap<K, V>(chashmap::CHashMap<K, V>);

/// Relies on chashmap::CHashMap::new: a freshly created map holds nothing.
#[verifier::external_body]
fn chm_new() -> (r: chashmap::CHashMap<u64, AuthKey>)
    ensures
        forall|id: u64| !chm_contents(r).dom().contains(id),
{
    chashmap::CHashMap::new()
}

/// Relies on chashmap::CHashMap::insert: replaces the entry under `id`,
/// inserting it if absent.
#[verifier::external_body]
fn chm_insert(m: &mut chashmap::CHashMap<u64, AuthKey>, id: u64, key: AuthKey)
    ensures
        chm_contents(*final(m)) == chm_contents(*old(m)).insert(
            id,
            (key.secret@, key.expires as int),
        ),
{
    let _previous = m.insert(id, key);
}

/// Relies on chashmap::CHashMap::remove: deletes the entry under `id`;
/// an absent entry is no error.
#[verifier::external_body]
fn chm_remove(m: &mut chashmap::CHashMap<u64, AuthKey>, id: u64)
    ensures
        chm_contents(*final(m)) == chm_contents(*old(m)).remove(id),
{
    let _previous = m.remove(&id);
}

/// Relies on chashmap::CHashMap::get: returns the entry currently stored
/// under `id`, if any; only its secret is handed out.
#[verifier::external_body]
fn chm_get(m: &chashmap::CHashMap<u64, AuthKey>, id: u64) -> (r: Option<String>)
    ensures
        match r {
            Some(s) => chm_contents(*m).dom().contains(id) && s@ == chm_contents(*m)[id].0,
            None => !chm_contents(*m).dom().contains(id),
        },
{
    match m.get(&id) {
        Some(guard) => Some(guard.secret.clone()),
        None => None,
    }
}

/// Relies on chashmap::CHashMap::clear: removes every entry.
#[verifier::external_body]
fn chm_clear(m: &mut chashmap::CHashMap<u64, AuthKey>)
    ensures
        forall|id: u64| !chm_contents(*final(m)).dom().contains(id),
{
    let _previous = m.clear();
}

/// Whether a stored key is still live at instant `time`.
fn key_live(key: &AuthKey, time: i64) -> (r: bool)
    ensures
        r == (key.expires > time),
{
    key.expires > time
}

/// Relies on chashmap::CHashMap::retain: keeps exactly the entries the
/// predicate accepts, here those whose expiry lies after `time`.
#[verifier::external_body]
fn chm_retain_live(m: &mut chashmap::CHashMap<u64, AuthKey>, time: i64)
    ensures
        forall|id: u64|
            #[trigger] chm_contents(*final(m)).dom().contains(id) <==> (chm_contents(
                *old(m),
            ).dom().contains(id) && chm_contents(*old(m))[id].1 > time),
        forall|id: u64|
            chm_contents(*final(m)).dom().contains(id) ==> #[trigger] chm_contents(*final(m))[id]
                == chm_contents(*old(m))[id],
{
    m.retain(|_, key| key_live(key, time));
}

/// The instant a key stored at clock reading `t` with time-to-live `ttl`
/// expires: the sum, saturated at the largest representable instant.
pub open spec fn expiry_at(t: i64, ttl: i64) -> int {
    if t + ttl <= i64::MAX {
        t + ttl
    } else {
        i64::MAX as int
    }
}

/// What sweeping at instant `t` leaves behind: exactly the entries whose
/// expiry lies after `t`, with their secrets and expiries unchanged.
pub open spec fn swept_at(
    secrets0: Map<u64, Seq<char>>,
    expiries0: Map<u64, int>,
    secrets1: Map<u64, Seq<char>>,
    expiries1: Map<u64, int>,
    t: int,
) -> bool {
    &&& forall|id: u64|
        #[trigger] secrets1.dom().contains(id) <==> (secrets0.dom().contains(id)
            && expiries0[id] > t)
    &&& forall|id: u64|
        #[trigger] secrets1.dom().contains(id) ==> secrets1[id] == secrets0[id] && expiries1[id]
            == expiries0[id]
    &&& expiries1.dom() =~= secrets1.dom()
}

/// The in-memory session backend: a concurrent hash map from user
/// identifier to [`AuthKey`], with explicit expiry instants swept by
/// [`SessionManager::clear_expired`].
pub struct MemorySessions {
    map: chashmap::CHashMap<u64, AuthKey>,
}

impl MemorySessions {
    /// An empty store.
    pub fn new() -> (r: MemorySessions)
        ensures
            r.secrets() == Map::<u64, Seq<char>>::empty(),
    {
        let r = MemorySessions { map: chm_new() };
        proof {
            assert(r.secrets() =~= Map::<u64, Seq<char>>::empty());
        }
        r
    }

    /// The expiry instant stored beside each secret.
    pub closed spec fn expiries(&self) -> Map<u64, int> {
        chm_contents(self.map).map_values(|v: (Seq<char>, int)| v.1)
    }
}

impl SessionManager for MemorySessions {
    /// Each user's stored secret: the secret component of the map's
    /// entries.
    closed spec fn secrets(&self) -> Map<u64, Seq<char>> {
        chm_contents(self.map).map_values(|v: (Seq<char>, int)| v.0)
    }

    fn insert(&mut self, id: u64, key: String) -> (r: Result<(), Error>)
        ensures
            r is Ok,
            exists|t: i64|
                0 <= t && final(self).expiries() == old(self).expiries().insert(
                    id,
                    #[trigger] expiry_at(t, YEAR_IN_SECS),
                ),
    {
        let t = now();
        let expires: i64 = if t <= i64::MAX - YEAR_IN_SECS {
            t + YEAR_IN_SECS
        } else {
            i64::MAX
        };
        let ghost prior = chm_contents(self.map);
        chm_insert(&mut self.map, id, AuthKey { secret: key, expires });
        proof {
            assert(self.secrets() =~= prior.map_values(|v: (Seq<char>, int)| v.0).insert(id, key@));
            assert(self.expiries() =~= prior.map_values(|v: (Seq<char>, int)| v.1).insert(
                id,
                expiry_at(t, YEAR_IN_SECS),
            ));
        }
        Ok(())
    }

    fn insert_for(&mut self, id: u64, key: String, seconds: i64) -> (r: Result<(), Error>)
        ensures
            r is Ok,
            exists|t: i64|
                0 <= t && final(self).expiries() == old(self).expiries().insert(
                    id,
                    #[trigger] expiry_at(t, seconds),
                ),
    {
        let t = now();
        let expires: i64 = if t <= i64::MAX - seconds {
            t + seconds
        } else {
            i64::MAX
        };
        let ghost prior = chm_contents(self.map);
        chm_insert(&mut self.map, id, AuthKey { secret: key, expires });
        proof {
            assert(self.secrets() =~= prior.map_values(|v: (Seq<char>, int)| v.0).insert(id, key@));
            assert(self.expiries() =~= prior.map_values(|v: (Seq<char>, int)| v.1).insert(
                id,
                expiry_at(t, seconds),
            ));
        }
        Ok(())
    }

    fn remove(&mut self, id: u64) -> (r: Result<(), Error>)
        ensures
            r is Ok,
            final(self).expiries() == old(self).expiries().remove(id),
    {
        let ghost prior = chm_contents(self.map);
        chm_remove(&mut self.map, id);
        proof {
            assert(self.secrets() =~= prior.map_values(|v: (Seq<char>, int)| v.0).remove(id));
            assert(self.expiries() =~= prior.map_values(|v: (Seq<char>, int)| v.1).remove(id));
        }
        Ok(())
    }

    fn get(&self, id: u64) -> (r: Option<String>) {
        chm_get(&self.map, id)
    }

    fn clear_all(&mut self) -> (r: Result<(), Error>)
        ensures
            r is Ok,
            final(self).expiries() == Map::<u64, int>::empty(),
    {
        chm_clear(&mut self.map);
        proof {
            assert(self.secrets() =~= Map::<u64, Seq<char>>::empty());
            assert(self.expiries() =~= Map::<u64, int>::empty());
        }
        Ok(())
    }

    fn clear_expired(&mut self) -> (r: Result<(), Error>)
        ensures
            r is Ok,
            exists|t: i64|
                0 <= t && #[trigger] swept_at(
                    old(self).secrets(),
                    old(self).expiries(),
                    final(self).secrets(),
                    final(self).expiries(),
                    t as int,
                ),
    {
        let t = now();
        let ghost prior = chm_contents(self.map);
        chm_retain_live(&mut self.map, t);
        proof {
            assert(self.secrets().submap_of(prior.map_values(|v: (Seq<char>, int)| v.0)));
            assert(swept_at(
                old(self).secrets(),
                old(self).expiries(),
                self.secrets(),
                self.expiries(),
                t as int,
            ));
        }
        Ok(())
    }
}

} // verus!

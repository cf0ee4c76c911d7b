//! User-record storage.
//!
//! [`DBConnection`] is the interface the engine consumes; any backend that
//! honors its contracts can be plugged in. [`MemoryDb`] is the in-process
//! reference backend, fit for tests and single-process deployments.

use vstd::prelude::*;
use vstd::string::StringExecFns;
use crate::error::Error;
use crate::user::User;

verus! {

/// Whether some stored record carries this email address.
pub open spec fn email_taken(db: Seq<User>, email: Seq<char>) -> bool {
    exists|i: int| 0 <= i < db.len() && (#[trigger] db[i]).email@ == email
}

/// Whether some stored record carries this identifier.
pub open spec fn id_present(db: Seq<User>, id: u64) -> bool {
    exists|i: int| 0 <= i < db.len() && (#[trigger] db[i]).id == Some(id)
}

/// What a just-created record looks like: a fresh identifier, the given
/// email, digest and token, unverified, and no password history.
pub open spec fn created_user(
    u: User,
    prior: Seq<User>,
    email: Seq<char>,
    hash: Seq<char>,
    token: Seq<char>,
    is_admin: bool,
) -> bool {
    &&& u.id is Some
    &&& !id_present(prior, u.id.unwrap())
    &&& u.email@ == email
    &&& u.password@ == hash
    &&& u.verification_token@ == token
    &&& u.is_admin == is_admin
    &&& !u.is_verified
    &&& u.prev_password is None
    &&& u.prev_password_1 is None
    &&& u.prev_password_2 is None
}

/// CRUD over user records in a backing store.
///
/// The backend must enforce email uniqueness at the storage layer: a
/// create against a taken email fails, so two concurrent signups with the
/// same address cannot both succeed, without any check-then-act race in
/// the engine. A backend that cannot be reached reports
/// [`Error::StoreUnavailable`] and leaves the records as they were.
pub trait DBConnection: Sized {
    /// The records currently stored, in insertion order.
    spec fn db(&self) -> Seq<User>;

    /// Persists a new record with a fresh identifier. Fails with
    /// [`Error::EmailAlreadyExists`] if the email is taken, and succeeds
    /// whenever it is not and the store is reachable.
    fn create_user(&mut self, email: &str, hash: &str, token: &str, is_admin: bool) -> (r: Result<
        (),
        Error,
    >)
        ensures
            r matches Ok(_) ==> ({
                &&& !email_taken(old(self).db(), email@)
                &&& final(self).db().len() == old(self).db().len() + 1
                &&& final(self).db().drop_last() == old(self).db()
                &&& created_user(
                    final(self).db().last(),
                    old(self).db(),
                    email@,
                    hash@,
                    token@,
                    is_admin,
                )
            }),
            r matches Err(e) ==> ({
                &&& final(self).db() == old(self).db()
                &&& (e == Error::EmailAlreadyExists || e == Error::StoreUnavailable)
                &&& (e == Error::EmailAlreadyExists ==> email_taken(old(self).db(), email@))
            }),
    ;

    /// The record carrying this email address, if one is stored and the
    /// store is reachable.
    fn get_user_by_email(&self, email: &str) -> (r: Result<User, Error>)
        ensures
            match r {
                Ok(u) => exists|i: int|
                    0 <= i < self.db().len() && #[trigger] self.db()[i] == u && u.email@ == email@,
                Err(e) => (e == Error::UserNotFoundError && !email_taken(self.db(), email@)) || e
                    == Error::StoreUnavailable,
            },
    ;

    /// The record carrying this identifier, if one is stored and the
    /// store is reachable.
    fn get_user_by_id(&self, id: u64) -> (r: Result<User, Error>)
        ensures
            match r {
                Ok(u) => exists|i: int|
                    0 <= i < self.db().len() && #[trigger] self.db()[i] == u && u.id == Some(id),
                Err(e) => (e == Error::UserNotFoundError && !id_present(self.db(), id)) || e
                    == Error::StoreUnavailable,
            },
    ;

    /// Replaces the record keyed by `user`'s identifier, last writer
    /// wins. Fails with [`Error::EmailAlreadyExists`] if another record
    /// holds `user`'s email, so storage-layer email uniqueness is kept.
    fn update_user(&mut self, user: &User) -> (r: Result<(), Error>)
        requires
            user.id is Some,
        ensures
            r matches Ok(_) ==> exists|i: int|
                {
                    &&& 0 <= i < old(self).db().len()
                    &&& (#[trigger] old(self).db()[i]).id == user.id
                    &&& (forall|j: int|
                        0 <= j < old(self).db().len() ==> ((#[trigger] old(self).db()[j]).id
                            == user.id || old(self).db()[j].email@ != user.email@))
                    &&& final(self).db() == old(self).db().update(i, *user)
                },
            r matches Err(e) ==> ({
                &&& final(self).db() == old(self).db()
                &&& match e {
                    Error::UserNotFoundError => !id_present(old(self).db(), user.id.unwrap()),
                    Error::EmailAlreadyExists => exists|j: int|
                        0 <= j < old(self).db().len() && (#[trigger] old(self).db()[j]).id
                            != user.id && old(self).db()[j].email@ == user.email@,
                    Error::StoreUnavailable => true,
                    _ => false,
                }
            }),
    ;

    /// Deletes the record carrying this identifier; an absent identifier
    /// is no error.
    fn delete_user_by_id(&mut self, id: u64) -> (r: Result<(), Error>)
        ensures
            r matches Ok(_) ==> ({
                &&& (id_present(old(self).db(), id) ==> exists|i: int|
                    0 <= i < old(self).db().len() && (#[trigger] old(self).db()[i]).id == Some(id)
                        && final(self).db() == old(self).db().remove(i))
                &&& (!id_present(old(self).db(), id) ==> final(self).db() == old(self).db())
            }),
            r matches Err(e) ==> e == Error::StoreUnavailable && final(self).db() == old(
                self,
            ).db(),
    ;

    /// Deletes the record carrying this email address; an absent address
    /// is no error.
    fn delete_user_by_email(&mut self, email: &str) -> (r: Result<(), Error>)
        ensures
            r matches Ok(_) ==> ({
                &&& (email_taken(old(self).db(), email@) ==> exists|i: int|
                    0 <= i < old(self).db().len() && (#[trigger] old(self).db()[i]).email@
                        == email@ && final(self).db() == old(self).db().remove(i))
                &&& (!email_taken(old(self).db(), email@) ==> final(self).db() == old(self).db())
            }),
            r matches Err(e) ==> e == Error::StoreUnavailable && final(self).db() == old(
                self,
            ).db(),
    ;

    /// Every stored record. A backend that fails partway returns an empty
    /// sequence instead of an error, so an empty result is ambiguous with
    /// an empty store.
    fn get_all_users(&self) -> (r: Vec<User>)
        ensures
            r@ == self.db() || r@.len() == 0,
    ;
}

/// The in-process reference backend: records in a vector, in insertion
/// order.
pub struct MemoryDb {
    users: Vec<User>,
}

impl MemoryDb {
    /// An empty store.
    pub fn new() -> (r: MemoryDb)
        ensures
            r.db() == Seq::<User>::empty(),
    {
        let r = MemoryDb { users: Vec::new() };
        proof {
            assert(r.db() =~= Seq::<User>::empty());
        }
        r
    }
}

impl DBConnection for MemoryDb {
    /// The records are exactly the vector's contents.
    closed spec fn db(&self) -> Seq<User> {
        self.users@
    }

    fn create_user(&mut self, email: &str, hash: &str, token: &str, is_admin: bool) -> (r: Result<
        (),
        Error,
    >) {
        let e = String::from_str(email);
        let n = self.users.len();
        let mut i: usize = 0;
        while i < n
            invariant
                i <= n,
                n == self.users@.len(),
                e@ == email@,
                self.users@ == old(self).users@,
                forall|j: int| 0 <= j < i ==> (#[trigger] self.users@[j]).email@ != e@,
            decreases n - i,
        {
            if self.users[i].email == e {
                proof {
                    assert((self.db()[i as int]).email@ == email@);
                }
                return Err(Error::EmailAlreadyExists);
            }
            i = i + 1;
        }
        // A fresh identifier: one past the largest in use.
        let mut max: u64 = 0;
        let mut k: usize = 0;
        while k < n
            invariant
                k <= n,
                n == self.users@.len(),
                self.users@ == old(self).users@,
                forall|j: int|
                    0 <= j < k ==> ((#[trigger] self.users@[j]).id matches Some(x) ==> x <= max),
            decreases n - k,
        {
            match self.users[k].id {
                Some(x) => {
                    if x > max {
                        max = x;
                    }
                },
                None => {},
            }
            k = k + 1;
        }
        if max == u64::MAX {
            return Err(Error::StoreUnavailable);
        }
        let fresh: u64 = max + 1;
        let user = User {
            id: Some(fresh),
            email: e,
            is_admin,
            is_verified: false,
            verification_token: String::from_str(token),
            password: String::from_str(hash),
            prev_password: None,
            prev_password_1: None,
            prev_password_2: None,
        };
        self.users.push(user);
        proof {
            assert(self.users@.drop_last() =~= old(self).users@);
            assert(!id_present(old(self).db(), fresh));
        }
        Ok(())
    }

    fn get_user_by_email(&self, email: &str) -> (r: Result<User, Error>) {
        let e = String::from_str(email);
        let n = self.users.len();
        let mut i: usize = 0;
        while i < n
            invariant
                i <= n,
                n == self.users@.len(),
                e@ == email@,
                forall|j: int| 0 <= j < i ==> (#[trigger] self.users@[j]).email@ != e@,
            decreases n - i,
        {
            if self.users[i].email == e {
                let u = self.users[i].clone();
                proof {
                    assert(self.db()[i as int] == u);
                }
                return Ok(u);
            }
            i = i + 1;
        }
        Err(Error::UserNotFoundError)
    }

    fn get_user_by_id(&self, id: u64) -> (r: Result<User, Error>) {
        let n = self.users.len();
        let mut i: usize = 0;
        while i < n
            invariant
                i <= n,
                n == self.users@.len(),
                forall|j: int| 0 <= j < i ==> (#[trigger] self.users@[j]).id != Some(id),
            decreases n - i,
        {
            let found = match self.users[i].id {
                Some(x) => x == id,
                None => false,
            };
            if found {
                let u = self.users[i].clone();
                proof {
                    assert(self.db()[i as int] == u);
                }
                return Ok(u);
            }
            i = i + 1;
        }
        Err(Error::UserNotFoundError)
    }

    fn update_user(&mut self, user: &User) -> (r: Result<(), Error>) {
        let n = self.users.len();
        // Refuse an email another record already holds.
        let mut j: usize = 0;
        while j < n
            invariant
                j <= n,
                n == self.users@.len(),
                self.users@ == old(self).users@,
                forall|m: int|
                    0 <= m < j ==> !((#[trigger] self.users@[m]).id != user.id && self.users@[m].email@
                        == user.email@),
            decreases n - j,
        {
            let same_id = match (self.users[j].id, user.id) {
                (Some(a), Some(b)) => a == b,
                (None, None) => true,
                _ => false,
            };
            if !same_id && self.users[j].email == user.email {
                proof {
                    assert((self.db()[j as int]).id != user.id && self.db()[j as int].email@
                        == user.email@);
                }
                return Err(Error::EmailAlreadyExists);
            }
            j = j + 1;
        }
        let mut i: usize = 0;
        while i < n
            invariant
                i <= n,
                n == self.users@.len(),
                self.users@ == old(self).users@,
                user.id is Some,
                forall|m: int| 0 <= m < i ==> (#[trigger] self.users@[m]).id != user.id,
                forall|m: int|
                    0 <= m < n ==> !((#[trigger] self.users@[m]).id != user.id && self.users@[m].email@
                        == user.email@),
            decreases n - i,
        {
            let same_id = match (self.users[i].id, user.id) {
                (Some(a), Some(b)) => a == b,
                _ => false,
            };
            if same_id {
                self.users.remove(i);
                self.users.insert(i, user.clone());
                proof {
                    assert((old(self).db()[i as int]).id == user.id);
                    assert(self.users@ =~= old(self).users@.update(i as int, *user));
                }
                return Ok(());
            }
            i = i + 1;
        }
        proof {
            assert(user.id == Some(user.id.unwrap()));
        }
        Err(Error::UserNotFoundError)
    }

    fn delete_user_by_id(&mut self, id: u64) -> (r: Result<(), Error>) {
        let n = self.users.len();
        let mut i: usize = 0;
        while i < n
            invariant
                i <= n,
                n == self.users@.len(),
                self.users@ == old(self).users@,
                forall|j: int| 0 <= j < i ==> (#[trigger] self.users@[j]).id != Some(id),
            decreases n - i,
        {
            let found = match self.users[i].id {
                Some(x) => x == id,
                None => false,
            };
            if found {
                proof {
                    assert((old(self).db()[i as int]).id == Some(id));
                }
                self.users.remove(i);
                return Ok(());
            }
            i = i + 1;
        }
        Ok(())
    }

    fn delete_user_by_email(&mut self, email: &str) -> (r: Result<(), Error>) {
        let e = String::from_str(email);
        let n = self.users.len();
        let mut i: usize = 0;
        while i < n
            invariant
                i <= n,
                n == self.users@.len(),
                e@ == email@,
                self.users@ == old(self).users@,
                forall|j: int| 0 <= j < i ==> (#[trigger] self.users@[j]).email@ != e@,
            decreases n - i,
        {
            if self.users[i].email == e {
                proof {
                    assert((old(self).db()[i as int]).email@ == email@);
                }
                self.users.remove(i);
                return Ok(());
            }
            i = i + 1;
        }
        Ok(())
    }

    fn get_all_users(&self) -> (r: Vec<User>) {
        let n = self.users.len();
        let mut out: Vec<User> = Vec::new();
        let mut i: usize = 0;
        while i < n
            invariant
                i <= n,
                n == self.users@.len(),
                out@ == self.users@.take(i as int),
            decreases n - i,
        {
            out.push(self.users[i].clone());
            proof {
                assert(out@ =~= self.users@.take(i + 1 as int));
            }
            i = i + 1;
        }
        proof {
            assert(self.users@.take(n as int) =~= self.users@);
        }
        out
    }
}

} // verus!

//! The account registry: queries, credential checks, and session issuance
//! against a pluggable record store and session store.

use vstd::prelude::*;
use crate::db::DBConnection;
use crate::db::email_taken;
use crate::db::id_present;
use crate::error::Error;
use crate::forms::Login;
use crate::forms::Signup;
use crate::forms::check_password;
use crate::forms::email_is_valid;
use crate::forms::secure_password;
use crate::forms::valid_email;
use crate::forms::violations_of;
use crate::hashing::MAX_PASSWORD_BYTES;
use crate::hashing::argon_matches;
use crate::hashing::hash_salted;
use crate::hashing::is_digest_of;
use crate::hashing::verify_password;
use crate::random::rand_string;
use crate::clock::now;
use crate::session::Session;
use crate::session::SessionManager;
use crate::session::authenticated;
use crate::user::User;
use vstd::string::StringSliceAdditionalSpecFns;

verus! {

/// What the record pushed by a successful signup or administrative
/// creation looks like: a fresh identifier, the given email and flag, a
/// digest of the chosen password under some salt, a fresh fifteen-character
/// verification token, unverified, and no history.
pub open spec fn registered_user(
    u: User,
    prior: Seq<User>,
    email: Seq<char>,
    password: Seq<char>,
    is_admin: bool,
) -> bool {
    &&& u.id is Some
    &&& !id_present(prior, u.id.unwrap())
    &&& u.email@ == email
    &&& is_digest_of(u.password@, password)
    &&& argon_matches(u.password@, password)
    &&& u.verification_token@.len() == 15
    &&& u.is_admin == is_admin
    &&& !u.is_verified
    &&& u.prev_password is None
    &&& u.prev_password_1 is None
    &&& u.prev_password_2 is None
}

/// The engine's handle on its two stores. All queries and mutations of
/// user records and session keys go through here.
pub struct Users<C: DBConnection, S: SessionManager> {
    /// The user-record backend.
    pub conn: C,
    /// The session-key backend.
    pub sess: S,
}

impl<C: DBConnection, S: SessionManager> Users<C, S> {
    /// Couples a record backend with a session backend.
    pub fn new(conn: C, sess: S) -> (r: Users<C, S>)
        ensures
            r.conn == conn,
            r.sess == sess,
    {
        Users { conn, sess }
    }

    /// The record carrying this email, straight from the record backend.
    pub fn get_by_email(&self, email: &str) -> (r: Result<User, Error>)
        ensures
            match r {
                Ok(u) => exists|i: int|
                    0 <= i < self.conn.db().len() && #[trigger] self.conn.db()[i] == u && u.email@
                        == email@,
                Err(e) => (e == Error::UserNotFoundError && !email_taken(self.conn.db(), email@))
                    || e == Error::StoreUnavailable,
            },
    {
        self.conn.get_user_by_email(email)
    }

    /// The record carrying this identifier, straight from the record
    /// backend.
    pub fn get_by_id(&self, user_id: u64) -> (r: Result<User, Error>)
        ensures
            match r {
                Ok(u) => exists|i: int|
                    0 <= i < self.conn.db().len() && #[trigger] self.conn.db()[i] == u && u.id
                        == Some(user_id),
                Err(e) => (e == Error::UserNotFoundError && !id_present(self.conn.db(), user_id))
                    || e == Error::StoreUnavailable,
            },
    {
        self.conn.get_user_by_id(user_id)
    }

    /// Every stored record; a backend that fails partway reports an empty
    /// sequence instead.
    pub fn get_all_users(&self) -> (r: Vec<User>)
        ensures
            r@ == self.conn.db() || r@.len() == 0,
    {
        self.conn.get_all_users()
    }

    /// Creates an account directly, without policy-checking the password:
    /// the administrative path. The password is stored as a digest under a
    /// fresh salt, and a fresh verification token is attached.
    pub fn create_user(&mut self, email: &str, password: &str, is_admin: bool) -> (r: Result<
        (),
        Error,
    >)
        ensures
            final(self).sess == old(self).sess,
            match r {
                Ok(_) => ({
                    &&& !email_taken(old(self).conn.db(), email@)
                    &&& password.spec_bytes().len() <= MAX_PASSWORD_BYTES
                    &&& final(self).conn.db().len() == old(self).conn.db().len() + 1
                    &&& final(self).conn.db().drop_last() == old(self).conn.db()
                    &&& registered_user(
                        final(self).conn.db().last(),
                        old(self).conn.db(),
                        email@,
                        password@,
                        is_admin,
                    )
                }),
                Err(e) => final(self).conn.db() == old(self).conn.db() && match e {
                    Error::EmailAlreadyExists => email_taken(old(self).conn.db(), email@)
                        && password.spec_bytes().len() <= MAX_PASSWORD_BYTES,
                    Error::HashingFailure => password.spec_bytes().len() > MAX_PASSWORD_BYTES,
                    Error::StoreUnavailable => password.spec_bytes().len() <= MAX_PASSWORD_BYTES,
                    _ => false,
                },
            },
    {
        let hash = match hash_salted(password, 30) {
            Ok(h) => h,
            Err(e) => {
                return Err(e);
            },
        };
        let token = rand_string(15);
        match self.conn.create_user(email, hash.as_str(), token.as_str(), is_admin) {
            Ok(_) => Ok(()),
            Err(e) => Err(e),
        }
    }

    /// Registers a new account from a signup form.
    ///
    /// The email must be syntactically valid and the password must meet
    /// the policy; a policy rejection reports every violation at once.
    /// The account starts unverified and no session is issued: signing up
    /// does not log the user in.
    pub fn signup(&mut self, form: &Signup) -> (r: Result<(), Error>)
        ensures
            final(self).sess == old(self).sess,
            match r {
                Ok(_) => ({
                    &&& valid_email(form.email@)
                    &&& secure_password(form.password@)
                    &&& vstd::utf8::encode_utf8(form.password@).len() <= MAX_PASSWORD_BYTES
                    &&& !email_taken(old(self).conn.db(), form.email@)
                    &&& final(self).conn.db().len() == old(self).conn.db().len() + 1
                    &&& final(self).conn.db().drop_last() == old(self).conn.db()
                    &&& registered_user(
                        final(self).conn.db().last(),
                        old(self).conn.db(),
                        form.email@,
                        form.password@,
                        false,
                    )
                }),
                Err(e) => final(self).conn.db() == old(self).conn.db() && match e {
                    Error::InvalidEmailAddressError => !valid_email(form.email@),
                    Error::PasswordPolicyViolation(vs) => valid_email(form.email@) && vs@
                        == violations_of(form.password@) && !secure_password(form.password@),
                    Error::EmailAlreadyExists => valid_email(form.email@) && secure_password(
                        form.password@,
                    ) && email_taken(old(self).conn.db(), form.email@)
                        && vstd::utf8::encode_utf8(form.password@).len() <= MAX_PASSWORD_BYTES,
                    Error::HashingFailure => valid_email(form.email@) && secure_password(
                        form.password@,
                    ) && vstd::utf8::encode_utf8(form.password@).len() > MAX_PASSWORD_BYTES,
                    Error::StoreUnavailable => valid_email(form.email@) && secure_password(
                        form.password@,
                    ) && vstd::utf8::encode_utf8(form.password@).len() <= MAX_PASSWORD_BYTES,
                    _ => false,
                },
            },
    {
        if !email_is_valid(form.email.as_str()) {
            return Err(Error::InvalidEmailAddressError);
        }
        let vs = check_password(form.password.as_str());
        if vs.len() > 0 {
            return Err(Error::PasswordPolicyViolation(vs));
        }
        let hash = match hash_salted(form.password.as_str(), 30) {
            Ok(h) => h,
            Err(e) => {
                return Err(e);
            },
        };
        let token = rand_string(15);
        match self.conn.create_user(form.email.as_str(), hash.as_str(), token.as_str(), false) {
            Ok(_) => Ok(()),
            Err(e) => Err(e),
        }
    }

    /// Replaces the record keyed by `user`'s identifier, last writer wins.
    pub fn modify(&mut self, user: &User) -> (r: Result<(), Error>)
        requires
            user.id is Some,
        ensures
            final(self).sess == old(self).sess,
            r matches Ok(_) ==> exists|i: int|
                {
                    &&& 0 <= i < old(self).conn.db().len()
                    &&& (#[trigger] old(self).conn.db()[i]).id == user.id
                    &&& final(self).conn.db() == old(self).conn.db().update(i, *user)
                },
            r matches Err(e) ==> ({
                &&& final(self).conn.db() == old(self).conn.db()
                &&& match e {
                    Error::UserNotFoundError => !id_present(old(self).conn.db(), user.id.unwrap()),
                    Error::EmailAlreadyExists => exists|j: int|
                        0 <= j < old(self).conn.db().len() && (#[trigger] old(self).conn.db()[j]).id
                            != user.id && old(self).conn.db()[j].email@ == user.email@,
                    Error::StoreUnavailable => true,
                    _ => false,
                }
            }),
    {
        self.conn.update_user(user)
    }

    /// Revokes the session key and deletes the record, in that order, so
    /// a failure partway leaves at worst a revoked session beside a still
    /// existing record, never a deleted record with a live session.
    pub fn delete(&mut self, id: u64) -> (r: Result<(), Error>)
        ensures
            match r {
                Ok(_) => ({
                    &&& final(self).sess.secrets() == old(self).sess.secrets().remove(id)
                    &&& (id_present(old(self).conn.db(), id) ==> exists|i: int|
                        0 <= i < old(self).conn.db().len() && (#[trigger] old(
                            self,
                        ).conn.db()[i]).id == Some(id) && final(self).conn.db() == old(
                            self,
                        ).conn.db().remove(i))
                    &&& (!id_present(old(self).conn.db(), id) ==> final(self).conn.db() == old(
                        self,
                    ).conn.db())
                }),
                Err(e) => ({
                    &&& e == Error::StoreUnavailable
                    &&& final(self).conn.db() == old(self).conn.db()
                    &&& (final(self).sess.secrets() == old(self).sess.secrets().remove(id) || final(self).sess.secrets() == old(self).sess.secrets())
                }),
            },
    {
        match self.sess.remove(id) {
            Ok(_) => {},
            Err(e) => {
                return Err(e);
            },
        }
        match self.conn.delete_user_by_id(id) {
            Ok(_) => Ok(()),
            Err(e) => Err(e),
        }
    }

    /// Whether this client-held session is current: its key must exactly
    /// match the secret stored for its user. A missing or differing
    /// secret, or an unreachable store reading as absent, denies.
    pub fn is_auth(&self, session: &Session) -> (r: bool)
        ensures
            r == authenticated(self.sess.secrets(), session.id, session.auth_key@),
    {
        match self.sess.get(session.id) {
            Some(stored) => stored == session.auth_key,
            None => false,
        }
    }

    /// Revokes the stored key if this session is currently authenticated;
    /// logging out an already invalid session is a harmless no-op.
    pub fn logout(&mut self, session: &Session) -> (r: Result<(), Error>)
        ensures
            final(self).conn == old(self).conn,
            match r {
                Ok(_) => final(self).sess.secrets() == if authenticated(
                    old(self).sess.secrets(),
                    session.id,
                    session.auth_key@,
                ) {
                    old(self).sess.secrets().remove(session.id)
                } else {
                    old(self).sess.secrets()
                },
                Err(e) => e == Error::StoreUnavailable && authenticated(
                    old(self).sess.secrets(),
                    session.id,
                    session.auth_key@,
                ) && final(self).sess.secrets() == old(self).sess.secrets(),
            },
    {
        if self.is_auth(session) {
            match self.sess.remove(session.id) {
                Ok(_) => Ok(()),
                Err(e) => Err(e),
            }
        } else {
            Ok(())
        }
    }

    /// Issues a fresh fifteen-character secret for this user under the
    /// default time-to-live, overwriting any prior secret: at most one
    /// session per user stays live.
    pub fn set_auth_key(&mut self, user_id: u64) -> (r: Result<String, Error>)
        ensures
            final(self).conn == old(self).conn,
            match r {
                Ok(key) => key@.len() == 15 && final(self).sess.secrets() == old(
                    self,
                ).sess.secrets().insert(user_id, key@),
                Err(e) => e == Error::StoreUnavailable && final(self).sess.secrets() == old(
                    self,
                ).sess.secrets(),
            },
    {
        let key = rand_string(15);
        match self.sess.insert(user_id, key.clone()) {
            Ok(_) => Ok(key),
            Err(e) => Err(e),
        }
    }

    /// Issues a fresh ten-character secret for this user under a caller
    /// chosen time-to-live, overwriting any prior secret.
    pub fn set_auth_key_for(&mut self, user_id: u64, seconds: i64) -> (r: Result<String, Error>)
        requires
            seconds >= 0,
        ensures
            final(self).conn == old(self).conn,
            match r {
                Ok(key) => key@.len() == 10 && final(self).sess.secrets() == old(
                    self,
                ).sess.secrets().insert(user_id, key@),
                Err(e) => e == Error::StoreUnavailable && final(self).sess.secrets() == old(
                    self,
                ).sess.secrets(),
            },
    {
        let key = rand_string(10);
        match self.sess.insert_for(user_id, key.clone(), seconds) {
            Ok(_) => Ok(key),
            Err(e) => Err(e),
        }
    }

    /// Checks the credentials and, on success, issues a fresh session
    /// secret for the account under the default time-to-live, returning
    /// the client-held session payload. The fresh secret overwrites any
    /// prior one, so at most one session per user stays live, and the
    /// returned session authenticates until it is overwritten or revoked.
    ///
    /// Fails with [`Error::EmailDoesNotExist`] when the email is not
    /// registered — the one place account existence is revealed — and
    /// with [`Error::UnauthorizedError`] when the password does not match
    /// the stored digest.
    pub fn login(&mut self, form: &Login) -> (r: Result<Session, Error>)
        ensures
            final(self).conn == old(self).conn,
            match r {
                Ok(s) => ({
                    &&& s.auth_key@.len() == 15
                    &&& s.email@ == form.email@
                    &&& s.time_stamp >= 0
                    &&& authenticated(final(self).sess.secrets(), s.id, s.auth_key@)
                    &&& exists|i: int|
                        {
                            &&& 0 <= i < old(self).conn.db().len()
                            &&& (#[trigger] old(self).conn.db()[i]).email@ == form.email@
                            &&& argon_matches(old(self).conn.db()[i].password@, form.password@)
                            &&& old(self).conn.db()[i].id == Some(s.id)
                            &&& final(self).sess.secrets() == old(self).sess.secrets().insert(
                                s.id,
                                s.auth_key@,
                            )
                        }
                }),
                Err(e) => match e {
                    Error::EmailDoesNotExist(em) => em@ == form.email@ && !email_taken(
                        old(self).conn.db(),
                        form.email@,
                    ) && final(self).sess.secrets() == old(self).sess.secrets(),
                    Error::UnauthorizedError => exists|i: int|
                        {
                            &&& 0 <= i < old(self).conn.db().len()
                            &&& (#[trigger] old(self).conn.db()[i]).email@ == form.email@
                            &&& !argon_matches(old(self).conn.db()[i].password@, form.password@)
                            &&& final(self).sess.secrets() == old(self).sess.secrets()
                        },
                    Error::UserNotFoundError => exists|i: int|
                        0 <= i < old(self).conn.db().len() && (#[trigger] old(
                            self,
                        ).conn.db()[i]).email@ == form.email@ && old(self).conn.db()[i].id is None
                            && final(self).sess.secrets() == old(self).sess.secrets(),
                    Error::StoreUnavailable => final(self).sess.secrets() == old(
                        self,
                    ).sess.secrets(),
                    _ => false,
                },
            },
    {
        let user = match self.conn.get_user_by_email(form.email.as_str()) {
            Ok(u) => u,
            Err(e) => {
                if matches!(e, Error::UserNotFoundError) {
                    return Err(Error::EmailDoesNotExist(form.email.clone()));
                }
                return Err(e);
            },
        };
        if !verify_password(user.password.as_str(), form.password.as_str()) {
            return Err(Error::UnauthorizedError);
        }
        let id = match user.id {
            Some(id) => id,
            None => {
                return Err(Error::UserNotFoundError);
            },
        };
        let key = match self.set_auth_key(id) {
            Ok(k) => k,
            Err(e) => {
                return Err(e);
            },
        };
        Ok(Session { id, email: user.email, auth_key: key, time_stamp: now() })
    }

    /// Like [`Users::login`], but the issued session lives for the given
    /// number of seconds and the secret is ten characters long.
    pub fn login_for(&mut self, form: &Login, seconds: i64) -> (r: Result<Session, Error>)
        requires
            seconds >= 0,
        ensures
            final(self).conn == old(self).conn,
            match r {
                Ok(s) => ({
                    &&& s.auth_key@.len() == 10
                    &&& s.email@ == form.email@
                    &&& s.time_stamp >= 0
                    &&& authenticated(final(self).sess.secrets(), s.id, s.auth_key@)
                    &&& exists|i: int|
                        {
                            &&& 0 <= i < old(self).conn.db().len()
                            &&& (#[trigger] old(self).conn.db()[i]).email@ == form.email@
                            &&& argon_matches(old(self).conn.db()[i].password@, form.password@)
                            &&& old(self).conn.db()[i].id == Some(s.id)
                            &&& final(self).sess.secrets() == old(self).sess.secrets().insert(
                                s.id,
                                s.auth_key@,
                            )
                        }
                }),
                Err(e) => match e {
                    Error::EmailDoesNotExist(em) => em@ == form.email@ && !email_taken(
                        old(self).conn.db(),
                        form.email@,
                    ) && final(self).sess.secrets() == old(self).sess.secrets(),
                    Error::UnauthorizedError => exists|i: int|
                        {
                            &&& 0 <= i < old(self).conn.db().len()
                            &&& (#[trigger] old(self).conn.db()[i]).email@ == form.email@
                            &&& !argon_matches(old(self).conn.db()[i].password@, form.password@)
                            &&& final(self).sess.secrets() == old(self).sess.secrets()
                        },
                    Error::UserNotFoundError => exists|i: int|
                        0 <= i < old(self).conn.db().len() && (#[trigger] old(
                            self,
                        ).conn.db()[i]).email@ == form.email@ && old(self).conn.db()[i].id is None
                            && final(self).sess.secrets() == old(self).sess.secrets(),
                    Error::StoreUnavailable => final(self).sess.secrets() == old(
                        self,
                    ).sess.secrets(),
                    _ => false,
                },
            },
    {
        let user = match self.conn.get_user_by_email(form.email.as_str()) {
            Ok(u) => u,
            Err(e) => {
                if matches!(e, Error::UserNotFoundError) {
                    return Err(Error::EmailDoesNotExist(form.email.clone()));
                }
                return Err(e);
            },
        };
        if !verify_password(user.password.as_str(), form.password.as_str()) {
            return Err(Error::UnauthorizedError);
        }
        let id = match user.id {
            Some(id) => id,
            None => {
                return Err(Error::UserNotFoundError);
            },
        };
        let key = match self.set_auth_key_for(id, seconds) {
            Ok(k) => k,
            Err(e) => {
                return Err(e);
            },
        };
        Ok(Session { id, email: user.email, auth_key: key, time_stamp: now() })
    }
}

} // verus!

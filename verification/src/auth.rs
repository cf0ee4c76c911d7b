//! Per-request authentication: the operations available to one client,
//! gated by the session it presents.

use vstd::prelude::*;
use crate::db::DBConnection;
use crate::db::email_taken;
use crate::db::id_present;
use crate::error::Error;
use crate::forms::Login;
use crate::forms::Signup;
use crate::forms::email_is_valid;
use crate::forms::secure_password;
use crate::forms::valid_email;
use crate::forms::violations_of;
use crate::hashing::MAX_PASSWORD_BYTES;
use crate::hashing::argon_matches;
use crate::hashing::is_digest_of;
use crate::session::Session;
use crate::session::SessionManager;
use crate::session::authenticated;
use crate::user::User;
use crate::users::Users;
use crate::users::registered_user;

verus! {

/// One client's handle on the engine: the stores, and the session the
/// request presented, if any.
pub struct Auth<C: DBConnection, S: SessionManager> {
    /// The account registry the operations act on.
    pub users: Users<C, S>,
    /// The session extracted from client-held state, if the request
    /// carried one.
    pub session: Option<Session>,
}

impl<C: DBConnection, S: SessionManager> Auth<C, S> {
    /// Whether the presented session is current against the session
    /// store.
    pub open spec fn session_auth(self) -> bool {
        match self.session {
            Some(s) => authenticated(self.users.sess.secrets(), s.id, s.auth_key@),
            None => false,
        }
    }

    /// The presented session's user identifier; meaningful only when a
    /// session was presented.
    pub open spec fn session_id(self) -> u64 {
        self.session.unwrap().id
    }

    /// Checks the credentials and returns a fresh session for the caller
    /// to hand to the client. The presented session is left as it was:
    /// the new payload only takes effect when the client presents it.
    pub fn login(&mut self, form: &Login) -> (r: Result<Session, Error>)
        ensures
            final(self).users.conn == old(self).users.conn,
            final(self).session == old(self).session,
            match r {
                Ok(s) => ({
                    &&& s.auth_key@.len() == 15
                    &&& s.email@ == form.email@
                    &&& authenticated(final(self).users.sess.secrets(), s.id, s.auth_key@)
                    &&& exists|i: int|
                        {
                            &&& 0 <= i < old(self).users.conn.db().len()
                            &&& (#[trigger] old(self).users.conn.db()[i]).email@ == form.email@
                            &&& argon_matches(
                                old(self).users.conn.db()[i].password@,
                                form.password@,
                            )
                            &&& old(self).users.conn.db()[i].id == Some(s.id)
                            &&& final(self).users.sess.secrets() == old(
                                self,
                            ).users.sess.secrets().insert(s.id, s.auth_key@)
                        }
                }),
                Err(e) => match e {
                    Error::EmailDoesNotExist(em) => em@ == form.email@ && !email_taken(
                        old(self).users.conn.db(),
                        form.email@,
                    ) && final(self).users.sess.secrets() == old(self).users.sess.secrets(),
                    Error::UnauthorizedError => exists|i: int|
                        {
                            &&& 0 <= i < old(self).users.conn.db().len()
                            &&& (#[trigger] old(self).users.conn.db()[i]).email@ == form.email@
                            &&& !argon_matches(
                                old(self).users.conn.db()[i].password@,
                                form.password@,
                            )
                            &&& final(self).users.sess.secrets() == old(self).users.sess.secrets()
                        },
                    Error::UserNotFoundError => exists|i: int|
                        0 <= i < old(self).users.conn.db().len() && (#[trigger] old(
                            self,
                        ).users.conn.db()[i]).email@ == form.email@ && old(
                            self,
                        ).users.conn.db()[i].id is None && final(self).users.sess.secrets()
                            == old(self).users.sess.secrets(),
                    Error::StoreUnavailable => final(self).users.sess.secrets() == old(
                        self,
                    ).users.sess.secrets(),
                    _ => false,
                },
            },
    {
        self.users.login(form)
    }

    /// Like [`Auth::login`], but the session lives for the given number
    /// of seconds.
    pub fn login_for(&mut self, form: &Login, seconds: i64) -> (r: Result<Session, Error>)
        requires
            seconds >= 0,
        ensures
            final(self).users.conn == old(self).users.conn,
            final(self).session == old(self).session,
            match r {
                Ok(s) => ({
                    &&& s.auth_key@.len() == 10
                    &&& s.email@ == form.email@
                    &&& authenticated(final(self).users.sess.secrets(), s.id, s.auth_key@)
                    &&& exists|i: int|
                        {
                            &&& 0 <= i < old(self).users.conn.db().len()
                            &&& (#[trigger] old(self).users.conn.db()[i]).email@ == form.email@
                            &&& argon_matches(
                                old(self).users.conn.db()[i].password@,
                                form.password@,
                            )
                            &&& old(self).users.conn.db()[i].id == Some(s.id)
                            &&& final(self).users.sess.secrets() == old(
                                self,
                            ).users.sess.secrets().insert(s.id, s.auth_key@)
                        }
                }),
                Err(e) => match e {
                    Error::EmailDoesNotExist(em) => em@ == form.email@ && !email_taken(
                        old(self).users.conn.db(),
                        form.email@,
                    ) && final(self).users.sess.secrets() == old(self).users.sess.secrets(),
                    Error::UnauthorizedError => exists|i: int|
                        {
                            &&& 0 <= i < old(self).users.conn.db().len()
                            &&& (#[trigger] old(self).users.conn.db()[i]).email@ == form.email@
                            &&& !argon_matches(
                                old(self).users.conn.db()[i].password@,
                                form.password@,
                            )
                            &&& final(self).users.sess.secrets() == old(self).users.sess.secrets()
                        },
                    Error::UserNotFoundError => exists|i: int|
                        0 <= i < old(self).users.conn.db().len() && (#[trigger] old(
                            self,
                        ).users.conn.db()[i]).email@ == form.email@ && old(
                            self,
                        ).users.conn.db()[i].id is None && final(self).users.sess.secrets()
                            == old(self).users.sess.secrets(),
                    Error::StoreUnavailable => final(self).users.sess.secrets() == old(
                        self,
                    ).users.sess.secrets(),
                    _ => false,
                },
            },
    {
        self.users.login_for(form, seconds)
    }

    /// Creates a new account from a signup form. The client is not
    /// logged in as a side effect: a caller wanting a session logs in
    /// with the same credentials afterwards.
    pub fn signup(&mut self, form: &Signup) -> (r: Result<(), Error>)
        ensures
            final(self).users.sess == old(self).users.sess,
            final(self).session == old(self).session,
            match r {
                Ok(_) => ({
                    &&& valid_email(form.email@)
                    &&& secure_password(form.password@)
                    &&& !email_taken(old(self).users.conn.db(), form.email@)
                    &&& final(self).users.conn.db().len() == old(self).users.conn.db().len() + 1
                    &&& final(self).users.conn.db().drop_last() == old(self).users.conn.db()
                    &&& registered_user(
                        final(self).users.conn.db().last(),
                        old(self).users.conn.db(),
                        form.email@,
                        form.password@,
                        false,
                    )
                }),
                Err(e) => final(self).users.conn.db() == old(self).users.conn.db() && match e {
                    Error::InvalidEmailAddressError => !valid_email(form.email@),
                    Error::PasswordPolicyViolation(vs) => valid_email(form.email@) && vs@
                        == violations_of(form.password@) && !secure_password(form.password@),
                    Error::EmailAlreadyExists => valid_email(form.email@) && secure_password(
                        form.password@,
                    ) && email_taken(old(self).users.conn.db(), form.email@)
                        && vstd::utf8::encode_utf8(form.password@).len() <= MAX_PASSWORD_BYTES,
                    Error::HashingFailure => valid_email(form.email@) && secure_password(
                        form.password@,
                    ) && vstd::utf8::encode_utf8(form.password@).len() > MAX_PASSWORD_BYTES,
                    Error::StoreUnavailable => valid_email(form.email@) && secure_password(
                        form.password@,
                    ) && vstd::utf8::encode_utf8(form.password@).len() <= MAX_PASSWORD_BYTES,
                    _ => false,
                },
            },
    {
        self.users.signup(form)
    }

    /// Creates a new account and immediately logs it in for the given
    /// number of seconds, returning the fresh session.
    pub fn signup_for(&mut self, form: &Signup, seconds: i64) -> (r: Result<Session, Error>)
        requires
            seconds >= 0,
        ensures
            final(self).session == old(self).session,
            match r {
                Ok(s) => ({
                    &&& valid_email(form.email@)
                    &&& secure_password(form.password@)
                    &&& !email_taken(old(self).users.conn.db(), form.email@)
                    &&& final(self).users.conn.db().len() == old(self).users.conn.db().len() + 1
                    &&& final(self).users.conn.db().drop_last() == old(self).users.conn.db()
                    &&& registered_user(
                        final(self).users.conn.db().last(),
                        old(self).users.conn.db(),
                        form.email@,
                        form.password@,
                        false,
                    )
                    &&& s.auth_key@.len() == 10
                    &&& s.email@ == form.email@
                    &&& authenticated(final(self).users.sess.secrets(), s.id, s.auth_key@)
                    &&& final(self).users.sess.secrets() == old(self).users.sess.secrets().insert(
                        s.id,
                        s.auth_key@,
                    )
                }),
                Err(e) => ({
                    &&& final(self).users.sess.secrets() == old(self).users.sess.secrets()
                    &&& (final(self).users.conn.db() == old(self).users.conn.db() || (final(self).users.conn.db().len() == old(self).users.conn.db().len() + 1 && final(self).users.conn.db().drop_last() == old(self).users.conn.db() && registered_user(
                        final(self).users.conn.db().last(),
                        old(self).users.conn.db(),
                        form.email@,
                        form.password@,
                        false,
                    )))
                    &&& match e {
                        Error::InvalidEmailAddressError => !valid_email(form.email@),
                        Error::PasswordPolicyViolation(vs) => valid_email(form.email@) && vs@
                            == violations_of(form.password@) && !secure_password(form.password@),
                        Error::EmailAlreadyExists => valid_email(form.email@)
                            && secure_password(form.password@) && email_taken(
                            old(self).users.conn.db(),
                            form.email@,
                        ) && vstd::utf8::encode_utf8(form.password@).len() <= MAX_PASSWORD_BYTES,
                        Error::HashingFailure => valid_email(form.email@) && secure_password(
                            form.password@,
                        ) && vstd::utf8::encode_utf8(form.password@).len() > MAX_PASSWORD_BYTES,
                        Error::StoreUnavailable => valid_email(form.email@) && secure_password(
                            form.password@,
                        ) && vstd::utf8::encode_utf8(form.password@).len() <= MAX_PASSWORD_BYTES,
                        _ => false,
                    }
                }),
            },
    {
        match self.users.signup(form) {
            Ok(_) => {},
            Err(e) => {
                return Err(e);
            },
        }
        let login_form = Login { email: form.email.clone(), password: form.password.clone() };
        match self.users.login_for(&login_form, seconds) {
            Ok(s) => Ok(s),
            Err(e) => {
                proof {
                    // The record just created is the only one carrying the
                    // form's email, so the login can only have failed on
                    // the store, never on the credentials.
                    let db0 = old(self).users.conn.db();
                    let db1 = self.users.conn.db();
                    assert(email_taken(db1, form.email@)) by {
                        assert((db1[db1.len() - 1]).email@ == form.email@);
                    }
                    assert forall|i: int|
                        0 <= i < db1.len() && (#[trigger] db1[i]).email@
                            == form.email@ implies db1[i] == db1.last() by {
                        if i < db1.len() - 1 {
                            assert(db1.drop_last()[i] == db1[i]);
                            assert((db0[i]).email@ == form.email@);
                            assert(email_taken(db0, form.email@));
                        }
                    }
                }
                Err(e)
            },
        }
    }

    /// Whether the presented session is currently authenticated: it must
    /// exist and its key must exactly match the stored secret.
    pub fn is_auth(&self) -> (r: bool)
        ensures
            r == self.session_auth(),
    {
        match &self.session {
            Some(session) => self.users.is_auth(session),
            None => false,
        }
    }

    /// The account the presented session belongs to, or `None` if the
    /// session does not authenticate or the record cannot be fetched:
    /// resolution fails closed instead of surfacing backend errors.
    pub fn get_user(&self) -> (r: Option<User>)
        ensures
            !self.session_auth() ==> r is None,
            r matches Some(u) ==> ({
                &&& self.session_auth()
                &&& exists|i: int|
                    0 <= i < self.users.conn.db().len() && #[trigger] self.users.conn.db()[i] == u
                        && u.id == Some(self.session_id())
            }),
    {
        if !self.is_auth() {
            return None;
        }
        let id = match &self.session {
            Some(session) => session.id,
            None => {
                return None;
            },
        };
        match self.users.get_by_id(id) {
            Ok(user) => Some(user),
            Err(_) => None,
        }
    }

    /// Revokes the presented session's stored key. Logging out a session
    /// that is already invalid is a harmless no-op; only a request that
    /// presented no session at all is refused.
    pub fn logout(&mut self) -> (r: Result<(), Error>)
        ensures
            final(self).users.conn == old(self).users.conn,
            final(self).session == old(self).session,
            match r {
                Ok(_) => old(self).session matches Some(s) && final(self).users.sess.secrets()
                    == if authenticated(
                    old(self).users.sess.secrets(),
                    s.id,
                    s.auth_key@,
                ) {
                    old(self).users.sess.secrets().remove(s.id)
                } else {
                    old(self).users.sess.secrets()
                },
                Err(e) => final(self).users.sess.secrets() == old(self).users.sess.secrets() && ((e
                    == Error::UnauthenticatedError && old(self).session is None) || (e
                    == Error::StoreUnavailable && old(self).session_auth())),
            },
    {
        let session = match &self.session {
            Some(s) => s.clone(),
            None => {
                return Err(Error::UnauthenticatedError);
            },
        };
        self.users.logout(&session)
    }

    /// Deletes the authenticated account: the session key is revoked
    /// first, then the record is removed, so a failure partway never
    /// leaves a deleted record with a live session.
    pub fn delete(&mut self) -> (r: Result<(), Error>)
        ensures
            final(self).session == old(self).session,
            match r {
                Ok(_) => ({
                    &&& old(self).session_auth()
                    &&& final(self).users.sess.secrets() == old(self).users.sess.secrets().remove(
                        old(self).session_id(),
                    )
                    &&& !authenticated(
                        final(self).users.sess.secrets(),
                        old(self).session_id(),
                        old(self).session.unwrap().auth_key@,
                    )
                    &&& (id_present(old(self).users.conn.db(), old(self).session_id())
                        ==> exists|i: int|
                        0 <= i < old(self).users.conn.db().len() && (#[trigger] old(
                            self,
                        ).users.conn.db()[i]).id == Some(old(self).session_id()) && final(self).users.conn.db() == old(self).users.conn.db().remove(i))
                    &&& (!id_present(old(self).users.conn.db(), old(self).session_id()) ==> final(self).users.conn.db() == old(self).users.conn.db())
                }),
                Err(e) => match e {
                    Error::UnauthenticatedError => !old(self).session_auth() && final(self).users
                        == old(self).users,
                    Error::StoreUnavailable => ({
                        &&& old(self).session_auth()
                        &&& final(self).users.conn.db() == old(self).users.conn.db()
                        &&& (final(self).users.sess.secrets() == old(
                            self,
                        ).users.sess.secrets().remove(old(self).session_id()) || final(self).users.sess.secrets() == old(self).users.sess.secrets())
                    }),
                    _ => false,
                },
            },
    {
        if self.is_auth() {
            let id = match &self.session {
                Some(session) => session.id,
                None => {
                    return Err(Error::UnauthenticatedError);
                },
            };
            match self.users.delete(id) {
                Ok(_) => Ok(()),
                Err(e) => Err(e),
            }
        } else {
            Err(Error::UnauthenticatedError)
        }
    }

    /// Resets the authenticated account's password after re-validating
    /// the policy; the session stays live. The current password is not
    /// re-checked: the operation is gated by the live session alone.
    pub fn change_password(&mut self, password: &str) -> (r: Result<(), Error>)
        ensures
            final(self).session == old(self).session,
            final(self).users.sess == old(self).users.sess,
            match r {
                Ok(_) => ({
                    &&& old(self).session_auth()
                    &&& secure_password(password@)
                    &&& exists|i: int|
                        {
                            &&& 0 <= i < old(self).users.conn.db().len()
                            &&& (#[trigger] old(self).users.conn.db()[i]).id == Some(
                                old(self).session_id(),
                            )
                            &&& exists|v: User|
                                {
                                    &&& final(self).users.conn.db() == old(
                                        self,
                                    ).users.conn.db().update(i, v)
                                    &&& is_digest_of(v.password@, password@)
                                    &&& argon_matches(v.password@, password@)
                                    &&& exists|j: int|
                                        0 <= j < old(self).users.conn.db().len() && (#[trigger] old(
                                            self,
                                        ).users.conn.db()[j]).id == Some(old(self).session_id())
                                            && v == (User {
                                            password: v.password,
                                            ..old(self).users.conn.db()[j]
                                        })
                                }
                        }
                }),
                Err(e) => final(self).users.conn.db() == old(self).users.conn.db() && match e {
                    Error::UnauthorizedError => !old(self).session_auth(),
                    Error::PasswordPolicyViolation(vs) => old(self).session_auth() && vs@
                        == violations_of(password@) && !secure_password(password@),
                    Error::HashingFailure => old(self).session_auth() && secure_password(
                        password@,
                    ) && vstd::utf8::encode_utf8(password@).len() > MAX_PASSWORD_BYTES,
                    Error::UserNotFoundError => old(self).session_auth() && !id_present(
                        old(self).users.conn.db(),
                        old(self).session_id(),
                    ),
                    Error::EmailAlreadyExists => old(self).session_auth() && secure_password(
                        password@,
                    ) && exists|j: int, k: int|
                        {
                            &&& 0 <= j < old(self).users.conn.db().len()
                            &&& 0 <= k < old(self).users.conn.db().len()
                            &&& (#[trigger] old(self).users.conn.db()[j]).id == Some(
                                old(self).session_id(),
                            )
                            &&& (#[trigger] old(self).users.conn.db()[k]).id != Some(
                                old(self).session_id(),
                            )
                            &&& old(self).users.conn.db()[k].email@ == old(
                                self,
                            ).users.conn.db()[j].email@
                        },
                    Error::StoreUnavailable => old(self).session_auth(),
                    _ => false,
                },
            },
    {
        if !self.is_auth() {
            return Err(Error::UnauthorizedError);
        }
        let id = match &self.session {
            Some(session) => session.id,
            None => {
                return Err(Error::UnauthorizedError);
            },
        };
        let mut user = match self.users.get_by_id(id) {
            Ok(u) => u,
            Err(e) => {
                return Err(e);
            },
        };
        match user.set_password(password) {
            Ok(_) => {},
            Err(e) => {
                return Err(e);
            },
        }
        self.users.modify(&user)
    }

    /// Marks the authenticated account verified if `token` matches its
    /// stored verification token exactly; any other token changes
    /// nothing and reports the mismatch. A request without a live
    /// session is refused as unauthenticated.
    pub fn verify_account(&mut self, token: &str) -> (r: Result<(), Error>)
        ensures
            final(self).session == old(self).session,
            final(self).users.sess == old(self).users.sess,
            match r {
                Ok(_) => ({
                    &&& old(self).session_auth()
                    &&& exists|i: int, j: int|
                        {
                            &&& 0 <= i < old(self).users.conn.db().len()
                            &&& 0 <= j < old(self).users.conn.db().len()
                            &&& (#[trigger] old(self).users.conn.db()[i]).id == Some(
                                old(self).session_id(),
                            )
                            &&& (#[trigger] old(self).users.conn.db()[j]).id == Some(
                                old(self).session_id(),
                            )
                            &&& old(self).users.conn.db()[j].verification_token@ == token@
                            &&& final(self).users.conn.db() == old(self).users.conn.db().update(
                                i,
                                (User { is_verified: true, ..old(self).users.conn.db()[j] }),
                            )
                        }
                }),
                Err(e) => final(self).users.conn.db() == old(self).users.conn.db() && match e {
                    Error::UnauthenticatedError => !old(self).session_auth(),
                    Error::VerificationTokenMismatch => old(self).session_auth() && exists|j: int|
                        0 <= j < old(self).users.conn.db().len() && (#[trigger] old(
                            self,
                        ).users.conn.db()[j]).id == Some(old(self).session_id()) && old(
                            self,
                        ).users.conn.db()[j].verification_token@ != token@,
                    Error::UserNotFoundError => old(self).session_auth() && !id_present(
                        old(self).users.conn.db(),
                        old(self).session_id(),
                    ),
                    Error::EmailAlreadyExists => old(self).session_auth() && exists|j: int, k: int|
                        {
                            &&& 0 <= j < old(self).users.conn.db().len()
                            &&& 0 <= k < old(self).users.conn.db().len()
                            &&& (#[trigger] old(self).users.conn.db()[j]).id == Some(
                                old(self).session_id(),
                            )
                            &&& (#[trigger] old(self).users.conn.db()[k]).id != Some(
                                old(self).session_id(),
                            )
                            &&& old(self).users.conn.db()[k].email@ == old(
                                self,
                            ).users.conn.db()[j].email@
                        },
                    Error::StoreUnavailable => old(self).session_auth(),
                    _ => false,
                },
            },
    {
        if !self.is_auth() {
            return Err(Error::UnauthenticatedError);
        }
        let id = match &self.session {
            Some(session) => session.id,
            None => {
                return Err(Error::UnauthenticatedError);
            },
        };
        let mut user = match self.users.get_by_id(id) {
            Ok(u) => u,
            Err(e) => {
                return Err(e);
            },
        };
        match user.set_verified(token) {
            Ok(_) => {},
            Err(e) => {
                return Err(e);
            },
        }
        self.users.modify(&user)
    }

    /// Replaces the authenticated account's email address after
    /// validating its syntax.
    pub fn change_email(&mut self, email: String) -> (r: Result<(), Error>)
        ensures
            final(self).session == old(self).session,
            final(self).users.sess == old(self).users.sess,
            match r {
                Ok(_) => ({
                    &&& old(self).session_auth()
                    &&& valid_email(email@)
                    &&& exists|i: int, j: int|
                        {
                            &&& 0 <= i < old(self).users.conn.db().len()
                            &&& 0 <= j < old(self).users.conn.db().len()
                            &&& (#[trigger] old(self).users.conn.db()[i]).id == Some(
                                old(self).session_id(),
                            )
                            &&& (#[trigger] old(self).users.conn.db()[j]).id == Some(
                                old(self).session_id(),
                            )
                            &&& exists|v: User|
                                final(self).users.conn.db() == old(self).users.conn.db().update(
                                    i,
                                    v,
                                ) && v.email@ == email@ && v == (User {
                                    email: v.email,
                                    ..old(self).users.conn.db()[j]
                                })
                        }
                }),
                Err(e) => final(self).users.conn.db() == old(self).users.conn.db() && match e {
                    Error::UnauthorizedError => !old(self).session_auth(),
                    Error::InvalidEmailAddressError => old(self).session_auth() && !valid_email(
                        email@,
                    ),
                    Error::UserNotFoundError => old(self).session_auth() && valid_email(email@)
                        && !id_present(old(self).users.conn.db(), old(self).session_id()),
                    Error::EmailAlreadyExists => old(self).session_auth() && valid_email(email@)
                        && exists|k: int|
                        0 <= k < old(self).users.conn.db().len() && (#[trigger] old(
                            self,
                        ).users.conn.db()[k]).id != Some(old(self).session_id()) && old(
                            self,
                        ).users.conn.db()[k].email@ == email@,
                    Error::StoreUnavailable => old(self).session_auth() && valid_email(email@),
                    _ => false,
                },
            },
    {
        if !self.is_auth() {
            return Err(Error::UnauthorizedError);
        }
        if !email_is_valid(email.as_str()) {
            return Err(Error::InvalidEmailAddressError);
        }
        let id = match &self.session {
            Some(session) => session.id,
            None => {
                return Err(Error::UnauthorizedError);
            },
        };
        let mut user = match self.users.get_by_id(id) {
            Ok(u) => u,
            Err(e) => {
                return Err(e);
            },
        };
        user.email = email;
        self.users.modify(&user)
    }

    /// The presented session, or [`Error::UnauthenticatedError`] if the
    /// request carried none; meant for use with the `?` operator.
    pub fn get_session(&self) -> (r: Result<&Session, Error>)
        ensures
            match r {
                Ok(s) => self.session == Some(*s),
                Err(e) => e == Error::UnauthenticatedError && self.session is None,
            },
    {
        match &self.session {
            Some(s) => Ok(s),
            None => Err(Error::UnauthenticatedError),
        }
    }
}

} // verus!

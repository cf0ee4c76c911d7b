//! User records and the role classification derived from them.

use vstd::prelude::*;
use vstd::string::StringExecFns;
use vstd::string::StringSliceAdditionalSpecFns;
use crate::error::Error;
use crate::forms::email_is_valid;
use crate::forms::secure_password;
use crate::forms::valid_email;
use crate::forms::violations_of;
use crate::forms::check_password;
use crate::hashing::MAX_PASSWORD_BYTES;
use crate::hashing::argon_matches;
use crate::hashing::hash_salted;
use crate::hashing::is_digest_of;

verus! {

/// An identity record.
///
/// The identifier is assigned by the repository on creation and is absent
/// before the record is persisted. The password is held only as an encoded
/// one-way digest, never as plaintext. The two retained prior digests are
/// carried for a future reuse check; no current rule consults them.
pub struct User {
    /// The repository-assigned identifier; `None` before persistence.
    pub id: Option<u64>,
    /// The account's unique email address.
    pub email: String,
    /// Whether the account may act as an administrator (once verified).
    pub is_admin: bool,
    /// Whether the account's email address has been verified.
    pub is_verified: bool,
    /// The single active token that `verify_account` must match.
    pub verification_token: String,
    /// The encoded digest of the current password.
    pub password: String,
    /// The most recently retired password digest, if any.
    pub prev_password: Option<String>,
    /// The digest retired before `prev_password`, if any.
    pub prev_password_1: Option<String>,
    /// A further retired digest, if any.
    pub prev_password_2: Option<String>,
}

impl Clone for User {
    /// Copies the record field for field.
    fn clone(&self) -> (r: Self)
        ensures
            r == *self,
    {
        User {
            id: self.id,
            email: self.email.clone(),
            is_admin: self.is_admin,
            is_verified: self.is_verified,
            verification_token: self.verification_token.clone(),
            password: self.password.clone(),
            prev_password: self.prev_password.clone(),
            prev_password_1: self.prev_password_1.clone(),
            prev_password_2: self.prev_password_2.clone(),
        }
    }
}

impl User {
    /// A fresh, unpersisted record: unverified, with no identifier and no
    /// password history.
    pub fn new(email: String, password_hash: String, verification_token: String, is_admin: bool)
        -> (r: User)
        ensures
            r == (User {
                id: None,
                email: email,
                is_admin: is_admin,
                is_verified: false,
                verification_token: verification_token,
                password: password_hash,
                prev_password: None,
                prev_password_1: None,
                prev_password_2: None,
            }),
    {
        User {
            id: None,
            email,
            is_admin,
            is_verified: false,
            verification_token,
            password: password_hash,
            prev_password: None,
            prev_password_1: None,
            prev_password_2: None,
        }
    }

    /// The repository-assigned identifier of a persisted record.
    pub fn id(&self) -> (r: u64)
        requires
            self.id is Some,
        ensures
            r == self.id.unwrap(),
    {
        match self.id {
            Some(id) => id,
            None => 0,  // excluded by the precondition
        }
    }

    /// The account's email address.
    pub fn email(&self) -> (r: &str)
        ensures
            r@ == self.email@,
    {
        self.email.as_str()
    }

    /// Resets the password to a fresh digest of `new`.
    ///
    /// The new password must satisfy the policy; on rejection every
    /// violation is reported and the record is unchanged. The digest is
    /// derived under a fresh random salt, so the plaintext is never stored.
    pub fn set_password(&mut self, new: &str) -> (r: Result<(), Error>)
        ensures
            match r {
                Ok(_) => secure_password(new@) && is_digest_of(final(self).password@, new@)
                    && argon_matches(final(self).password@, new@) && *final(self) == (User {
                    password: final(self).password,
                    ..*old(self)
                }),
                Err(e) => *final(self) == *old(self) && match e {
                    Error::PasswordPolicyViolation(vs) => vs@ == violations_of(new@)
                        && !secure_password(new@),
                    Error::HashingFailure => secure_password(new@) && new.spec_bytes().len()
                        > MAX_PASSWORD_BYTES,
                    _ => false,
                },
            },
    {
        let vs = check_password(new);
        if vs.len() > 0 {
            return Err(Error::PasswordPolicyViolation(vs));
        }
        match hash_salted(new, 10) {
            Ok(h) => {
                self.password = h;
                Ok(())
            },
            Err(e) => Err(e),
        }
    }

    /// Marks the account verified if `token` matches the stored
    /// verification token exactly; otherwise reports the mismatch and
    /// leaves the record unchanged.
    pub fn set_verified(&mut self, token: &str) -> (r: Result<(), Error>)
        ensures
            match r {
                Ok(_) => old(self).verification_token@ == token@ && *final(self) == (User {
                    is_verified: true,
                    ..*old(self)
                }),
                Err(e) => e == Error::VerificationTokenMismatch
                    && old(self).verification_token@ != token@ && *final(self) == *old(self),
            },
    {
        let t = String::from_str(token);
        if self.verification_token == t {
            self.is_verified = true;
            Ok(())
        } else {
            Err(Error::VerificationTokenMismatch)
        }
    }

    /// Replaces the email address after validating its syntax; a malformed
    /// address is rejected and the record is unchanged.
    pub fn set_email(&mut self, email: &str) -> (r: Result<(), Error>)
        ensures
            match r {
                Ok(_) => valid_email(email@) && final(self).email@ == email@ && *final(self)
                    == (User { email: final(self).email, ..*old(self) }),
                Err(e) => e == Error::InvalidEmailAddressError && !valid_email(email@)
                    && *final(self) == *old(self),
            },
    {
        if email_is_valid(email) {
            self.email = String::from_str(email);
            Ok(())
        } else {
            Err(Error::InvalidEmailAddressError)
        }
    }
}

/// A record that may act as an administrator.
pub struct AdminUser(pub User);

/// A record that is authenticated but has not verified its email address.
pub struct UnverifiedUser(pub User);

impl AdminUser {
    /// Claims administrator standing for `value`: admin standing
    /// requires both the admin flag and a verified account.
    pub fn try_from(value: User) -> (r: Result<AdminUser, Error>)
        ensures
            match r {
                Ok(a) => value.is_admin && value.is_verified && a == AdminUser(value),
                Err(e) => e == Error::UnauthorizedError && !(value.is_admin
                    && value.is_verified),
            },
    {
        if value.is_admin && value.is_verified {
            Ok(AdminUser(value))
        } else {
            Err(Error::UnauthorizedError)
        }
    }

    /// The underlying record.
    pub fn user(&self) -> (r: &User)
        ensures
            r == self.0,
    {
        &self.0
    }
}

impl UnverifiedUser {
    /// The underlying record.
    pub fn user(&self) -> (r: &User)
        ensures
            r == self.0,
    {
        &self.0
    }
}

/// The access class of one resolution: every request falls in exactly one.
pub enum Role {
    /// No session resolved.
    Anonymous,
    /// A session resolved, but the account is not verified.
    Unverified(User),
    /// A session resolved and the account is verified.
    Verified(User),
    /// A session resolved, and the account is verified and an admin.
    Admin(User),
}

/// The class a record resolves to: admin standing requires verification,
/// and verification alone grants the verified class.
pub open spec fn role_of(user: Option<User>) -> Role {
    match user {
        None => Role::Anonymous,
        Some(u) => if u.is_admin && u.is_verified {
            Role::Admin(u)
        } else if u.is_verified {
            Role::Verified(u)
        } else {
            Role::Unverified(u)
        },
    }
}

impl Role {
    /// Classifies one resolved record (or its absence) into its access
    /// class.
    ///
    /// The classification is total, and admin standing requires a verified
    /// account: an admin-flagged but unverified record resolves to the
    /// unverified class.
    pub fn resolve(user: Option<User>) -> (r: Role)
        ensures
            r == role_of(user),
    {
        match user {
            None => Role::Anonymous,
            Some(u) => {
                if u.is_admin && u.is_verified {
                    Role::Admin(u)
                } else if u.is_verified {
                    Role::Verified(u)
                } else {
                    Role::Unverified(u)
                }
            },
        }
    }
}

} // verus!


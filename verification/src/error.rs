//! The error taxonomy of the library, with human-readable messages.

use vstd::prelude::*;
use vstd::string::StringExecFns;

verus! {

/// One way a candidate password can fall short of the policy.
#[derive(Clone, Copy, Debug, PartialEq, Eq, Structural)]
pub enum PasswordViolation {
    /// The password has fewer than eight characters.
    TooShort,
    /// The password has no uppercase character.
    NoUppercase,
    /// The password has no lowercase character.
    NoLowercase,
    /// The password has no numeric character.
    NoDigit,
}

impl PasswordViolation {
    /// The human-readable reason for this violation.
    pub open spec fn message_spec(&self) -> Seq<char> {
        match self {
            PasswordViolation::TooShort => "The password must be at least 8 characters long.\n"@,
            PasswordViolation::NoUppercase => "The password must include at least one uppercase character.\n"@,
            PasswordViolation::NoLowercase => "The password must include at least one lowercase character.\n"@,
            PasswordViolation::NoDigit => "The password has to contain at least one digit.\n"@,
        }
    }

    /// The human-readable reason for this violation.
    pub fn message(&self) -> (r: String)
        ensures
            r@ == self.message_spec(),
    {
        match self {
            PasswordViolation::TooShort => String::from_str(
                "The password must be at least 8 characters long.\n",
            ),
            PasswordViolation::NoUppercase => String::from_str(
                "The password must include at least one uppercase character.\n",
            ),
            PasswordViolation::NoLowercase => String::from_str(
                "The password must include at least one lowercase character.\n",
            ),
            PasswordViolation::NoDigit => String::from_str(
                "The password has to contain at least one digit.\n",
            ),
        }
    }
}

/// The reasons attached to a policy rejection, concatenated in order.
pub open spec fn violation_messages(vs: Seq<PasswordViolation>) -> Seq<char>
    decreases vs.len(),
{
    if vs.len() == 0 {
        Seq::<char>::empty()
    } else {
        vs[0].message_spec() + violation_messages(vs.drop_first())
    }
}

/// An error of the authentication core.
///
/// Backend adapters map their transport failures to [`Error::StoreUnavailable`];
/// every other variant reports a decision of the core itself.
#[derive(Clone, Debug, PartialEq, Eq)]
pub enum Error {
    /// An email address failed syntactic validation.
    InvalidEmailAddressError,
    /// The requested user does not exist.
    UserNotFoundError,
    /// The operation failed because the client is not authenticated.
    UnauthenticatedError,
    /// A login was attempted for an email that is not registered.
    EmailDoesNotExist(String),
    /// A signup was attempted with an email that is already registered.
    EmailAlreadyExists,
    /// The credentials were incorrect, or the mutation was not allowed.
    UnauthorizedError,
    /// An account-verification request carried the wrong token.
    VerificationTokenMismatch,
    /// The account is authenticated but not verified.
    UnverifiedError,
    /// The candidate password broke the password policy, for these reasons.
    PasswordPolicyViolation(Vec<PasswordViolation>),
    /// A session or user backend was unreachable on a write path.
    StoreUnavailable,
    /// The hashing backend refused the input.
    HashingFailure,
}

impl Error {
    /// The human-readable message of this error.
    pub open spec fn message_spec(&self) -> Seq<char> {
        match self {
            Error::InvalidEmailAddressError => "That is not a valid email address."@,
            Error::UserNotFoundError => "Could not find any user that fits the specified requirements."@,
            Error::UnauthenticatedError => "The operation failed because the client is not authenticated."@,
            Error::EmailDoesNotExist(email) => "The email \""@ + email@
                + "\" is not registered. Try signing up first."@,
            Error::EmailAlreadyExists => "That email address already exists. Try logging in."@,
            Error::UnauthorizedError => "Incorrect email or password."@,
            Error::VerificationTokenMismatch => "Invalid account verification token."@,
            Error::UnverifiedError => "Unverified email address."@,
            Error::PasswordPolicyViolation(vs) => violation_messages(vs@),
            Error::StoreUnavailable => "The backing store is unavailable."@,
            Error::HashingFailure => "The password could not be hashed."@,
        }
    }

    /// The human-readable message of this error.
    pub fn message(&self) -> (r: String)
        ensures
            r@ == self.message_spec(),
    {
        match self {
            Error::InvalidEmailAddressError => String::from_str(
                "That is not a valid email address.",
            ),
            Error::UserNotFoundError => String::from_str(
                "Could not find any user that fits the specified requirements.",
            ),
            Error::UnauthenticatedError => String::from_str(
                "The operation failed because the client is not authenticated.",
            ),
            Error::EmailDoesNotExist(email) => {
                let mut r = String::from_str("The email \"");
                r.append(email.as_str());
                r.append("\" is not registered. Try signing up first.");
                r
            },
            Error::EmailAlreadyExists => String::from_str(
                "That email address already exists. Try logging in.",
            ),
            Error::UnauthorizedError => String::from_str("Incorrect email or password."),
            Error::VerificationTokenMismatch => String::from_str(
                "Invalid account verification token.",
            ),
            Error::UnverifiedError => String::from_str("Unverified email address."),
            Error::PasswordPolicyViolation(vs) => {
                let mut r = String::new();
                let mut i: usize = 0;
                while i < vs.len()
                    invariant
                        i <= vs.len(),
                        r@ == violation_messages(vs@.take(i as int)),
                    decreases vs.len() - i,
                {
                    let m = vs[i].message();
                    r.append(m.as_str());
                    proof {
                        lemma_violation_messages_take(vs@, i as int);
                    }
                    i = i + 1;
                }
                proof {
                    assert(vs@.take(vs@.len() as int) =~= vs@);
                }
                r
            },
            Error::StoreUnavailable => String::from_str("The backing store is unavailable."),
            Error::HashingFailure => String::from_str("The password could not be hashed."),
        }
    }
}

/// Appending the message of `vs[i]` to the messages of `vs.take(i)` yields
/// the messages of `vs.take(i + 1)`.
proof fn lemma_violation_messages_take(vs: Seq<PasswordViolation>, i: int)
    requires
        0 <= i < vs.len(),
    ensures
        violation_messages(vs.take(i + 1)) == violation_messages(vs.take(i))
            + vs[i].message_spec(),
    decreases i,
{
    if i == 0 {
        assert(vs.take(1) =~= seq![vs[0]]);
        assert(vs.take(1).drop_first() =~= Seq::<PasswordViolation>::empty());
        assert(vs.take(0) =~= Seq::<PasswordViolation>::empty());
        assert(violation_messages(vs.take(1)) =~= vs[0].message_spec());
    } else {
        lemma_violation_messages_take(vs.drop_first(), i - 1);
        assert(vs.take(i + 1).drop_first() =~= vs.drop_first().take(i));
        assert(vs.take(i).drop_first() =~= vs.drop_first().take(i - 1));
        assert(vs.take(i + 1)[0] == vs[0]);
        assert(vs.take(i)[0] == vs[0]);
        assert(vs.drop_first()[i - 1] == vs[i]);
        assert(violation_messages(vs.take(i + 1)) == violation_messages(vs.take(i))
            + vs[i].message_spec()) by {
            assert(violation_messages(vs.take(i + 1)) == vs[0].message_spec()
                + violation_messages(vs.drop_first().take(i)));
            assert(violation_messages(vs.take(i)) == vs[0].message_spec()
                + violation_messages(vs.drop_first().take(i - 1)));
        }
    }
}

} // verus!

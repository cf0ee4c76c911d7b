//! Credential forms and the password policy.
//!
//! The policy rules are evaluated independently, so a caller can report
//! every violation of a candidate password at once.

use vstd::prelude::*;
use vstd::string::StrSliceExecFns;
use crate::error::PasswordViolation;

verus! {

/// Whether `s` is a syntactically valid email address, as the validation
/// backend decides it.
pub uninterp spec fn valid_email(s: Seq<char>) -> bool;

/// Relies on validator::ValidateEmail for str: whether `s` is a valid
/// email address, by the HTML5 definition, depends on `s` alone.
#[verifier::external_body]
pub(crate) fn email_is_valid(s: &str) -> (r: bool)
    ensures
        r == valid_email(s@),
{
    validator::ValidateEmail::validate_email(&s)
}

/// Whether `c` has the Unicode Uppercase property, as `char::is_uppercase`
/// decides it.
pub uninterp spec fn uppercase_char(c: char) -> bool;

/// Whether `c` has the Unicode Lowercase property, as `char::is_lowercase`
/// decides it.
pub uninterp spec fn lowercase_char(c: char) -> bool;

/// Whether `c` has the Unicode Numeric property, as `char::is_numeric`
/// decides it.
pub uninterp spec fn numeric_char(c: char) -> bool;

/// Relies on char::is_uppercase: whether `c` is uppercase depends on `c` alone.
pub assume_specification[ char::is_uppercase ](c: char) -> (r: bool)
    ensures
        r == uppercase_char(c),
;

/// Relies on char::is_lowercase: whether `c` is lowercase depends on `c` alone.
pub assume_specification[ char::is_lowercase ](c: char) -> (r: bool)
    ensures
        r == lowercase_char(c),
;

/// Relies on char::is_numeric: whether `c` is numeric depends on `c` alone.
pub assume_specification[ char::is_numeric ](c: char) -> (r: bool)
    ensures
        r == numeric_char(c),
;

/// Whether some character of `p` is uppercase.
pub open spec fn contains_uppercase(p: Seq<char>) -> bool {
    exists|i: int| 0 <= i < p.len() && uppercase_char(#[trigger] p[i])
}

/// Whether some character of `p` is lowercase.
pub open spec fn contains_lowercase(p: Seq<char>) -> bool {
    exists|i: int| 0 <= i < p.len() && lowercase_char(#[trigger] p[i])
}

/// Whether some character of `p` is numeric.
pub open spec fn contains_digit(p: Seq<char>) -> bool {
    exists|i: int| 0 <= i < p.len() && numeric_char(#[trigger] p[i])
}

/// Whether `p` is long enough for the policy: at least eight bytes in
/// its UTF-8 encoding, the unit the length rule counts.
pub open spec fn long_enough(p: Seq<char>) -> bool {
    vstd::utf8::encode_utf8(p).len() >= 8
}

/// Whether `p` satisfies the whole password policy: at least eight
/// bytes, an uppercase, a lowercase, and a digit.
pub open spec fn secure_password(p: Seq<char>) -> bool {
    &&& long_enough(p)
    &&& contains_uppercase(p)
    &&& contains_lowercase(p)
    &&& contains_digit(p)
}

/// The violations of the policy by `p`, reported in rule order.
pub open spec fn violations_of(p: Seq<char>) -> Seq<PasswordViolation> {
    (if !long_enough(p) {
        seq![PasswordViolation::TooShort]
    } else {
        Seq::<PasswordViolation>::empty()
    }) + (if !contains_uppercase(p) {
        seq![PasswordViolation::NoUppercase]
    } else {
        Seq::<PasswordViolation>::empty()
    }) + (if !contains_lowercase(p) {
        seq![PasswordViolation::NoLowercase]
    } else {
        Seq::<PasswordViolation>::empty()
    }) + (if !contains_digit(p) {
        seq![PasswordViolation::NoDigit]
    } else {
        Seq::<PasswordViolation>::empty()
    })
}

/// Checks the minimum-length rule: at least eight bytes.
pub fn is_long(password: &str) -> (r: Result<(), PasswordViolation>)
    ensures
        r matches Ok(_) <==> long_enough(password@),
        r matches Err(v) ==> v == PasswordViolation::TooShort,
{
    if password.as_bytes().len() < 8 {
        Err(PasswordViolation::TooShort)
    } else {
        Ok(())
    }
}

/// Checks the uppercase rule: at least one uppercase character.
pub fn has_uppercase(password: &str) -> (r: Result<(), PasswordViolation>)
    ensures
        r matches Ok(_) <==> contains_uppercase(password@),
        r matches Err(v) ==> v == PasswordViolation::NoUppercase,
{
    let n = password.unicode_len();
    let mut i: usize = 0;
    while i < n
        invariant
            i <= n,
            n == password@.len(),
            forall|j: int| 0 <= j < i ==> !uppercase_char(#[trigger] password@[j]),
        decreases n - i,
    {
        let c = password.get_char(i);
        if c.is_uppercase() {
            return Ok(());
        }
        i = i + 1;
    }
    Err(PasswordViolation::NoUppercase)
}

/// Checks the lowercase rule: at least one lowercase character.
pub fn has_lowercase(password: &str) -> (r: Result<(), PasswordViolation>)
    ensures
        r matches Ok(_) <==> contains_lowercase(password@),
        r matches Err(v) ==> v == PasswordViolation::NoLowercase,
{
    let n = password.unicode_len();
    let mut i: usize = 0;
    while i < n
        invariant
            i <= n,
            n == password@.len(),
            forall|j: int| 0 <= j < i ==> !lowercase_char(#[trigger] password@[j]),
        decreases n - i,
    {
        let c = password.get_char(i);
        if c.is_lowercase() {
            return Ok(());
        }
        i = i + 1;
    }
    Err(PasswordViolation::NoLowercase)
}

/// Checks the digit rule: at least one numeric character.
pub fn has_number(password: &str) -> (r: Result<(), PasswordViolation>)
    ensures
        r matches Ok(_) <==> contains_digit(password@),
        r matches Err(v) ==> v == PasswordViolation::NoDigit,
{
    let n = password.unicode_len();
    let mut i: usize = 0;
    while i < n
        invariant
            i <= n,
            n == password@.len(),
            forall|j: int| 0 <= j < i ==> !numeric_char(#[trigger] password@[j]),
        decreases n - i,
    {
        let c = password.get_char(i);
        if c.is_numeric() {
            return Ok(());
        }
        i = i + 1;
    }
    Err(PasswordViolation::NoDigit)
}

/// Checks the whole policy, reporting the first broken rule.
///
/// The password is acceptable exactly when it has at least eight bytes
/// and contains an uppercase, a lowercase, and a numeric character.
pub fn is_secure(password: &str) -> (r: Result<(), PasswordViolation>)
    ensures
        r matches Ok(_) <==> secure_password(password@),
{
    is_long(password)?;
    has_uppercase(password)?;
    has_lowercase(password)?;
    has_number(password)?;
    Ok(())
}

/// Checks every policy rule independently and returns all violations,
/// in rule order.
///
/// The result is empty exactly when the password has at least eight
/// bytes and contains an uppercase, a lowercase, and a numeric
/// character.
pub fn check_password(password: &str) -> (r: Vec<PasswordViolation>)
    ensures
        r@ == violations_of(password@),
        r@.len() == 0 <==> secure_password(password@),
{
    let mut r: Vec<PasswordViolation> = Vec::new();
    if is_long(password).is_err() {
        r.push(PasswordViolation::TooShort);
    }
    if has_uppercase(password).is_err() {
        r.push(PasswordViolation::NoUppercase);
    }
    if has_lowercase(password).is_err() {
        r.push(PasswordViolation::NoLowercase);
    }
    if has_number(password).is_err() {
        r.push(PasswordViolation::NoDigit);
    }
    proof {
        assert(r@ =~= violations_of(password@));
    }
    r
}

/// The credentials presented to authenticate an existing user.
#[derive(Clone)]
pub struct Login {
    /// The account's email address.
    pub email: String,
    /// The candidate password, in plaintext.
    pub password: String,
}

/// The credentials presented to create a new user.
#[derive(Clone)]
pub struct Signup {
    /// The address the new account will be registered under.
    pub email: String,
    /// The chosen password, in plaintext.
    pub password: String,
}

impl From<Signup> for Login {
    /// Reuses signup credentials to authenticate, field for field.
    fn from(form: Signup) -> (r: Login) {
        Login { email: form.email, password: form.password }
    }
}

impl vstd::std_specs::convert::FromSpecImpl<Signup> for Login {
    open spec fn obeys_from_spec() -> bool {
        true
    }

    open spec fn from_spec(form: Signup) -> Login {
        Login { email: form.email, password: form.password }
    }
}

impl From<Login> for Signup {
    /// Turns login credentials into a signup request, field for field.
    fn from(form: Login) -> (r: Signup) {
        Signup { email: form.email, password: form.password }
    }
}

impl vstd::std_specs::convert::FromSpecImpl<Login> for Signup {
    open spec fn obeys_from_spec() -> bool {
        true
    }

    open spec fn from_spec(form: Login) -> Signup {
        Signup { email: form.email, password: form.password }
    }
}

} // verus!

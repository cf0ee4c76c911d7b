use auth_core::AdminUser;
use auth_core::Auth;
use auth_core::DBConnection;
use auth_core::Error;
use auth_core::Login;
use auth_core::MemoryDb;
use auth_core::MemorySessions;
use auth_core::PasswordViolation;
use auth_core::Role;
use auth_core::Session;
use auth_core::Signup;
use auth_core::UnverifiedUser;
use auth_core::User;
use auth_core::Users;
use auth_core::hash_password;

fn fresh_auth() -> Auth<MemoryDb, MemorySessions> {
    Auth { users: Users::new(MemoryDb::new(), MemorySessions::new()), session: None }
}

fn login_form(email: &str, password: &str) -> Login {
    Login { email: String::from(email), password: String::from(password) }
}

fn signup_form(email: &str, password: &str) -> Signup {
    Signup { email: String::from(email), password: String::from(password) }
}

#[test]
fn signup_then_login_round_trips() {
    let mut auth = fresh_auth();
    auth.signup(&signup_form("a@x.com", "Abc12345")).unwrap();
    let session = auth.login(&login_form("a@x.com", "Abc12345")).unwrap();
    assert_eq!(session.email, "a@x.com");
    assert_eq!(session.auth_key.len(), 15);
    auth.session = Some(session);
    assert!(auth.is_auth());
    let user = auth.get_user().unwrap();
    assert_eq!(user.email(), "a@x.com");
}

#[test]
fn login_with_wrong_password_is_unauthorized() {
    let mut auth = fresh_auth();
    auth.signup(&signup_form("a@x.com", "Abc12345")).unwrap();
    let r = auth.login(&login_form("a@x.com", "wrong"));
    assert_eq!(r.err().unwrap(), Error::UnauthorizedError);
}

#[test]
fn login_with_unknown_email_reveals_absence() {
    let mut auth = fresh_auth();
    let r = auth.login(&login_form("nobody@x.com", "Abc12345"));
    assert_eq!(
        r.err().unwrap(),
        Error::EmailDoesNotExist(String::from("nobody@x.com"))
    );
}

#[test]
fn weak_signup_reports_the_broken_rules() {
    let mut auth = fresh_auth();
    let r = auth.signup(&signup_form("a@x.com", "short1"));
    match r.unwrap_err() {
        Error::PasswordPolicyViolation(vs) => {
            assert!(vs.contains(&PasswordViolation::TooShort));
            assert!(!vs.contains(&PasswordViolation::NoLowercase));
            assert!(!vs.contains(&PasswordViolation::NoDigit));
        },
        other => panic!("expected a policy violation, got {:?}", other),
    }
}

#[test]
fn malformed_signup_email_is_rejected() {
    let mut auth = fresh_auth();
    let r = auth.signup(&signup_form("not-an-email", "Abc12345"));
    assert_eq!(r.unwrap_err(), Error::InvalidEmailAddressError);
}

#[test]
fn duplicate_signup_fails_exactly_once() {
    let mut auth = fresh_auth();
    assert!(auth.signup(&signup_form("dup@x.com", "Abc12345")).is_ok());
    let r = auth.signup(&signup_form("dup@x.com", "Abc12345"));
    assert_eq!(r.unwrap_err(), Error::EmailAlreadyExists);
    assert_eq!(auth.users.get_all_users().len(), 1);
}

#[test]
fn second_login_invalidates_the_first_session() {
    let mut auth = fresh_auth();
    auth.signup(&signup_form("a@x.com", "Abc12345")).unwrap();
    let first = auth.login(&login_form("a@x.com", "Abc12345")).unwrap();
    let second = auth.login(&login_form("a@x.com", "Abc12345")).unwrap();
    assert_ne!(first.auth_key, second.auth_key);
    assert!(!auth.users.is_auth(&first));
    assert!(auth.users.is_auth(&second));
}

#[test]
fn logout_invalidates_the_session() {
    let mut auth = fresh_auth();
    auth.signup(&signup_form("a@x.com", "Abc12345")).unwrap();
    let session = auth.login(&login_form("a@x.com", "Abc12345")).unwrap();
    auth.session = Some(session);
    assert!(auth.is_auth());
    auth.logout().unwrap();
    assert!(!auth.is_auth());
    assert!(auth.get_user().is_none());
    // Logging out an already invalid session is a harmless no-op.
    auth.logout().unwrap();
}

#[test]
fn logout_without_a_session_is_refused() {
    let mut auth = fresh_auth();
    assert_eq!(auth.logout().unwrap_err(), Error::UnauthenticatedError);
}

#[test]
fn verification_requires_the_exact_token() {
    let mut auth = fresh_auth();
    let hash = hash_password("Abc12345").unwrap();
    auth.users.conn.create_user("a@x.com", &hash, "tok123", false).unwrap();
    let session = auth.login(&login_form("a@x.com", "Abc12345")).unwrap();
    auth.session = Some(session);

    let r = auth.verify_account("tok124");
    assert_eq!(r.unwrap_err(), Error::VerificationTokenMismatch);
    assert!(!auth.get_user().unwrap().is_verified);

    auth.verify_account("tok123").unwrap();
    assert!(auth.get_user().unwrap().is_verified);
}

#[test]
fn verification_without_a_live_session_is_refused() {
    let mut auth = fresh_auth();
    let r = auth.verify_account("tok123");
    assert_eq!(r.unwrap_err(), Error::UnauthenticatedError);
}

#[test]
fn change_password_takes_effect_at_next_login() {
    let mut auth = fresh_auth();
    auth.signup(&signup_form("a@x.com", "Abc12345")).unwrap();
    let session = auth.login(&login_form("a@x.com", "Abc12345")).unwrap();
    auth.session = Some(session);

    auth.change_password("Xyz98765").unwrap();
    let r = auth.login(&login_form("a@x.com", "Abc12345"));
    assert_eq!(r.err().unwrap(), Error::UnauthorizedError);
    assert!(auth.login(&login_form("a@x.com", "Xyz98765")).is_ok());
}

#[test]
fn change_password_revalidates_the_policy() {
    let mut auth = fresh_auth();
    auth.signup(&signup_form("a@x.com", "Abc12345")).unwrap();
    let session = auth.login(&login_form("a@x.com", "Abc12345")).unwrap();
    auth.session = Some(session);

    match auth.change_password("weak").unwrap_err() {
        Error::PasswordPolicyViolation(vs) => {
            assert!(vs.contains(&PasswordViolation::TooShort));
        },
        other => panic!("expected a policy violation, got {:?}", other),
    }
    // The old password still works.
    assert!(auth.login(&login_form("a@x.com", "Abc12345")).is_ok());
}

#[test]
fn change_password_requires_authentication() {
    let mut auth = fresh_auth();
    assert_eq!(
        auth.change_password("Xyz98765").unwrap_err(),
        Error::UnauthorizedError
    );
}

#[test]
fn change_email_updates_the_record() {
    let mut auth = fresh_auth();
    auth.signup(&signup_form("a@x.com", "Abc12345")).unwrap();
    let session = auth.login(&login_form("a@x.com", "Abc12345")).unwrap();
    auth.session = Some(session);

    auth.change_email(String::from("b@x.com")).unwrap();
    assert!(auth.users.get_by_email("b@x.com").is_ok());
    assert_eq!(
        auth.users.get_by_email("a@x.com").err().unwrap(),
        Error::UserNotFoundError
    );
}

#[test]
fn change_email_rejects_malformed_addresses() {
    let mut auth = fresh_auth();
    auth.signup(&signup_form("a@x.com", "Abc12345")).unwrap();
    let session = auth.login(&login_form("a@x.com", "Abc12345")).unwrap();
    auth.session = Some(session);

    assert_eq!(
        auth.change_email(String::from("not-an-email")).unwrap_err(),
        Error::InvalidEmailAddressError
    );
    assert!(auth.users.get_by_email("a@x.com").is_ok());
}

#[test]
fn delete_revokes_the_session_and_removes_the_record() {
    let mut auth = fresh_auth();
    auth.signup(&signup_form("a@x.com", "Abc12345")).unwrap();
    let session = auth.login(&login_form("a@x.com", "Abc12345")).unwrap();
    auth.session = Some(session);

    auth.delete().unwrap();
    assert!(!auth.is_auth());
    assert_eq!(
        auth.users.get_by_email("a@x.com").err().unwrap(),
        Error::UserNotFoundError
    );
    assert_eq!(auth.delete().unwrap_err(), Error::UnauthenticatedError);
}

#[test]
fn signup_for_logs_the_new_account_in() {
    let mut auth = fresh_auth();
    let session = auth.signup_for(&signup_form("a@x.com", "Abc12345"), 3600).unwrap();
    assert_eq!(session.email, "a@x.com");
    assert_eq!(session.auth_key.len(), 10);
    assert!(auth.users.is_auth(&session));
}

#[test]
fn login_for_issues_a_short_key() {
    let mut auth = fresh_auth();
    auth.signup(&signup_form("a@x.com", "Abc12345")).unwrap();
    let session = auth.login_for(&login_form("a@x.com", "Abc12345"), 3600).unwrap();
    assert_eq!(session.auth_key.len(), 10);
    assert!(auth.users.is_auth(&session));
}

#[test]
fn get_session_reports_the_presented_session() {
    let mut auth = fresh_auth();
    assert_eq!(auth.get_session().err().unwrap(), Error::UnauthenticatedError);
    auth.session = Some(Session {
        id: 1,
        email: String::from("a@x.com"),
        auth_key: String::from("key"),
        time_stamp: 0,
    });
    assert_eq!(auth.get_session().unwrap().id, 1);
}

#[test]
fn roles_follow_verification_and_admin_flags() {
    let make = |is_admin: bool, is_verified: bool| {
        let mut u = User::new(
            String::from("a@x.com"),
            String::from("digest"),
            String::from("tok"),
            is_admin,
        );
        u.is_verified = is_verified;
        u
    };
    assert!(matches!(Role::resolve(None), Role::Anonymous));
    assert!(matches!(Role::resolve(Some(make(false, false))), Role::Unverified(_)));
    assert!(matches!(Role::resolve(Some(make(false, true))), Role::Verified(_)));
    assert!(matches!(Role::resolve(Some(make(true, true))), Role::Admin(_)));
    // Admin standing requires verification.
    assert!(matches!(Role::resolve(Some(make(true, false))), Role::Unverified(_)));
}

#[test]
fn admin_wrapper_requires_admin_and_verified() {
    let mut admin = User::new(
        String::from("root@x.com"),
        String::from("digest"),
        String::from("tok"),
        true,
    );
    admin.is_verified = true;
    let unverified_admin = User::new(
        String::from("new-root@x.com"),
        String::from("digest"),
        String::from("tok"),
        true,
    );
    let plain = User::new(
        String::from("a@x.com"),
        String::from("digest"),
        String::from("tok"),
        false,
    );
    let wrapped = AdminUser::try_from(admin).ok().unwrap();
    assert_eq!(wrapped.user().email(), "root@x.com");
    // Admin standing requires a verified account, not the flag alone.
    assert_eq!(
        AdminUser::try_from(unverified_admin).err().unwrap(),
        Error::UnauthorizedError
    );
    assert_eq!(AdminUser::try_from(plain).err().unwrap(), Error::UnauthorizedError);
}

#[test]
fn unverified_wrapper_exposes_the_record() {
    let user = User::new(
        String::from("a@x.com"),
        String::from("digest"),
        String::from("tok"),
        false,
    );
    let wrapped = UnverifiedUser(user);
    assert_eq!(wrapped.user().email(), "a@x.com");
}

#[test]
fn create_user_skips_the_policy_but_hashes() {
    let mut users = Users::new(MemoryDb::new(), MemorySessions::new());
    // The administrative path accepts a password the policy would refuse.
    users.create_user("admin@x.com", "weak", true).unwrap();
    let user = users.get_by_email("admin@x.com").unwrap();
    assert!(user.is_admin);
    assert_ne!(user.password, "weak");
    let session = users.login(&login_form("admin@x.com", "weak")).unwrap();
    assert!(users.is_auth(&session));
}

#[test]
fn get_by_id_finds_persisted_records() {
    let mut users = Users::new(MemoryDb::new(), MemorySessions::new());
    users.create_user("a@x.com", "Abc12345", false).unwrap();
    let user = users.get_by_email("a@x.com").unwrap();
    let id = user.id();
    assert_eq!(users.get_by_id(id).unwrap().email(), "a@x.com");
    assert_eq!(users.get_by_id(id + 1).err().unwrap(), Error::UserNotFoundError);
}

#[test]
fn get_all_users_lists_every_record() {
    let mut users = Users::new(MemoryDb::new(), MemorySessions::new());
    assert!(users.get_all_users().is_empty());
    users.create_user("a@x.com", "Abc12345", false).unwrap();
    users.create_user("b@x.com", "Abc12345", false).unwrap();
    let all = users.get_all_users();
    assert_eq!(all.len(), 2);
    assert_eq!(all[0].email(), "a@x.com");
    assert_eq!(all[1].email(), "b@x.com");
}

#[test]
fn modify_replaces_a_record_and_keeps_emails_unique() {
    let mut users = Users::new(MemoryDb::new(), MemorySessions::new());
    users.create_user("a@x.com", "Abc12345", false).unwrap();
    users.create_user("b@x.com", "Abc12345", false).unwrap();
    let mut user = users.get_by_email("a@x.com").unwrap();
    user.set_email("b@x.com").unwrap();
    assert_eq!(users.modify(&user).unwrap_err(), Error::EmailAlreadyExists);
    user.set_email("c@x.com").unwrap();
    users.modify(&user).unwrap();
    assert!(users.get_by_email("c@x.com").is_ok());
}

#[test]
fn signup_attaches_a_fresh_verification_token() {
    let mut users = Users::new(MemoryDb::new(), MemorySessions::new());
    users.signup(&signup_form("a@x.com", "Abc12345")).unwrap();
    users.signup(&signup_form("b@x.com", "Abc12345")).unwrap();
    let a = users.get_by_email("a@x.com").unwrap();
    let b = users.get_by_email("b@x.com").unwrap();
    assert_eq!(a.verification_token.len(), 15);
    assert!(!a.is_verified);
    assert_ne!(a.verification_token, b.verification_token);
}

#[test]
fn repository_deletes_are_idempotent() {
    let mut db = MemoryDb::new();
    db.create_user("a@x.com", "digest", "tok", false).unwrap();
    // Deleting an absent record is not an error and changes nothing.
    db.delete_user_by_email("b@x.com").unwrap();
    assert_eq!(db.get_all_users().len(), 1);
    db.delete_user_by_email("a@x.com").unwrap();
    assert!(db.get_all_users().is_empty());
    db.delete_user_by_id(42).unwrap();
}

#[test]
fn repository_assigns_fresh_identifiers() {
    let mut db = MemoryDb::new();
    db.create_user("a@x.com", "digest", "tok", false).unwrap();
    db.create_user("b@x.com", "digest", "tok", false).unwrap();
    let a = db.get_user_by_email("a@x.com").unwrap();
    let b = db.get_user_by_email("b@x.com").unwrap();
    assert_ne!(a.id.unwrap(), b.id.unwrap());
}

#[test]
fn sessions_carry_an_issuance_instant() {
    let mut auth = fresh_auth();
    auth.signup(&signup_form("a@x.com", "Abc12345")).unwrap();
    let session = auth.login(&login_form("a@x.com", "Abc12345")).unwrap();
    assert!(session.time_stamp > 0);
}

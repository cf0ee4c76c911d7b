//! An authentication and session-management core for server applications.
//!
//! The library validates credentials, issues and revokes session keys,
//! enforces account verification and admin gating, and mediates user-record
//! mutations through a uniform policy (password hashing, email validation,
//! token matching). Persistence is pluggable: the engine runs against any
//! backend that implements the [`DBConnection`] and [`SessionManager`]
//! interfaces.

pub mod auth;
pub mod clock;
pub mod db;
pub mod error;
pub mod forms;
pub mod hashing;
pub mod random;
pub mod session;
pub mod user;
pub mod users;

pub use auth::Auth;
pub use db::DBConnection;
pub use db::MemoryDb;
pub use error::Error;
pub use error::PasswordViolation;
pub use forms::Login;
pub use forms::Signup;
pub use forms::is_secure;
pub use forms::is_long;
pub use forms::has_uppercase;
pub use forms::has_lowercase;
pub use forms::has_number;
pub use forms::check_password;
pub use hashing::hash_password;
pub use hashing::verify_password;
pub use random::rand_string;
pub use session::AuthKey;
pub use session::MemorySessions;
pub use session::Session;
pub use session::SessionManager;
pub use user::AdminUser;
pub use user::Role;
pub use user::UnverifiedUser;
pub use user::User;
pub use users::Users;

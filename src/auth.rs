//! Login decisions and the checks made on each request before a handler
//! runs.

use vstd::prelude::*;
use vstd::string::*;
use crate::config::{Config, PlimUser, name_index, password_accepted};
use crate::external::{bcrypt_verdict, bcrypt_hash};
use crate::errors::PlimErrorKind;
use crate::value::copy_strings;

verus! {

/// What a login token says of its holder.
#[derive(Clone)]
pub struct Claims {
    pub exp: Option<usize>,
    pub username: String,
    pub email: Option<String>,
    pub full_name: Option<String>,
    pub disabled: bool,
    pub roles: Vec<String>,
}

/// The credentials a caller logs in with.
pub struct LoginRequest {
    pub username: String,
    pub password: String,
}

/// Whether the login of `username` with `password` succeeds: both are
/// given, the user exists, and the password check passes.
pub open spec fn login_accepted(config: Config, username: Seq<char>, password: Seq<char>) -> bool {
    let i = name_index(config.users@, username);
    &&& username.len() > 0
    &&& password.len() > 0
    &&& i >= 0
    &&& password_accepted(config.users@[i].1, bcrypt_verdict(password, config.users@[i].1.hashed_password@))
}

/// The claims to sign for a successful login, with no expiry yet; an
/// unauthorized error otherwise.
pub fn login_claims(config: &Config, request: LoginRequest) -> (r: Result<Claims, PlimErrorKind>)
    ensures
        !login_accepted(*config, request.username@, request.password@) ==> (r matches Err(
            PlimErrorKind::Unauthorized(_),
        )),
        login_accepted(*config, request.username@, request.password@) ==> (r matches Ok(c) && {
            let user = config.users@[name_index(config.users@, request.username@)].1;
            &&& c.username@ == request.username@
            &&& c.email == Some(user.email)
            &&& c.full_name == Some(user.full_name)
            &&& c.disabled == user.disabled
            &&& c.roles@ == user.groups@
            &&& c.exp is None
        }),
{
    if request.username.as_str().is_empty() || request.password.as_str().is_empty() {
        return Err(PlimErrorKind::unauthorized("Empty username or password"));
    }
    if !config.check_user_password_is_valid(request.username.as_str(), request.password.as_str()) {
        return Err(PlimErrorKind::unauthorized("Invalid username or password"));
    }
    let user: &PlimUser = match config.get_user(request.username.as_str()) {
        Ok(u) => u,
        Err(_) => return Err(PlimErrorKind::unauthorized("Error getting user")),
    };
    if user.disabled {
        return Err(PlimErrorKind::unauthorized("User is disabled"));
    }
    Ok(
        Claims {
            exp: None,
            username: request.username,
            email: Some(user.email.clone()),
            full_name: Some(user.full_name.clone()),
            disabled: user.disabled,
            roles: copy_strings(&user.groups),
        },
    )
}

/// Whether `s` ends with `t`.
pub open spec fn ends_with(s: Seq<char>, t: Seq<char>) -> bool {
    s.len() >= t.len() && s.subrange(s.len() - t.len(), s.len() as int) == t
}

/// Whether `s` starts with `t`.
pub open spec fn starts_with(s: Seq<char>, t: Seq<char>) -> bool {
    s.len() >= t.len() && s.subrange(0, t.len() as int) == t
}

/// Whether `s` ends with `t`.
pub fn text_ends_with(s: &str, t: &str) -> (r: bool)
    ensures
        r == ends_with(s@, t@),
{
    let n = s.unicode_len();
    let m = t.unicode_len();
    if n < m {
        return false;
    }
    let tail = s.substring_char(n - m, n).to_owned();
    tail == t.to_owned()
}

/// Whether `s` starts with `t`.
pub fn text_starts_with(s: &str, t: &str) -> (r: bool)
    ensures
        r == starts_with(s@, t@),
{
    let n = s.unicode_len();
    let m = t.unicode_len();
    if n < m {
        return false;
    }
    let head = s.substring_char(0, m).to_owned();
    head == t.to_owned()
}

/// Whether a request path needs no login token: the health check, the
/// login itself, and webhook calls, which carry their own secret.
pub open spec fn auth_skipped_spec(path: Seq<char>) -> bool {
    ends_with(path, "/healthz"@) || ends_with(path, "/login"@) || starts_with(path, "/api/v1/webhook"@)
}

/// Whether a request path needs no login token.
pub fn auth_skipped(path: &str) -> (r: bool)
    ensures
        r == auth_skipped_spec(path@),
{
    text_ends_with(path, "/healthz") || text_ends_with(path, "/login") || text_starts_with(
        path,
        "/api/v1/webhook",
    )
}

/// The token of an `Authorization` header of the form `Bearer <token>`.
pub fn bearer_token(header: &str) -> (r: Option<String>)
    ensures
        starts_with(header@, "Bearer "@) ==> (r matches Some(t) && t@ == header@.subrange(
            "Bearer "@.len() as int,
            header@.len() as int,
        )),
        !starts_with(header@, "Bearer "@) ==> r is None,
{
    let prefix = "Bearer ";
    if text_starts_with(header, prefix) {
        let n = header.unicode_len();
        let m = prefix.unicode_len();
        Some(header.substring_char(m, n).to_owned())
    } else {
        None
    }
}

/// A password to hash.
pub struct PasswordStringRequest {
    pub password: String,
}

/// A password hash to hand to an administrator.
pub struct GenPasswordHash {
    pub password_hash: String,
}

impl GenPasswordHash {
    /// The hash that hashing gave, or an empty hash when it failed.
    pub fn from_outcome(outcome: Option<String>) -> (r: Self)
        ensures
            r.password_hash@ == match outcome {
                Some(h) => h@,
                None => Seq::<char>::empty(),
            },
    {
        match outcome {
            Some(h) => GenPasswordHash { password_hash: h },
            None => GenPasswordHash { password_hash: String::new() },
        }
    }

    /// A bcrypt hash of `password` under a fresh salt; empty when hashing
    /// fails.
    pub fn new(password: String) -> (r: Self) {
        GenPasswordHash::from_outcome(bcrypt_hash(password.as_str()))
    }
}

} // verus!

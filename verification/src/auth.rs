//! Accounts and sessions: users, sign-up, sign-in, sign-out, and who is
//! signed in.

use vstd::prelude::*;

use crate::text::{dec_digits, push_decimal};
use crate::token::{create_token, issued_payload, jwt_hs256_token, Claims, TOKEN_LIFETIME_SECS};

verus! {

/// The name of the cookie that holds the session token.
pub fn token_cookie_name() -> (s: &'static str)
    ensures
        s@ == "todo-token"@,
{
    "todo-token"
}

/// Why an account operation was refused.
#[derive(Debug, Clone, PartialEq, Eq)]
pub enum AuthError {
    /// No account has the given name.
    UserNotFound,
    /// The password does not match the account.
    WrongCredentials,
    /// An account with the given name exists already.
    UserAlreadyExists,
    /// The stored password hash could not be checked; the text says why.
    PasswordCheck(String),
    /// The password could not be hashed; the text says why.
    PasswordHash(String),
    /// The session token could not be made; the text says why.
    TokenEncoding(String),
}

/// The message shown for `e`.
pub open spec fn auth_error_message(e: AuthError) -> Seq<char> {
    match e {
        AuthError::UserNotFound => "Не найден пользователь!"@,
        AuthError::WrongCredentials => "Неверное имя пользователя или пароль!"@,
        AuthError::UserAlreadyExists => "Пользователь уже существует!"@,
        AuthError::PasswordCheck(t) => t@,
        AuthError::PasswordHash(t) => "Failed hash password: "@ + t@,
        AuthError::TokenEncoding(t) => t@,
    }
}

impl AuthError {
    /// The message shown for this error.
    pub fn message(&self) -> (s: String)
        ensures
            s@ == auth_error_message(*self),
    {
        match self {
            AuthError::UserNotFound => String::from_str("Не найден пользователь!"),
            AuthError::WrongCredentials => String::from_str("Неверное имя пользователя или пароль!"),
            AuthError::UserAlreadyExists => String::from_str("Пользователь уже существует!"),
            AuthError::PasswordCheck(t) => t.clone(),
            AuthError::PasswordHash(t) => {
                let mut s = String::from_str("Failed hash password: ");
                s.append(t.as_str());
                s
            },
            AuthError::TokenEncoding(t) => t.clone(),
        }
    }

    /// The form field that the error is about, where there is one.
    pub fn field(&self) -> (f: Option<&'static str>)
        ensures
            match f {
                Some(name) => *self is UserAlreadyExists && name@ == "name"@,
                None => !(*self is UserAlreadyExists),
            },
    {
        match self {
            AuthError::UserAlreadyExists => Some("name"),
            _ => None,
        }
    }

    /// The machine-readable code of the error, where it has one.
    pub fn code(&self) -> (c: Option<&'static str>)
        ensures
            match c {
                Some(code) => *self is UserAlreadyExists && code@ == "UserAlreadyExist"@,
                None => !(*self is UserAlreadyExists),
            },
    {
        match self {
            AuthError::UserAlreadyExists => Some("UserAlreadyExist"),
            _ => None,
        }
    }
}

/// An account as the application stores and shows it.
#[derive(Debug, Clone, PartialEq, Eq)]
pub struct User {
    pub id: Option<i32>,
    pub username: Option<String>,
    /// The bcrypt hash of the password.
    pub password: Option<String>,
    /// The session token last issued.
    pub token: Option<String>,
}

/// A user, seen as plain values.
pub struct UserView {
    pub id: Option<i32>,
    pub username: Option<Seq<char>>,
    pub password: Option<Seq<char>>,
    pub token: Option<Seq<char>>,
}

impl View for User {
    type V = UserView;

    open spec fn view(&self) -> UserView {
        UserView {
            id: self.id,
            username: self.username.deep_view(),
            password: self.password.deep_view(),
            token: self.token.deep_view(),
        }
    }
}

/// The user with no field set.
pub open spec fn empty_user() -> UserView {
    UserView { id: None, username: None, password: None, token: None }
}

impl Default for User {
    fn default() -> (u: User)
        ensures
            u@ == empty_user(),
    {
        User { id: None, username: None, password: None, token: None }
    }
}

/// Where the browser is sent after an operation.
#[derive(Debug, Clone, PartialEq, Eq)]
pub enum Redirect {
    /// The home page, with the notice numbered `notice` (1: signed in, 2: signed out).
    Home { notice: u32 },
    /// The sign-in page, with a name to fill in and the page to return to.
    SignIn { user_name: String, back_to: BackTo },
}

/// The page to return to after signing in.
#[derive(Debug, Clone, PartialEq, Eq)]
pub enum BackTo {
    Home,
    Page(String),
}

/// Why `bcrypt` refused, with its details as plain values.
#[derive(Debug, Clone, PartialEq, Eq)]
pub enum BcryptFailure {
    /// The cost is outside 4..=31.
    CostNotAllowed(u32),
    /// The hash text is malformed; the reason.
    InvalidHash(String),
    /// No random salt could be had; the random source's message.
    Rand(String),
    /// The password is longer than 72 bytes; its length in bytes.
    Truncation(usize),
}

/// A bcrypt failure, seen as plain values.
pub enum BcryptFailureView {
    CostNotAllowed(u32),
    InvalidHash(Seq<char>),
    Rand(Seq<char>),
    Truncation(usize),
}

impl View for BcryptFailure {
    type V = BcryptFailureView;

    open spec fn view(&self) -> BcryptFailureView {
        match self {
            BcryptFailure::CostNotAllowed(c) => BcryptFailureView::CostNotAllowed(*c),
            BcryptFailure::InvalidHash(s) => BcryptFailureView::InvalidHash(s@),
            BcryptFailure::Rand(s) => BcryptFailureView::Rand(s@),
            BcryptFailure::Truncation(n) => BcryptFailureView::Truncation(*n),
        }
    }
}

/// The text of a bcrypt failure, as `bcrypt` displays it.
pub open spec fn bcrypt_failure_text(f: BcryptFailureView) -> Seq<char> {
    match f {
        BcryptFailureView::CostNotAllowed(c) => "Cost needs to be between 4 and 31, got "@
            + dec_digits(c as nat),
        BcryptFailureView::InvalidHash(reason) => "Invalid hash: "@ + reason,
        BcryptFailureView::Rand(message) => "Rand error: "@ + message,
        BcryptFailureView::Truncation(n) => "Expected 72 bytes or fewer; found "@ + dec_digits(
            n as nat,
        ) + " bytes"@,
    }
}

impl BcryptFailure {
    /// The text of this failure, as `bcrypt` displays it.
    pub fn message(&self) -> (s: String)
        ensures
            s@ == bcrypt_failure_text(self@),
    {
        match self {
            BcryptFailure::CostNotAllowed(c) => {
                let mut s = String::from_str("Cost needs to be between 4 and 31, got ");
                push_decimal(&mut s, *c as u64);
                s
            },
            BcryptFailure::InvalidHash(reason) => {
                let mut s = String::from_str("Invalid hash: ");
                s.append(reason.as_str());
                s
            },
            BcryptFailure::Rand(message) => {
                let mut s = String::from_str("Rand error: ");
                s.append(message.as_str());
                s
            },
            BcryptFailure::Truncation(n) => {
                let mut s = String::from_str("Expected 72 bytes or fewer; found ");
                push_decimal(&mut s, *n as u64);
                s.append(" bytes");
                s
            },
        }
    }
}

/// What `bcrypt::verify(password, hash)` returns, its error taken as plain values.
pub uninterp spec fn bcrypt_verify_outcome(password: Seq<char>, hash: Seq<char>) -> Result<
    bool,
    BcryptFailureView,
>;

/// `bcrypt::verify(password, hash)`: `Some(b)` where it returns `Ok(b)`,
/// `None` where it returns an error.
pub open spec fn bcrypt_check(password: Seq<char>, hash: Seq<char>) -> Option<bool> {
    match bcrypt_verify_outcome(password, hash) {
        Ok(b) => Some(b),
        Err(_) => None,
    }
}

#[verifier::external_type_specification]
#[verifier::external_body]
pub struct ExBcryptError(bcrypt::BcryptError);

/// Calls `bcrypt::verify(password, hash)`, taking its error apart into plain
/// values (the random source's error, as text). The contract names its
/// result: it is a function of the two arguments (the cost and salt are read
/// from the hash; nothing random is involved).
#[verifier::external_body]
fn bcrypt_verify(password: &str, hash: &str) -> (r: Result<bool, BcryptFailure>)
    ensures
        match r {
            Ok(b) => bcrypt_verify_outcome(password@, hash@) == Ok::<bool, BcryptFailureView>(b),
            Err(f) => bcrypt_verify_outcome(password@, hash@) == Err::<bool, BcryptFailureView>(f@),
        },
{
    match bcrypt::verify(password, hash) {
        Ok(b) => Ok(b),
        Err(bcrypt::BcryptError::CostNotAllowed(c)) => Err(BcryptFailure::CostNotAllowed(c)),
        Err(bcrypt::BcryptError::InvalidHash(reason)) => Err(BcryptFailure::InvalidHash(reason.to_string())),
        Err(bcrypt::BcryptError::Rand(e)) => Err(BcryptFailure::Rand(e.to_string())),
        Err(bcrypt::BcryptError::Truncation(n)) => Err(BcryptFailure::Truncation(n)),
    }
}

/// A bcrypt hash text of version 2b at the default cost 12: 60 characters,
/// starting with `$2b$12$`.
pub open spec fn default_cost_hash(h: Seq<char>) -> bool {
    h.len() == 60 && h.subrange(0, 7) == "$2b$12$"@
}

/// Calls `bcrypt::hash(password, bcrypt::DEFAULT_COST)`, taking its error
/// apart into plain values as `bcrypt_verify` does. The salt is random, so
/// the hash is not named; claimed is what every outcome has: `bcrypt::verify`
/// accepts the password against the hash (it re-reads cost and salt from the
/// hash and recomputes the same digest); the hash is the 60-character
/// version-2b text at cost 12, `$2b$12$` then salt and digest; and the only
/// failure is the random source's (cost 12 is allowed, and this hash
/// truncates long passwords rather than refusing them).
#[verifier::external_body]
fn bcrypt_hash(password: &str) -> (r: Result<String, BcryptFailure>)
    ensures
        r matches Ok(h) ==> bcrypt_check(password@, h@) == Some(true) && default_cost_hash(h@),
        r matches Err(f) ==> f is Rand,
{
    match bcrypt::hash(password, bcrypt::DEFAULT_COST) {
        Ok(h) => Ok(h),
        Err(bcrypt::BcryptError::CostNotAllowed(c)) => Err(BcryptFailure::CostNotAllowed(c)),
        Err(bcrypt::BcryptError::InvalidHash(reason)) => Err(BcryptFailure::InvalidHash(reason.to_string())),
        Err(bcrypt::BcryptError::Rand(e)) => Err(BcryptFailure::Rand(e.to_string())),
        Err(bcrypt::BcryptError::Truncation(n)) => Err(BcryptFailure::Truncation(n)),
    }
}

/// The text of a failure to hash a password: the random source could not
/// give a salt, and it said `message`.
pub open spec fn hash_failure_text(message: Seq<char>) -> Seq<char> {
    bcrypt_failure_text(BcryptFailureView::Rand(message))
}

/// The `Set-Cookie` value that stores `token` for a day.
pub open spec fn session_cookie(token: Seq<char>) -> Seq<char> {
    "todo-token="@ + token + "; Path=/; HttpOnly; SameSite=Lax; max-age=86400;"@
}

/// The `Set-Cookie` value that removes the session cookie.
pub open spec fn expired_session_cookie() -> Seq<char> {
    "todo-token=; expires=Thu, 01 Jan 1970 00:00:00 UTC; path=/;"@
}

/// The `Set-Cookie` value that stores `token` for a day.
pub fn session_cookie_for(token: &str) -> (s: String)
    ensures
        s@ == session_cookie(token@),
{
    let mut s = String::from_str("todo-token=");
    s.append(token);
    s.append("; Path=/; HttpOnly; SameSite=Lax; max-age=86400;");
    s
}

/// The `Set-Cookie` value that removes the session cookie.
pub fn expired_session_cookie_value() -> (s: String)
    ensures
        s@ == expired_session_cookie(),
{
    String::from_str("todo-token=; expires=Thu, 01 Jan 1970 00:00:00 UTC; path=/;")
}

/// What a successful sign-in hands back.
#[derive(Debug, Clone, PartialEq, Eq)]
pub struct SignIn {
    /// The new session token.
    pub token: String,
    /// The `Set-Cookie` value that stores it.
    pub cookie: String,
    /// The record to write to the store: the token and nothing else.
    pub stored: User,
    /// The account, without its password hash.
    pub user: User,
    pub redirect: Redirect,
}

/// `u` with the password left out.
pub open spec fn without_password(u: UserView) -> UserView {
    UserView { password: None, ..u }
}

/// What signing in gives for the account `u` at `now` when the password
/// matches: the token issued at `now` for its id and name, its cookie, the
/// record to store, the account without its hash, and a return home.
pub open spec fn sign_in_granted(g: SignIn, u: UserView, secret: Seq<u8>, now: int) -> bool {
    &&& jwt_hs256_token(issued_payload(u.id->0 as int, u.username->0, now), secret) == Some(
        g.token@,
    )
    &&& g.cookie@ == session_cookie(g.token@)
    &&& g.stored@ == UserView { token: Some(g.token@), ..empty_user() }
    &&& g.user@ == without_password(u)
    &&& g.redirect == (Redirect::Home { notice: 1 })
}

/// The plain view of a user that may be missing.
pub open spec fn user_option_view(u: Option<User>) -> Option<UserView> {
    match u {
        Some(u) => Some(u@),
        None => None,
    }
}

/// What signing in with `password` as the account `found` at `now` gives:
/// no account, a hash that cannot be checked, and a wrong password each have
/// their error; a matching password gets a session.
pub open spec fn login_outcome(
    password: Option<Seq<char>>,
    found: Option<UserView>,
    secret: Seq<u8>,
    now: int,
    r: Result<SignIn, AuthError>,
) -> bool {
    match found {
        None => r == Err::<SignIn, AuthError>(AuthError::UserNotFound),
        Some(u) => match bcrypt_verify_outcome(password->0, u.password->0) {
            Err(f) => r matches Err(AuthError::PasswordCheck(t)) && t@ == bcrypt_failure_text(f),
            Ok(false) => r == Err::<SignIn, AuthError>(AuthError::WrongCredentials),
            Ok(true) => r matches Ok(g) && sign_in_granted(g, u, secret, now),
        },
    }
}

/// Signs in, once the sign-in form has passed its field checks, the account
/// `found` (as looked up by name; `None` where there is
/// none) with `password`. The password is checked against the stored bcrypt
/// hash; on a match a session token is issued at `now` (seconds since the
/// epoch) for the account's id and name.
pub fn login(password: Option<String>, found: Option<User>, secret: &[u8], now: i64) -> (r: Result<
    SignIn,
    AuthError,
>)
    requires
        now <= i64::MAX - TOKEN_LIFETIME_SECS,
        found matches Some(u) ==> password is Some && u.password is Some,
        found matches Some(u) ==> (bcrypt_check(password->0@, u.password->0@) == Some(true) ==> u.id is Some
            && u.username is Some),
    ensures
        login_outcome(password.deep_view(), user_option_view(found), secret@, now as int, r),
{
    let u = match found {
        None => return Err(AuthError::UserNotFound),
        Some(u) => u,
    };
    let password = password.unwrap();
    let ghost uv = u@;
    let ok = match bcrypt_verify(password.as_str(), u.password.as_ref().unwrap().as_str()) {
        Ok(b) => b,
        Err(f) => return Err(AuthError::PasswordCheck(f.message())),
    };
    if !ok {
        return Err(AuthError::WrongCredentials);
    }
    let id = u.id.unwrap();
    let name = u.username.as_ref().unwrap().clone();
    let token = create_token(id, name, now, secret)?;
    let cookie = session_cookie_for(token.as_str());
    let stored = User { id: None, username: None, password: None, token: Some(token.clone()) };
    let user = User { password: None, ..u };
    assert(user@ == without_password(uv));
    Ok(SignIn { token, cookie, stored, user, redirect: Redirect::Home { notice: 1 } })
}

/// Whether signing in as `found` with `password` would need the account's id
/// and name but the account lacks one of them: the password matches an
/// account without an id or without a name.
pub open spec fn identity_missing(password: Option<Seq<char>>, found: Option<UserView>) -> bool {
    match found {
        Some(u) => bcrypt_check(password->0, u.password->0) == Some(true) && (u.id is None
            || u.username is None),
        None => false,
    }
}

/// Signs in as `login` does, for any account: `None` exactly where the
/// password matches an account that has no id or no name, for which no
/// session can be issued; otherwise `login`'s result.
pub fn login_checked(password: Option<String>, found: Option<User>, secret: &[u8], now: i64) -> (r:
    Option<Result<SignIn, AuthError>>)
    requires
        now <= i64::MAX - TOKEN_LIFETIME_SECS,
        found matches Some(u) ==> password is Some && u.password is Some,
    ensures
        r is None <==> identity_missing(password.deep_view(), user_option_view(found)),
        r matches Some(res) ==> login_outcome(
            password.deep_view(),
            user_option_view(found),
            secret@,
            now as int,
            res,
        ),
{
    let complete = match &found {
        Some(u) => u.id.is_some() && u.username.is_some(),
        None => true,
    };
    if complete {
        return Some(login(password, found, secret, now));
    }
    let u = found.unwrap();
    let password = password.unwrap();
    match bcrypt_verify(password.as_str(), u.password.as_ref().unwrap().as_str()) {
        Ok(true) => None,
        Ok(false) => Some(Err(AuthError::WrongCredentials)),
        Err(f) => Some(Err(AuthError::PasswordCheck(f.message()))),
    }
}

/// The account to create, once the sign-up form has passed its field checks,
/// for a sign-up with `name` and `password`, where
/// `name_taken` says whether an account with that name exists already: the
/// name and the bcrypt hash of the password, nothing else.
pub fn create_user(name: Option<String>, password: Option<String>, name_taken: bool) -> (r: Result<
    User,
    AuthError,
>)
    requires
        !name_taken ==> password is Some,
    ensures
        name_taken ==> r == Err::<User, AuthError>(AuthError::UserAlreadyExists),
        !name_taken ==> match r {
            Ok(u) => {
                &&& u@.id is None
                &&& u@.token is None
                &&& u@.username == name.deep_view()
                &&& u@.password matches Some(h) && bcrypt_check(password->0@, h) == Some(true)
                    && default_cost_hash(h)
            },
            Err(e) => e matches AuthError::PasswordHash(t) && exists|message: Seq<char>|
                t@ == #[trigger] hash_failure_text(message),
        },
{
    if name_taken {
        return Err(AuthError::UserAlreadyExists);
    }
    let password = password.unwrap();
    match bcrypt_hash(password.as_str()) {
        Ok(h) => Ok(User { id: None, username: name, password: Some(h), token: None }),
        Err(f) => {
            let t = f.message();
            proof {
                let message = f@->Rand_0;
                assert(t@ == hash_failure_text(message));
            }
            Err(AuthError::PasswordHash(t))
        },
    }
}

/// Where to go after the account `created` was stored: to the sign-in page
/// with its name filled in, then home.
pub fn create_user_redirect(created: &User) -> (r: Redirect)
    requires
        created.username is Some,
    ensures
        r matches Redirect::SignIn { user_name, back_to } && user_name@ == created.username->0@
            && back_to == BackTo::Home,
{
    let name = created.username.as_ref().unwrap().clone();
    Redirect::SignIn { user_name: name, back_to: BackTo::Home }
}

/// `r` sends the browser to the sign-in page with `name` filled in, and back to `page`.
pub open spec fn sign_in_then(r: Option<Redirect>, name: Seq<char>, page: Seq<char>) -> bool {
    match r {
        Some(Redirect::SignIn { user_name, back_to: BackTo::Page(p) }) => user_name@ == name && p@
            == page,
        _ => false,
    }
}

/// Who is signed in, and where to send the browser if nobody is.
#[derive(Debug, Clone, PartialEq, Eq)]
pub struct CurrentUser {
    pub user: Option<User>,
    pub redirect: Option<Redirect>,
}

/// The signed-in user for the session cookie `token`, where `claims` are the
/// claims of that token if it is valid (`None` where there is no cookie or
/// the token was refused). Where nobody is signed in and `redirect_to_login`
/// is set, the browser goes to the sign-in page and back to `referer`.
pub fn get_current_user(
    token: Option<String>,
    claims: Option<Claims>,
    redirect_to_login: bool,
    referer: String,
) -> (r: CurrentUser)
    requires
        claims is Some ==> token is Some,
    ensures
        match claims {
            Some(c) => {
                &&& r.redirect is None
                &&& r.user matches Some(u) && u@ == UserView {
                    id: Some(c.user_id),
                    username: Some(c.user_name@),
                    token: token.deep_view(),
                    password: None,
                }
            },
            None => {
                &&& r.user is None
                &&& redirect_to_login ==> sign_in_then(r.redirect, Seq::<char>::empty(), referer@)
                &&& !redirect_to_login ==> r.redirect is None
            },
        },
{
    match claims {
        Some(c) => CurrentUser {
            user: Some(User { id: Some(c.user_id), username: Some(c.user_name), token, password: None }),
            redirect: None,
        },
        None => {
            let redirect = if redirect_to_login {
                Some(Redirect::SignIn { user_name: String::new(), back_to: BackTo::Page(referer) })
            } else {
                None
            };
            CurrentUser { user: None, redirect }
        },
    }
}

/// The account data shown to the browser: the signed-in user, or an empty one.
pub fn auth_data(current: Option<User>) -> (u: User)
    ensures
        match current {
            Some(c) => u == c,
            None => u@ == empty_user(),
        },
{
    match current {
        Some(u) => u,
        None => User::default(),
    }
}

/// What signing out does.
#[derive(Debug, Clone, PartialEq, Eq)]
pub struct SignOut {
    /// Whether somebody was signed in.
    pub signed_out: bool,
    /// The record to write to the store: the account's id and no token.
    pub stored: Option<User>,
    /// The `Set-Cookie` value to send.
    pub cookie: Option<String>,
    pub redirect: Option<Redirect>,
}

/// Signs out `current`, the signed-in user if any: its token is cleared in
/// the store, the cookie removed, and the browser sent home.
pub fn logout(current: Option<User>) -> (r: SignOut)
    ensures
        match current {
            Some(u) => {
                &&& r.signed_out
                &&& r.stored matches Some(s) && s@ == UserView { id: u.id, ..empty_user() }
                &&& r.cookie matches Some(c) && c@ == expired_session_cookie()
                &&& r.redirect == Some(Redirect::Home { notice: 2 })
            },
            None => !r.signed_out && r.stored is None && r.cookie is None && r.redirect is None,
        },
{
    match current {
        Some(u) => SignOut {
            signed_out: true,
            stored: Some(User { id: u.id, username: None, password: None, token: None }),
            cookie: Some(expired_session_cookie_value()),
            redirect: Some(Redirect::Home { notice: 2 }),
        },
        None => SignOut { signed_out: false, stored: None, cookie: None, redirect: None },
    }
}

/// The password an account was created with signs that account in: with the
/// hash that sign-up stored, sign-in grants a session.
pub proof fn lemma_sign_up_then_sign_in(
    password: Seq<char>,
    hash: Seq<char>,
    account: UserView,
    secret: Seq<u8>,
    now: int,
    r: Result<SignIn, AuthError>,
)
    requires
        bcrypt_check(password, hash) == Some(true),
        account.password == Some(hash),
        login_outcome(Some(password), Some(account), secret, now, r),
    ensures
        r matches Ok(g) && sign_in_granted(g, account, secret, now),
{
}

} // verus!

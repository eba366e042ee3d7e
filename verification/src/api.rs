//! The request-level rules of the HTTP surface: what each endpoint decides
//! from the request values it is handed, stated as total functions from
//! plain values to outcome enums that carry the HTTP status.
//!
//! Header reading, JSON and multipart plumbing stay with the server shell;
//! it hands these functions the extracted values and maps each outcome to a
//! response.

use vstd::prelude::*;

use vstd::string::StringSliceAdditionalSpecFns;

use crate::apps::AppStore;
use crate::apps::apps_of_user;
use crate::password::bcrypt_check;
use crate::password::bcrypt_matches;
use crate::password::hash_password;
use crate::password::verify_password;
use crate::token::Claims;
use crate::token::JwtManager;
use crate::token::TOKEN_LIFETIME_SECS;
use crate::token::token_of;
use crate::users::User;
use crate::users::UserStore;
use crate::users::first_identifier_match;
use crate::users::lemma_first_match_is_member;
use crate::users::public_view;
use crate::validate::byte_len;
use crate::validate::is_valid_email;
use crate::validate::is_valid_username;
use crate::validate::lemma_valid_email_has_at;
use crate::validate::valid_email;
use crate::validate::valid_username;

verus! {

/// The body of a registration request.
#[derive(Debug, Clone, PartialEq, Eq)]
pub struct RegisterRequest {
    pub username: String,
    pub email: String,
    pub password: String,
    pub terms: bool,
}

/// The body of a login request.
#[derive(Debug, Clone, PartialEq, Eq)]
pub struct LoginRequest {
    pub username: String,
    pub password: String,
}

/// The query parameters of an app-creation request.
#[derive(Debug, Clone, PartialEq, Eq)]
pub struct CreateAppRequest {
    pub name: String,
    pub description: String,
    pub github_url: String,
}

/// Why a request failed authentication: the Authorization header is missing
/// or not of the `Bearer <token>` shape, or the token does not verify.
#[derive(Debug, Clone, Copy, PartialEq, Eq, Structural)]
pub enum AuthError {
    MissingToken,
    InvalidToken,
}

/// The characters every bearer Authorization header starts with.
pub open spec fn bearer_prefix() -> Seq<char> {
    seq!['B', 'e', 'a', 'r', 'e', 'r', ' ']
}

/// The token carried by an Authorization header value, when the header has
/// the `Bearer <token>` shape.
pub open spec fn bearer_in(h: Seq<char>) -> Option<Seq<char>> {
    if h.len() >= 7 && h.subrange(0, 7) == bearer_prefix() {
        Some(h.skip(7))
    } else {
        None
    }
}

/// The token carried by a request's Authorization header, if any.
pub open spec fn bearer_of(header: Option<&str>) -> Option<Seq<char>> {
    match header {
        Some(h) => bearer_in(h@),
        None => None,
    }
}

/// Strips the `Bearer ` prefix off a header value.
fn bearer_token<'a>(header: &'a str) -> (r: Option<&'a str>)
    ensures
        r matches Some(t) ==> bearer_in(header@) == Some(t@),
        r is None ==> bearer_in(header@) is None,
{
    let len = header.unicode_len();
    if len < 7 {
        return None;
    }
    if header.get_char(0) != 'B' || header.get_char(1) != 'e' || header.get_char(2) != 'a'
        || header.get_char(3) != 'r' || header.get_char(4) != 'e' || header.get_char(5) != 'r'
        || header.get_char(6) != ' ' {
        proof {
            assert(header@.subrange(0, 7) != bearer_prefix());
        }
        return None;
    }
    proof {
        assert(header@.subrange(0, 7) =~= bearer_prefix());
    }
    Some(header.substring_char(7, len))
}

/// Checks a request's Authorization header: extracts the bearer token and
/// validates it against the given clock value. A header carrying a token
/// issued from claims `(s, i, e)` under this manager's secret passes
/// exactly as long as the clock is before `e`.
pub fn authenticate_request(jwt: &JwtManager, auth_header: Option<&str>, now: u64) -> (r: Result<
    Claims,
    AuthError,
>)
    ensures
        (r matches Err(e) && e == AuthError::MissingToken) <==> bearer_of(auth_header) is None,
        r matches Ok(c) ==> now < c.exp,
        forall|s: Seq<char>, i: u64, e: u64|
            bearer_of(auth_header) == Some(#[trigger] token_of(s, i, e, jwt.spec_secret())) && now
                < e ==> (r matches Ok(c) && c.sub@ == s && c.id == i && c.exp == e),
        forall|s: Seq<char>, i: u64, e: u64|
            bearer_of(auth_header) == Some(#[trigger] token_of(s, i, e, jwt.spec_secret())) && now
                >= e ==> (r matches Err(err) && err == AuthError::InvalidToken),
{
    let header = match auth_header {
        Some(h) => h,
        None => {
            return Err(AuthError::MissingToken);
        },
    };
    let token = match bearer_token(header) {
        Some(t) => t,
        None => {
            return Err(AuthError::MissingToken);
        },
    };
    match jwt.validate_token_at(token, now) {
        Ok(c) => Ok(c),
        Err(_) => Err(AuthError::InvalidToken),
    }
}

/// How a registration request was answered; `status_code` gives the HTTP
/// status each case maps to.
#[derive(Debug, Clone, Copy, PartialEq, Eq, Structural)]
pub enum RegisterOutcome {
    Created,
    InvalidUsername,
    InvalidEmail,
    PasswordTooShort,
    TermsNotAccepted,
    UsernameTaken,
    EmailTaken,
    HashingFailed,
}

impl RegisterOutcome {
    pub open spec fn spec_status(self) -> u16 {
        match self {
            RegisterOutcome::Created => 201,
            RegisterOutcome::InvalidUsername => 400,
            RegisterOutcome::InvalidEmail => 400,
            RegisterOutcome::PasswordTooShort => 400,
            RegisterOutcome::TermsNotAccepted => 400,
            RegisterOutcome::UsernameTaken => 409,
            RegisterOutcome::EmailTaken => 409,
            RegisterOutcome::HashingFailed => 500,
        }
    }

    pub fn status_code(&self) -> (r: u16)
        ensures
            r == self.spec_status(),
    {
        match self {
            RegisterOutcome::Created => 201,
            RegisterOutcome::InvalidUsername => 400,
            RegisterOutcome::InvalidEmail => 400,
            RegisterOutcome::PasswordTooShort => 400,
            RegisterOutcome::TermsNotAccepted => 400,
            RegisterOutcome::UsernameTaken => 409,
            RegisterOutcome::EmailTaken => 409,
            RegisterOutcome::HashingFailed => 500,
        }
    }
}

/// The request passes every syntactic registration check: username and
/// email shape, password of at least 8 bytes, terms accepted.
pub open spec fn valid_registration(req: RegisterRequest) -> bool {
    &&& valid_username(req.username@)
    &&& valid_email(req.email@)
    &&& byte_len(req.password@) >= 8
    &&& req.terms
}

/// Answers a registration request: checks the input shape, refuses
/// duplicates as a conflict (never a plain failure), hashes the password
/// and inserts the new user.
pub fn user_register(store: &mut UserStore, req: &RegisterRequest, now: u64) -> (r: RegisterOutcome)
    requires
        old(store).wf(),
        old(store).spec_next_id() < u64::MAX,
    ensures
        final(store).wf(),
        (r == RegisterOutcome::InvalidUsername) <==> !valid_username(req.username@),
        (r == RegisterOutcome::InvalidEmail) <==> valid_username(req.username@) && !valid_email(
            req.email@,
        ),
        (r == RegisterOutcome::PasswordTooShort) <==> valid_username(req.username@) && valid_email(
            req.email@,
        ) && byte_len(req.password@) < 8,
        (r == RegisterOutcome::TermsNotAccepted) <==> valid_username(req.username@) && valid_email(
            req.email@,
        ) && byte_len(req.password@) >= 8 && !req.terms,
        (r == RegisterOutcome::UsernameTaken) <==> valid_registration(*req) && old(
            store,
        ).has_username(req.username@),
        (r == RegisterOutcome::EmailTaken) <==> valid_registration(*req) && !old(
            store,
        ).has_username(req.username@) && old(store).has_email(req.email@),
        (r == RegisterOutcome::Created || r == RegisterOutcome::HashingFailed) <==> (
        valid_registration(*req) && !old(store).has_username(req.username@) && !old(
            store,
        ).has_email(req.email@)),
        r != RegisterOutcome::Created ==> *final(store) == *old(store),
        r == RegisterOutcome::Created ==> {
            &&& final(store).spec_next_id() == old(store).spec_next_id() + 1
            &&& final(store).users_seq().len() == old(store).users_seq().len() + 1
            &&& final(store).users_seq().drop_last() == old(store).users_seq()
            &&& final(store).users_seq().last().id == old(store).spec_next_id()
            &&& final(store).users_seq().last().username == req.username
            &&& final(store).users_seq().last().email == req.email
            &&& final(store).users_seq().last().created_at == now
            &&& final(store).users_seq().last().last_logged_in is None
            &&& final(store).users_seq().last().terms == req.terms
            &&& final(store).users_seq().last().is_admin == false
            &&& (final(store).users_seq().last().password matches Some(h) && bcrypt_matches(
                req.password@,
                h@,
            ) && h@.len() == 60 && h@[0] == '$')
            &&& final(store).has_username(req.username@)
        },
{
    if !is_valid_username(req.username.as_str()) {
        return RegisterOutcome::InvalidUsername;
    }
    if !is_valid_email(req.email.as_str()) {
        return RegisterOutcome::InvalidEmail;
    }
    let password_str = req.password.as_str();
    let password_bytes = password_str.as_bytes().len();
    proof {
        assert(password_str.spec_bytes().len() == byte_len(req.password@));
    }
    if password_bytes < 8 {
        return RegisterOutcome::PasswordTooShort;
    }
    if !req.terms {
        return RegisterOutcome::TermsNotAccepted;
    }
    if store.user_exists_by_username(req.username.as_str()) {
        return RegisterOutcome::UsernameTaken;
    }
    if store.user_exists_by_email(req.email.as_str()) {
        return RegisterOutcome::EmailTaken;
    }
    let hashed = match hash_password(req.password.as_str()) {
        Ok(h) => h,
        Err(_) => {
            return RegisterOutcome::HashingFailed;
        },
    };
    proof {
        lemma_valid_email_has_at(req.email@);
    }
    match store.register_user(req.username.clone(), req.email.clone(), hashed, req.terms, now) {
        Ok(_) => {
            proof {
                crate::text::lemma_eq_ci_refl(req.username@);
                assert(final(store).users_seq().drop_last() =~= old(store).users_seq());
            }
            RegisterOutcome::Created
        },
        Err(_) => {
            proof {
                assert(false);
            }
            RegisterOutcome::HashingFailed
        },
    }
}

/// How a login request was answered; a verification error on the stored
/// hash denies access like a wrong password.
#[derive(Debug, Clone, PartialEq, Eq)]
pub enum LoginOutcome {
    Success(String),
    UserNotFound,
    WrongPassword,
}

impl LoginOutcome {
    pub open spec fn spec_status(self) -> u16 {
        match self {
            LoginOutcome::Success(_) => 200,
            LoginOutcome::UserNotFound => 404,
            LoginOutcome::WrongPassword => 401,
        }
    }

    pub fn status_code(&self) -> (r: u16)
        ensures
            r == self.spec_status(),
    {
        match self {
            LoginOutcome::Success(_) => 200,
            LoginOutcome::UserNotFound => 404,
            LoginOutcome::WrongPassword => 401,
        }
    }
}

/// Answers a login request: finds the user by username or email
/// (case-insensitively), checks the password against the stored hash, and
/// issues a token whose subject is the stored username.
pub fn user_login(store: &UserStore, jwt: &JwtManager, req: &LoginRequest, now: u64) -> (r:
    LoginOutcome)
    requires
        store.wf(),
        now + TOKEN_LIFETIME_SECS <= u64::MAX,
    ensures
        (r == LoginOutcome::UserNotFound) <==> first_identifier_match(
            store.users_seq(),
            req.username@,
        ) is None,
        forall|u: User|
            first_identifier_match(store.users_seq(), req.username@) == Some(u) ==> {
                &&& ((u.password matches Some(h) && bcrypt_check(req.password@, h@) == Some(true))
                    ==> (r matches LoginOutcome::Success(t) && t@ == token_of(
                    u.username@,
                    u.id,
                    (now + TOKEN_LIFETIME_SECS) as u64,
                    jwt.spec_secret(),
                )))
                &&& ((u.password matches Some(h) && bcrypt_check(req.password@, h@) != Some(true))
                    ==> r == LoginOutcome::WrongPassword)
            },
        r matches LoginOutcome::Success(t) ==> t@.len() > 0,
        r matches LoginOutcome::Success(t) ==> exists|u: User|
            first_identifier_match(store.users_seq(), req.username@) == Some(u) && (
            #[trigger] u.password matches Some(h) && bcrypt_matches(req.password@, h@)) && t@
                == token_of(
                u.username@,
                u.id,
                (now + TOKEN_LIFETIME_SECS) as u64,
                jwt.spec_secret(),
            ),
{
    let user = match store.get_user_username_authentication(req.username.as_str()) {
        Ok(u) => u,
        Err(_) => {
            return LoginOutcome::UserNotFound;
        },
    };
    proof {
        lemma_first_match_is_member(store.users_seq(), req.username@);
    }
    let hash = match &user.password {
        Some(h) => h,
        None => {
            proof {
                assert(false);
            }
            return LoginOutcome::WrongPassword;
        },
    };
    match verify_password(req.password.as_str(), hash.as_str()) {
        Ok(true) => {},
        Ok(false) => {
            return LoginOutcome::WrongPassword;
        },
        Err(_) => {
            return LoginOutcome::WrongPassword;
        },
    }
    let t = jwt.generate_token_at(user.username.as_str(), user.id, now);
    LoginOutcome::Success(t)
}

/// How a profile request was answered.
#[derive(Debug, Clone, PartialEq, Eq)]
pub enum GetUserOutcome {
    Success(User),
    MissingToken,
    InvalidToken,
    NotFound,
}

impl GetUserOutcome {
    pub open spec fn spec_status(self) -> u16 {
        match self {
            GetUserOutcome::Success(_) => 200,
            GetUserOutcome::MissingToken => 401,
            GetUserOutcome::InvalidToken => 401,
            GetUserOutcome::NotFound => 404,
        }
    }

    pub fn status_code(&self) -> (r: u16)
        ensures
            r == self.spec_status(),
    {
        match self {
            GetUserOutcome::Success(_) => 200,
            GetUserOutcome::MissingToken => 401,
            GetUserOutcome::InvalidToken => 401,
            GetUserOutcome::NotFound => 404,
        }
    }
}

/// Answers a profile request: authenticates the bearer token and returns
/// the caller's own record, with the credential hash withheld.
pub fn get_user(store: &UserStore, jwt: &JwtManager, auth_header: Option<&str>, now: u64) -> (r:
    GetUserOutcome)
    requires
        store.wf(),
    ensures
        (r == GetUserOutcome::MissingToken) <==> bearer_of(auth_header) is None,
        r matches GetUserOutcome::Success(u) ==> u.password is None && exists|k: int|
            0 <= k < store.users_seq().len() && u == public_view(#[trigger] store.users_seq()[k]),
        forall|s: Seq<char>, i: u64, e: u64|
            bearer_of(auth_header) == Some(#[trigger] token_of(s, i, e, jwt.spec_secret())) && now
                < e ==> {
                &&& store.has_user_id(i) ==> (r matches GetUserOutcome::Success(u) && u.id == i)
                &&& !store.has_user_id(i) ==> r == GetUserOutcome::NotFound
            },
        forall|s: Seq<char>, i: u64, e: u64|
            bearer_of(auth_header) == Some(#[trigger] token_of(s, i, e, jwt.spec_secret())) && now
                >= e ==> r == GetUserOutcome::InvalidToken,
{
    let claims = match authenticate_request(jwt, auth_header, now) {
        Ok(c) => c,
        Err(AuthError::MissingToken) => {
            return GetUserOutcome::MissingToken;
        },
        Err(AuthError::InvalidToken) => {
            return GetUserOutcome::InvalidToken;
        },
    };
    match store.get_user_id(claims.id) {
        Ok(u) => GetUserOutcome::Success(u),
        Err(_) => GetUserOutcome::NotFound,
    }
}

/// How a list-own-apps request was answered.
#[derive(Debug, Clone, PartialEq, Eq)]
pub enum GetOwnAppsOutcome {
    Success(Vec<crate::apps::Apps>),
    MissingToken,
    InvalidToken,
}

impl GetOwnAppsOutcome {
    pub open spec fn spec_status(self) -> u16 {
        match self {
            GetOwnAppsOutcome::Success(_) => 200,
            GetOwnAppsOutcome::MissingToken => 401,
            GetOwnAppsOutcome::InvalidToken => 401,
        }
    }

    pub fn status_code(&self) -> (r: u16)
        ensures
            r == self.spec_status(),
    {
        match self {
            GetOwnAppsOutcome::Success(_) => 200,
            GetOwnAppsOutcome::MissingToken => 401,
            GetOwnAppsOutcome::InvalidToken => 401,
        }
    }
}

/// Answers a list-own-apps request: authenticates the bearer token and
/// returns the records owned by the caller, in stored order.
pub fn get_own_apps(apps: &AppStore, jwt: &JwtManager, auth_header: Option<&str>, now: u64) -> (r:
    GetOwnAppsOutcome)
    ensures
        (r == GetOwnAppsOutcome::MissingToken) <==> bearer_of(auth_header) is None,
        forall|s: Seq<char>, i: u64, e: u64|
            bearer_of(auth_header) == Some(#[trigger] token_of(s, i, e, jwt.spec_secret())) && now
                < e ==> (r matches GetOwnAppsOutcome::Success(v) && v@ == apps_of_user(
                apps.apps_seq(),
                i,
            )),
        forall|s: Seq<char>, i: u64, e: u64|
            bearer_of(auth_header) == Some(#[trigger] token_of(s, i, e, jwt.spec_secret())) && now
                >= e ==> r == GetOwnAppsOutcome::InvalidToken,
{
    let claims = match authenticate_request(jwt, auth_header, now) {
        Ok(c) => c,
        Err(AuthError::MissingToken) => {
            return GetOwnAppsOutcome::MissingToken;
        },
        Err(AuthError::InvalidToken) => {
            return GetOwnAppsOutcome::InvalidToken;
        },
    };
    GetOwnAppsOutcome::Success(apps.get_apps_by_user_id(claims.id))
}

/// How an app-creation request was answered; the uploaded image is already
/// stored under `image_name` by the time the decision runs.
#[derive(Debug, Clone, Copy, PartialEq, Eq, Structural)]
pub enum CreateAppOutcome {
    Created(u64),
    MissingToken,
    InvalidToken,
}

impl CreateAppOutcome {
    pub open spec fn spec_status(self) -> u16 {
        match self {
            CreateAppOutcome::Created(_) => 200,
            CreateAppOutcome::MissingToken => 401,
            CreateAppOutcome::InvalidToken => 401,
        }
    }

    pub fn status_code(&self) -> (r: u16)
        ensures
            r == self.spec_status(),
    {
        match self {
            CreateAppOutcome::Created(_) => 200,
            CreateAppOutcome::MissingToken => 401,
            CreateAppOutcome::InvalidToken => 401,
        }
    }
}

/// Answers an app-creation request: without a bearer token the request is
/// refused whatever the rest carries; with a valid one a record owned by
/// the token's subject is inserted.
pub fn create_app(
    apps: &mut AppStore,
    jwt: &JwtManager,
    auth_header: Option<&str>,
    query: &CreateAppRequest,
    image_name: &str,
    now: u64,
) -> (r: CreateAppOutcome)
    requires
        old(apps).wf(),
        old(apps).spec_next_id() < u64::MAX,
    ensures
        final(apps).wf(),
        (r == CreateAppOutcome::MissingToken) <==> bearer_of(auth_header) is None,
        r == CreateAppOutcome::MissingToken || r == CreateAppOutcome::InvalidToken ==> *final(apps)
            == *old(apps),
        r matches CreateAppOutcome::Created(id) ==> {
            &&& id == old(apps).spec_next_id()
            &&& final(apps).apps_seq().len() == old(apps).apps_seq().len() + 1
            &&& final(apps).apps_seq().drop_last() == old(apps).apps_seq()
            &&& final(apps).apps_seq().last().id == id
            &&& final(apps).apps_seq().last().name@ == query.name@
            &&& final(apps).apps_seq().last().description@ == query.description@
            &&& (final(apps).apps_seq().last().github_url matches Some(g) && g@
                == query.github_url@)
            &&& final(apps).apps_seq().last().image_name@ == image_name@
            &&& final(apps).apps_seq().last().created_at == now
            &&& final(apps).apps_seq().last().updated_at == now
            &&& final(apps).apps_seq().last().is_active == true
        },
        forall|s: Seq<char>, i: u64, e: u64|
            bearer_of(auth_header) == Some(#[trigger] token_of(s, i, e, jwt.spec_secret())) && now
                < e ==> (r matches CreateAppOutcome::Created(id)
                && final(apps).apps_seq().last().user_id == i),
        forall|s: Seq<char>, i: u64, e: u64|
            bearer_of(auth_header) == Some(#[trigger] token_of(s, i, e, jwt.spec_secret())) && now
                >= e ==> r == CreateAppOutcome::InvalidToken,
{
    let claims = match authenticate_request(jwt, auth_header, now) {
        Ok(c) => c,
        Err(AuthError::MissingToken) => {
            return CreateAppOutcome::MissingToken;
        },
        Err(AuthError::InvalidToken) => {
            return CreateAppOutcome::InvalidToken;
        },
    };
    let id = apps.add_app(
        query.name.as_str(),
        query.description.as_str(),
        Some(query.github_url.as_str()),
        image_name,
        claims.id,
        now,
    );
    CreateAppOutcome::Created(id)
}

} // verus!

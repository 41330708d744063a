//! Accounts: checking a login against the stored user, and the signup of
//! the first administrator as a sequence of decisions between the store,
//! the password hasher and the token issuer.
use vstd::prelude::*;

use validator::ValidateEmail;

use crate::error::Error;
use crate::text::{contains_chars, str_chars, string_of};
use crate::web::password::{
    argon2_accepts, cost_refusal, effective_cost, lanes_checkable, phc_parses, records_cost, Argon2Config,
    PasswordAuth,
};
use crate::web::session::{auth_cookie, auth_cookie_text, JwtAuth, TOKEN_EXPIRATION_SECS};
use crate::text::seq_contains;

verus! {

/// A user as the store keeps it.
#[derive(Debug)]
pub struct StoredUser {
    pub id: String,
    pub username: String,
    pub email: String,
    pub password_hash: String,
    pub is_active: Option<bool>,
    pub created_at: String,
}

/// What the `email` rule of the `validator` crate says of a text.
pub uninterp spec fn email_valid(s: Seq<char>) -> bool;

/// The `email` rule of the `validator` crate
/// (`ValidateEmail::validate_email`); the claim is only that the answer
/// is the one `email_valid` names for this text.
#[verifier::external_body]
fn email_is_valid(s: &str) -> (r: bool)
    ensures
        r == email_valid(s@),
{
    s.validate_email()
}

/// A login request.
#[derive(Debug)]
pub struct LoginRequest {
    pub email: String,
    pub password: String,
}

impl LoginRequest {
    /// A valid e-mail address and a password that is not empty.
    pub fn validate(&self) -> (r: bool)
        ensures
            r == (email_valid(self.email@) && self.password@.len() >= 1),
    {
        email_is_valid(self.email.as_str()) && self.password.as_str().unicode_len() >= 1
    }
}

/// The signup request of the first administrator.
#[derive(Debug)]
pub struct SignupRequest {
    pub username: String,
    pub email: String,
    pub password: String,
}

impl SignupRequest {
    /// A user name that is not empty, a valid e-mail address and a password
    /// of at least eight characters.
    pub fn validate(&self) -> (r: bool)
        ensures
            r == (self.username@.len() >= 1 && email_valid(self.email@) && self.password@.len()
                >= 8),
    {
        self.username.as_str().unicode_len() >= 1 && email_is_valid(self.email.as_str())
            && self.password.as_str().unicode_len() >= 8
    }
}

/// The user part of a login answer.
#[derive(Debug)]
pub struct UserInfo {
    pub id: String,
    pub username: String,
    pub email: String,
    pub is_active: bool,
    pub is_admin: bool,
    pub created_at: String,
}

/// A successful login.
#[derive(Debug)]
pub struct LoginResponse {
    pub access_token: String,
    pub token_type: String,
    /// Lifetime of the token in seconds.
    pub expires_in: u64,
    pub user: UserInfo,
}

/// The answer to a successful login or signup of `user`: a bearer token
/// valid for a day and the user as an administrator (active only when the
/// store says so).  The token itself travels only in the HTTP-only cookie,
/// never in the body, so the body's `access_token` is empty.
pub fn login_response(user: StoredUser) -> (r: LoginResponse)
    ensures
        r.access_token@.len() == 0,
        r.token_type@ == "Bearer"@,
        r.expires_in == TOKEN_EXPIRATION_SECS,
        r.user.id == user.id,
        r.user.username == user.username,
        r.user.email == user.email,
        r.user.is_active == (user.is_active == Some(true)),
        r.user.is_admin,
        r.user.created_at == user.created_at,
{
    let is_active = match user.is_active {
        Some(b) => b,
        None => false,
    };
    LoginResponse {
        access_token: String::new(),
        token_type: string_of("Bearer"),
        expires_in: JwtAuth::token_expiration_secs(),
        user: UserInfo {
            id: user.id,
            username: user.username,
            email: user.email,
            is_active,
            is_admin: true,
            created_at: user.created_at,
        },
    }
}

// ---------------------------------------------------------------------------
// Login
// ---------------------------------------------------------------------------

/// The verdict on a login.
#[derive(Debug)]
pub enum LoginVerdict {
    /// The store could not be asked.
    DatabaseError,
    /// No such user, or the wrong password.
    InvalidCredentials,
    /// The user is disabled.
    AccountDisabled,
    /// The password could not be checked.
    AuthenticationError,
    /// Issue a token for this user.
    Accepted(StoredUser),
}

/// Checks a login given what the store answered for the e-mail address:
/// a user must exist, be active, and have a stored hash that accepts the
/// password.
pub fn check_login(lookup: Result<Option<StoredUser>, String>, password: &str, config: &Argon2Config) -> (r:
    LoginVerdict)
    requires
        config.parallelism <= 0x1FFF_FFFF,
    ensures
        match lookup {
            Err(_) => r is DatabaseError,
            Ok(None) => r is InvalidCredentials,
            Ok(Some(u)) => if u.is_active != Some(true) {
                r is AccountDisabled
            } else if !phc_parses(u.password_hash@) || cost_refusal(*config) is Some {
                r is AuthenticationError
            } else if lanes_checkable(u.password_hash@) && argon2_accepts(password@, u.password_hash@) {
                r == LoginVerdict::Accepted(u)
            } else {
                r is InvalidCredentials
            },
        },
{
    match lookup {
        Err(_) => LoginVerdict::DatabaseError,
        Ok(None) => LoginVerdict::InvalidCredentials,
        Ok(Some(u)) => {
            let active = match u.is_active {
                Some(b) => b,
                None => false,
            };
            if !active {
                return LoginVerdict::AccountDisabled;
            }
            match PasswordAuth::verify_password(password, u.password_hash.as_str(), config) {
                Ok(true) => LoginVerdict::Accepted(u),
                Ok(false) => LoginVerdict::InvalidCredentials,
                Err(_) => LoginVerdict::AuthenticationError,
            }
        },
    }
}

/// The answer of the API to a refused login: status, error code and
/// message.
pub open spec fn api_login_refusal(v: LoginVerdict) -> (u16, Seq<char>, Seq<char>) {
    match v {
        LoginVerdict::DatabaseError => (500, "database_error"@, "System error during authentication"@),
        LoginVerdict::InvalidCredentials => (401, "invalid_credentials"@, "Invalid email or password"@),
        LoginVerdict::AccountDisabled => (401, "account_disabled"@, "Account is disabled"@),
        LoginVerdict::AuthenticationError => (
            500,
            "authentication_error"@,
            "Authentication system error"@,
        ),
        LoginVerdict::Accepted(_) => (200, Seq::empty(), Seq::empty()),
    }
}

/// The API's answer to a refused login (see `api_login_refusal`).
pub fn api_login_error(v: &LoginVerdict) -> (r: (u16, &'static str, &'static str))
    requires
        !(v is Accepted),
    ensures
        (r.0, r.1@, r.2@) == api_login_refusal(*v),
{
    match v {
        LoginVerdict::DatabaseError => (500, "database_error", "System error during authentication"),
        LoginVerdict::InvalidCredentials => (401, "invalid_credentials", "Invalid email or password"),
        LoginVerdict::AccountDisabled => (401, "account_disabled", "Account is disabled"),
        LoginVerdict::AuthenticationError => (500, "authentication_error", "Authentication system error"),
        LoginVerdict::Accepted(_) => (200, "", ""),
    }
}

/// The message the login page shows for a refused login.
pub open spec fn page_login_refusal(v: LoginVerdict) -> Seq<char> {
    match v {
        LoginVerdict::DatabaseError => "System error during authentication"@,
        LoginVerdict::InvalidCredentials => "Invalid username or password"@,
        LoginVerdict::AccountDisabled => "Account is disabled"@,
        _ => "Authentication system error"@,
    }
}

/// The login page's message for a refused login (see
/// `page_login_refusal`).
pub fn page_login_error(v: &LoginVerdict) -> (r: &'static str)
    ensures
        r@ == page_login_refusal(*v),
{
    match v {
        LoginVerdict::DatabaseError => "System error during authentication",
        LoginVerdict::InvalidCredentials => "Invalid username or password",
        LoginVerdict::AccountDisabled => "Account is disabled",
        _ => "Authentication system error",
    }
}

// ---------------------------------------------------------------------------
// Signup of the first administrator
// ---------------------------------------------------------------------------

/// Where a signup stands.
#[derive(Debug, Clone, Copy, PartialEq, Eq, Structural)]
pub enum SignupStage {
    /// Waiting to learn whether any user exists.
    CheckingUsers,
    /// Waiting for the new user's record.
    CreatingUser,
    /// Waiting for the token of the new user.
    IssuingToken,
    /// Answered.
    Done,
}

/// What the caller reports back.
#[derive(Debug)]
pub enum SignupEvent {
    /// Whether users exist, or the store's error.
    UsersExist(Result<bool, String>),
    /// The created user, or the store's error.
    UserCreated(Result<StoredUser, String>),
    /// The token, or the issuer's error.
    TokenIssued(Result<String, String>),
}

/// The final answer of a signup.
#[derive(Debug)]
pub enum SignupReply {
    /// Refused: status, error code and message.
    Refused(u16, &'static str, &'static str),
    /// Created: the login answer and the cookie that carries the token.
    Created(LoginResponse, String),
}

/// What the caller is to do next.
#[derive(Debug)]
pub enum SignupAction {
    /// Ask the store whether any user exists.
    CountUsers,
    /// Store a user with this name, address and password hash.
    CreateUser(String, String, String),
    /// Issue a token for this user id and address.
    IssueToken(String, String),
    /// Answer the request.
    Reply(SignupReply),
}

/// A signup in progress.
#[derive(Debug)]
pub struct SignupFlow {
    stage: SignupStage,
    request: SignupRequest,
    user: Option<StoredUser>,
    /// Whether a failed insert that names a unique constraint or the e-mail
    /// address counts as a lost race with another signup (the pages do,
    /// the API does not).
    detect_duplicates: bool,
    secure_cookies: bool,
}

/// The refusal of a store error while creating the user.
pub open spec fn creation_refusal(error: Seq<char>, detect_duplicates: bool) -> (u16, Seq<char>, Seq<char>) {
    if detect_duplicates && (seq_contains(error, "UNIQUE constraint failed"@) || seq_contains(
        error,
        "email"@,
    )) {
        (409, "setup_complete"@, "Setup is already complete. An admin user already exists."@)
    } else {
        (500, "user_creation_failed"@, "Failed to create admin user"@)
    }
}

/// Whether an action is the refusal `(status, code, message)`.
pub open spec fn refuses(a: SignupAction, refusal: (u16, Seq<char>, Seq<char>)) -> bool {
    a matches SignupAction::Reply(SignupReply::Refused(s, c, m)) && (s, c@, m@) == refusal
}

impl SignupFlow {
    pub closed spec fn spec_stage(&self) -> SignupStage {
        self.stage
    }

    pub closed spec fn spec_request(&self) -> SignupRequest {
        self.request
    }

    /// The user created so far, if any.
    pub closed spec fn spec_user(&self) -> Option<StoredUser> {
        self.user
    }

    pub closed spec fn spec_detect_duplicates(&self) -> bool {
        self.detect_duplicates
    }

    pub closed spec fn spec_secure_cookies(&self) -> bool {
        self.secure_cookies
    }

    /// A user exists exactly once the user has been created.
    pub closed spec fn wf(&self) -> bool {
        (self.stage == SignupStage::IssuingToken) == (self.user is Some)
    }

    /// Starts a signup: an invalid request is refused at once (`400`,
    /// `validation_failed`); otherwise the store is asked whether users
    /// exist.
    pub fn start(request: SignupRequest, detect_duplicates: bool, secure_cookies: bool) -> (r: (
        SignupFlow,
        SignupAction,
    ))
        ensures
            r.0.wf(),
            r.0.spec_request() == request,
            r.0.spec_detect_duplicates() == detect_duplicates,
            r.0.spec_secure_cookies() == secure_cookies,
            if request.username@.len() >= 1 && email_valid(request.email@) && request.password@.len()
                >= 8 {
                r.0.spec_stage() == SignupStage::CheckingUsers && r.1 is CountUsers
            } else {
                r.0.spec_stage() == SignupStage::Done && refuses(
                    r.1,
                    (400, "validation_failed"@, "Invalid request data"@),
                )
            },
    {
        let valid = request.validate();
        let stage = if valid {
            SignupStage::CheckingUsers
        } else {
            SignupStage::Done
        };
        let action = if valid {
            SignupAction::CountUsers
        } else {
            SignupAction::Reply(SignupReply::Refused(400, "validation_failed", "Invalid request data"))
        };
        (SignupFlow { stage, request, user: None, detect_duplicates, secure_cookies }, action)
    }

    fn done(self, status: u16, code: &'static str, message: &'static str) -> (r: (SignupFlow, SignupAction))
        ensures
            r.0.wf(),
            r.0.spec_stage() == SignupStage::Done,
            r.0.spec_request() == self.spec_request(),
            r.0.spec_detect_duplicates() == self.spec_detect_duplicates(),
            r.0.spec_secure_cookies() == self.spec_secure_cookies(),
            refuses(r.1, (status, code@, message@)),
    {
        (
            SignupFlow { stage: SignupStage::Done, user: None, ..self },
            SignupAction::Reply(SignupReply::Refused(status, code, message)),
        )
    }

    /// Takes the caller's report and decides the next step.  The first
    /// administrator is created only when the store says no user exists
    /// and the password was hashed; the token is issued only for the user
    /// just created; every failure is answered with its own refusal.
    pub fn advance(self, event: SignupEvent, config: &Argon2Config) -> (r: (SignupFlow, SignupAction))
        requires
            self.wf(),
            config.parallelism <= 0x1FFF_FFFF,
            match event {
                SignupEvent::UsersExist(_) => self.spec_stage() == SignupStage::CheckingUsers,
                SignupEvent::UserCreated(_) => self.spec_stage() == SignupStage::CreatingUser,
                SignupEvent::TokenIssued(_) => self.spec_stage() == SignupStage::IssuingToken,
            },
        ensures
            r.0.wf(),
            r.0.spec_request() == self.spec_request(),
            r.0.spec_detect_duplicates() == self.spec_detect_duplicates(),
            r.0.spec_secure_cookies() == self.spec_secure_cookies(),
            match event {
                SignupEvent::UsersExist(Err(_)) => r.0.spec_stage() == SignupStage::Done && refuses(
                    r.1,
                    (500, "database_error"@, "Failed to check setup status"@),
                ),
                SignupEvent::UsersExist(Ok(true)) => r.0.spec_stage() == SignupStage::Done
                    && refuses(
                    r.1,
                    (409, "setup_complete"@, "Setup is already complete. Users exist in the system."@),
                ),
                SignupEvent::UsersExist(Ok(false)) => match r.1 {
                    SignupAction::CreateUser(name, email, hash) => {
                        &&& r.0.spec_stage() == SignupStage::CreatingUser
                        &&& cost_refusal(*config) is None
                        &&& name@ == self.spec_request().username@
                        &&& email@ == self.spec_request().email@
                        &&& argon2_accepts(self.spec_request().password@, hash@)
                        &&& records_cost(hash@, effective_cost(*config))
                    },
                    _ => r.0.spec_stage() == SignupStage::Done && refuses(
                        r.1,
                        (500, "password_hash_failed"@, "Failed to secure password"@),
                    ) && !(cost_refusal(*config) is None && self.spec_request().password@.len()
                        <= 0x3FFF_FFFF),
                },
                SignupEvent::UserCreated(Err(e)) => r.0.spec_stage() == SignupStage::Done && refuses(
                    r.1,
                    creation_refusal(e@, self.spec_detect_duplicates()),
                ),
                SignupEvent::UserCreated(Ok(u)) => {
                    &&& r.0.spec_stage() == SignupStage::IssuingToken
                    &&& r.0.spec_user() == Some(u)
                    &&& r.1 matches SignupAction::IssueToken(id, email)
                    &&& id@ == u.id@
                    &&& email@ == u.email@
                },
                SignupEvent::TokenIssued(Err(_)) => r.0.spec_stage() == SignupStage::Done && refuses(
                    r.1,
                    (500, "token_creation_failed"@, "Failed to create authentication token"@),
                ),
                SignupEvent::TokenIssued(Ok(token)) => {
                    &&& r.0.spec_stage() == SignupStage::Done
                    &&& self.spec_user() matches Some(u)
                    &&& r.1 matches SignupAction::Reply(SignupReply::Created(resp, cookie))
                    &&& resp.access_token@.len() == 0
                    &&& resp.user.id == u.id
                    &&& resp.user.is_admin
                    &&& resp.expires_in == TOKEN_EXPIRATION_SECS
                    &&& cookie@ == auth_cookie_text(
                        token@,
                        TOKEN_EXPIRATION_SECS,
                        self.spec_secure_cookies(),
                    )
                },
            },
    {
        match event {
            SignupEvent::UsersExist(Err(_)) => self.done(500, "database_error", "Failed to check setup status"),
            SignupEvent::UsersExist(Ok(true)) => self.done(
                409,
                "setup_complete",
                "Setup is already complete. Users exist in the system.",
            ),
            SignupEvent::UsersExist(Ok(false)) => {
                match PasswordAuth::hash_password(self.request.password.as_str(), config) {
                    Ok(hash) => {
                        let name = self.request.username.clone();
                        let email = self.request.email.clone();
                        (
                            SignupFlow { stage: SignupStage::CreatingUser, ..self },
                            SignupAction::CreateUser(name, email, hash),
                        )
                    },
                    Err(_) => self.done(500, "password_hash_failed", "Failed to secure password"),
                }
            },
            SignupEvent::UserCreated(Err(e)) => {
                let text = str_chars(e.as_str());
                let w1 = str_chars("UNIQUE constraint failed");
                let w2 = str_chars("email");
                if self.detect_duplicates && (contains_chars(text.as_slice(), w1.as_slice())
                    || contains_chars(text.as_slice(), w2.as_slice())) {
                    self.done(
                        409,
                        "setup_complete",
                        "Setup is already complete. An admin user already exists.",
                    )
                } else {
                    self.done(500, "user_creation_failed", "Failed to create admin user")
                }
            },
            SignupEvent::UserCreated(Ok(u)) => {
                let id = u.id.clone();
                let email = u.email.clone();
                (
                    SignupFlow { stage: SignupStage::IssuingToken, user: Some(u), ..self },
                    SignupAction::IssueToken(id, email),
                )
            },
            SignupEvent::TokenIssued(Err(_)) => self.done(
                500,
                "token_creation_failed",
                "Failed to create authentication token",
            ),
            SignupEvent::TokenIssued(Ok(token)) => {
                let SignupFlow { stage, request, user, detect_duplicates, secure_cookies } = self;
                let u = match user {
                    Some(u) => u,
                    None => {
                        return (
                            SignupFlow { stage: SignupStage::Done, request, user: None, detect_duplicates, secure_cookies },
                            SignupAction::Reply(
                                SignupReply::Refused(
                                    500,
                                    "token_creation_failed",
                                    "Failed to create authentication token",
                                ),
                            ),
                        );
                    },
                };
                let ghost gu = u;
                let cookie = auth_cookie(token.as_str(), JwtAuth::token_expiration_secs(), secure_cookies);
                let resp = login_response(u);
                (
                    SignupFlow { stage: SignupStage::Done, request, user: None, detect_duplicates, secure_cookies },
                    SignupAction::Reply(SignupReply::Created(resp, cookie)),
                )
            },
        }
    }
}

} // verus!

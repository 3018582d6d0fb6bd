//! Authentication of callers and the authorization port that the HTTP layer
//! asks before it acts.
use vstd::prelude::*;
use vstd::string::StringExecFns;
use crate::errors::ApiError;
use crate::system::current_time_millis;

verus! {

/// The caller a request was authenticated as.
#[derive(Debug, Clone, Copy, PartialEq, Eq, Structural)]
pub struct UserIdentity {
    pub user_id: u128,
}

/// The claims of a bearer token: subject, expiry and issue time in seconds
/// since the Unix epoch.
#[derive(Debug, Clone, Copy, PartialEq, Eq, Structural)]
pub struct Claims {
    pub sub: u128,
    pub exp: i64,
    pub iat: i64,
}

impl Claims {
    /// Whether the token had expired at `now_secs`.
    pub fn is_expired_at(&self, now_secs: i64) -> (r: bool)
        ensures
            r == (self.exp < now_secs),
    {
        self.exp < now_secs
    }

    /// Whether the token has expired by the clock's current time. The clock
    /// never reads before the epoch, so a negative expiry has always passed.
    pub fn is_expired(&self) -> (r: bool)
        ensures
            self.exp < 0 ==> r,
    {
        let now_secs: i64 = current_time_millis() / 1000;
        self.is_expired_at(now_secs)
    }
}

/// Checks the tokens signed with one secret key.
#[derive(Debug, Clone)]
pub struct AuthValidator {
    secret_key: String,
}

impl AuthValidator {
    pub fn new(secret_key: String) -> (r: AuthValidator)
        ensures
            r.secret_key() == secret_key,
    {
        AuthValidator { secret_key }
    }

    /// The key that tokens are signed with.
    pub closed spec fn secret_key(&self) -> String {
        self.secret_key
    }

    /// The key that tokens are signed with.
    pub fn key(&self) -> (r: &String)
        ensures
            *r == self.secret_key(),
    {
        &self.secret_key
    }

    /// The identity that a token's claims stand for at `now_secs`. Claims that
    /// could not be decoded (`None`), or that have expired, are
    /// `Unauthorized`.
    pub fn validate_claims(&self, claims: Option<Claims>, now_secs: i64) -> (r: Result<
        UserIdentity,
        ApiError,
    >)
        ensures
            claims is None ==> (r matches Err(e) && e is Unauthorized),
            claims matches Some(c) ==> (c.exp < now_secs ==> (r matches Err(e)
                && e is Unauthorized)),
            claims matches Some(c) ==> (c.exp >= now_secs ==> r == Ok::<UserIdentity, ApiError>(
                UserIdentity { user_id: c.sub },
            )),
    {
        match claims {
            None => Err(ApiError::Unauthorized),
            Some(c) => {
                if c.is_expired_at(now_secs) {
                    Err(ApiError::Unauthorized)
                } else {
                    Ok(UserIdentity { user_id: c.sub })
                }
            },
        }
    }
}

/// Authenticates requests from their `Authorization` header.
#[derive(Debug, Clone, Copy)]
pub struct AuthMiddleware;

/// A header that carries a bearer token: `Bearer ` and the token.
pub open spec fn is_bearer(header: Seq<char>) -> bool {
    header.len() >= 7 && header.take(7) == "Bearer "@
}

impl AuthMiddleware {
    /// The token of a bearer `Authorization` header; `None` for any other
    /// header.
    pub fn bearer_token(header: &str) -> (r: Option<String>)
        ensures
            is_bearer(header@) ==> (r matches Some(t) && t@ == header@.skip(7)),
            !is_bearer(header@) ==> r is None,
    {
        let prefix = "Bearer ";
        proof {
            reveal_strlit("Bearer ");
        }
        let n = header.unicode_len();
        if n < 7 {
            return None;
        }
        let mut i: usize = 0;
        while i < 7
            invariant
                n == header@.len(),
                n >= 7,
                prefix@ == "Bearer "@,
                prefix@.len() == 7,
                i <= 7,
                forall|k: int| 0 <= k < i ==> header@[k] == prefix@[k],
            decreases 7 - i,
        {
            if header.get_char(i) != prefix.get_char(i) {
                proof {
                    assert(header@.take(7)[i as int] != "Bearer "@[i as int]);
                }
                return None;
            }
            i = i + 1;
        }
        proof {
            assert(header@.take(7) =~= "Bearer "@);
        }
        Some(String::from_str(header.substring_char(7, n)))
    }

    /// The identity behind an `Authorization` header, or `Unauthorized` when
    /// the header is missing or carries no bearer token. `decoded` stands for
    /// the claims that the token was decoded to (`None` when it could not be).
    pub fn authenticate(
        validator: &AuthValidator,
        header: Option<&str>,
        decoded: Option<Claims>,
        now_secs: i64,
    ) -> (r: Result<UserIdentity, ApiError>)
        ensures
            header is None ==> (r matches Err(e) && e is Unauthorized),
            header matches Some(h) ==> (!is_bearer(h@) ==> (r matches Err(e)
                && e is Unauthorized)),
            header matches Some(h) ==> (is_bearer(h@) ==> (decoded is None ==> (r matches Err(e)
                && e is Unauthorized))),
            header matches Some(h) ==> (is_bearer(h@) ==> (decoded matches Some(c) ==> (
            c.exp < now_secs ==> (r matches Err(e) && e is Unauthorized)))),
            header matches Some(h) ==> (is_bearer(h@) ==> (decoded matches Some(c) ==> (
            c.exp >= now_secs ==> r == Ok::<UserIdentity, ApiError>(
                UserIdentity { user_id: c.sub },
            )))),
    {
        match header {
            None => Err(ApiError::Unauthorized),
            Some(h) => match AuthMiddleware::bearer_token(h) {
                None => Err(ApiError::Unauthorized),
                Some(_) => validator.validate_claims(decoded, now_secs),
            },
        }
    }
}

/// What a caller may be allowed to do.
#[derive(Debug, Clone, Copy, PartialEq, Eq, Structural)]
pub enum Permission {
    ViewChannels,
    SendMessages,
    ManageMessages,
    ManageChannels,
}

/// What a permission is asked about.
#[derive(Debug, Clone, Copy, PartialEq, Eq, Structural)]
pub enum Resource {
    Channel(u128),
    User(u128),
}

/// An authorization backend failed to answer.
#[derive(Debug, Clone)]
pub struct AuthzError(pub String);

/// Answers whether an actor holds a permission on a resource.
pub trait Authorization {
    /// Whether the backend grants `permission` on `resource` to `actor`.
    spec fn allows(&self, actor: u128, permission: Permission, resource: Resource) -> bool;

    /// Whether the backend always answers (never fails to reach a decision).
    spec fn infallible(&self) -> bool;

    /// Asks the backend. An answer is the backend's decision; a backend that
    /// is `infallible` always answers.
    fn check(&self, actor: u128, permission: Permission, resource: Resource) -> (r: Result<
        bool,
        AuthzError,
    >)
        ensures
            r matches Ok(b) ==> b == self.allows(actor, permission, resource),
            self.infallible() ==> r is Ok,
    ;
}

/// Allows everything. Meant for development and tests only.
#[derive(Debug, Clone, Copy)]
pub struct DummyAuthz;

impl DummyAuthz {
    pub fn new() -> (r: DummyAuthz) {
        DummyAuthz
    }
}

impl Authorization for DummyAuthz {
    open spec fn allows(&self, actor: u128, permission: Permission, resource: Resource) -> bool {
        true
    }

    open spec fn infallible(&self) -> bool {
        true
    }

    fn check(&self, actor: u128, permission: Permission, resource: Resource) -> (r: Result<
        bool,
        AuthzError,
    >) {
        Ok(true)
    }
}

/// Denies everything: what stands in for a missing authorization backend
/// outside development, so that the service fails closed.
#[derive(Debug, Clone, Copy)]
pub struct DenyAllAuthz;

impl Authorization for DenyAllAuthz {
    open spec fn allows(&self, actor: u128, permission: Permission, resource: Resource) -> bool {
        false
    }

    open spec fn infallible(&self) -> bool {
        true
    }

    fn check(&self, actor: u128, permission: Permission, resource: Resource) -> (r: Result<
        bool,
        AuthzError,
    >) {
        Ok(false)
    }
}

/// What an authorization answer means for the request: go on when allowed,
/// `Forbidden` when denied, `InternalServerError` when the backend failed.
pub fn authorization_outcome(answer: Result<bool, AuthzError>) -> (r: Result<(), ApiError>)
    ensures
        answer matches Ok(true) ==> r is Ok,
        answer matches Ok(false) ==> (r matches Err(e) && e is Forbidden),
        answer is Err ==> (r matches Err(e) && e is InternalServerError),
{
    match answer {
        Ok(true) => Ok(()),
        Ok(false) => Err(ApiError::Forbidden),
        Err(_) => Err(ApiError::InternalServerError),
    }
}

} // verus!

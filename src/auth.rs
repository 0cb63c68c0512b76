//! The authorization facade: login and per-request authorization.
use vstd::prelude::*;
use crate::cache::{expiry, SharedCache};
use crate::captcha::{
    captcha_accepts, captcha_key, is_challenge, issue_captcha, verify_captcha, CaptchaChallenge, CaptchaKind,
};
use crate::enums::{DataScope, UserStatus};
use crate::governor::{
    after_failure, after_failures, after_success, check_locked, failures, is_locked, lemma_lockout,
    record_failure, record_success, within_window, CacheMap, LoginPolicy,
};
use crate::keys::lemma_captcha_lock_keys_differ;
use crate::scope::{
    has_scope, id_set, resolve_scope, roles_depts, scope_condition, scope_condition_sql, Role, ScopeFilter,
};
use crate::security::{argon2_accepts, SecurityUtils};
use crate::token::{
    claim_words, issue_token, signed_token, token_outcome, validate_token, words_of_claims, Claims, TokenError,
};

verus! {

/// Why a login or an authorization failed.
#[derive(Debug, Clone, Copy, PartialEq, Eq, Structural)]
pub enum AuthError {
    /// The captcha answer was wrong, or the challenge expired or was used.
    CaptchaInvalid,
    /// Too many consecutive credential failures; the lock has not expired.
    AccountLocked,
    /// No such account, or the password does not match.
    BadCredentials,
    /// The credentials hold but the account is disabled.
    AccountDisabled,
    /// The token's expiry time has passed: log in again.
    TokenExpired,
    /// Not a token of this service.
    TokenMalformed,
    /// A current token that the service did not sign.
    TokenSignatureInvalid,
    /// The shared cache could not be reached.
    CacheUnavailable,
}

impl AuthError {
    /// The stable code of the error.
    pub fn code(&self) -> (r: i32)
        ensures
            r == auth_error_code(*self),
    {
        match self {
            AuthError::CaptchaInvalid => 1001,
            AuthError::AccountLocked => 1002,
            AuthError::BadCredentials => 1003,
            AuthError::AccountDisabled => 1004,
            AuthError::TokenExpired => 1101,
            AuthError::TokenMalformed => 1102,
            AuthError::TokenSignatureInvalid => 1103,
            AuthError::CacheUnavailable => 1201,
        }
    }

    /// Whether the error is one of the four ways a login fails.
    pub open spec fn is_login_failure(self) -> bool {
        match self {
            AuthError::CaptchaInvalid | AuthError::AccountLocked | AuthError::BadCredentials
            | AuthError::AccountDisabled => true,
            _ => false,
        }
    }

    /// The text shown to the user: one text for every login failure, so that
    /// it tells nothing of which account names exist.
    pub fn message(&self) -> (r: String)
        ensures
            self.is_login_failure() ==> r@ == "login failed"@,
            *self == AuthError::TokenExpired ==> r@ == "session expired"@,
            (*self == AuthError::TokenMalformed || *self == AuthError::TokenSignatureInvalid) ==> r@
                == "invalid token"@,
            *self == AuthError::CacheUnavailable ==> r@ == "service unavailable"@,
    {
        match self {
            AuthError::CaptchaInvalid | AuthError::AccountLocked | AuthError::BadCredentials
            | AuthError::AccountDisabled => "login failed".to_owned(),
            AuthError::TokenExpired => "session expired".to_owned(),
            AuthError::TokenMalformed | AuthError::TokenSignatureInvalid => "invalid token".to_owned(),
            AuthError::CacheUnavailable => "service unavailable".to_owned(),
        }
    }
}

pub open spec fn auth_error_code(e: AuthError) -> i32 {
    match e {
        AuthError::CaptchaInvalid => 1001,
        AuthError::AccountLocked => 1002,
        AuthError::BadCredentials => 1003,
        AuthError::AccountDisabled => 1004,
        AuthError::TokenExpired => 1101,
        AuthError::TokenMalformed => 1102,
        AuthError::TokenSignatureInvalid => 1103,
        AuthError::CacheUnavailable => 1201,
    }
}

pub open spec fn token_auth_error(e: TokenError) -> AuthError {
    match e {
        TokenError::Expired => AuthError::TokenExpired,
        TokenError::Malformed => AuthError::TokenMalformed,
        TokenError::SignatureInvalid => AuthError::TokenSignatureInvalid,
    }
}

/// The outcome of a captcha check against a cache that may fail: `None` when
/// the cache could not be read, which fails the login, since a captcha
/// cannot be taken as answered.
pub fn captcha_verdict(read: Option<bool>) -> (r: Result<(), AuthError>)
    ensures
        r == (match read {
            None => Err(AuthError::CacheUnavailable),
            Some(false) => Err(AuthError::CaptchaInvalid),
            Some(true) => Ok::<(), AuthError>(()),
        }),
{
    match read {
        None => Err(AuthError::CacheUnavailable),
        Some(false) => Err(AuthError::CaptchaInvalid),
        Some(true) => Ok(()),
    }
}

/// Whether `f` is a restriction that `resolve_scope` may give for `roles`,
/// a user of department `dept` whose descendant departments are
/// `descendants`.
pub open spec fn resolves(f: ScopeFilter, roles: Seq<Role>, dept: u64, descendants: Seq<u64>) -> bool {
    &&& f.unrestricted == has_scope(roles, DataScope::All)
    &&& f.unrestricted ==> f.dept_ids@.len() == 0 && !f.own_rows
    &&& !f.unrestricted ==> {
        &&& f.dept_ids@.no_duplicates()
        &&& id_set(f.dept_ids@) == roles_depts(roles, dept, descendants)
        &&& f.own_rows == has_scope(roles, DataScope::SelfOnly)
    }
}

/// The SQL condition that a query on the table under `alias` must AND into
/// its WHERE clause for the holder of `session`: `roles` are the roles the
/// session holds, `dept` the holder's department and `descendants` the
/// departments under it.
pub fn scope_filter(session: &Claims, roles: &Vec<Role>, dept: u64, descendants: &Vec<u64>, alias: &str) -> (r: String)
    ensures
        exists|f: ScopeFilter| resolves(f, roles@, dept, descendants@) && r@ == scope_condition(f, alias@, session.sub),
{
    let f = resolve_scope(roles, dept, descendants);
    let r = scope_condition_sql(&f, alias, session.sub);
    assert(resolves(f, roles@, dept, descendants@));
    r
}

/// The error of a refused token.
pub fn from_token_error(e: TokenError) -> (r: AuthError)
    ensures
        r == token_auth_error(e),
{
    match e {
        TokenError::Expired => AuthError::TokenExpired,
        TokenError::Malformed => AuthError::TokenMalformed,
        TokenError::SignatureInvalid => AuthError::TokenSignatureInvalid,
    }
}

/// An account as the persistence layer hands it over.
pub struct Account {
    pub id: u64,
    pub username: String,
    /// The stored hash, in the self-describing PHC form.
    pub password_hash: String,
    pub status: UserStatus,
    pub dept_id: u64,
}

/// The settings of the facade, fixed when it is built.
pub struct AuthConfig {
    /// The signing secret of the tokens.
    pub secret: Vec<u8>,
    /// Seconds that a token lasts.
    pub token_ttl_secs: u64,
    /// Seconds that a captcha challenge lasts.
    pub captcha_ttl_secs: u64,
    /// What a captcha asks.
    pub captcha_kind: CaptchaKind,
    /// Characters in a `Char` captcha.
    pub captcha_length: usize,
    pub policy: LoginPolicy,
}

impl AuthConfig {
    /// Tokens for seven days, arithmetic captchas for two minutes, and a
    /// ten-minute lock after five consecutive failures.
    pub fn new(secret: Vec<u8>) -> (r: AuthConfig)
        ensures
            r.secret@ == secret@,
            r.token_ttl_secs == 604800,
            r.captcha_ttl_secs == 120,
            r.captcha_kind == CaptchaKind::Math,
            r.captcha_length == 4,
            r.policy == (LoginPolicy { max_failures: 5, lock_secs: 600, window_secs: 600 }),
    {
        AuthConfig {
            secret,
            token_ttl_secs: 7 * 24 * 60 * 60,
            captcha_ttl_secs: 120,
            captcha_kind: CaptchaKind::Math,
            captcha_length: 4,
            policy: LoginPolicy { max_failures: 5, lock_secs: 600, window_secs: 600 },
        }
    }
}

/// The body of a login request.
pub struct LoginRequest {
    pub username: String,
    pub password: String,
    /// The answer to the captcha.
    pub captcha: String,
    /// The id of the captcha challenge.
    pub uuid: String,
    pub remember_me: Option<bool>,
}

/// The body of a password change.
pub struct ChangePasswordRequest {
    pub old_password: String,
    pub new_password: String,
}

/// The captcha kind that a configured type names: `char` for codes, any
/// other for arithmetic.
pub fn captcha_kind_of(captcha_type: &str) -> (r: CaptchaKind)
    ensures
        r == (if captcha_type@ == "char"@ { CaptchaKind::Char } else { CaptchaKind::Math }),
{
    if crate::text::str_eq(captcha_type, "char") {
        CaptchaKind::Char
    } else {
        CaptchaKind::Math
    }
}

/// What a successful login hands back.
pub struct LoginResponse {
    pub access_token: String,
    /// Always `Bearer`.
    pub token_type: String,
    /// Seconds until the token expires.
    pub expires_in: u64,
}

/// Whether the credentials hold: an account was found and the password
/// matches its stored hash.
pub open spec fn credentials_hold(account: Option<&Account>, password: Seq<char>) -> bool {
    match account {
        Some(a) => argon2_accepts(password, a.password_hash@),
        None => false,
    }
}

/// The error of a login, or none when it succeeds, from the cache before
/// the attempt. Checked in order: captcha, lock, credentials, status.
pub open spec fn login_error(
    m: CacheMap,
    username: Seq<char>,
    password: Seq<char>,
    captcha_id: Seq<char>,
    captcha_answer: Seq<char>,
    account: Option<&Account>,
    now: u64,
) -> Option<AuthError> {
    let m1 = m.remove(captcha_key(captcha_id));
    if !captcha_accepts(m, captcha_id, captcha_answer, now) {
        Some(AuthError::CaptchaInvalid)
    } else if is_locked(m1, username, now) {
        Some(AuthError::AccountLocked)
    } else if !credentials_hold(account, password) {
        Some(AuthError::BadCredentials)
    } else if account.unwrap().status == UserStatus::Disabled {
        Some(AuthError::AccountDisabled)
    } else {
        None
    }
}

/// The cache after a login: the challenge is consumed; a credential failure
/// is counted; a success clears the counter.
pub open spec fn cache_after_login(
    m: CacheMap,
    username: Seq<char>,
    password: Seq<char>,
    captcha_id: Seq<char>,
    captcha_answer: Seq<char>,
    account: Option<&Account>,
    now: u64,
    p: LoginPolicy,
) -> CacheMap {
    let m1 = m.remove(captcha_key(captcha_id));
    match login_error(m, username, password, captcha_id, captcha_answer, account, now) {
        Some(AuthError::BadCredentials) => after_failure(m1, username, now, p),
        Some(_) => m1,
        None => after_success(m1, username),
    }
}

/// The facade: its settings and the shared cache.
pub struct AuthService {
    pub config: AuthConfig,
    pub cache: SharedCache,
}

impl AuthService {
    pub open spec fn cache_view(&self) -> CacheMap {
        self.cache.view()
    }

    pub open spec fn wf(&self) -> bool {
        self.cache.wf()
    }

    pub fn new(config: AuthConfig) -> (r: AuthService)
        ensures
            r.wf(),
            r.config == config,
            r.cache_view() == Map::<Seq<char>, (crate::cache::CachedValue, u64)>::empty(),
    {
        AuthService { config, cache: SharedCache::new() }
    }

    /// Issues a captcha challenge at `now`.
    pub fn issue_captcha(&mut self, now: u64) -> (r: CaptchaChallenge)
        requires
            old(self).wf(),
        ensures
            final(self).wf(),
            final(self).config == old(self).config,
            exists|answer: Seq<char>|
                is_challenge(old(self).config.captcha_kind, r.question@, answer, old(self).config.captcha_length as nat)
                    && final(self).cache_view() == old(self).cache_view().insert(
                    captcha_key(r.id@),
                    (
                        crate::cache::CachedValue::Text(answer),
                        crate::cache::expiry(now, old(self).config.captcha_ttl_secs),
                    ),
                ),
    {
        issue_captcha(
            &mut self.cache,
            self.config.captcha_kind,
            self.config.captcha_length,
            now,
            self.config.captcha_ttl_secs,
        )
    }

    /// Logs `username` in at `now`. `account` is what the persistence layer
    /// found under the name, and `roles` the ids of the roles it holds.
    pub fn login(
        &mut self,
        username: &str,
        password: &str,
        captcha_id: &str,
        captcha_answer: &str,
        account: Option<&Account>,
        roles: &Vec<u64>,
        now: u64,
    ) -> (r: Result<LoginResponse, AuthError>)
        requires
            old(self).wf(),
            now + old(self).config.token_ttl_secs <= u64::MAX,
        ensures
            final(self).wf(),
            final(self).config == old(self).config,
            final(self).cache_view() == cache_after_login(
                old(self).cache_view(),
                username@,
                password@,
                captcha_id@,
                captcha_answer@,
                account,
                now,
                old(self).config.policy,
            ),
            match r {
                Ok(resp) => {
                    &&& login_error(old(self).cache_view(), username@, password@, captcha_id@, captcha_answer@, account, now) is None
                    &&& resp.access_token@ == signed_token(
                        claim_words(account.unwrap().id, account.unwrap().username@, roles@, now, (now + old(self).config.token_ttl_secs) as u64),
                        old(self).config.secret@,
                    )
                    &&& resp.token_type@ == "Bearer"@
                    &&& resp.expires_in == old(self).config.token_ttl_secs
                },
                Err(e) => login_error(old(self).cache_view(), username@, password@, captcha_id@, captcha_answer@, account, now) == Some(e),
            },
    {
        let ghost m = self.cache.view();
        if !verify_captcha(&mut self.cache, captcha_id, captcha_answer, now) {
            return Err(AuthError::CaptchaInvalid);
        }
        if check_locked(&self.cache, username, now) {
            return Err(AuthError::AccountLocked);
        }
        let a = match account {
            Some(a) => a,
            None => {
                record_failure(&mut self.cache, username, now, self.config.policy);
                return Err(AuthError::BadCredentials);
            },
        };
        if !SecurityUtils::verify_password(password, a.password_hash.as_str()) {
            record_failure(&mut self.cache, username, now, self.config.policy);
            return Err(AuthError::BadCredentials);
        }
        if a.status == UserStatus::Disabled {
            return Err(AuthError::AccountDisabled);
        }
        let token = issue_token(
            self.config.secret.as_slice(),
            a.id,
            a.username.as_str(),
            roles,
            now,
            self.config.token_ttl_secs,
        );
        record_success(&mut self.cache, username);
        Ok(LoginResponse {
            access_token: token,
            token_type: "Bearer".to_owned(),
            expires_in: self.config.token_ttl_secs,
        })
    }

    /// Checks the bearer token of a request at `now`.
    pub fn authorize(&self, token: &str, now: u64) -> (r: Result<Claims, AuthError>)
        ensures
            match r {
                Ok(c) => token_outcome(token@, self.config.secret@, now) == Ok::<Seq<u64>, TokenError>(
                    words_of_claims(c),
                ),
                Err(e) => exists|te: TokenError|
                    token_outcome(token@, self.config.secret@, now) == Err::<Seq<u64>, TokenError>(te)
                        && e == token_auth_error(te),
            },
    {
        match validate_token(self.config.secret.as_slice(), token, now) {
            Ok(c) => Ok(c),
            Err(te) => Err(from_token_error(te)),
        }
    }
}

/// After `max_failures` consecutive credential failures within the window of
/// one another, a login with an accepted captcha is refused as locked until
/// the lock's time has passed, whatever the password and the account.
pub proof fn lemma_locked_login_refused(
    m: CacheMap,
    username: Seq<char>,
    ts: Seq<u64>,
    p: LoginPolicy,
    password: Seq<char>,
    captcha_id: Seq<char>,
    captcha_answer: Seq<char>,
    account: Option<&Account>,
    now: u64,
)
    requires
        p.max_failures >= 1,
        ts.len() == p.max_failures,
        within_window(ts, p),
        failures(m, username, ts[0]) == 0,
        !is_locked(m, username, ts[0]),
        ts.last() <= now < expiry(ts.last(), p.lock_secs),
        captcha_accepts(after_failures(m, username, ts, p), captcha_id, captcha_answer, now),
    ensures
        login_error(after_failures(m, username, ts, p), username, password, captcha_id, captcha_answer, account, now)
            == Some(AuthError::AccountLocked),
{
    lemma_lockout(m, username, ts, p);
    lemma_captcha_lock_keys_differ(captcha_id, username);
}

} // verus!

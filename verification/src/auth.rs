//! Signing in with osu!, sessions, and the guard of protected services.
use vstd::prelude::*;

use crate::cache::CacheError;
use crate::cache_key::{cache_key, has_no_separator, Cacheable};
use crate::osu::{AuthenticatedUserDto, BeatmapDto, OsuUser, OsuUserDto, UserSource};
use crate::status::{Code, Status};
use crate::text::{contains, contains_text, starts_with, starts_with_text};

verus! {

// ---------------------------------------------------------------------------
// The guard of protected services

/// The `authorization` header of a request, as far as the guard reads it.
#[derive(Debug, Clone, PartialEq, Eq)]
pub enum AuthorizationHeader {
    /// The request has no such header.
    Missing,
    /// The header's value is not visible ASCII text.
    NotText,
    /// The header's value.
    Value(String),
}

/// What the guard decides about a request.
#[derive(Debug, Clone, PartialEq, Eq)]
pub enum AccessDecision {
    /// The request goes through.
    Allow,
    /// The request is answered with this status.
    Deny(Status),
    /// The request goes through if the session token is known to the cache store.
    CheckToken(String),
}

/// The scheme that precedes a session token in the `authorization` header.
pub const BEARER_PREFIX: &'static str = "Bearer ";

/// The answer to a protected request without an `authorization` header.
pub const NO_AUTHORIZATION: &'static str = "authorization cookie not set";

/// The answer to a protected request whose header is no text.
pub const NON_UNICODE_TOKEN: &'static str = "non-unicode session token";

/// The answer to a protected request whose header is not a bearer token.
pub const INVALID_TOKEN: &'static str = "invalid session token";

/// The answer when the store cannot be asked about a token.
pub const TOKEN_READ_ERROR: &'static str = "error reading session token";

/// The answer to a token that the store does not know.
pub const UNKNOWN_TOKEN: &'static str = "expired or unknown session token";

/// Whether the request path names one of the protected services.
pub open spec fn is_protected(path: Seq<char>, services: Seq<String>) -> bool {
    exists|i: int| 0 <= i < services.len() && contains_text(path, #[trigger] services[i]@)
}

/// Whether `path` names one of `services`.
pub fn names_protected_service(path: &str, services: &Vec<String>) -> (r: bool)
    ensures
        r == is_protected(path@, services@),
{
    let mut i: usize = 0;
    while i < services.len()
        invariant
            i <= services@.len(),
            forall|j: int| 0 <= j < i ==> !contains_text(path@, #[trigger] services@[j]@),
        decreases services@.len() - i,
    {
        if contains(path, services[i].as_str()) {
            return true;
        }
        i = i + 1;
    }
    false
}

/// The token that follows the bearer prefix.
pub open spec fn bearer_token(value: Seq<char>) -> Seq<char> {
    value.subrange(7, value.len() as int)
}

/// Decides about a request to `path`: requests to unprotected services go
/// through; a protected request must carry a bearer token, which is then to be
/// checked against the cache store.
pub fn authorize(path: &str, included_services: &Vec<String>, header: &AuthorizationHeader) -> (r: AccessDecision)
    ensures
        !is_protected(path@, included_services@) ==> r == AccessDecision::Allow,
        is_protected(path@, included_services@) ==> match header {
            AuthorizationHeader::Missing => r == AccessDecision::Deny(
                Status { code: Code::Unauthenticated, message: NO_AUTHORIZATION },
            ),
            AuthorizationHeader::NotText => r == AccessDecision::Deny(
                Status { code: Code::Unauthenticated, message: NON_UNICODE_TOKEN },
            ),
            AuthorizationHeader::Value(v) => if starts_with_text(v@, BEARER_PREFIX@) {
                r matches AccessDecision::CheckToken(t) && t@ == bearer_token(v@)
            } else {
                r == AccessDecision::Deny(Status { code: Code::Unauthenticated, message: INVALID_TOKEN })
            },
        },
{
    if !names_protected_service(path, included_services) {
        return AccessDecision::Allow;
    }
    match header {
        AuthorizationHeader::Missing => AccessDecision::Deny(
            Status::new(Code::Unauthenticated, NO_AUTHORIZATION),
        ),
        AuthorizationHeader::NotText => AccessDecision::Deny(
            Status::new(Code::Unauthenticated, NON_UNICODE_TOKEN),
        ),
        AuthorizationHeader::Value(v) => {
            if !starts_with(v.as_str(), BEARER_PREFIX) {
                return AccessDecision::Deny(Status::new(Code::Unauthenticated, INVALID_TOKEN));
            }
            proof {
                reveal_strlit("Bearer ");
            }
            let token = v.as_str().substring_char(7, v.as_str().unicode_len());
            AccessDecision::CheckToken(token.to_owned())
        },
    }
}

/// Decides about a request whose token was checked: `found` is the store's
/// answer, `Err` when the store could not be asked.
pub fn after_token_check(found: Result<bool, ()>) -> (r: Result<(), Status>)
    ensures
        r == match found {
            Ok(true) => Ok(()),
            Ok(false) => Err(Status { code: Code::Unauthenticated, message: UNKNOWN_TOKEN }),
            Err(()) => Err(Status { code: Code::Internal, message: TOKEN_READ_ERROR }),
        },
{
    match found {
        Ok(true) => Ok(()),
        Ok(false) => Err(Status::new(Code::Unauthenticated, UNKNOWN_TOKEN)),
        Err(()) => Err(Status::new(Code::Internal, TOKEN_READ_ERROR)),
    }
}

// ---------------------------------------------------------------------------
// Cached values of the sign-in

/// The CSRF token of a sign-in, with the address to return to afterwards.
#[derive(Debug, Clone, PartialEq, Eq)]
pub struct OsuCsrfToken(pub String, pub String);

/// An authorization code that osu! handed out for a user.
#[derive(Debug, Clone, PartialEq, Eq)]
pub struct OsuAuthCode {
    pub user_id: u32,
    pub code: String,
}

/// A refresh token of a user.
#[derive(Debug, Clone, PartialEq, Eq)]
pub struct OsuRefreshToken {
    pub user_id: u32,
    pub token: String,
}

/// An access token of a user.
#[derive(Debug, Clone, PartialEq, Eq)]
pub struct OsuAccessToken {
    pub user_id: u32,
    pub token: String,
}

/// A session of a signed-in user.
#[derive(Debug, Clone, PartialEq, Eq)]
pub struct Session {
    pub session_id: String,
    pub osu_user_id: u32,
}

/// An encrypted token, as it is kept in the cache store.
#[derive(Debug, Clone, PartialEq, Eq)]
pub struct EncryptedToken {
    pub ciphertext: Vec<u8>,
}

/// The osu! API tokens of a user.
#[derive(Debug, Clone, PartialEq, Eq)]
pub struct OsuApiTokens {
    pub user_id: u32,
    pub access_token: EncryptedToken,
    pub refresh_token: EncryptedToken,
}

impl Cacheable for OsuCsrfToken {
    type KeyType = String;

    open spec fn spec_type_key() -> Seq<char> {
        "oauthcsrftoken"@
    }

    open spec fn spec_key(&self) -> String {
        self.0
    }

    fn type_key() -> (r: &'static str) {
        "oauthcsrftoken"
    }

    fn key(&self) -> (r: String) {
        self.0.clone()
    }
}

impl Cacheable for OsuAuthCode {
    type KeyType = u32;

    open spec fn spec_type_key() -> Seq<char> {
        "osuauthcode"@
    }

    open spec fn spec_key(&self) -> u32 {
        self.user_id
    }

    fn type_key() -> (r: &'static str) {
        "osuauthcode"
    }

    fn key(&self) -> (r: u32) {
        self.user_id
    }
}

impl Cacheable for OsuRefreshToken {
    type KeyType = u32;

    open spec fn spec_type_key() -> Seq<char> {
        "osurefreshtoken"@
    }

    open spec fn spec_key(&self) -> u32 {
        self.user_id
    }

    fn type_key() -> (r: &'static str) {
        "osurefreshtoken"
    }

    fn key(&self) -> (r: u32) {
        self.user_id
    }
}

impl Cacheable for OsuAccessToken {
    type KeyType = u32;

    open spec fn spec_type_key() -> Seq<char> {
        "osuaccesstoken"@
    }

    open spec fn spec_key(&self) -> u32 {
        self.user_id
    }

    fn type_key() -> (r: &'static str) {
        "osuaccesstoken"
    }

    fn key(&self) -> (r: u32) {
        self.user_id
    }
}

impl Cacheable for Session {
    type KeyType = String;

    open spec fn spec_type_key() -> Seq<char> {
        "session"@
    }

    open spec fn spec_key(&self) -> String {
        self.session_id
    }

    fn type_key() -> (r: &'static str) {
        "session"
    }

    fn key(&self) -> (r: String) {
        self.session_id.clone()
    }
}

impl Cacheable for OsuApiTokens {
    type KeyType = u32;

    open spec fn spec_type_key() -> Seq<char> {
        "osuapitokens"@
    }

    open spec fn spec_key(&self) -> u32 {
        self.user_id
    }

    fn type_key() -> (r: &'static str) {
        "osuapitokens"
    }

    fn key(&self) -> (r: u32) {
        self.user_id
    }
}

/// The type keys of all the kinds of values that the backend caches.
pub open spec fn cached_type_keys<D>() -> Seq<Seq<char>> {
    seq![
        OsuUserDto::spec_type_key(),
        OsuUser::spec_type_key(),
        BeatmapDto::<D>::spec_type_key(),
        OsuCsrfToken::spec_type_key(),
        OsuAuthCode::spec_type_key(),
        OsuRefreshToken::spec_type_key(),
        OsuAccessToken::spec_type_key(),
        Session::spec_type_key(),
        OsuApiTokens::spec_type_key(),
    ]
}

/// Every kind of cached value has a type key of its own, free of the
/// separator, so that (with `lemma_cache_key_injective`) no two values of
/// different kinds share an entry of the cache store.
pub proof fn lemma_cached_type_keys_distinct<D>()
    ensures
        forall|i: int, j: int|
            0 <= i < j < cached_type_keys::<D>().len() ==> #[trigger] cached_type_keys::<D>()[i]
                != #[trigger] cached_type_keys::<D>()[j],
        forall|i: int|
            0 <= i < cached_type_keys::<D>().len() ==> has_no_separator(
                #[trigger] cached_type_keys::<D>()[i],
            ),
{
    reveal_strlit("osuuserdto");
    reveal_strlit("osuuser");
    reveal_strlit("beatmap");
    reveal_strlit("oauthcsrftoken");
    reveal_strlit("osuauthcode");
    reveal_strlit("osurefreshtoken");
    reveal_strlit("osuaccesstoken");
    reveal_strlit("session");
    reveal_strlit("osuapitokens");
    let k = cached_type_keys::<D>();
    assert forall|i: int, j: int| 0 <= i < j < k.len() implies #[trigger] k[i] != #[trigger] k[j] by {
        if k[i].len() == k[j].len() {
            if k[i][0] == k[j][0] {
                assert(k[i][3] != k[j][3] || k[i][4] != k[j][4]);
            } else {
                assert(k[i][0] != k[j][0]);
            }
        }
    }
    assert forall|i: int| 0 <= i < k.len() implies has_no_separator(#[trigger] k[i]) by {}
}

// ---------------------------------------------------------------------------
// Signing in

/// Why signing in failed.
#[derive(Debug, Clone, PartialEq, Eq)]
pub enum AuthError {
    /// token missing in response from osu api
    NoTokenFromOsuApi(&'static str),
    /// error in osu oauth flow
    OAuthError(&'static str),
    /// CSRF token missing in cache
    NoCsrfToken,
    /// CSRF token mismatch
    CsrfTokenMismatch,
    /// error fetching osu user
    ErrorFetchingOsuUser,
    /// error in the cache store
    CacheError(CacheError),
}

/// What the session of a signed-in user holds.
#[derive(Debug, Clone, PartialEq, Eq)]
pub struct SessionContent {
    pub user: AuthenticatedUserDto,
    pub access_token: String,
    pub refresh_token: String,
    /// Seconds until the access token expires.
    pub expires_in: u64,
}

/// The outcome of a sign-in: the session, and where to send the user back to.
#[derive(Debug, Clone, PartialEq, Eq)]
pub struct AuthResult {
    pub session: SessionContent,
    pub return_url: String,
}

/// The osu! API's answer to the exchange of an authorization code.
#[derive(Debug, Clone, PartialEq, Eq)]
pub struct TokenGrant {
    pub access_token: String,
    pub refresh_token: Option<String>,
    /// Seconds until the access token expires, when the API sent them.
    pub expires_in: Option<u64>,
}

/// Where a sign-in stands.
#[derive(Debug, Clone, PartialEq, Eq)]
pub enum SignInState {
    Start,
    /// Waiting for the CSRF token to be taken out of the cache store.
    TakingCsrfToken,
    /// Waiting for the osu! API to exchange the authorization code.
    Exchanging { return_url: String },
    /// Waiting for the osu! API to describe the signed-in user.
    FetchingUser { return_url: String, access_token: String, refresh_token: String, expires_in: u64 },
    Done,
}

/// What happened last in a sign-in.
#[derive(Debug)]
pub enum SignInEvent {
    Begin,
    /// The store's answer to taking out the CSRF token.
    CsrfTokenTaken(Result<Option<OsuCsrfToken>, CacheError>),
    /// The osu! API's answer to the code exchange.
    CodeExchanged(Result<TokenGrant, ()>),
    /// The osu! API's answer to the request for the user.
    UserFetched(Result<UserSource, ()>),
}

/// What is to be done next in a sign-in.
#[derive(Debug)]
pub enum SignInAction {
    /// Take the entry with this key out of the cache store.
    TakeCsrfToken(String),
    /// Exchange this authorization code for tokens.
    ExchangeCode(String),
    /// Ask the osu! API for the user that this access token belongs to.
    FetchUser(String),
    /// Hand this outcome to the caller.
    Finish(Result<AuthResult, AuthError>),
    /// The event does not fit the state: nothing is to be done.
    Ignore,
}

/// The message when the code exchange fails.
pub const EXCHANGE_FAILED: &'static str = "could not get token from osu API";

/// The message when the osu! API's answer lacks the refresh token or its expiry.
pub const NO_REFRESH_TOKEN: &'static str = "osu API did not send refresh token";

/// The type key under which CSRF tokens are cached.
pub open spec fn csrf_type_key() -> Seq<char> {
    "oauthcsrftoken"@
}

/// One transition of a sign-in that delivers `auth_code` with the CSRF token
/// `csrf`: from `state`, `event` leads to `next`, and `action` is to be done.
pub open spec fn sign_in_next(
    state: SignInState,
    event: SignInEvent,
    auth_code: Seq<char>,
    csrf: Seq<char>,
    next: SignInState,
    action: SignInAction,
) -> bool {
    match (state, event) {
        (SignInState::Start, SignInEvent::Begin) => {
            &&& next is TakingCsrfToken
            &&& action matches SignInAction::TakeCsrfToken(key) && key@ == cache_key(csrf_type_key(), csrf)
        },
        (SignInState::TakingCsrfToken, SignInEvent::CsrfTokenTaken(taken)) => match taken {
            Err(e) => next is Done && action == SignInAction::Finish(Err(AuthError::CacheError(e))),
            Ok(None) => next is Done && action == SignInAction::Finish(Err(AuthError::NoCsrfToken)),
            Ok(Some(token)) => if token.0@ != csrf {
                next is Done && action == SignInAction::Finish(Err(AuthError::CsrfTokenMismatch))
            } else {
                &&& next matches SignInState::Exchanging { return_url } && return_url@ == token.1@
                &&& action matches SignInAction::ExchangeCode(code) && code@ == auth_code
            },
        },
        (SignInState::Exchanging { return_url }, SignInEvent::CodeExchanged(exchanged)) => match exchanged {
            Err(()) => next is Done && action == SignInAction::Finish(
                Err(AuthError::OAuthError(EXCHANGE_FAILED)),
            ),
            Ok(grant) => match (grant.refresh_token, grant.expires_in) {
                (Some(refresh), Some(expires)) => {
                    &&& next matches SignInState::FetchingUser {
                        return_url: r,
                        access_token: a,
                        refresh_token: f,
                        expires_in: x,
                    } && r@ == return_url@ && a@ == grant.access_token@ && f@ == refresh@ && x
                        == expires
                    &&& action matches SignInAction::FetchUser(token) && token@
                        == grant.access_token@
                },
                _ => next is Done && action == SignInAction::Finish(
                    Err(AuthError::OAuthError(NO_REFRESH_TOKEN)),
                ),
            },
        },
        (
            SignInState::FetchingUser { return_url, access_token, refresh_token, expires_in },
            SignInEvent::UserFetched(fetched),
        ) => match fetched {
            Err(()) => next is Done && action == SignInAction::Finish(
                Err(AuthError::ErrorFetchingOsuUser),
            ),
            Ok(user) => {
                &&& next is Done
                &&& action matches SignInAction::Finish(Ok(res))
                &&& res.return_url@ == return_url@
                &&& res.session.user.user_id == user.user_id
                &&& res.session.user.username@ == user.username@
                &&& res.session.user.country@ == user.country->0@
                &&& res.session.access_token@ == access_token@
                &&& res.session.refresh_token@ == refresh_token@
                &&& res.session.expires_in == expires_in
            },
        },
        _ => next == state && action is Ignore,
    }
}

/// Whether `event` can be handed to a sign-in in `state`: the osu! API's
/// description of the signed-in user must name the user's country.
pub open spec fn sign_in_event_ok(state: SignInState, event: SignInEvent) -> bool {
    state is FetchingUser ==> (event matches SignInEvent::UserFetched(Ok(user)) ==> user.country is Some)
}

/// One step of the sign-in that delivers the authorization code `auth_code`
/// together with the CSRF token `csrf_token`.
pub fn sign_in_step(state: SignInState, event: SignInEvent, auth_code: &str, csrf_token: &str) -> (r: (
    SignInState,
    SignInAction,
))
    requires
        sign_in_event_ok(state, event),
    ensures
        sign_in_next(state, event, auth_code@, csrf_token@, r.0, r.1),
{
    match (state, event) {
        (SignInState::Start, SignInEvent::Begin) => {
            let key = OsuCsrfToken::full_key_with(&String::from_str(csrf_token));
            (SignInState::TakingCsrfToken, SignInAction::TakeCsrfToken(key))
        },
        (SignInState::TakingCsrfToken, SignInEvent::CsrfTokenTaken(taken)) => match taken {
            Err(e) => (SignInState::Done, SignInAction::Finish(Err(AuthError::CacheError(e)))),
            Ok(None) => (SignInState::Done, SignInAction::Finish(Err(AuthError::NoCsrfToken))),
            Ok(Some(token)) => {
                let delivered = String::from_str(csrf_token);
                let matches = token.0.eq(&delivered);
                if !matches {
                    (SignInState::Done, SignInAction::Finish(Err(AuthError::CsrfTokenMismatch)))
                } else {
                    (
                        SignInState::Exchanging { return_url: token.1 },
                        SignInAction::ExchangeCode(String::from_str(auth_code)),
                    )
                }
            },
        },
        (SignInState::Exchanging { return_url }, SignInEvent::CodeExchanged(exchanged)) => match exchanged {
            Err(()) => (SignInState::Done, SignInAction::Finish(Err(AuthError::OAuthError(EXCHANGE_FAILED)))),
            Ok(grant) => match (grant.refresh_token, grant.expires_in) {
                (Some(refresh), Some(expires)) => {
                    let token = grant.access_token.clone();
                    (
                        SignInState::FetchingUser {
                            return_url,
                            access_token: grant.access_token,
                            refresh_token: refresh,
                            expires_in: expires,
                        },
                        SignInAction::FetchUser(token),
                    )
                },
                _ => (SignInState::Done, SignInAction::Finish(Err(AuthError::OAuthError(NO_REFRESH_TOKEN)))),
            },
        },
        (
            SignInState::FetchingUser { return_url, access_token, refresh_token, expires_in },
            SignInEvent::UserFetched(fetched),
        ) => match fetched {
            Err(()) => (SignInState::Done, SignInAction::Finish(Err(AuthError::ErrorFetchingOsuUser))),
            Ok(user) => {
                let user = AuthenticatedUserDto::from_user(user);
                let session = SessionContent { user, access_token, refresh_token, expires_in };
                (SignInState::Done, SignInAction::Finish(Ok(AuthResult { session, return_url })))
            },
        },
        (s, e) => (s, SignInAction::Ignore),
    }
}

/// A run of a sign-in: from the start, `events[i]` takes `states[i]` to
/// `states[i + 1]`, and `actions[i]` is to be done.
pub open spec fn sign_in_run(
    states: Seq<SignInState>,
    events: Seq<SignInEvent>,
    actions: Seq<SignInAction>,
    auth_code: Seq<char>,
    csrf: Seq<char>,
) -> bool {
    &&& states.len() == events.len() + 1
    &&& actions.len() == events.len()
    &&& states[0] is Start
    &&& forall|i: int|
        0 <= i < events.len() ==> sign_in_next(
            #[trigger] states[i],
            events[i],
            auth_code,
            csrf,
            states[i + 1],
            actions[i],
        )
}

/// The address that a sign-in in this state sends the user back to, once known.
pub open spec fn pending_return_url(state: SignInState) -> Option<Seq<char>> {
    match state {
        SignInState::Exchanging { return_url } => Some(return_url@),
        SignInState::FetchingUser { return_url, .. } => Some(return_url@),
        _ => None,
    }
}

/// Whether `events[j]` took out of the store a CSRF token equal to `csrf`,
/// stored with the return address `return_url`.
pub open spec fn took_matching_token(events: Seq<SignInEvent>, j: int, csrf: Seq<char>, return_url: Seq<char>) -> bool {
    events[j] matches SignInEvent::CsrfTokenTaken(Ok(Some(t))) && t.0@ == csrf && t.1@ == return_url
}

proof fn lemma_pending_return_url_from_token(
    states: Seq<SignInState>,
    events: Seq<SignInEvent>,
    actions: Seq<SignInAction>,
    auth_code: Seq<char>,
    csrf: Seq<char>,
    i: int,
)
    requires
        sign_in_run(states, events, actions, auth_code, csrf),
        0 <= i < states.len(),
    ensures
        pending_return_url(states[i]) matches Some(url) ==> exists|j: int|
            0 <= j < i && #[trigger] took_matching_token(events, j, csrf, url),
    decreases i,
{
    if i > 0 {
        lemma_pending_return_url_from_token(states, events, actions, auth_code, csrf, i - 1);
        assert(sign_in_next(states[i - 1], events[i - 1], auth_code, csrf, states[i], actions[i - 1]));
        if let Some(url) = pending_return_url(states[i]) {
            if pending_return_url(states[i - 1]) is None {
                assert(took_matching_token(events, i - 1, csrf, url));
            } else {
                let prev = pending_return_url(states[i - 1])->0;
                assert(prev == url);
                let j = choose|j: int| 0 <= j < i - 1 && #[trigger] took_matching_token(events, j, csrf, prev);
                assert(took_matching_token(events, j, csrf, url));
            }
        }
    }
}

/// A sign-in succeeds only after the CSRF token taken out of the cache store
/// matched the delivered one, and it sends the user back to the address stored
/// with that token.
pub proof fn lemma_sign_in_success_needs_matching_csrf(
    states: Seq<SignInState>,
    events: Seq<SignInEvent>,
    actions: Seq<SignInAction>,
    auth_code: Seq<char>,
    csrf: Seq<char>,
    k: int,
)
    requires
        sign_in_run(states, events, actions, auth_code, csrf),
        0 <= k < events.len(),
        actions[k] matches SignInAction::Finish(Ok(_)),
    ensures
        exists|j: int|
            0 <= j < k && #[trigger] took_matching_token(
                events,
                j,
                csrf,
                actions[k]->Finish_0->Ok_0.return_url@,
            ),
{
    assert(sign_in_next(states[k], events[k], auth_code, csrf, states[k + 1], actions[k]));
    lemma_pending_return_url_from_token(states, events, actions, auth_code, csrf, k);
}

/// A finished sign-in stays finished: no event makes it act again.
pub proof fn lemma_sign_in_done_is_final(
    states: Seq<SignInState>,
    events: Seq<SignInEvent>,
    actions: Seq<SignInAction>,
    auth_code: Seq<char>,
    csrf: Seq<char>,
    i: int,
    k: int,
)
    requires
        sign_in_run(states, events, actions, auth_code, csrf),
        0 <= i <= k < states.len(),
        states[i] is Done,
    ensures
        states[k] is Done,
        k < events.len() ==> actions[k] is Ignore,
    decreases k - i,
{
    if k > i {
        lemma_sign_in_done_is_final(states, events, actions, auth_code, csrf, i, k - 1);
        assert(sign_in_next(states[k - 1], events[k - 1], auth_code, csrf, states[k], actions[k - 1]));
    }
    if k < events.len() {
        assert(sign_in_next(states[k], events[k], auth_code, csrf, states[k + 1], actions[k]));
    }
}

/// A CSRF token can complete at most one sign-in: every sign-in first takes
/// the entry of its token out of the cache store, and when the store holds no
/// such entry (never issued, expired, or taken by an earlier sign-in) the
/// sign-in fails with `NoCsrfToken`, and neither exchanges the code nor asks
/// for the user afterwards.
pub proof fn lemma_csrf_token_single_use(
    states: Seq<SignInState>,
    events: Seq<SignInEvent>,
    actions: Seq<SignInAction>,
    auth_code: Seq<char>,
    csrf: Seq<char>,
)
    requires
        sign_in_run(states, events, actions, auth_code, csrf),
        events.len() >= 2,
        events[0] is Begin,
        events[1] matches SignInEvent::CsrfTokenTaken(Ok(None)),
    ensures
        actions[0] matches SignInAction::TakeCsrfToken(key) && key@ == cache_key(csrf_type_key(), csrf),
        actions[1] == SignInAction::Finish(Err(AuthError::NoCsrfToken)),
        forall|k: int| 1 < k < events.len() ==> #[trigger] actions[k] is Ignore,
{
    assert(sign_in_next(states[0], events[0], auth_code, csrf, states[1], actions[0]));
    assert(sign_in_next(states[1], events[1], auth_code, csrf, states[2], actions[1]));
    assert forall|k: int| 1 < k < events.len() implies #[trigger] actions[k] is Ignore by {
        lemma_sign_in_done_is_final(states, events, actions, auth_code, csrf, 2, k);
    }
}

/// A sign-in's session names the user that the osu! API described for the
/// access token: a successful finish comes from that description, and its
/// user has exactly that user's id, name and country, with the tokens that the
/// code exchange gave.
pub proof fn lemma_sign_in_session_user(
    states: Seq<SignInState>,
    events: Seq<SignInEvent>,
    actions: Seq<SignInAction>,
    auth_code: Seq<char>,
    csrf: Seq<char>,
    k: int,
)
    requires
        sign_in_run(states, events, actions, auth_code, csrf),
        0 <= k < events.len(),
        actions[k] matches SignInAction::Finish(Ok(_)),
    ensures
        events[k] matches SignInEvent::UserFetched(Ok(user)) && {
            let res = actions[k]->Finish_0->Ok_0;
            &&& res.session.user.user_id == user.user_id
            &&& res.session.user.username@ == user.username@
            &&& (user.country matches Some(c) ==> res.session.user.country@ == c@)
        },
        states[k] matches SignInState::FetchingUser { access_token, refresh_token, expires_in, .. } && {
            let res = actions[k]->Finish_0->Ok_0;
            &&& res.session.access_token@ == access_token@
            &&& res.session.refresh_token@ == refresh_token@
            &&& res.session.expires_in == expires_in
        },
{
    assert(sign_in_next(states[k], events[k], auth_code, csrf, states[k + 1], actions[k]));
}

// ---------------------------------------------------------------------------
// The sign-in API

/// The answer to a request for an authorization code: where to send the user.
#[derive(Debug, Clone, PartialEq, Eq)]
pub struct RequestAuthCodeResponseDto {
    pub auth_url: String,
}

/// The delivery of an authorization code, with the state (the CSRF token) that came with it.
#[derive(Debug, Clone, PartialEq, Eq)]
pub struct DeliverAuthCodeRequestDto {
    pub auth_code: String,
    pub state: String,
}

/// The answer to a delivered authorization code.
#[derive(Debug, Clone, PartialEq, Eq)]
pub struct DeliverAuthCodeResponseDto {
    pub return_url: String,
    pub user: AuthenticatedUserDto,
}

impl DeliverAuthCodeResponseDto {
    /// The answer to a successful sign-in: where to go back to, and who signed in.
    pub fn from_auth_result(result: AuthResult) -> (r: DeliverAuthCodeResponseDto)
        ensures
            r.return_url == result.return_url,
            r.user == result.session.user,
    {
        DeliverAuthCodeResponseDto { return_url: result.return_url, user: result.session.user }
    }
}

/// Seconds for which a CSRF token stays in the cache store.
pub const CSRF_TOKEN_EXPIRY: usize = 300;

/// Seconds for which a session stays in the cache store.
pub const SESSION_EXPIRY: usize = 600;

/// Seconds for which a user's osu! API tokens stay in the cache store: thirty
/// seconds less than the access token lives.
pub fn api_tokens_expiry(expires_in_secs: u64) -> (r: usize)
    requires
        expires_in_secs as usize >= 30,
    ensures
        r == expires_in_secs as usize - 30,
{
    expires_in_secs as usize - 30
}


// ---------------------------------------------------------------------------
// Signing in through the gRPC service, with a session and stored API tokens

/// Why the osu! API's description of the signed-in user could not be had.
#[derive(Debug, Clone, Copy, PartialEq, Eq, Structural)]
pub enum UserDataError {
    /// The request to the osu! API failed.
    Request,
    /// The answer was no user.
    Parse,
}

/// Why a user's osu! API tokens could not be stored.
#[derive(Debug, Clone, Copy, PartialEq, Eq, Structural)]
pub enum TokenStoreError {
    /// The access token could not be encrypted.
    EncryptAccessToken,
    /// The refresh token could not be encrypted.
    EncryptRefreshToken,
    /// The cache store refused the tokens.
    Cache,
}

/// What a successful sign-in hands back: the new session's id, which the
/// client sends as its token, and the osu! access token, set as a cookie.
#[derive(Debug, Clone, PartialEq, Eq)]
pub struct OsuSignInOutcome {
    pub session_id: String,
    pub access_token: String,
}

/// Where a sign-in through the gRPC service stands.
#[derive(Debug, Clone, PartialEq, Eq)]
pub enum OsuSignInState {
    Start,
    /// Waiting for the CSRF token to be taken out of the cache store.
    TakingCsrfToken,
    /// Waiting for the osu! API to exchange the authorization code.
    Exchanging,
    /// Waiting for the osu! API to describe the signed-in user.
    FetchingUser { access_token: String, refresh_token: String, expiry: usize },
    /// Waiting for the user's API tokens to be stored.
    StoringTokens { user_id: u32, access_token: String },
    /// Waiting for the user's new session to be stored.
    StoringSession { access_token: String },
    Done,
}

/// What happened last in a sign-in through the gRPC service.
#[derive(Debug)]
pub enum OsuSignInEvent {
    Begin,
    /// The store's answer to taking out the CSRF token.
    CsrfTokenTaken(Result<Option<OsuCsrfToken>, CacheError>),
    /// The osu! API's answer to the code exchange.
    CodeExchanged(Result<TokenGrant, ()>),
    /// The osu! API's answer to the request for the user: the user's id.
    UserFetched(Result<u32, UserDataError>),
    /// The answer to storing the user's API tokens.
    TokensStored(Result<(), TokenStoreError>),
    /// The answer to storing a new session: its id.
    SessionStored(Result<String, ()>),
}

/// What is to be done next in a sign-in through the gRPC service.
#[derive(Debug)]
pub enum OsuSignInAction {
    /// Take the entry with this key out of the cache store.
    TakeCsrfToken(String),
    /// Exchange this authorization code for tokens.
    ExchangeCode(String),
    /// Ask the osu! API for the user that this access token belongs to.
    FetchUser(String),
    /// Encrypt the user's tokens and store them, expiring after `expiry` seconds.
    StoreTokens { user_id: u32, access_token: String, refresh_token: String, expiry: usize },
    /// Create a session for the user and store it, expiring after `expiry` seconds.
    StoreSession { user_id: u32, expiry: usize },
    /// Hand this outcome to the caller.
    Finish(Result<OsuSignInOutcome, Status>),
    /// The event does not fit the state: nothing is to be done.
    Ignore,
}

/// The answer when the CSRF token cannot be read from the store.
pub const CSRF_READ_ERROR: &'static str = "error fetching CSRF token";
/// The answer when the store holds no CSRF token for the delivered one.
pub const CSRF_MISSING: &'static str = "missing CSRF token in cache";
/// The answer when the stored CSRF token differs from the delivered one.
pub const CSRF_MISMATCH: &'static str = "CSRF token mismatch";
/// The answer when the osu! API sent no token expiry.
pub const NO_TOKEN_EXPIRY: &'static str = "osu API did not send token expiry";
/// The answer when the osu! API could not be asked for the user.
pub const USER_REQUEST_FAILED: &'static str = "could not request user data using token";
/// The answer when the osu! API's answer is no user.
pub const USER_PARSE_FAILED: &'static str = "could not parse user data from osu API";
/// The answer when the access token cannot be encrypted.
pub const ACCESS_TOKEN_NOT_ENCRYPTED: &'static str = "error caching access token";
/// The answer when the refresh token cannot be encrypted.
pub const REFRESH_TOKEN_NOT_ENCRYPTED: &'static str = "error caching refresh token";
/// The answer when the store refuses the API tokens.
pub const TOKENS_NOT_CACHED: &'static str = "error caching access tokens";
/// The answer when the store refuses the session.
pub const SESSION_NOT_CACHED: &'static str = "error caching session token";

/// The answer to a failure to store the API tokens.
pub open spec fn token_store_status(e: TokenStoreError) -> Status {
    match e {
        TokenStoreError::EncryptAccessToken => Status::spec_new(Code::Internal, ACCESS_TOKEN_NOT_ENCRYPTED),
        TokenStoreError::EncryptRefreshToken => Status::spec_new(Code::Internal, REFRESH_TOKEN_NOT_ENCRYPTED),
        TokenStoreError::Cache => Status::spec_new(Code::Internal, TOKENS_NOT_CACHED),
    }
}

/// The answer to a failure to get the user.
pub open spec fn user_data_status(e: UserDataError) -> Status {
    match e {
        UserDataError::Request => Status::spec_new(Code::Internal, USER_REQUEST_FAILED),
        UserDataError::Parse => Status::spec_new(Code::Unauthenticated, USER_PARSE_FAILED),
    }
}

/// One transition of a sign-in through the gRPC service that delivers
/// `auth_code` with the CSRF token `csrf`: from `state`, `event` leads to
/// `next`, and `action` is to be done.
pub open spec fn osu_sign_in_next(
    state: OsuSignInState,
    event: OsuSignInEvent,
    auth_code: Seq<char>,
    csrf: Seq<char>,
    next: OsuSignInState,
    action: OsuSignInAction,
) -> bool {
    match (state, event) {
        (OsuSignInState::Start, OsuSignInEvent::Begin) => {
            &&& next is TakingCsrfToken
            &&& action matches OsuSignInAction::TakeCsrfToken(key) && key@ == cache_key(csrf_type_key(), csrf)
        },
        (OsuSignInState::TakingCsrfToken, OsuSignInEvent::CsrfTokenTaken(taken)) => match taken {
            Err(_) => next is Done && action == OsuSignInAction::Finish(
                Err(Status::spec_new(Code::Internal, CSRF_READ_ERROR)),
            ),
            Ok(None) => next is Done && action == OsuSignInAction::Finish(
                Err(Status::spec_new(Code::Unauthenticated, CSRF_MISSING)),
            ),
            Ok(Some(token)) => if token.0@ != csrf {
                next is Done && action == OsuSignInAction::Finish(
                    Err(Status::spec_new(Code::Unauthenticated, CSRF_MISMATCH)),
                )
            } else {
                &&& next is Exchanging
                &&& action matches OsuSignInAction::ExchangeCode(code) && code@ == auth_code
            },
        },
        (OsuSignInState::Exchanging, OsuSignInEvent::CodeExchanged(exchanged)) => match exchanged {
            Err(()) => next is Done && action == OsuSignInAction::Finish(
                Err(Status::spec_new(Code::Internal, EXCHANGE_FAILED)),
            ),
            Ok(grant) => match (grant.refresh_token, grant.expires_in) {
                (None, _) => next is Done && action == OsuSignInAction::Finish(
                    Err(Status::spec_new(Code::Internal, NO_REFRESH_TOKEN)),
                ),
                (Some(_), None) => next is Done && action == OsuSignInAction::Finish(
                    Err(Status::spec_new(Code::Internal, NO_TOKEN_EXPIRY)),
                ),
                (Some(refresh), Some(expires)) => {
                    &&& next matches OsuSignInState::FetchingUser { access_token: a, refresh_token: f, expiry: x }
                        && a@ == grant.access_token@ && f@ == refresh@ && x == expires as usize - 30
                    &&& action matches OsuSignInAction::FetchUser(token) && token@ == grant.access_token@
                },
            },
        },
        (
            OsuSignInState::FetchingUser { access_token, refresh_token, expiry },
            OsuSignInEvent::UserFetched(fetched),
        ) => match fetched {
            Err(e) => next is Done && action == OsuSignInAction::Finish(Err(user_data_status(e))),
            Ok(user_id) => {
                &&& next matches OsuSignInState::StoringTokens { user_id: u, access_token: a } && u
                    == user_id && a@ == access_token@
                &&& action matches OsuSignInAction::StoreTokens {
                    user_id: u,
                    access_token: a,
                    refresh_token: f,
                    expiry: x,
                } && u == user_id && a@ == access_token@ && f@ == refresh_token@ && x == expiry
            },
        },
        (OsuSignInState::StoringTokens { user_id, access_token }, OsuSignInEvent::TokensStored(stored)) =>
            match stored {
            Err(e) => next is Done && action == OsuSignInAction::Finish(Err(token_store_status(e))),
            Ok(()) => {
                &&& next matches OsuSignInState::StoringSession { access_token: a } && a@ == access_token@
                &&& action == OsuSignInAction::StoreSession { user_id, expiry: SESSION_EXPIRY }
            },
        },
        (OsuSignInState::StoringSession { access_token }, OsuSignInEvent::SessionStored(stored)) => match stored {
            Err(()) => next is Done && action == OsuSignInAction::Finish(
                Err(Status::spec_new(Code::Internal, SESSION_NOT_CACHED)),
            ),
            Ok(session_id) => {
                &&& next is Done
                &&& action matches OsuSignInAction::Finish(Ok(outcome))
                &&& outcome.session_id@ == session_id@
                &&& outcome.access_token@ == access_token@
            },
        },
        _ => next == state && action is Ignore,
    }
}

/// Whether `event` can be handed to a sign-in in `state`: an access token
/// that the osu! API hands out with its refresh token lives at least thirty
/// seconds.
pub open spec fn osu_sign_in_event_ok(state: OsuSignInState, event: OsuSignInEvent) -> bool {
    state is Exchanging ==> (event matches OsuSignInEvent::CodeExchanged(Ok(grant)) ==> (
    grant.refresh_token is Some && grant.expires_in is Some ==> grant.expires_in->0 as usize >= 30))
}

/// One step of the sign-in through the gRPC service that delivers the
/// authorization code `auth_code` together with the CSRF token `csrf_token`.
pub fn osu_sign_in_step(state: OsuSignInState, event: OsuSignInEvent, auth_code: &str, csrf_token: &str) -> (r: (
    OsuSignInState,
    OsuSignInAction,
))
    requires
        osu_sign_in_event_ok(state, event),
    ensures
        osu_sign_in_next(state, event, auth_code@, csrf_token@, r.0, r.1),
{
    match (state, event) {
        (OsuSignInState::Start, OsuSignInEvent::Begin) => {
            let key = OsuCsrfToken::full_key_with(&String::from_str(csrf_token));
            (OsuSignInState::TakingCsrfToken, OsuSignInAction::TakeCsrfToken(key))
        },
        (OsuSignInState::TakingCsrfToken, OsuSignInEvent::CsrfTokenTaken(taken)) => match taken {
            Err(_) => (
                OsuSignInState::Done,
                OsuSignInAction::Finish(Err(Status::new(Code::Internal, CSRF_READ_ERROR))),
            ),
            Ok(None) => (
                OsuSignInState::Done,
                OsuSignInAction::Finish(Err(Status::new(Code::Unauthenticated, CSRF_MISSING))),
            ),
            Ok(Some(token)) => {
                let delivered = String::from_str(csrf_token);
                if !token.0.eq(&delivered) {
                    (
                        OsuSignInState::Done,
                        OsuSignInAction::Finish(Err(Status::new(Code::Unauthenticated, CSRF_MISMATCH))),
                    )
                } else {
                    (OsuSignInState::Exchanging, OsuSignInAction::ExchangeCode(String::from_str(auth_code)))
                }
            },
        },
        (OsuSignInState::Exchanging, OsuSignInEvent::CodeExchanged(exchanged)) => match exchanged {
            Err(()) => (
                OsuSignInState::Done,
                OsuSignInAction::Finish(Err(Status::new(Code::Internal, EXCHANGE_FAILED))),
            ),
            Ok(grant) => match (grant.refresh_token, grant.expires_in) {
                (None, _) => (
                    OsuSignInState::Done,
                    OsuSignInAction::Finish(Err(Status::new(Code::Internal, NO_REFRESH_TOKEN))),
                ),
                (Some(_), None) => (
                    OsuSignInState::Done,
                    OsuSignInAction::Finish(Err(Status::new(Code::Internal, NO_TOKEN_EXPIRY))),
                ),
                (Some(refresh), Some(expires)) => {
                    let token = grant.access_token.clone();
                    (
                        OsuSignInState::FetchingUser {
                            access_token: grant.access_token,
                            refresh_token: refresh,
                            expiry: api_tokens_expiry(expires),
                        },
                        OsuSignInAction::FetchUser(token),
                    )
                },
            },
        },
        (
            OsuSignInState::FetchingUser { access_token, refresh_token, expiry },
            OsuSignInEvent::UserFetched(fetched),
        ) => match fetched {
            Err(e) => {
                let status = match e {
                    UserDataError::Request => Status::new(Code::Internal, USER_REQUEST_FAILED),
                    UserDataError::Parse => Status::new(Code::Unauthenticated, USER_PARSE_FAILED),
                };
                (OsuSignInState::Done, OsuSignInAction::Finish(Err(status)))
            },
            Ok(user_id) => {
                let kept = access_token.clone();
                (
                    OsuSignInState::StoringTokens { user_id, access_token: kept },
                    OsuSignInAction::StoreTokens { user_id, access_token, refresh_token, expiry },
                )
            },
        },
        (OsuSignInState::StoringTokens { user_id, access_token }, OsuSignInEvent::TokensStored(stored)) =>
            match stored {
            Err(e) => {
                let status = match e {
                    TokenStoreError::EncryptAccessToken => Status::new(Code::Internal, ACCESS_TOKEN_NOT_ENCRYPTED),
                    TokenStoreError::EncryptRefreshToken => Status::new(Code::Internal, REFRESH_TOKEN_NOT_ENCRYPTED),
                    TokenStoreError::Cache => Status::new(Code::Internal, TOKENS_NOT_CACHED),
                };
                (OsuSignInState::Done, OsuSignInAction::Finish(Err(status)))
            },
            Ok(()) => (
                OsuSignInState::StoringSession { access_token },
                OsuSignInAction::StoreSession { user_id, expiry: SESSION_EXPIRY },
            ),
        },
        (OsuSignInState::StoringSession { access_token }, OsuSignInEvent::SessionStored(stored)) => match stored {
            Err(()) => (
                OsuSignInState::Done,
                OsuSignInAction::Finish(Err(Status::new(Code::Internal, SESSION_NOT_CACHED))),
            ),
            Ok(session_id) => (
                OsuSignInState::Done,
                OsuSignInAction::Finish(Ok(OsuSignInOutcome { session_id, access_token })),
            ),
        },
        (s, _) => (s, OsuSignInAction::Ignore),
    }
}

/// A run of a sign-in through the gRPC service: from the start, `events[i]`
/// takes `states[i]` to `states[i + 1]`, and `actions[i]` is to be done.
pub open spec fn osu_sign_in_run(
    states: Seq<OsuSignInState>,
    events: Seq<OsuSignInEvent>,
    actions: Seq<OsuSignInAction>,
    auth_code: Seq<char>,
    csrf: Seq<char>,
) -> bool {
    &&& states.len() == events.len() + 1
    &&& actions.len() == events.len()
    &&& states[0] is Start
    &&& forall|i: int|
        0 <= i < events.len() ==> osu_sign_in_next(
            #[trigger] states[i],
            events[i],
            auth_code,
            csrf,
            states[i + 1],
            actions[i],
        )
}

/// Whether `events[j]` took out of the store a CSRF token equal to `csrf`.
pub open spec fn osu_took_token(events: Seq<OsuSignInEvent>, j: int, csrf: Seq<char>) -> bool {
    events[j] matches OsuSignInEvent::CsrfTokenTaken(Ok(Some(t))) && t.0@ == csrf
}

/// Whether `actions[j]` stores the API tokens of a user.
pub open spec fn stores_tokens(actions: Seq<OsuSignInAction>, j: int) -> bool {
    actions[j] is StoreTokens
}

/// Whether `actions[j]` stores a session that expires after `SESSION_EXPIRY` seconds.
pub open spec fn stores_session(actions: Seq<OsuSignInAction>, j: int) -> bool {
    actions[j] matches OsuSignInAction::StoreSession { expiry, .. } && expiry == SESSION_EXPIRY
}

proof fn lemma_osu_sign_in_history(
    states: Seq<OsuSignInState>,
    events: Seq<OsuSignInEvent>,
    actions: Seq<OsuSignInAction>,
    auth_code: Seq<char>,
    csrf: Seq<char>,
    i: int,
)
    requires
        osu_sign_in_run(states, events, actions, auth_code, csrf),
        0 <= i < states.len(),
    ensures
        !(states[i] is Start || states[i] is TakingCsrfToken || states[i] is Done) ==> exists|j: int|
            0 <= j < i && #[trigger] osu_took_token(events, j, csrf),
        (states[i] is StoringTokens || states[i] is StoringSession) ==> exists|j: int|
            0 <= j < i && #[trigger] stores_tokens(actions, j),
        states[i] is StoringSession ==> exists|j: int| 0 <= j < i && #[trigger] stores_session(actions, j),
    decreases i,
{
    if i > 0 {
        lemma_osu_sign_in_history(states, events, actions, auth_code, csrf, i - 1);
        assert(osu_sign_in_next(states[i - 1], events[i - 1], auth_code, csrf, states[i], actions[i - 1]));
        if states[i] is Exchanging && states[i - 1] is TakingCsrfToken {
            assert(osu_took_token(events, i - 1, csrf));
        }
        if states[i] is StoringTokens && states[i - 1] is FetchingUser {
            assert(stores_tokens(actions, i - 1));
        }
        if states[i] is StoringSession && states[i - 1] is StoringTokens {
            assert(stores_session(actions, i - 1));
        }
    }
}

/// A sign-in through the gRPC service hands out a session only after the CSRF
/// token taken out of the cache store matched the delivered one, the user's
/// API tokens were stored, and the session was stored to expire after
/// `SESSION_EXPIRY` seconds.
pub proof fn lemma_osu_sign_in_success(
    states: Seq<OsuSignInState>,
    events: Seq<OsuSignInEvent>,
    actions: Seq<OsuSignInAction>,
    auth_code: Seq<char>,
    csrf: Seq<char>,
    k: int,
)
    requires
        osu_sign_in_run(states, events, actions, auth_code, csrf),
        0 <= k < events.len(),
        actions[k] matches OsuSignInAction::Finish(Ok(_)),
    ensures
        exists|j: int| 0 <= j < k && #[trigger] osu_took_token(events, j, csrf),
        exists|j: int| 0 <= j < k && #[trigger] stores_tokens(actions, j),
        exists|j: int| 0 <= j < k && #[trigger] stores_session(actions, j),
{
    assert(osu_sign_in_next(states[k], events[k], auth_code, csrf, states[k + 1], actions[k]));
    lemma_osu_sign_in_history(states, events, actions, auth_code, csrf, k);
}

/// Whether `events[j]` is the osu! API's answer that the access token belongs
/// to the user with id `user_id`, and `actions[j]` stores that user's API tokens.
pub open spec fn fetched_and_stored_tokens(
    events: Seq<OsuSignInEvent>,
    actions: Seq<OsuSignInAction>,
    j: int,
    user_id: u32,
) -> bool {
    &&& events[j] matches OsuSignInEvent::UserFetched(Ok(u)) && u == user_id
    &&& actions[j] matches OsuSignInAction::StoreTokens { user_id: t, .. } && t == user_id
}

proof fn lemma_osu_user_history(
    states: Seq<OsuSignInState>,
    events: Seq<OsuSignInEvent>,
    actions: Seq<OsuSignInAction>,
    auth_code: Seq<char>,
    csrf: Seq<char>,
    i: int,
)
    requires
        osu_sign_in_run(states, events, actions, auth_code, csrf),
        0 <= i < states.len(),
    ensures
        states[i] matches OsuSignInState::StoringTokens { user_id, .. } ==> exists|j: int|
            0 <= j < i && #[trigger] fetched_and_stored_tokens(events, actions, j, user_id),
    decreases i,
{
    if i > 0 {
        lemma_osu_user_history(states, events, actions, auth_code, csrf, i - 1);
        assert(osu_sign_in_next(states[i - 1], events[i - 1], auth_code, csrf, states[i], actions[i - 1]));
        if let OsuSignInState::StoringTokens { user_id, .. } = states[i] {
            if states[i - 1] is FetchingUser {
                assert(fetched_and_stored_tokens(events, actions, i - 1, user_id));
            }
        }
    }
}

/// The session that a sign-in through the gRPC service stores belongs to the
/// user that the osu! API described for the access token, and whose API
/// tokens were stored before it: every `StoreSession` action names the user id
/// of an earlier `UserFetched(Ok(..))` answer and of the `StoreTokens` action
/// made in reply to it.
pub proof fn lemma_osu_session_for_fetched_user(
    states: Seq<OsuSignInState>,
    events: Seq<OsuSignInEvent>,
    actions: Seq<OsuSignInAction>,
    auth_code: Seq<char>,
    csrf: Seq<char>,
    k: int,
)
    requires
        osu_sign_in_run(states, events, actions, auth_code, csrf),
        0 <= k < events.len(),
        actions[k] is StoreSession,
    ensures
        exists|j: int|
            0 <= j < k && #[trigger] fetched_and_stored_tokens(
                events,
                actions,
                j,
                actions[k]->StoreSession_user_id,
            ),
        actions[k]->StoreSession_expiry == SESSION_EXPIRY,
{
    assert(osu_sign_in_next(states[k], events[k], auth_code, csrf, states[k + 1], actions[k]));
    assert(states[k] is StoringTokens);
    let uid = states[k]->StoringTokens_user_id;
    assert(actions[k]->StoreSession_user_id == uid);
    lemma_osu_user_history(states, events, actions, auth_code, csrf, k);
    let j = choose|j: int| 0 <= j < k && #[trigger] fetched_and_stored_tokens(events, actions, j, uid);
    assert(fetched_and_stored_tokens(events, actions, j, actions[k]->StoreSession_user_id));
}

} // verus!

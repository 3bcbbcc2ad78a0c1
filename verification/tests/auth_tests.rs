use tstats::auth::{
    after_token_check, api_tokens_expiry, authorize, names_protected_service,
    sign_in_step, AccessDecision, AuthError, AuthorizationHeader, DeliverAuthCodeResponseDto,
    OsuCsrfToken, SignInAction, SignInEvent, SignInState, TokenGrant, EXCHANGE_FAILED,
    INVALID_TOKEN, NON_UNICODE_TOKEN, NO_AUTHORIZATION, NO_REFRESH_TOKEN, TOKEN_READ_ERROR,
    UNKNOWN_TOKEN,
};
use tstats::auth::{
    osu_sign_in_step, OsuAccessToken, OsuApiTokens, OsuAuthCode, OsuRefreshToken, OsuSignInAction,
    OsuSignInEvent, OsuSignInOutcome, OsuSignInState, Session, TokenStoreError, UserDataError,
    ACCESS_TOKEN_NOT_ENCRYPTED, CSRF_MISMATCH, CSRF_MISSING, CSRF_READ_ERROR, NO_TOKEN_EXPIRY,
    REFRESH_TOKEN_NOT_ENCRYPTED, SESSION_EXPIRY, SESSION_NOT_CACHED, TOKENS_NOT_CACHED,
    USER_PARSE_FAILED, USER_REQUEST_FAILED,
};
use tstats::cache::CacheError;
use tstats::cache_key::Cacheable;
use tstats::osu::{BeatmapDto, OsuUser, OsuUserDto, UserSource};
use tstats::status::{Code, Status};

fn services() -> Vec<String> {
    vec!["tournaments.TournamentService".to_string(), "osu.OsuUserService".to_string()]
}

#[test]
fn unprotected_paths_pass() {
    let d = authorize("/stages.StageService/Get", &services(), &AuthorizationHeader::Missing);
    assert_eq!(d, AccessDecision::Allow);
    assert!(!names_protected_service("/stages.StageService/Get", &services()));
    assert!(names_protected_service("/osu.OsuUserService/Get", &services()));
}

#[test]
fn protected_path_needs_header() {
    let path = "/tournaments.TournamentService/Create";
    assert_eq!(
        authorize(path, &services(), &AuthorizationHeader::Missing),
        AccessDecision::Deny(Status { code: Code::Unauthenticated, message: NO_AUTHORIZATION })
    );
    assert_eq!(
        authorize(path, &services(), &AuthorizationHeader::NotText),
        AccessDecision::Deny(Status { code: Code::Unauthenticated, message: NON_UNICODE_TOKEN })
    );
    assert_eq!(
        authorize(path, &services(), &AuthorizationHeader::Value("Token abc".to_string())),
        AccessDecision::Deny(Status { code: Code::Unauthenticated, message: INVALID_TOKEN })
    );
    assert_eq!(
        authorize(path, &services(), &AuthorizationHeader::Value("Bearer abc123".to_string())),
        AccessDecision::CheckToken("abc123".to_string())
    );
    assert_eq!(
        authorize(path, &services(), &AuthorizationHeader::Value("Bearer ".to_string())),
        AccessDecision::CheckToken(String::new())
    );
}

#[test]
fn token_check_answers() {
    assert_eq!(after_token_check(Ok(true)), Ok(()));
    assert_eq!(
        after_token_check(Ok(false)),
        Err(Status { code: Code::Unauthenticated, message: UNKNOWN_TOKEN })
    );
    assert_eq!(
        after_token_check(Err(())),
        Err(Status { code: Code::Internal, message: TOKEN_READ_ERROR })
    );
}

#[test]
fn api_tokens_expire_thirty_seconds_early() {
    assert_eq!(api_tokens_expiry(86_400), 86_370);
    assert_eq!(api_tokens_expiry(30), 0);
}

fn csrf_taken(secret: &str) -> SignInEvent {
    SignInEvent::CsrfTokenTaken(Ok(Some(OsuCsrfToken(secret.to_string(), "https://back/".to_string()))))
}

fn grant() -> TokenGrant {
    TokenGrant {
        access_token: "access".to_string(),
        refresh_token: Some("refresh".to_string()),
        expires_in: Some(86_400),
    }
}

#[test]
fn sign_in_succeeds() {
    let (s, a) = sign_in_step(SignInState::Start, SignInEvent::Begin, "code", "csrf");
    match a {
        SignInAction::TakeCsrfToken(k) => assert_eq!(k, "oauthcsrftoken:csrf"),
        other => panic!("unexpected {other:?}"),
    }
    let (s, a) = sign_in_step(s, csrf_taken("csrf"), "code", "csrf");
    match a {
        SignInAction::ExchangeCode(c) => assert_eq!(c, "code"),
        other => panic!("unexpected {other:?}"),
    }
    let (s, a) = sign_in_step(s, SignInEvent::CodeExchanged(Ok(grant())), "code", "csrf");
    match a {
        SignInAction::FetchUser(t) => assert_eq!(t, "access"),
        other => panic!("unexpected {other:?}"),
    }
    let user = UserSource { user_id: 2, username: "peppy".to_string(), country: Some("Australia".to_string()) };
    let (s, a) = sign_in_step(s, SignInEvent::UserFetched(Ok(user)), "code", "csrf");
    assert_eq!(s, SignInState::Done);
    match a {
        SignInAction::Finish(Ok(result)) => {
            assert_eq!(result.return_url, "https://back/");
            assert_eq!(result.session.user.user_id, 2);
            assert_eq!(result.session.user.country, "Australia");
            assert_eq!(result.session.access_token, "access");
            assert_eq!(result.session.refresh_token, "refresh");
            assert_eq!(result.session.expires_in, 86_400);
            let response = DeliverAuthCodeResponseDto::from_auth_result(result);
            assert_eq!(response.return_url, "https://back/");
            assert_eq!(response.user.username, "peppy");
        }
        other => panic!("unexpected {other:?}"),
    }
}

#[test]
fn sign_in_failures() {
    let finish_err = |state: SignInState, event: SignInEvent| match sign_in_step(state, event, "code", "csrf") {
        (SignInState::Done, SignInAction::Finish(Err(e))) => e,
        other => panic!("unexpected {other:?}"),
    };
    assert_eq!(finish_err(SignInState::TakingCsrfToken, SignInEvent::CsrfTokenTaken(Ok(None))), AuthError::NoCsrfToken);
    assert_eq!(finish_err(SignInState::TakingCsrfToken, csrf_taken("other")), AuthError::CsrfTokenMismatch);
    assert_eq!(
        finish_err(
            SignInState::TakingCsrfToken,
            SignInEvent::CsrfTokenTaken(Err(CacheError::Redis("down".to_string())))
        ),
        AuthError::CacheError(CacheError::Redis("down".to_string()))
    );
    let exchanging = || SignInState::Exchanging { return_url: "r".to_string() };
    assert_eq!(finish_err(exchanging(), SignInEvent::CodeExchanged(Err(()))), AuthError::OAuthError(EXCHANGE_FAILED));
    let mut no_refresh = grant();
    no_refresh.refresh_token = None;
    assert_eq!(
        finish_err(exchanging(), SignInEvent::CodeExchanged(Ok(no_refresh))),
        AuthError::OAuthError(NO_REFRESH_TOKEN)
    );
    let mut no_expiry = grant();
    no_expiry.expires_in = None;
    assert_eq!(
        finish_err(exchanging(), SignInEvent::CodeExchanged(Ok(no_expiry))),
        AuthError::OAuthError("osu API did not send refresh token")
    );
    let fetching = SignInState::FetchingUser {
        return_url: "r".to_string(),
        access_token: "a".to_string(),
        refresh_token: "f".to_string(),
        expires_in: 1,
    };
    assert_eq!(finish_err(fetching, SignInEvent::UserFetched(Err(()))), AuthError::ErrorFetchingOsuUser);
}

#[test]
fn sign_in_ignores_events_out_of_order() {
    let (s, a) = sign_in_step(SignInState::Start, SignInEvent::UserFetched(Err(())), "c", "s");
    assert_eq!(s, SignInState::Start);
    assert!(matches!(a, SignInAction::Ignore));
}

fn osu_grant(refresh: Option<&str>, expires: Option<u64>) -> TokenGrant {
    TokenGrant {
        access_token: "acc".to_string(),
        refresh_token: refresh.map(|r| r.to_string()),
        expires_in: expires,
    }
}

#[test]
fn osu_sign_in_runs_through() {
    let (s, a) = osu_sign_in_step(OsuSignInState::Start, OsuSignInEvent::Begin, "code", "csrf");
    assert!(matches!(a, OsuSignInAction::TakeCsrfToken(ref k) if k == "oauthcsrftoken:csrf"));
    let token = OsuCsrfToken("csrf".to_string(), "https://back".to_string());
    let (s, a) = osu_sign_in_step(s, OsuSignInEvent::CsrfTokenTaken(Ok(Some(token))), "code", "csrf");
    assert!(matches!(a, OsuSignInAction::ExchangeCode(ref c) if c == "code"));
    let (s, a) = osu_sign_in_step(s, OsuSignInEvent::CodeExchanged(Ok(osu_grant(Some("ref"), Some(86_400)))), "code", "csrf");
    assert!(matches!(a, OsuSignInAction::FetchUser(ref t) if t == "acc"));
    let (s, a) = osu_sign_in_step(s, OsuSignInEvent::UserFetched(Ok(42)), "code", "csrf");
    match a {
        OsuSignInAction::StoreTokens { user_id, access_token, refresh_token, expiry } => {
            assert_eq!((user_id, access_token.as_str(), refresh_token.as_str(), expiry), (42, "acc", "ref", 86_370));
        }
        _ => panic!("expected the tokens to be stored"),
    }
    let (s, a) = osu_sign_in_step(s, OsuSignInEvent::TokensStored(Ok(())), "code", "csrf");
    assert!(matches!(a, OsuSignInAction::StoreSession { user_id: 42, expiry: 600 }));
    assert_eq!(SESSION_EXPIRY, 600);
    let (s, a) = osu_sign_in_step(s, OsuSignInEvent::SessionStored(Ok("sess".to_string())), "code", "csrf");
    assert_eq!(s, OsuSignInState::Done);
    match a {
        OsuSignInAction::Finish(Ok(outcome)) => {
            assert_eq!(outcome, OsuSignInOutcome { session_id: "sess".to_string(), access_token: "acc".to_string() })
        }
        _ => panic!("expected success"),
    }
}

fn osu_finish(a: OsuSignInAction) -> Result<OsuSignInOutcome, Status> {
    match a {
        OsuSignInAction::Finish(r) => r,
        _ => panic!("expected the sign-in to finish"),
    }
}

#[test]
fn osu_sign_in_errors() {
    let unauth = |m| Err(Status { code: Code::Unauthenticated, message: m });
    let internal = |m| Err(Status { code: Code::Internal, message: m });
    let (_, a) = osu_sign_in_step(OsuSignInState::TakingCsrfToken, OsuSignInEvent::CsrfTokenTaken(Ok(None)), "c", "x");
    assert_eq!(osu_finish(a), unauth(CSRF_MISSING));
    let (_, a) = osu_sign_in_step(
        OsuSignInState::TakingCsrfToken,
        OsuSignInEvent::CsrfTokenTaken(Err(CacheError::Redis("down".to_string()))),
        "c",
        "x",
    );
    assert_eq!(osu_finish(a), internal(CSRF_READ_ERROR));
    let other = OsuCsrfToken("y".to_string(), String::new());
    let (_, a) = osu_sign_in_step(OsuSignInState::TakingCsrfToken, OsuSignInEvent::CsrfTokenTaken(Ok(Some(other))), "c", "x");
    assert_eq!(osu_finish(a), unauth(CSRF_MISMATCH));
    let (_, a) = osu_sign_in_step(OsuSignInState::Exchanging, OsuSignInEvent::CodeExchanged(Err(())), "c", "x");
    assert_eq!(osu_finish(a), internal(EXCHANGE_FAILED));
    let (_, a) = osu_sign_in_step(OsuSignInState::Exchanging, OsuSignInEvent::CodeExchanged(Ok(osu_grant(None, Some(100)))), "c", "x");
    assert_eq!(osu_finish(a), internal(NO_REFRESH_TOKEN));
    let (_, a) = osu_sign_in_step(OsuSignInState::Exchanging, OsuSignInEvent::CodeExchanged(Ok(osu_grant(Some("r"), None))), "c", "x");
    assert_eq!(osu_finish(a), internal(NO_TOKEN_EXPIRY));
    let fetching = || OsuSignInState::FetchingUser { access_token: "a".to_string(), refresh_token: "r".to_string(), expiry: 10 };
    let (_, a) = osu_sign_in_step(fetching(), OsuSignInEvent::UserFetched(Err(UserDataError::Request)), "c", "x");
    assert_eq!(osu_finish(a), internal(USER_REQUEST_FAILED));
    let (_, a) = osu_sign_in_step(fetching(), OsuSignInEvent::UserFetched(Err(UserDataError::Parse)), "c", "x");
    assert_eq!(osu_finish(a), unauth(USER_PARSE_FAILED));
    let storing = || OsuSignInState::StoringTokens { user_id: 1, access_token: "a".to_string() };
    for (e, m) in [
        (TokenStoreError::EncryptAccessToken, ACCESS_TOKEN_NOT_ENCRYPTED),
        (TokenStoreError::EncryptRefreshToken, REFRESH_TOKEN_NOT_ENCRYPTED),
        (TokenStoreError::Cache, TOKENS_NOT_CACHED),
    ] {
        let (_, a) = osu_sign_in_step(storing(), OsuSignInEvent::TokensStored(Err(e)), "c", "x");
        assert_eq!(osu_finish(a), internal(m));
    }
    let (_, a) = osu_sign_in_step(
        OsuSignInState::StoringSession { access_token: "a".to_string() },
        OsuSignInEvent::SessionStored(Err(())),
        "c",
        "x",
    );
    assert_eq!(osu_finish(a), internal(SESSION_NOT_CACHED));
    let (s, a) = osu_sign_in_step(OsuSignInState::Done, OsuSignInEvent::Begin, "c", "x");
    assert_eq!(s, OsuSignInState::Done);
    assert!(matches!(a, OsuSignInAction::Ignore));
}

#[test]
fn cached_kinds_have_distinct_type_keys() {
    let keys = [
        OsuUserDto::type_key(),
        OsuUser::type_key(),
        BeatmapDto::<u8>::type_key(),
        OsuCsrfToken::type_key(),
        OsuAuthCode::type_key(),
        OsuRefreshToken::type_key(),
        OsuAccessToken::type_key(),
        Session::type_key(),
        OsuApiTokens::type_key(),
    ];
    for i in 0..keys.len() {
        assert!(!keys[i].contains(':'));
        for j in i + 1..keys.len() {
            assert_ne!(keys[i], keys[j]);
        }
    }
    assert_eq!(OsuUserDto::type_key(), "osuuserdto");
    assert_eq!(OsuUser::type_key(), "osuuser");
}

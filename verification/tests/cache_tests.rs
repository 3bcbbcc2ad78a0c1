use tstats::auth::{OsuApiTokens, OsuCsrfToken, Session, EncryptedToken};
use tstats::cache::{fetch_step, CacheError, FetchAction, FetchEvent, FetchState};
use tstats::cache_key::{compose_cache_key, u32_to_decimal, CacheKey, Cacheable};
use tstats::osu::OsuUserDto;

fn user(id: u32) -> OsuUserDto {
    OsuUserDto {
        user_id: id,
        username: "peppy".to_string(),
        country: "AU".to_string(),
        cover_url: "c.jpg".to_string(),
    }
}

#[test]
fn decimal_formatting_matches_to_string() {
    for n in [0u32, 7, 10, 42, 100, 12345, 99999, u32::MAX] {
        assert_eq!(u32_to_decimal(n), n.to_string());
    }
}

#[test]
fn key_strings() {
    assert_eq!(17u32.to_key_string(), "17");
    assert_eq!("abc".to_string().to_key_string(), "abc");
    assert_eq!(compose_cache_key("map", "5"), "map:5");
}

#[test]
fn full_keys_of_cached_values() {
    assert_eq!(user(42).full_key(), "osuuserdto:42");
    assert_eq!(OsuUserDto::full_key_with(&42), "osuuserdto:42");
    let session = Session { session_id: "s3cr3t".to_string(), osu_user_id: 1 };
    assert_eq!(session.full_key(), "session:s3cr3t");
    let csrf = OsuCsrfToken("tok".to_string(), "https://back".to_string());
    assert_eq!(csrf.full_key(), "oauthcsrftoken:tok");
    let tokens = OsuApiTokens {
        user_id: 9,
        access_token: EncryptedToken { ciphertext: vec![1, 2] },
        refresh_token: EncryptedToken { ciphertext: vec![3] },
    };
    assert_eq!(tokens.full_key(), "osuapitokens:9");
}

#[test]
fn value_is_stored_under_its_lookup_key() {
    let v = user(1234);
    assert_eq!(v.full_key(), OsuUserDto::full_key_with(&v.key()));
}

#[test]
fn distinct_keys_give_distinct_cache_keys() {
    assert_ne!(user(1).full_key(), user(11).full_key());
    assert_ne!(OsuUserDto::full_key_with(&12), OsuUserDto::full_key_with(&1));
}

#[test]
fn cache_hit_returns_cached_value() {
    let key = 5u32;
    let (s, a) = fetch_step::<OsuUserDto>(FetchState::Start, FetchEvent::Begin, &key, Some(60));
    match a {
        FetchAction::Lookup(k) => assert_eq!(k, "osuuserdto:5"),
        _ => panic!("expected a lookup"),
    }
    let (s, a) = fetch_step(s, FetchEvent::Looked(Ok(Some(user(5)))), &key, Some(60));
    assert!(matches!(s, FetchState::Done));
    match a {
        FetchAction::Finish(Ok(v)) => assert_eq!(v, user(5)),
        _ => panic!("expected the cached value"),
    }
}

#[test]
fn cache_miss_fetches_stores_and_returns() {
    let key = 6u32;
    let (s, _) = fetch_step::<OsuUserDto>(FetchState::Start, FetchEvent::Begin, &key, Some(3600));
    let (s, a) = fetch_step(s, FetchEvent::Looked(Ok(None)), &key, Some(3600));
    assert!(matches!(a, FetchAction::CallSource));
    let (s, a) = fetch_step(s, FetchEvent::Sourced(Ok(user(6))), &key, Some(3600));
    match a {
        FetchAction::Store { key, expiry } => {
            assert_eq!(key, "osuuserdto:6");
            assert_eq!(expiry, Some(3600));
        }
        _ => panic!("expected a store"),
    }
    match &s {
        FetchState::Storing(v) => assert_eq!(v, &user(6)),
        _ => panic!("expected the storing state"),
    }
    let (s, a) = fetch_step(s, FetchEvent::Stored(Ok(())), &key, Some(3600));
    assert!(matches!(s, FetchState::Done));
    match a {
        FetchAction::Finish(Ok(v)) => assert_eq!(v, user(6)),
        _ => panic!("expected the fetched value"),
    }
}

#[test]
fn lookup_error_falls_back_to_source() {
    let (_, a) = fetch_step::<OsuUserDto>(
        FetchState::Looking,
        FetchEvent::Looked(Err(CacheError::Redis("down".to_string()))),
        &1,
        None,
    );
    assert!(matches!(a, FetchAction::CallSource));
}

#[test]
fn source_error_is_request_error() {
    let (s, a) = fetch_step::<OsuUserDto>(
        FetchState::Sourcing,
        FetchEvent::Sourced(Err("api down".to_string())),
        &1,
        None,
    );
    assert!(matches!(s, FetchState::Done));
    match a {
        FetchAction::Finish(Err(e)) => assert_eq!(e, CacheError::Request("api down".to_string())),
        _ => panic!("expected a request error"),
    }
}

#[test]
fn store_error_is_returned() {
    let (_, a) = fetch_step::<OsuUserDto>(
        FetchState::Storing(user(2)),
        FetchEvent::Stored(Err(CacheError::Serde("bad".to_string()))),
        &2,
        None,
    );
    match a {
        FetchAction::Finish(Err(e)) => assert_eq!(e, CacheError::Serde("bad".to_string())),
        _ => panic!("expected the store error"),
    }
}

#[test]
fn unexpected_event_is_ignored() {
    let (s, a) = fetch_step::<OsuUserDto>(FetchState::Done, FetchEvent::Begin, &2, None);
    assert!(matches!(s, FetchState::Done));
    assert!(matches!(a, FetchAction::Ignore));
}

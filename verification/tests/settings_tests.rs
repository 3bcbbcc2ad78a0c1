use tstats::settings::{
    config_file_name, decode_session_signing_key, select_profile, signing_key_from, InvalidProfile, SigningKeyNotBase64,
    TStatsProfile,
};

#[test]
fn profile_names_in_any_case() {
    assert_eq!(TStatsProfile::from_str("dev"), Ok(TStatsProfile::DEV));
    assert_eq!(TStatsProfile::from_str("DeV"), Ok(TStatsProfile::DEV));
    assert_eq!(TStatsProfile::from_str("PROD"), Ok(TStatsProfile::PROD));
    assert_eq!(
        TStatsProfile::from_str("staging"),
        Err(InvalidProfile { input: "staging".to_string() })
    );
    assert_eq!(TStatsProfile::from_str("dev "), Err(InvalidProfile { input: "dev ".to_string() }));
}

#[test]
fn profile_name_round_trip() {
    for p in [TStatsProfile::DEV, TStatsProfile::PROD] {
        assert_eq!(TStatsProfile::from_str(p.as_str()), Ok(p));
        assert_eq!(TStatsProfile::from_str(&p.as_str().to_uppercase()), Ok(p));
    }
    assert_eq!(TStatsProfile::DEV.as_str(), "dev");
    assert_eq!(TStatsProfile::PROD.as_str(), "prod");
}

#[test]
fn profile_defaults_to_dev() {
    assert_eq!(select_profile(None), Ok(TStatsProfile::DEV));
    assert_eq!(select_profile(Some("prod".to_string())), Ok(TStatsProfile::PROD));
    assert_eq!(select_profile(Some("x".to_string())), Err(InvalidProfile { input: "x".to_string() }));
}

#[test]
fn config_file_names() {
    assert_eq!(config_file_name(None), "config");
    assert_eq!(config_file_name(Some("dev")), "config-dev");
    assert_eq!(config_file_name(Some("local")), "config-local");
}

#[test]
fn signing_key_decoded() {
    assert_eq!(decode_session_signing_key("aGVsbG8="), Ok(b"hello".to_vec()));
    assert_eq!(decode_session_signing_key("!!!"), Err(SigningKeyNotBase64));
}

#[test]
fn signing_key_from_decoded_bytes() {
    assert_eq!(signing_key_from(Some(vec![1, 2, 3])), Ok(vec![1, 2, 3]));
    assert_eq!(signing_key_from(None), Err(SigningKeyNotBase64));
}

//! The backend's settings: the profile it runs under, the names of its
//! configuration files, the osu! API credentials and the session signing key.
use vstd::prelude::*;

verus! {

/// The profile the backend runs under.
#[derive(Debug, Clone, Copy, PartialEq, Eq, Structural)]
pub enum TStatsProfile {
    DEV,
    PROD,
}

/// A profile name that names no profile.
#[derive(Debug, Clone, PartialEq, Eq)]
pub struct InvalidProfile {
    /// The name as it was given.
    pub input: String,
}

/// The osu! API credentials.
#[derive(Debug, Clone, PartialEq, Eq)]
pub struct OsuConfig {
    pub client_id: u64,
    pub client_secret: String,
}

/// The lowercase form of an ASCII letter; other characters stay as they are.
pub open spec fn ascii_lower(c: char) -> char {
    if 'A' <= c && c <= 'Z' {
        ((c as u32) + 32) as char
    } else {
        c
    }
}

/// Whether `s` reads `lower` regardless of the case of its letters.
///
/// For the lowercase ASCII words this is compared with, this is the same as
/// comparing the Unicode lowercase form of `s` with `lower`: the only
/// characters whose lowercase forms hold the letters d, e, o, p, r and v are
/// those letters and their uppercase forms.
pub open spec fn equals_ignoring_case(s: Seq<char>, lower: Seq<char>) -> bool {
    s.len() == lower.len() && forall|i: int| 0 <= i < s.len() ==> ascii_lower(#[trigger] s[i]) == lower[i]
}

fn lower_equals(c: char, target: char) -> (r: bool)
    ensures
        r == (ascii_lower(c) == target),
{
    if 'A' <= c && c <= 'Z' {
        (c as u32) + 32 == target as u32
    } else {
        c == target
    }
}

/// Whether `s` reads `lower`, regardless of case.
pub fn matches_ignoring_case(s: &str, lower: &str) -> (r: bool)
    ensures
        r == equals_ignoring_case(s@, lower@),
{
    let n = s.unicode_len();
    if n != lower.unicode_len() {
        return false;
    }
    let mut i: usize = 0;
    while i < n
        invariant
            n == s@.len(),
            n == lower@.len(),
            i <= n,
            forall|j: int| 0 <= j < i ==> ascii_lower(#[trigger] s@[j]) == lower@[j],
        decreases n - i,
    {
        if !lower_equals(s.get_char(i), lower.get_char(i)) {
            return false;
        }
        i = i + 1;
    }
    true
}

/// The profile named `s`, case aside.
pub open spec fn parse_profile(s: Seq<char>) -> Option<TStatsProfile> {
    if equals_ignoring_case(s, "dev"@) {
        Some(TStatsProfile::DEV)
    } else if equals_ignoring_case(s, "prod"@) {
        Some(TStatsProfile::PROD)
    } else {
        None
    }
}

impl TStatsProfile {
    /// Reads a profile name: "dev" or "prod", in any case.
    pub fn from_str(s: &str) -> (r: Result<TStatsProfile, InvalidProfile>)
        ensures
            r matches Ok(p) ==> parse_profile(s@) == Some(p),
            r matches Err(e) ==> parse_profile(s@) is None && e.input@ == s@,
    {
        if matches_ignoring_case(s, "dev") {
            Ok(TStatsProfile::DEV)
        } else if matches_ignoring_case(s, "prod") {
            Ok(TStatsProfile::PROD)
        } else {
            Err(InvalidProfile { input: s.to_owned() })
        }
    }

    /// The profile's name, as it is displayed.
    pub fn as_str(&self) -> (r: &'static str)
        ensures
            r@ == profile_name(*self),
    {
        match self {
            TStatsProfile::DEV => "dev",
            TStatsProfile::PROD => "prod",
        }
    }
}

/// The displayed name of a profile.
pub open spec fn profile_name(p: TStatsProfile) -> Seq<char> {
    match p {
        TStatsProfile::DEV => "dev"@,
        TStatsProfile::PROD => "prod"@,
    }
}

/// A profile's displayed name reads back as that profile, whatever the case of its letters.
pub proof fn lemma_profile_name_round_trip(p: TStatsProfile, s: Seq<char>)
    requires
        s.len() == profile_name(p).len(),
        forall|i: int| 0 <= i < s.len() ==> ascii_lower(#[trigger] s[i]) == profile_name(p)[i],
    ensures
        parse_profile(s) == Some(p),
        parse_profile(profile_name(p)) == Some(p),
{
    reveal_strlit("dev");
    reveal_strlit("prod");
    assert(equals_ignoring_case(s, profile_name(p)));
    if p is PROD {
        assert(!equals_ignoring_case(s, "dev"@));
    }
    assert(equals_ignoring_case(profile_name(p), profile_name(p)));
    if p is PROD {
        assert(!equals_ignoring_case(profile_name(p), "dev"@));
    }
}

/// Chooses the profile from the value of the profile variable: `DEV` when it
/// is not set, otherwise the profile it names.
pub fn select_profile(value: Option<String>) -> (r: Result<TStatsProfile, InvalidProfile>)
    ensures
        value is None ==> r == Ok::<TStatsProfile, InvalidProfile>(TStatsProfile::DEV),
        value matches Some(v) ==> match r {
            Ok(p) => parse_profile(v@) == Some(p),
            Err(e) => parse_profile(v@) is None && e.input@ == v@,
        },
{
    match value {
        None => Ok(TStatsProfile::DEV),
        Some(v) => TStatsProfile::from_str(v.as_str()),
    }
}

/// The base name of the configuration files.
pub const BASE_FILE_NAME: &'static str = "config";

/// The file name of the configuration of a profile: `config`, or
/// `config-{profile}` for a named profile.
pub fn config_file_name(profile: Option<&str>) -> (r: String)
    ensures
        r@ == match profile {
            None => "config"@,
            Some(p) => "config-"@ + p@,
        },
{
    match profile {
        None => String::from_str(BASE_FILE_NAME),
        Some(p) => {
            let mut name = String::from_str("config-");
            name.append(p);
            name
        },
    }
}

/// The bytes that the standard base64 alphabet, with padding, encodes in
/// `text`, when `text` is such an encoding.
pub uninterp spec fn base64_standard_decoded(text: Seq<char>) -> Option<Seq<u8>>;

/// Decodes `text` with base64's `BASE64_STANDARD` engine. What the decoding
/// gives is named, not stated.
#[verifier::external_body]
fn base64_standard_decode(text: &str) -> (r: Option<Vec<u8>>)
    ensures
        r matches Some(bytes) ==> base64_standard_decoded(text@) == Some(bytes@),
        r is None ==> base64_standard_decoded(text@) is None,
{
    base64::Engine::decode(&base64::prelude::BASE64_STANDARD, text).ok()
}

/// The session signing key is not base64.
#[derive(Debug, Clone, Copy, PartialEq, Eq, Structural)]
pub struct SigningKeyNotBase64;

/// The session signing key, given what the base64 decoding of its text gave.
pub fn signing_key_from(decoded: Option<Vec<u8>>) -> (r: Result<Vec<u8>, SigningKeyNotBase64>)
    ensures
        r matches Ok(bytes) ==> decoded matches Some(d) && bytes@ == d@,
        r is Err <==> decoded is None,
{
    match decoded {
        Some(bytes) => Ok(bytes),
        None => Err(SigningKeyNotBase64),
    }
}

/// The bytes of the session signing key, which the settings give in base64.
pub fn decode_session_signing_key(encoded: &str) -> (r: Result<Vec<u8>, SigningKeyNotBase64>)
    ensures
        r matches Ok(bytes) ==> base64_standard_decoded(encoded@) == Some(bytes@),
        r is Err <==> base64_standard_decoded(encoded@) is None,
{
    signing_key_from(base64_standard_decode(encoded))
}

} // verus!

use vstd::prelude::*;

verus! {

/// Relies on url's `Url::parse`: whether the text reads as an absolute URL.
pub uninterp spec fn url_parses(s: Seq<char>) -> bool;

/// Relies on regex's `Regex::new` and `Regex::is_match`: whether the pattern
/// compiles and matches somewhere in the text.
pub uninterp spec fn regex_finds(pattern: Seq<char>, text: Seq<char>) -> bool;

/// Relies on regex's `Regex::new`, `Regex::captures` and `Captures::get`:
/// the text of the first group of the pattern's first match in the text.
pub uninterp spec fn regex_capture(pattern: Seq<char>, text: Seq<char>) -> Option<Seq<char>>;

/// Relies on url's `Url::parse`: whether the text reads as an absolute URL.
#[verifier::external_body]
fn parses_as_url(s: &str) -> (r: bool)
    ensures
        r == url_parses(s@),
{
    url::Url::parse(s).is_ok()
}

/// Relies on regex's `Regex::new`, which compiles the pattern, and
/// `Regex::is_match`: whether it matches somewhere in the text.
#[verifier::external_body]
fn pattern_found(pattern: &str, text: &str) -> (r: bool)
    ensures
        r == regex_finds(pattern@, text@),
{
    match regex::Regex::new(pattern) {
        Ok(re) => re.is_match(text),
        Err(_) => false,
    }
}

/// Relies on regex's `Regex::new`, which compiles the pattern, then
/// `Regex::captures` and `Captures::get`: the first group of the first match.
#[verifier::external_body]
fn first_group(pattern: &str, text: &str) -> (r: Option<String>)
    ensures
        r matches Some(g) ==> regex_capture(pattern@, text@) == Some(g@),
        r is None ==> regex_capture(pattern@, text@) is None,
{
    let re = match regex::Regex::new(pattern) {
        Ok(re) => re,
        Err(_) => return None,
    };
    match re.captures(text) {
        Some(caps) => match caps.get(1) {
            Some(m) => Some(m.as_str().to_string()),
            None => None,
        },
        None => None,
    }
}

/// The shapes of a single-video URL.
pub open spec fn video_patterns() -> Seq<Seq<char>> {
    seq![
        "^https?://(www\\.)?tiktok\\.com/@[^/]+/video/\\d+"@,
        "^https?://vm\\.tiktok\\.com/[A-Za-z0-9]+/?"@,
        "^https?://(www\\.)?tiktok\\.com/t/[A-Za-z0-9]+/?"@,
        "^https?://m\\.tiktok\\.com/v/\\d+\\.html"@,
    ]
}

/// The shape of a profile URL: the whole URL, with an optional final slash.
pub open spec fn profile_pattern() -> Seq<char> {
    "^https?://(www\\.)?tiktok\\.com/@[A-Za-z0-9_.]+/?$"@
}

fn video_pattern(i: usize) -> (r: &'static str)
    requires
        i < 4,
    ensures
        r@ == video_patterns()[i as int],
{
    if i == 0 {
        "^https?://(www\\.)?tiktok\\.com/@[^/]+/video/\\d+"
    } else if i == 1 {
        "^https?://vm\\.tiktok\\.com/[A-Za-z0-9]+/?"
    } else if i == 2 {
        "^https?://(www\\.)?tiktok\\.com/t/[A-Za-z0-9]+/?"
    } else {
        "^https?://m\\.tiktok\\.com/v/\\d+\\.html"
    }
}

/// A URL of a single video on the platform.
pub open spec fn is_video_url(s: Seq<char>) -> bool {
    url_parses(s) && exists|i: int| 0 <= i < 4 && #[trigger] regex_finds(video_patterns()[i], s)
}

/// A URL of a profile on the platform.
pub open spec fn is_profile_url(s: Seq<char>) -> bool {
    url_parses(s) && regex_finds(profile_pattern(), s)
}

pub fn is_valid_tiktok_url(url: &str) -> (r: bool)
    ensures
        r == is_video_url(url@),
{
    if !parses_as_url(url) {
        return false;
    }
    let mut i: usize = 0;
    while i < 4
        invariant
            i <= 4,
            url_parses(url@),
            forall|k: int| 0 <= k < i ==> !#[trigger] regex_finds(video_patterns()[k], url@),
        decreases 4 - i,
    {
        if pattern_found(video_pattern(i), url) {
            assert(regex_finds(video_patterns()[i as int], url@));
            return true;
        }
        i = i + 1;
    }
    false
}

pub fn is_valid_tiktok_profile_url(url: &str) -> (r: bool)
    ensures
        r == is_profile_url(url@),
{
    parses_as_url(url) && pattern_found(
        "^https?://(www\\.)?tiktok\\.com/@[A-Za-z0-9_.]+/?$",
        url,
    )
}

/// The pattern whose first group is the username of a profile URL.
pub open spec fn username_pattern() -> Seq<char> {
    "@([A-Za-z0-9_.]+)"@
}

/// The username written in `s`: the first group of the username pattern's
/// first match.
pub open spec fn handle_in(s: Seq<char>) -> Option<Seq<char>> {
    regex_capture(username_pattern(), s)
}

/// The username of a profile URL; none for a URL that is not a profile's.
pub fn extract_tiktok_username(profile_url: &str) -> (r: Option<String>)
    ensures
        !is_profile_url(profile_url@) ==> r is None,
        is_profile_url(profile_url@) ==> match r {
            Some(u) => handle_in(profile_url@) == Some(u@),
            None => handle_in(profile_url@) is None,
        },
{
    if !is_valid_tiktok_profile_url(profile_url) {
        return None;
    }
    first_group("@([A-Za-z0-9_.]+)", profile_url)
}

/// The canonical form of a video URL: the URL itself; none for a URL that is
/// not a video's.
pub fn normalize_tiktok_url(url: &str) -> (r: Option<String>)
    ensures
        is_video_url(url@) ==> (r matches Some(u) && u@ == url@),
        !is_video_url(url@) ==> r is None,
{
    if !is_valid_tiktok_url(url) {
        return None;
    }
    Some(url.to_string())
}

} // verus!

//! Trigger detection and city extraction, and construction of the
//! provider request URL.
//!
//! A message is a weather command exactly when its text starts with the
//! trigger token `!clima`. The city argument is everything after the
//! token and its trailing separator, removed once, taken verbatim: no
//! trimming, no case folding, no escaping. An empty remainder is an
//! empty city name and is passed through as such; where the separator is
//! absent the text stands unchanged.

use vstd::prelude::*;

use crate::text::str_has_prefix;

verus! {

/// The trigger token.
pub open spec fn trigger_token() -> Seq<char> {
    "!clima"@
}

/// The trigger token with its trailing separator.
pub open spec fn trigger_prefix() -> Seq<char> {
    "!clima "@
}

/// A message is a weather command exactly when its text starts with the
/// trigger token.
pub open spec fn is_command(s: Seq<char>) -> bool {
    s.len() >= 6 && s.subrange(0, 6) == trigger_token()
}

/// The city argument of a command: the text with one leading occurrence
/// of the trigger token plus separator removed, the text unchanged where
/// none is present.
pub open spec fn strip_trigger(s: Seq<char>) -> Seq<char> {
    if s.len() >= 7 && s.subrange(0, 7) == trigger_prefix() {
        s.subrange(7, s.len() as int)
    } else {
        s
    }
}

/// The extracted query of a message: the city for a command, nothing for
/// any other message.
pub open spec fn extracted_city(s: Seq<char>) -> Option<Seq<char>> {
    if is_command(s) {
        Some(strip_trigger(s))
    } else {
        None
    }
}

/// Extracts the city argument from a message text, or returns `None` when
/// the message is not a weather command. A non-command message causes no
/// further work of any kind.
pub fn extract_city(content: &str) -> (r: Option<String>)
    ensures
        r is Some <==> is_command(content@),
        (r matches Some(city) ==> city@ == strip_trigger(content@)),
        (r matches Some(city) ==> extracted_city(content@) == Some(city@)),
        r is None ==> extracted_city(content@) is None,
{
    proof {
        reveal_strlit("!clima");
        reveal_strlit("!clima ");
    }
    if !str_has_prefix(content, "!clima") {
        return None;
    }
    let n = content.unicode_len();
    let i: usize = if str_has_prefix(content, "!clima ") {
        7
    } else {
        0
    };
    proof {
        assert(content@.subrange(0, n as int) =~= content@);
        assert(content@.subrange(i as int, n as int) == strip_trigger(content@));
    }
    let city = content.substring_char(i, n).to_owned();
    Some(city)
}

/// The provider request: current conditions for the city, authenticated by
/// the key, in metric units. The city and key are interpolated verbatim.
pub open spec fn request_url(city: Seq<char>, key: Seq<char>) -> Seq<char> {
    "https://api.openweathermap.org/data/2.5/weather?q="@ + city + "&appid="@ + key
        + "&units=metric"@
}

/// Builds the provider request URL for a city and an API key.
pub fn build_url(city: &str, api_key: &str) -> (r: String)
    ensures
        r@ == request_url(city@, api_key@),
{
    let mut s = String::from_str("https://api.openweathermap.org/data/2.5/weather?q=");
    s.append(city);
    s.append("&appid=");
    s.append(api_key);
    s.append("&units=metric");
    s
}

} // verus!

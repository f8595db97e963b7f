use clima_bot::command::build_url;
use clima_bot::command::extract_city;

#[test]
fn non_command_is_ignored() {
    assert_eq!(extract_city("hola"), None);
    assert_eq!(extract_city(""), None);
    assert_eq!(extract_city("clima Madrid"), None);
    assert_eq!(extract_city(" !clima Madrid"), None);
    assert_eq!(extract_city("weather Madrid"), None);
}

#[test]
fn city_is_taken_verbatim() {
    assert_eq!(extract_city("!clima Madrid"), Some("Madrid".to_string()));
}

#[test]
fn empty_city_passes_through() {
    assert_eq!(extract_city("!clima "), Some("".to_string()));
}

#[test]
fn no_trimming_and_case_preserved() {
    assert_eq!(extract_city("!clima  Madrid "), Some(" Madrid ".to_string()));
    assert_eq!(extract_city("!clima nEw yOrk"), Some("nEw yOrk".to_string()));
}

#[test]
fn bare_token_keeps_text() {
    // The token without its separator is still a command, and the
    // remainder strip finds nothing to remove.
    assert_eq!(extract_city("!clima"), Some("!clima".to_string()));
    assert_eq!(extract_city("!climaMadrid"), Some("!climaMadrid".to_string()));
}

#[test]
fn token_is_stripped_once() {
    // Only the one leading occurrence of the token and its separator is
    // removed; the rest of the text is the city, verbatim.
    assert_eq!(
        extract_city("!clima !clima Paris"),
        Some("!clima Paris".to_string())
    );
}

#[test]
fn url_interpolates_verbatim() {
    assert_eq!(
        build_url("Madrid", "SECRET-REDACTED"),
        "https://api.openweathermap.org/data/2.5/weather?q=Madrid&appid=SECRET-REDACTED&units=metric"
    );
    assert_eq!(
        build_url("", "k"),
        "https://api.openweathermap.org/data/2.5/weather?q=&appid=k&units=metric"
    );
    assert_eq!(
        build_url("San Sebasti\u{e1}n", "k"),
        "https://api.openweathermap.org/data/2.5/weather?q=San Sebasti\u{e1}n&appid=k&units=metric"
    );
}

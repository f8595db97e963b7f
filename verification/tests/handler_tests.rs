use clima_bot::handler::handle_message;
use clima_bot::handler::ProviderOutcome;
use clima_bot::reply::REPLY_COLOR;

const GOOD: &str = "{\"weather\":[{\"description\":\"clear sky\"}],\"main\":{\"temp\":21.3,\"feels_like\":20.9}}";

#[test]
fn non_command_produces_nothing() {
    let outcome = ProviderOutcome::Body(GOOD.to_string());
    assert!(handle_message("hola", &outcome).is_none());
    assert!(handle_message("que tiempo hace", &ProviderOutcome::TransportFailure).is_none());
}

#[test]
fn successful_query_produces_the_reply() {
    let outcome = ProviderOutcome::Body(GOOD.to_string());
    let reply = handle_message("!clima Madrid", &outcome).unwrap();
    assert_eq!(reply.title, "El clima en Madrid");
    assert_eq!(
        reply.description,
        "Current weather: clear sky\nTemperature: 21.3\u{b0}C\nFeels like: 20.9\u{b0}C"
    );
    assert_eq!(reply.color, 0x00FF00);
    assert_eq!(reply.color, REPLY_COLOR);
    assert_eq!(reply.thumbnail, "https://www.example.com/weather.png");
    assert_eq!(reply.body_text, "test");
}

#[test]
fn transport_failure_is_silent() {
    assert!(handle_message("!clima Madrid", &ProviderOutcome::TransportFailure).is_none());
}

#[test]
fn undecodable_body_is_silent() {
    let outcome = ProviderOutcome::Body("not json".to_string());
    assert!(handle_message("!clima Madrid", &outcome).is_none());
}

#[test]
fn empty_weather_array_is_silent_not_a_crash() {
    let body = "{\"weather\":[],\"main\":{\"temp\":21.3,\"feels_like\":20.9}}";
    let outcome = ProviderOutcome::Body(body.to_string());
    assert!(handle_message("!clima Madrid", &outcome).is_none());
}

#[test]
fn handling_twice_gives_identical_replies() {
    let outcome = ProviderOutcome::Body(GOOD.to_string());
    let a = handle_message("!clima Madrid", &outcome).unwrap();
    let b = handle_message("!clima Madrid", &outcome).unwrap();
    assert_eq!(a.title, b.title);
    assert_eq!(a.description, b.description);
    assert_eq!(a.color, b.color);
    assert_eq!(a.thumbnail, b.thumbnail);
    assert_eq!(a.body_text, b.body_text);
}

#[test]
fn empty_city_still_queries() {
    let outcome = ProviderOutcome::Body(GOOD.to_string());
    let reply = handle_message("!clima ", &outcome).unwrap();
    assert_eq!(reply.title, "El clima en ");
}

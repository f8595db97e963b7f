use clima_bot::decode::decode_weather;
use clima_bot::reply::format_description;
use clima_bot::reply::format_tenths;

const GOOD: &str = "{\"weather\":[{\"description\":\"clear sky\"}],\"main\":{\"temp\":21.3,\"feels_like\":20.9}}";

#[test]
fn well_formed_body_decodes() {
    let rep = decode_weather(GOOD).unwrap();
    assert_eq!(rep.description, "clear sky");
    assert_eq!(rep.temp_tenths, 213);
    assert_eq!(rep.feels_like_tenths, 209);
}

#[test]
fn reply_description_is_exact() {
    let rep = decode_weather(GOOD).unwrap();
    assert_eq!(
        format_description(&rep),
        "Current weather: clear sky\nTemperature: 21.3\u{b0}C\nFeels like: 20.9\u{b0}C"
    );
}

#[test]
fn empty_weather_array_is_a_decode_failure() {
    let body = "{\"weather\":[],\"main\":{\"temp\":21.3,\"feels_like\":20.9}}";
    assert!(decode_weather(body).is_err());
}

#[test]
fn member_order_is_free() {
    let body = "{\"main\":{\"feels_like\":20.9,\"temp\":21.3},\"weather\":[{\"description\":\"mist\"}]}";
    let rep = decode_weather(body).unwrap();
    assert_eq!(rep.description, "mist");
    assert_eq!(rep.temp_tenths, 213);
    assert_eq!(rep.feels_like_tenths, 209);
}

#[test]
fn unknown_members_are_skipped() {
    let body = "{\"coord\":{\"lon\":-3.7,\"lat\":40.42},\"weather\":[{\"id\":800,\"main\":\"Clear\",\"description\":\"clear sky\",\"icon\":\"01d\"}],\"base\":\"stations\",\"main\":{\"temp\":21.3,\"feels_like\":20.9,\"temp_min\":19.0,\"temp_max\":23.0,\"pressure\":1015,\"humidity\":40},\"visibility\":10000,\"clouds\":{\"all\":0},\"dt\":1661870592,\"cod\":200,\"extra\":[true,false,null,[1,2],\"x\"]}";
    let rep = decode_weather(body).unwrap();
    assert_eq!(rep.description, "clear sky");
    assert_eq!(rep.temp_tenths, 213);
    assert_eq!(rep.feels_like_tenths, 209);
}

#[test]
fn whitespace_between_tokens_is_allowed() {
    let body = " {\n \"weather\" : [ { \"description\" : \"haze\" } ] ,\n \"main\" : { \"temp\" : 1 , \"feels_like\" : 2 }\n}\t";
    let rep = decode_weather(body).unwrap();
    assert_eq!(rep.description, "haze");
    assert_eq!(rep.temp_tenths, 10);
    assert_eq!(rep.feels_like_tenths, 20);
}

#[test]
fn later_conditions_are_validated_not_captured() {
    let body = "{\"weather\":[{\"description\":\"rain\"},{\"description\":\"mist\"}],\"main\":{\"temp\":-5.0,\"feels_like\":-7.5}}";
    let rep = decode_weather(body).unwrap();
    assert_eq!(rep.description, "rain");
    assert_eq!(rep.temp_tenths, -50);
    assert_eq!(rep.feels_like_tenths, -75);
    let bad = "{\"weather\":[{\"description\":\"rain\"},{\"icon\":\"x\"}],\"main\":{\"temp\":1,\"feels_like\":2}}";
    assert!(decode_weather(bad).is_err());
}

#[test]
fn missing_required_members_fail() {
    assert!(decode_weather("{\"main\":{\"temp\":1,\"feels_like\":2}}").is_err());
    assert!(decode_weather("{\"weather\":[{\"description\":\"x\"}]}").is_err());
    assert!(decode_weather(
        "{\"weather\":[{\"description\":\"x\"}],\"main\":{\"temp\":1}}"
    )
    .is_err());
    assert!(decode_weather("{}").is_err());
    assert!(decode_weather("").is_err());
}

#[test]
fn wrong_shapes_fail() {
    assert!(decode_weather("[1,2]").is_err());
    assert!(decode_weather("{\"weather\":{},\"main\":{\"temp\":1,\"feels_like\":2}}").is_err());
    assert!(decode_weather(
        "{\"weather\":[\"x\"],\"main\":{\"temp\":1,\"feels_like\":2}}"
    )
    .is_err());
    assert!(decode_weather(
        "{\"weather\":[{\"description\":7}],\"main\":{\"temp\":1,\"feels_like\":2}}"
    )
    .is_err());
    assert!(decode_weather(
        "{\"weather\":[{\"description\":\"x\"}],\"main\":{\"temp\":\"1\",\"feels_like\":2}}"
    )
    .is_err());
}

#[test]
fn duplicates_and_trailing_garbage_fail() {
    assert!(decode_weather(
        "{\"weather\":[{\"description\":\"x\"}],\"main\":{\"temp\":1,\"temp\":2,\"feels_like\":2}}"
    )
    .is_err());
    assert!(decode_weather(
        "{\"weather\":[{\"description\":\"x\"}],\"main\":{\"temp\":1,\"feels_like\":2}} x"
    )
    .is_err());
    assert!(decode_weather(
        "{\"weather\":[{\"description\":\"x\"}],\"main\":{\"temp\":1,\"feels_like\":2}"
    )
    .is_err());
}

#[test]
fn number_forms() {
    let mk = |t: &str| {
        format!(
            "{{\"weather\":[{{\"description\":\"x\"}}],\"main\":{{\"temp\":{},\"feels_like\":0}}}}",
            t
        )
    };
    assert_eq!(decode_weather(&mk("21")).unwrap().temp_tenths, 210);
    assert_eq!(decode_weather(&mk("0")).unwrap().temp_tenths, 0);
    assert_eq!(decode_weather(&mk("0.05")).unwrap().temp_tenths, 1);
    assert_eq!(decode_weather(&mk("0.04")).unwrap().temp_tenths, 0);
    assert_eq!(decode_weather(&mk("-0.04")).unwrap().temp_tenths, 0);
    assert_eq!(decode_weather(&mk("-5.25")).unwrap().temp_tenths, -53);
    assert_eq!(decode_weather(&mk("2.999")).unwrap().temp_tenths, 30);
    // malformed numbers
    assert!(decode_weather(&mk("01")).is_err());
    assert!(decode_weather(&mk("1.")).is_err());
    assert!(decode_weather(&mk(".5")).is_err());
    assert!(decode_weather(&mk("-")).is_err());
    assert!(decode_weather(&mk("+1")).is_err());
    // exponents scale the value
    assert_eq!(decode_weather(&mk("2.1e1")).unwrap().temp_tenths, 210);
    assert_eq!(decode_weather(&mk("2.13e1")).unwrap().temp_tenths, 213);
    assert_eq!(decode_weather(&mk("213e-1")).unwrap().temp_tenths, 213);
    assert_eq!(decode_weather(&mk("2.5e-1")).unwrap().temp_tenths, 3);
    assert_eq!(decode_weather(&mk("1E3")).unwrap().temp_tenths, 10000);
    assert_eq!(decode_weather(&mk("1e-9")).unwrap().temp_tenths, 0);
    assert_eq!(decode_weather(&mk("0e99999")).unwrap().temp_tenths, 0);
    // a magnitude beyond the machine range is rejected
    assert!(decode_weather(&mk("1e30")).is_err());
    // malformed exponents are rejected
    assert!(decode_weather(&mk("1e")).is_err());
    assert!(decode_weather(&mk("1e+")).is_err());
    let body = "{\"dt\":1.5e3,\"weather\":[{\"description\":\"x\"}],\"main\":{\"temp\":1,\"feels_like\":2}}";
    assert!(decode_weather(body).is_ok());
}

#[test]
fn string_escapes() {
    let body = "{\"weather\":[{\"description\":\"a\\\"b\\\\c\\n\\t\\/\"}],\"main\":{\"temp\":1,\"feels_like\":2}}";
    let rep = decode_weather(body).unwrap();
    assert_eq!(rep.description, "a\"b\\c\n\t/");
    // a unicode escape in a skipped string is validated and passed over
    let body2 = "{\"name\":\"M\\u00e1laga\",\"weather\":[{\"description\":\"x\"}],\"main\":{\"temp\":1,\"feels_like\":2}}";
    assert!(decode_weather(body2).is_ok());
    // a unicode escape in the captured description decodes to its character
    let body3 = "{\"weather\":[{\"description\":\"M\\u00e1laga\"}],\"main\":{\"temp\":1,\"feels_like\":2}}";
    assert_eq!(decode_weather(body3).unwrap().description, "M\u{e1}laga");
    // a bad escape fails
    let body4 = "{\"weather\":[{\"description\":\"a\\qb\"}],\"main\":{\"temp\":1,\"feels_like\":2}}";
    assert!(decode_weather(body4).is_err());
}

#[test]
fn surrogate_pairs_decode() {
    let body = "{\"weather\":[{\"description\":\"sun \\uD83C\\uDF1E up\"}],\"main\":{\"temp\":1,\"feels_like\":2}}";
    assert_eq!(
        decode_weather(body).unwrap().description,
        "sun \u{1F31E} up"
    );
    // a lone high or low surrogate is malformed
    let lone_hi = "{\"weather\":[{\"description\":\"a\\uD83Cb\"}],\"main\":{\"temp\":1,\"feels_like\":2}}";
    assert!(decode_weather(lone_hi).is_err());
    let lone_lo = "{\"weather\":[{\"description\":\"a\\uDF1Eb\"}],\"main\":{\"temp\":1,\"feels_like\":2}}";
    assert!(decode_weather(lone_lo).is_err());
    // a high surrogate followed by a non-surrogate escape is malformed
    let bad_pair = "{\"weather\":[{\"description\":\"a\\uD83C\\u0041b\"}],\"main\":{\"temp\":1,\"feels_like\":2}}";
    assert!(decode_weather(bad_pair).is_err());
}

#[test]
fn non_ascii_descriptions_pass_through() {
    let body = "{\"weather\":[{\"description\":\"cielo despejado \u{2600}\"}],\"main\":{\"temp\":1,\"feels_like\":2}}";
    let rep = decode_weather(body).unwrap();
    assert_eq!(rep.description, "cielo despejado \u{2600}");
}

#[test]
fn tenths_formatting() {
    assert_eq!(format_tenths(0), "0.0");
    assert_eq!(format_tenths(213), "21.3");
    assert_eq!(format_tenths(-1), "-0.1");
    assert_eq!(format_tenths(-300), "-30.0");
    assert_eq!(format_tenths(1005), "100.5");
}

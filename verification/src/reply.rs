//! Construction of the outbound reply.
//!
//! A successful query produces one rich reply: a title naming the city, a
//! three-line description (current condition, temperature, feels-like,
//! each temperature printed with one decimal place), a fixed accent
//! color, a fixed thumbnail image reference, and a fixed placeholder text
//! body.

use vstd::prelude::*;

use crate::decode::WeatherReport;
use crate::text::{chars_to_string, dec_str, digit_char, digit_char_of, push_dec};

verus! {

/// The accent color of every reply.
pub const REPLY_COLOR: u32 = 0x00FF00;

/// The rendering of a magnitude in tenths with one decimal place.
pub open spec fn mag_tenths_str(m: int) -> Seq<char> {
    dec_str(m / 10) + seq!['.'] + seq![digit_char(m % 10)]
}

/// The rendering of a signed count of tenths with one decimal place.
pub open spec fn tenths_str(t: int) -> Seq<char> {
    if t < 0 {
        seq!['-'] + mag_tenths_str(-t)
    } else {
        mag_tenths_str(t)
    }
}

/// Renders a signed count of tenths of a degree with one decimal place.
pub fn format_tenths(t: i64) -> (r: String)
    ensures
        r@ == tenths_str(t as int),
{
    let mut v: Vec<char> = Vec::new();
    let mag: u64;
    if t < 0 {
        v.push('-');
        mag = ((-(t + 1)) as u64) + 1;
        proof {
            assert(mag == -(t as int));
        }
    } else {
        mag = t as u64;
    }
    push_dec(mag / 10, &mut v);
    v.push('.');
    v.push(digit_char_of(mag % 10));
    proof {
        assert(v@ =~= tenths_str(t as int));
    }
    chars_to_string(&v)
}

/// The three-line reply description for a decoded report.
pub open spec fn description_text(desc: Seq<char>, t: int, f: int) -> Seq<char> {
    "Current weather: "@ + desc + "\nTemperature: "@ + tenths_str(t) + "\u{b0}C\nFeels like: "@
        + tenths_str(f) + "\u{b0}C"@
}

/// Renders the three-line reply description of a report.
pub fn format_description(rep: &WeatherReport) -> (r: String)
    ensures
        r@ == description_text(
            rep.description@,
            rep.temp_tenths as int,
            rep.feels_like_tenths as int,
        ),
{
    let mut s = String::from_str("Current weather: ");
    s.append(rep.description.as_str());
    s.append("\nTemperature: ");
    let t = format_tenths(rep.temp_tenths);
    s.append(t.as_str());
    s.append("\u{b0}C\nFeels like: ");
    let f = format_tenths(rep.feels_like_tenths);
    s.append(f.as_str());
    s.append("\u{b0}C");
    s
}

/// The outbound reply: an embed plus a fixed text body.
pub struct OutboundReply {
    pub title: String,
    pub description: String,
    pub color: u32,
    pub thumbnail: String,
    pub body_text: String,
}

/// The mathematical content of an outbound reply.
#[verifier::ext_equal]
pub struct ReplySpec {
    pub title: Seq<char>,
    pub description: Seq<char>,
    pub color: u32,
    pub thumbnail: Seq<char>,
    pub body_text: Seq<char>,
}

impl View for OutboundReply {
    type V = ReplySpec;

    open spec fn view(&self) -> ReplySpec {
        ReplySpec {
            title: self.title@,
            description: self.description@,
            color: self.color,
            thumbnail: self.thumbnail@,
            body_text: self.body_text@,
        }
    }
}

/// The reply title naming the city.
pub open spec fn title_text(city: Seq<char>) -> Seq<char> {
    "El clima en "@ + city
}

/// The fixed thumbnail image reference.
pub open spec fn thumbnail_url() -> Seq<char> {
    "https://www.example.com/weather.png"@
}

/// The fixed placeholder text body.
pub open spec fn placeholder_text() -> Seq<char> {
    "test"@
}

/// The one reply a city and a decoded report give.
pub open spec fn spec_reply(city: Seq<char>, desc: Seq<char>, t: int, f: int) -> ReplySpec {
    ReplySpec {
        title: title_text(city),
        description: description_text(desc, t, f),
        color: REPLY_COLOR,
        thumbnail: thumbnail_url(),
        body_text: placeholder_text(),
    }
}

/// Builds the reply for a city and a decoded report.
pub fn make_reply(city: &str, rep: &WeatherReport) -> (r: OutboundReply)
    ensures
        r@ == spec_reply(
            city@,
            rep.description@,
            rep.temp_tenths as int,
            rep.feels_like_tenths as int,
        ),
{
    let mut title = String::from_str("El clima en ");
    title.append(city);
    let description = format_description(rep);
    let r = OutboundReply {
        title,
        description,
        color: REPLY_COLOR,
        thumbnail: String::from_str("https://www.example.com/weather.png"),
        body_text: String::from_str("test"),
    };
    proof {
        assert(r@ =~= spec_reply(
            city@,
            rep.description@,
            rep.temp_tenths as int,
            rep.feels_like_tenths as int,
        ));
    }
    r
}

} // verus!

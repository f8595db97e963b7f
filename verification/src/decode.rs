//! Decoding of the weather provider's current-conditions payload.
//!
//! The payload is a JSON object with a `weather` array of condition
//! records, each carrying a `description` string, and a `main` record with
//! the numbers `temp` and `feels_like` (degrees Celsius). The decoder
//! accepts exactly the bodies of that shape and extracts the first
//! condition's description and the two temperatures; any other body is a
//! decode failure, including one whose `weather` array is empty. Unknown
//! members are permitted and skipped, as the provider sends many.
//!
//! Temperatures are held as signed tenths of a degree, the precision the
//! reply prints; the decimal value, its exponent applied, rounds half
//! away from zero. A temperature with more than sixteen integer digits,
//! or whose magnitude in tenths leaves the machine range, is not
//! accepted. String escapes decode to their characters, `\u` escapes
//! and surrogate pairs included; a lone surrogate is malformed.
//!
//! The decoder is a character-stepped machine: a specification-level step
//! function defines the accepted grammar, and the executable machine is
//! proved to follow it character by character.

use vstd::prelude::*;

use crate::text::{
    char_from_code, char_of_code, chars_eq_str, chars_to_string, digit_char_test, digit_val,
    digit_val_of, hex_char_test, hex_val, hex_val_of, is_digit_char, is_hex_char, is_ws_char,
    str_chars, ws_char,
};

verus! {

/// A decoded provider response: the first condition's description and the
/// two temperatures in tenths of a degree Celsius.
pub struct WeatherReport {
    pub description: String,
    pub temp_tenths: i64,
    pub feels_like_tenths: i64,
}

/// The one decode failure: the body does not match the expected schema.
#[derive(Clone, Copy, PartialEq, Eq, Debug)]
pub enum DecodeError {
    Malformed,
}

/// What the machine is reading next.
#[derive(Clone, Copy)]
pub enum Mode {
    /// The body is rejected; absorbing.
    Fail,
    /// Before the opening brace of the top-level object.
    Start,
    /// Inside an object, before its first member or closing brace.
    MemFirst,
    /// Inside an object after a comma: a member key must follow.
    MemKey,
    /// After a member key: a colon must follow.
    Colon,
    /// After a colon: a value must follow.
    Value,
    /// Inside a string.
    Str,
    /// Inside a string, after a backslash.
    StrEsc,
    /// Inside a string, reading the hex digits of a `\u` escape.
    StrHex,
    /// After a high-surrogate `\u` escape: a backslash must follow.
    StrSur1,
    /// After that backslash: `u` must follow.
    StrSur2,
    /// Reading the hex digits of the low half of a surrogate pair.
    StrHexLo,
    /// After a complete value: comma or closing bracket.
    AfterVal,
    /// Inside an array, before its first element or closing bracket.
    ElemFirst,
    /// Inside an array after a comma: an element must follow.
    ElemNext,
    /// Inside the literal `true`, `false` or `null`.
    Lit,
    /// Number states, named after what was read last.
    NumMinus,
    NumZero,
    NumInt,
    NumDot,
    NumFrac,
    NumE,
    NumESign,
    NumEDig,
    /// After the top-level object: only whitespace may follow.
    End,
}

/// The frame of an open object or array, by its place in the schema.
#[derive(Clone, Copy)]
pub enum Ctx {
    /// The top-level object.
    Top,
    /// The `weather` array.
    WeatherArr,
    /// One element object of the `weather` array.
    WElem,
    /// The `main` object.
    MainObj,
    /// An object the schema says nothing about.
    OtherObj,
    /// An array the schema says nothing about.
    OtherArr,
}

/// What the string being read is for.
#[derive(Clone, Copy)]
pub enum StrKind {
    /// A member key.
    Key,
    /// The captured description of the first condition.
    Desc,
    /// A string that is only validated.
    Skip,
}

/// What the member whose value is being read is for.
#[derive(Clone, Copy)]
pub enum Target {
    Weather,
    MainMem,
    Desc,
    Temp,
    Feels,
    Skip,
}

/// The machine state, specification level.
#[verifier::ext_equal]
pub struct St {
    pub mode: Mode,
    pub stack: Seq<Ctx>,
    pub skind: StrKind,
    pub hexleft: u64,
    pub hexval: u32,
    pub hexpend: u32,
    pub sbuf: Seq<char>,
    pub sbuf_u: bool,
    pub target: Target,
    pub lit: Seq<char>,
    pub num_sign: bool,
    pub num_mag: u64,
    pub num_frac: u64,
    pub num_exp: u64,
    pub num_esign: bool,
    pub w_started: bool,
    pub welem_first: bool,
    pub elem_desc_seen: bool,
    pub weather_seen: bool,
    pub main_seen: bool,
    pub temp_seen: bool,
    pub feels_seen: bool,
    pub desc: Option<Seq<char>>,
    pub temp: Option<i64>,
    pub feels: Option<i64>,
}

pub open spec fn fail(st: St) -> St {
    St { mode: Mode::Fail, ..st }
}

/// Whitespace or a character that ends a number.
pub open spec fn is_delim_char(c: char) -> bool {
    is_ws_char(c) || c == ',' || c == '}' || c == ']'
}

/// Start reading a member key.
#[verifier::opaque]
pub open spec fn spec_begin_key(st: St) -> St {
    St {
        mode: Mode::Str,
        skind: StrKind::Key,
        sbuf: Seq::empty(),
        sbuf_u: false,
        ..st
    }
}

/// A finished key of the top-level object.
#[verifier::opaque]
pub open spec fn spec_key_top(st: St) -> St {
    if !st.sbuf_u && st.sbuf == "weather"@ {
        if st.weather_seen {
            fail(st)
        } else {
            St { mode: Mode::Colon, target: Target::Weather, weather_seen: true, ..st }
        }
    } else if !st.sbuf_u && st.sbuf == "main"@ {
        if st.main_seen {
            fail(st)
        } else {
            St { mode: Mode::Colon, target: Target::MainMem, main_seen: true, ..st }
        }
    } else {
        St { mode: Mode::Colon, target: Target::Skip, ..st }
    }
}

/// A finished key of a condition record.
#[verifier::opaque]
pub open spec fn spec_key_welem(st: St) -> St {
    if !st.sbuf_u && st.sbuf == "description"@ {
        if st.elem_desc_seen {
            fail(st)
        } else {
            St { mode: Mode::Colon, target: Target::Desc, elem_desc_seen: true, ..st }
        }
    } else {
        St { mode: Mode::Colon, target: Target::Skip, ..st }
    }
}

/// A finished key of the `main` record.
#[verifier::opaque]
pub open spec fn spec_key_main(st: St) -> St {
    if !st.sbuf_u && st.sbuf == "temp"@ {
        if st.temp_seen {
            fail(st)
        } else {
            St { mode: Mode::Colon, target: Target::Temp, temp_seen: true, ..st }
        }
    } else if !st.sbuf_u && st.sbuf == "feels_like"@ {
        if st.feels_seen {
            fail(st)
        } else {
            St { mode: Mode::Colon, target: Target::Feels, feels_seen: true, ..st }
        }
    } else {
        St { mode: Mode::Colon, target: Target::Skip, ..st }
    }
}

/// Classify a finished member key by the enclosing frame; a second
/// occurrence of a schema member in one object is rejected.
#[verifier::opaque]
pub open spec fn spec_classify_key(st: St) -> St {
    if st.stack.len() == 0 {
        fail(st)
    } else {
        match st.stack.last() {
            Ctx::Top => spec_key_top(st),
            Ctx::WElem => spec_key_welem(st),
            Ctx::MainObj => spec_key_main(st),
            Ctx::OtherObj => St { mode: Mode::Colon, target: Target::Skip, ..st },
            _ => fail(st),
        }
    }
}

/// A string just closed: dispatch on what it was for.
#[verifier::opaque]
pub open spec fn spec_end_string(st: St) -> St {
    match st.skind {
        StrKind::Key => spec_classify_key(st),
        StrKind::Desc => St {
            mode: Mode::AfterVal,
            desc: Some(st.sbuf),
            sbuf: Seq::empty(),
            ..st
        },
        StrKind::Skip => St { mode: Mode::AfterVal, ..st },
    }
}

/// Close the innermost frame. A condition record must have carried a
/// description; the top-level object's close ends the body.
#[verifier::opaque]
pub open spec fn spec_close_frame(st: St) -> St {
    let rest = st.stack.drop_last();
    match st.stack.last() {
        Ctx::WElem => if !st.elem_desc_seen {
            St { mode: Mode::Fail, stack: rest, ..st }
        } else {
            St { mode: Mode::AfterVal, stack: rest, ..st }
        },
        Ctx::Top => St { mode: Mode::End, stack: rest, ..st },
        _ => St { mode: Mode::AfterVal, stack: rest, ..st },
    }
}

/// After a complete value: a comma continues the frame, a matching bracket
/// closes it.
#[verifier::opaque]
pub open spec fn spec_after_val(st: St, c: char) -> St {
    if st.stack.len() == 0 {
        fail(st)
    } else {
        let top = st.stack.last();
        if c == ',' {
            match top {
                Ctx::WeatherArr | Ctx::OtherArr => St { mode: Mode::ElemNext, ..st },
                _ => St { mode: Mode::MemKey, ..st },
            }
        } else if c == '}' {
            match top {
                Ctx::WeatherArr | Ctx::OtherArr => fail(st),
                _ => spec_close_frame(st),
            }
        } else if c == ']' {
            match top {
                Ctx::WeatherArr | Ctx::OtherArr => spec_close_frame(st),
                _ => fail(st),
            }
        } else {
            fail(st)
        }
    }
}

/// Start reading a number; the sign or first digit was just read.
#[verifier::opaque]
pub open spec fn spec_begin_number(st: St, c: char) -> St {
    if c == '-' {
        St {
            mode: Mode::NumMinus,
            num_sign: true,
            num_mag: 0,
            num_frac: 0,
            num_exp: 0,
            num_esign: false,
            ..st
        }
    } else if c == '0' {
        St {
            mode: Mode::NumZero,
            num_sign: false,
            num_mag: 0,
            num_frac: 0,
            num_exp: 0,
            num_esign: false,
            ..st
        }
    } else {
        St {
            mode: Mode::NumInt,
            num_sign: false,
            num_mag: digit_val(c),
            num_frac: 0,
            num_exp: 0,
            num_esign: false,
            ..st
        }
    }
}

/// One more digit of the fraction, accumulated into the significand;
/// past the digit caps it is validated and passed over.
#[verifier::opaque]
pub open spec fn spec_frac_digit(st: St, c: char) -> St {
    if st.target is Skip || st.num_mag > 1_000_000_000_000_000 || st.num_frac
        > 1_000_000_000 {
        St { mode: Mode::NumFrac, ..st }
    } else {
        St {
            mode: Mode::NumFrac,
            num_mag: (st.num_mag * 10 + digit_val(c)) as u64,
            num_frac: (st.num_frac + 1) as u64,
            ..st
        }
    }
}

/// One more digit of the exponent, saturating far above any magnitude
/// the machine range admits.
#[verifier::opaque]
pub open spec fn spec_exp_digit(st: St, c: char) -> St {
    if st.num_exp > 1000 {
        st
    } else {
        St { num_exp: (st.num_exp * 10 + digit_val(c)) as u64, ..st }
    }
}

/// Ten to a nonnegative power.
pub open spec fn pow10(p: int) -> int
    decreases p,
{
    if p <= 0 {
        1
    } else {
        10 * pow10(p - 1)
    }
}

proof fn lemma_pow10_pos(p: int)
    ensures
        pow10(p) >= 1,
    decreases p,
{
    if p > 0 {
        lemma_pow10_pos(p - 1);
    }
}

proof fn lemma_pow10_mono(p: int, q: int)
    requires
        p <= q,
    ensures
        pow10(p) <= pow10(q),
    decreases q - p,
{
    if p < q {
        lemma_pow10_mono(p, q - 1);
        lemma_pow10_pos(q - 1);
    }
}

/// Store a computed count of tenths under the number's sign and target.
pub open spec fn store_tenths(st: St, m: int) -> St {
    let v: i64 = if st.num_sign {
        (-m) as i64
    } else {
        m as i64
    };
    if st.target is Temp {
        St { temp: Some(v), ..st }
    } else {
        St { feels: Some(v), ..st }
    }
}

/// The magnitude in tenths of a finished number: the significand scaled
/// by the exponent less the fraction length, rounded half away from
/// zero; nothing where the magnitude leaves the machine range.
#[verifier::opaque]
pub open spec fn spec_tenths_mag(st: St) -> Option<int> {
    if st.num_mag > 100_000_000_000_000_000 || st.num_frac > 2_000_000_000 || st.num_exp
        > 100_000 {
        None
    } else {
        let e: int = if st.num_esign {
            -(st.num_exp as int)
        } else {
            st.num_exp as int
        };
        let p: int = 1 + e - (st.num_frac as int);
        let sig: int = st.num_mag as int;
        if sig == 0 {
            Some(0int)
        } else if p >= 0 {
            if p > 18 || sig > 1_000_000_000_000_000_000int / pow10(p) {
                None
            } else {
                Some(sig * pow10(p))
            }
        } else if p < -17 {
            Some(0int)
        } else {
            let d: int = pow10(-p);
            Some(
                sig / d + (if 2 * (sig % d) >= d {
                    1int
                } else {
                    0int
                }),
            )
        }
    }
}

/// A number just ended: for `temp` or `feels_like`, store its magnitude
/// in tenths under the number's sign, or reject the body where it has
/// none.
#[verifier::opaque]
pub open spec fn spec_finish_number(st: St) -> St {
    match st.target {
        Target::Skip => st,
        Target::Temp | Target::Feels => match spec_tenths_mag(st) {
            None => fail(st),
            Some(m) => store_tenths(st, m),
        },
        _ => fail(st),
    }
}

/// A delimiter ended a number: finish it, then treat the delimiter.
#[verifier::opaque]
pub open spec fn spec_num_delim(st: St, c: char) -> St {
    let st2 = spec_finish_number(st);
    if st2.mode is Fail {
        st2
    } else if is_ws_char(c) {
        St { mode: Mode::AfterVal, ..st2 }
    } else {
        spec_after_val(st2, c)
    }
}

/// A member value opens an object.
#[verifier::opaque]
pub open spec fn spec_bv_obj(st: St) -> St {
    match st.target {
        Target::MainMem => St { mode: Mode::MemFirst, stack: st.stack.push(Ctx::MainObj), ..st },
        Target::Skip => St { mode: Mode::MemFirst, stack: st.stack.push(Ctx::OtherObj), ..st },
        _ => fail(st),
    }
}

/// A member value opens an array.
#[verifier::opaque]
pub open spec fn spec_bv_arr(st: St) -> St {
    match st.target {
        Target::Weather => St {
            mode: Mode::ElemFirst,
            stack: st.stack.push(Ctx::WeatherArr),
            ..st
        },
        Target::Skip => St { mode: Mode::ElemFirst, stack: st.stack.push(Ctx::OtherArr), ..st },
        _ => fail(st),
    }
}

/// A member value opens a string; only the first condition record's
/// description is captured.
#[verifier::opaque]
pub open spec fn spec_bv_str(st: St) -> St {
    match st.target {
        Target::Desc => St {
            mode: Mode::Str,
            skind: if st.welem_first {
                StrKind::Desc
            } else {
                StrKind::Skip
            },
            sbuf: Seq::empty(),
            sbuf_u: false,
            ..st
        },
        Target::Skip => St {
            mode: Mode::Str,
            skind: StrKind::Skip,
            sbuf: Seq::empty(),
            sbuf_u: false,
            ..st
        },
        _ => fail(st),
    }
}

/// What remains of `true`, `false` or `null` after its first character.
pub open spec fn lit_rest(c: char) -> Seq<char> {
    if c == 't' {
        "rue"@
    } else if c == 'f' {
        "alse"@
    } else {
        "ull"@
    }
}

/// A member value that is a number or a literal.
#[verifier::opaque]
pub open spec fn spec_bv_scalar(st: St, c: char) -> St {
    if c == '-' || is_digit_char(c) {
        match st.target {
            Target::Temp | Target::Feels | Target::Skip => spec_begin_number(st, c),
            _ => fail(st),
        }
    } else if c == 't' || c == 'f' || c == 'n' {
        if st.target is Skip {
            St { mode: Mode::Lit, lit: lit_rest(c), ..st }
        } else {
            fail(st)
        }
    } else {
        fail(st)
    }
}

/// Start a member value; the first character was just read.
#[verifier::opaque]
pub open spec fn spec_begin_value(st: St, c: char) -> St {
    if c == '{' {
        spec_bv_obj(st)
    } else if c == '[' {
        spec_bv_arr(st)
    } else if c == '"' {
        spec_bv_str(st)
    } else {
        spec_bv_scalar(st, c)
    }
}

/// Start an element of an array the schema says nothing about.
#[verifier::opaque]
pub open spec fn spec_elem_other(st: St, c: char) -> St {
    let st2 = St { target: Target::Skip, ..st };
    if c == '{' {
        St { mode: Mode::MemFirst, stack: st2.stack.push(Ctx::OtherObj), ..st2 }
    } else if c == '[' {
        St { mode: Mode::ElemFirst, stack: st2.stack.push(Ctx::OtherArr), ..st2 }
    } else if c == '"' {
        St {
            mode: Mode::Str,
            skind: StrKind::Skip,
            sbuf: Seq::empty(),
            sbuf_u: false,
            ..st2
        }
    } else if c == '-' || is_digit_char(c) {
        spec_begin_number(st2, c)
    } else if c == 't' || c == 'f' || c == 'n' {
        St { mode: Mode::Lit, lit: lit_rest(c), ..st2 }
    } else {
        fail(st2)
    }
}

/// Start an array element; the first character was just read. Elements of
/// the `weather` array must be objects; the first opens with the
/// description capture armed.
#[verifier::opaque]
pub open spec fn spec_begin_elem(st: St, c: char) -> St {
    if st.stack.len() == 0 {
        fail(st)
    } else {
        match st.stack.last() {
            Ctx::WeatherArr => if c == '{' {
                St {
                    mode: Mode::MemFirst,
                    stack: st.stack.push(Ctx::WElem),
                    welem_first: !st.w_started,
                    w_started: true,
                    elem_desc_seen: false,
                    ..st
                }
            } else {
                fail(st)
            },
            Ctx::OtherArr => spec_elem_other(st, c),
            _ => fail(st),
        }
    }
}

/// One character inside a string.
#[verifier::opaque]
pub open spec fn spec_str_step(st: St, c: char) -> St {
    if c == '"' {
        spec_end_string(st)
    } else if c == '\\' {
        St { mode: Mode::StrEsc, ..st }
    } else if (c as u32) < 0x20 {
        fail(st)
    } else {
        St { sbuf: st.sbuf.push(c), ..st }
    }
}

/// The character after a backslash in a string. A `\u` escape decodes
/// to the character it names; in a key it marks the key as matching no
/// schema member.
#[verifier::opaque]
pub open spec fn spec_esc_step(st: St, c: char) -> St {
    if c == '"' || c == '\\' || c == '/' {
        St { mode: Mode::Str, sbuf: st.sbuf.push(c), ..st }
    } else if c == 'b' {
        St { mode: Mode::Str, sbuf: st.sbuf.push('\u{8}'), ..st }
    } else if c == 'f' {
        St { mode: Mode::Str, sbuf: st.sbuf.push('\u{c}'), ..st }
    } else if c == 'n' {
        St { mode: Mode::Str, sbuf: st.sbuf.push('\n'), ..st }
    } else if c == 'r' {
        St { mode: Mode::Str, sbuf: st.sbuf.push('\r'), ..st }
    } else if c == 't' {
        St { mode: Mode::Str, sbuf: st.sbuf.push('\t'), ..st }
    } else if c == 'u' {
        St { mode: Mode::StrHex, hexleft: 4, hexval: 0, sbuf_u: true, ..st }
    } else {
        fail(st)
    }
}

/// One hex digit of a `\u` escape. The completed unit is pushed as its
/// character; a high surrogate awaits its partner, a lone low surrogate
/// is rejected.
#[verifier::opaque]
pub open spec fn spec_hex_step(st: St, c: char) -> St {
    if is_hex_char(c) && st.hexval <= 0xFFF {
        let v = ((st.hexval * 16 + hex_val(c)) as u32);
        if st.hexleft > 1 {
            St { hexval: v, hexleft: (st.hexleft - 1) as u64, ..st }
        } else if 0xD800 <= v && v <= 0xDBFF {
            St { mode: Mode::StrSur1, hexpend: v, hexval: 0, hexleft: 0, ..st }
        } else if 0xDC00 <= v && v <= 0xDFFF {
            fail(st)
        } else {
            St {
                mode: Mode::Str,
                sbuf: st.sbuf.push(char_of_code(v)),
                hexval: 0,
                hexleft: 0,
                ..st
            }
        }
    } else {
        fail(st)
    }
}

/// One hex digit of the low half of a surrogate pair; the completed pair
/// is pushed as the character it encodes.
#[verifier::opaque]
pub open spec fn spec_hexlo_step(st: St, c: char) -> St {
    if is_hex_char(c) && st.hexval <= 0xFFF && 0xD800 <= st.hexpend && st.hexpend <= 0xDBFF {
        let v = ((st.hexval * 16 + hex_val(c)) as u32);
        if st.hexleft > 1 {
            St { hexval: v, hexleft: (st.hexleft - 1) as u64, ..st }
        } else if 0xDC00 <= v && v <= 0xDFFF {
            let code = ((0x10000 + (st.hexpend - 0xD800) * 0x400 + (v - 0xDC00)) as u32);
            St {
                mode: Mode::Str,
                sbuf: st.sbuf.push(char_of_code(code)),
                hexval: 0,
                hexpend: 0,
                hexleft: 0,
                ..st
            }
        } else {
            fail(st)
        }
    } else {
        fail(st)
    }
}

/// One character of `true`, `false` or `null`.
#[verifier::opaque]
pub open spec fn spec_lit_step(st: St, c: char) -> St {
    if st.lit.len() > 0 && c == st.lit[0] {
        St {
            mode: if st.lit.len() == 1 {
                Mode::AfterVal
            } else {
                Mode::Lit
            },
            lit: st.lit.remove(0),
            ..st
        }
    } else {
        fail(st)
    }
}

/// After the digits of a number: an exponent may start, or a delimiter
/// ends the number.
#[verifier::opaque]
pub open spec fn spec_num_tail(st: St, c: char) -> St {
    if c == 'e' || c == 'E' {
        St { mode: Mode::NumE, ..st }
    } else if is_delim_char(c) {
        spec_num_delim(st, c)
    } else {
        fail(st)
    }
}

/// One character of the body.
#[verifier::opaque]
pub open spec fn spec_step(st: St, c: char) -> St {
    match st.mode {
        Mode::Fail => st,
        Mode::Start => if is_ws_char(c) {
            st
        } else if c == '{' {
            St { mode: Mode::MemFirst, stack: st.stack.push(Ctx::Top), ..st }
        } else {
            fail(st)
        },
        Mode::MemFirst => if is_ws_char(c) {
            st
        } else if c == '"' {
            spec_begin_key(st)
        } else if c == '}' {
            if st.stack.len() == 0 {
                fail(st)
            } else {
                spec_close_frame(st)
            }
        } else {
            fail(st)
        },
        Mode::MemKey => if is_ws_char(c) {
            st
        } else if c == '"' {
            spec_begin_key(st)
        } else {
            fail(st)
        },
        Mode::Colon => if is_ws_char(c) {
            st
        } else if c == ':' {
            St { mode: Mode::Value, ..st }
        } else {
            fail(st)
        },
        Mode::Value => if is_ws_char(c) {
            st
        } else {
            spec_begin_value(st, c)
        },
        Mode::Str => spec_str_step(st, c),
        Mode::StrEsc => spec_esc_step(st, c),
        Mode::StrHex => spec_hex_step(st, c),
        Mode::StrSur1 => if c == '\\' {
            St { mode: Mode::StrSur2, ..st }
        } else {
            fail(st)
        },
        Mode::StrSur2 => if c == 'u' {
            St { mode: Mode::StrHexLo, hexleft: 4, hexval: 0, ..st }
        } else {
            fail(st)
        },
        Mode::StrHexLo => spec_hexlo_step(st, c),
        Mode::AfterVal => if is_ws_char(c) {
            st
        } else {
            spec_after_val(st, c)
        },
        Mode::ElemFirst => if is_ws_char(c) {
            st
        } else if c == ']' {
            if st.stack.len() == 0 {
                fail(st)
            } else {
                spec_close_frame(st)
            }
        } else {
            spec_begin_elem(st, c)
        },
        Mode::ElemNext => if is_ws_char(c) {
            st
        } else {
            spec_begin_elem(st, c)
        },
        Mode::Lit => spec_lit_step(st, c),
        Mode::NumMinus => if c == '0' {
            St { mode: Mode::NumZero, ..st }
        } else if is_digit_char(c) {
            St { mode: Mode::NumInt, num_mag: digit_val(c), ..st }
        } else {
            fail(st)
        },
        Mode::NumZero => if c == '.' {
            St { mode: Mode::NumDot, ..st }
        } else {
            spec_num_tail(st, c)
        },
        Mode::NumInt => if is_digit_char(c) {
            if st.target is Skip {
                st
            } else if st.num_mag > 1_000_000_000_000_000 {
                fail(st)
            } else {
                St { num_mag: (st.num_mag * 10 + digit_val(c)) as u64, ..st }
            }
        } else if c == '.' {
            St { mode: Mode::NumDot, ..st }
        } else {
            spec_num_tail(st, c)
        },
        Mode::NumDot => if is_digit_char(c) {
            spec_frac_digit(st, c)
        } else {
            fail(st)
        },
        Mode::NumFrac => if is_digit_char(c) {
            spec_frac_digit(st, c)
        } else {
            spec_num_tail(st, c)
        },
        Mode::NumE => if c == '+' {
            St { mode: Mode::NumESign, num_esign: false, ..st }
        } else if c == '-' {
            St { mode: Mode::NumESign, num_esign: true, ..st }
        } else if is_digit_char(c) {
            St { mode: Mode::NumEDig, num_exp: digit_val(c), ..st }
        } else {
            fail(st)
        },
        Mode::NumESign => if is_digit_char(c) {
            St { mode: Mode::NumEDig, num_exp: digit_val(c), ..st }
        } else {
            fail(st)
        },
        Mode::NumEDig => if is_digit_char(c) {
            spec_exp_digit(st, c)
        } else if is_delim_char(c) {
            spec_num_delim(st, c)
        } else {
            fail(st)
        },
        Mode::End => if is_ws_char(c) {
            st
        } else {
            fail(st)
        },
    }
}

/// The machine before any character.
pub open spec fn init_st() -> St {
    St {
        mode: Mode::Start,
        stack: Seq::empty(),
        skind: StrKind::Skip,
        hexleft: 0,
        hexval: 0,
        hexpend: 0,
        sbuf: Seq::empty(),
        sbuf_u: false,
        target: Target::Skip,
        lit: Seq::empty(),
        num_sign: false,
        num_mag: 0,
        num_frac: 0,
        num_exp: 0,
        num_esign: false,
        w_started: false,
        welem_first: false,
        elem_desc_seen: false,
        weather_seen: false,
        main_seen: false,
        temp_seen: false,
        feels_seen: false,
        desc: None,
        temp: None,
        feels: None,
    }
}

/// The machine after the first `i` characters of `s`.
pub open spec fn spec_run(s: Seq<char>, i: int) -> St
    decreases i,
{
    if i <= 0 {
        init_st()
    } else {
        spec_step(spec_run(s, i - 1), s[i - 1])
    }
}

/// What a body decodes to: the first condition's description and the two
/// temperatures in tenths, or nothing when the body does not match the
/// schema.
pub open spec fn spec_decode(s: Seq<char>) -> Option<(Seq<char>, i64, i64)> {
    let st = spec_run(s, s.len() as int);
    if st.mode is End {
        match (st.desc, st.temp, st.feels) {
            (Some(d), Some(t), Some(f)) => Some((d, t, f)),
            _ => None,
        }
    } else {
        None
    }
}

/// The machine state, executable.
pub struct StX {
    pub mode: Mode,
    pub stack: Vec<Ctx>,
    pub skind: StrKind,
    pub hexleft: u64,
    pub hexval: u32,
    pub hexpend: u32,
    pub sbuf: Vec<char>,
    pub sbuf_u: bool,
    pub target: Target,
    pub lit: Vec<char>,
    pub num_sign: bool,
    pub num_mag: u64,
    pub num_frac: u64,
    pub num_exp: u64,
    pub num_esign: bool,
    pub w_started: bool,
    pub welem_first: bool,
    pub elem_desc_seen: bool,
    pub weather_seen: bool,
    pub main_seen: bool,
    pub temp_seen: bool,
    pub feels_seen: bool,
    pub desc: Option<Vec<char>>,
    pub temp: Option<i64>,
    pub feels: Option<i64>,
}

impl View for StX {
    type V = St;

    open spec fn view(&self) -> St {
        St {
            mode: self.mode,
            stack: self.stack@,
            skind: self.skind,
            hexleft: self.hexleft,
            hexval: self.hexval,
            hexpend: self.hexpend,
            sbuf: self.sbuf@,
            sbuf_u: self.sbuf_u,
            target: self.target,
            lit: self.lit@,
            num_sign: self.num_sign,
            num_mag: self.num_mag,
            num_frac: self.num_frac,
            num_exp: self.num_exp,
            num_esign: self.num_esign,
            w_started: self.w_started,
            welem_first: self.welem_first,
            elem_desc_seen: self.elem_desc_seen,
            weather_seen: self.weather_seen,
            main_seen: self.main_seen,
            temp_seen: self.temp_seen,
            feels_seen: self.feels_seen,
            desc: match self.desc {
                Some(ref v) => Some(v@),
                None => None,
            },
            temp: self.temp,
            feels: self.feels,
        }
    }
}

fn init_x() -> (r: StX)
    ensures
        r@ == init_st(),
{
    let r = StX {
        mode: Mode::Start,
        stack: Vec::new(),
        skind: StrKind::Skip,
        hexleft: 0,
        hexval: 0,
        hexpend: 0,
        sbuf: Vec::new(),
        sbuf_u: false,
        target: Target::Skip,
        lit: Vec::new(),
        num_sign: false,
        num_mag: 0,
        num_frac: 0,
        num_exp: 0,
        num_esign: false,
        w_started: false,
        welem_first: false,
        elem_desc_seen: false,
        weather_seen: false,
        main_seen: false,
        temp_seen: false,
        feels_seen: false,
        desc: None,
        temp: None,
        feels: None,
    };
    proof {
        assert(r@ =~= init_st());
    }
    r
}

fn fail_x(st: StX) -> (r: StX)
    ensures
        r@ == fail(st@),
{
    let mut s = st;
    s.mode = Mode::Fail;
    proof {
        assert(s@ =~= fail(st@));
    }
    s
}

fn key_top_x(st: StX) -> (r: StX)
    ensures
        r@ == spec_key_top(st@),
{
    proof {
        reveal(spec_key_top);
    }
    let mut s = st;
    if !s.sbuf_u && chars_eq_str(&s.sbuf, "weather") {
        if s.weather_seen {
            return fail_x(s);
        }
        s.mode = Mode::Colon;
        s.target = Target::Weather;
        s.weather_seen = true;
    } else if !s.sbuf_u && chars_eq_str(&s.sbuf, "main") {
        if s.main_seen {
            return fail_x(s);
        }
        s.mode = Mode::Colon;
        s.target = Target::MainMem;
        s.main_seen = true;
    } else {
        s.mode = Mode::Colon;
        s.target = Target::Skip;
    }
    proof {
        assert(s@ =~= spec_key_top(st@));
    }
    s
}

fn key_welem_x(st: StX) -> (r: StX)
    ensures
        r@ == spec_key_welem(st@),
{
    proof {
        reveal(spec_key_welem);
    }
    let mut s = st;
    if !s.sbuf_u && chars_eq_str(&s.sbuf, "description") {
        if s.elem_desc_seen {
            return fail_x(s);
        }
        s.mode = Mode::Colon;
        s.target = Target::Desc;
        s.elem_desc_seen = true;
    } else {
        s.mode = Mode::Colon;
        s.target = Target::Skip;
    }
    proof {
        assert(s@ =~= spec_key_welem(st@));
    }
    s
}

fn key_main_x(st: StX) -> (r: StX)
    ensures
        r@ == spec_key_main(st@),
{
    proof {
        reveal(spec_key_main);
    }
    let mut s = st;
    if !s.sbuf_u && chars_eq_str(&s.sbuf, "temp") {
        if s.temp_seen {
            return fail_x(s);
        }
        s.mode = Mode::Colon;
        s.target = Target::Temp;
        s.temp_seen = true;
    } else if !s.sbuf_u && chars_eq_str(&s.sbuf, "feels_like") {
        if s.feels_seen {
            return fail_x(s);
        }
        s.mode = Mode::Colon;
        s.target = Target::Feels;
        s.feels_seen = true;
    } else {
        s.mode = Mode::Colon;
        s.target = Target::Skip;
    }
    proof {
        assert(s@ =~= spec_key_main(st@));
    }
    s
}

fn classify_key_x(st: StX) -> (r: StX)
    ensures
        r@ == spec_classify_key(st@),
{
    proof {
        reveal(spec_classify_key);
    }
    let mut s = st;
    if s.stack.len() == 0 {
        return fail_x(s);
    }
    let top = s.stack[s.stack.len() - 1];
    proof {
        assert(st@.stack.last() == top);
    }
    match top {
        Ctx::Top => key_top_x(s),
        Ctx::WElem => key_welem_x(s),
        Ctx::MainObj => key_main_x(s),
        Ctx::OtherObj => {
            s.mode = Mode::Colon;
            s.target = Target::Skip;
            proof {
                assert(s@ =~= spec_classify_key(st@));
            }
            s
        },
        _ => fail_x(s),
    }
}

#[verifier::rlimit(100)]
fn end_string_x(st: StX) -> (r: StX)
    ensures
        r@ == spec_end_string(st@),
{
    proof {
        reveal(spec_end_string);
    }
    let mut s = st;
    match s.skind {
        StrKind::Key => classify_key_x(s),
        StrKind::Desc => {
            let mut b: Vec<char> = Vec::new();
            core::mem::swap(&mut b, &mut s.sbuf);
            s.desc = Some(b);
            s.mode = Mode::AfterVal;
            proof {
                assert(s@ =~= spec_end_string(st@));
            }
            s
        },
        StrKind::Skip => {
            s.mode = Mode::AfterVal;
            proof {
                assert(s@ =~= spec_end_string(st@));
            }
            s
        },
    }
}

fn close_frame_x(st: StX) -> (r: StX)
    requires
        st@.stack.len() > 0,
    ensures
        r@ == spec_close_frame(st@),
{
    proof {
        reveal(spec_close_frame);
    }
    let mut s = st;
    let top = s.stack[s.stack.len() - 1];
    proof {
        assert(st@.stack.last() == top);
    }
    let ghost s0 = s.stack@;
    let _popped = s.stack.pop();
    proof {
        assert(s.stack@ =~= s0.drop_last());
    }
    match top {
        Ctx::WElem => {
            if !s.elem_desc_seen {
                s.mode = Mode::Fail;
            } else {
                s.mode = Mode::AfterVal;
            }
        },
        Ctx::Top => {
            s.mode = Mode::End;
        },
        _ => {
            s.mode = Mode::AfterVal;
        },
    }
    proof {
        assert(s@ =~= spec_close_frame(st@));
    }
    s
}

#[verifier::rlimit(100)]
fn after_val_x(st: StX, c: char) -> (r: StX)
    ensures
        r@ == spec_after_val(st@, c),
{
    proof {
        reveal(spec_after_val);
    }
    let mut s = st;
    if s.stack.len() == 0 {
        return fail_x(s);
    }
    let top = s.stack[s.stack.len() - 1];
    proof {
        assert(st@.stack.last() == top);
    }
    if c == ',' {
        match top {
            Ctx::WeatherArr | Ctx::OtherArr => {
                s.mode = Mode::ElemNext;
            },
            _ => {
                s.mode = Mode::MemKey;
            },
        }
        proof {
            assert(s@ =~= spec_after_val(st@, c));
        }
        s
    } else if c == '}' {
        match top {
            Ctx::WeatherArr | Ctx::OtherArr => fail_x(s),
            _ => close_frame_x(s),
        }
    } else if c == ']' {
        match top {
            Ctx::WeatherArr | Ctx::OtherArr => close_frame_x(s),
            _ => fail_x(s),
        }
    } else {
        fail_x(s)
    }
}

fn begin_key_x(st: StX) -> (r: StX)
    ensures
        r@ == spec_begin_key(st@),
{
    proof {
        reveal(spec_begin_key);
    }
    let mut s = st;
    s.mode = Mode::Str;
    s.skind = StrKind::Key;
    s.sbuf = Vec::new();
    s.sbuf_u = false;
    proof {
        assert(s@ =~= spec_begin_key(st@));
    }
    s
}

fn begin_number_x(st: StX, c: char) -> (r: StX)
    requires
        c == '-' || is_digit_char(c),
    ensures
        r@ == spec_begin_number(st@, c),
{
    proof {
        reveal(spec_begin_number);
    }
    let mut s = st;
    s.num_sign = false;
    s.num_mag = 0;
    s.num_frac = 0;
    s.num_exp = 0;
    s.num_esign = false;
    if c == '-' {
        s.mode = Mode::NumMinus;
        s.num_sign = true;
    } else if c == '0' {
        s.mode = Mode::NumZero;
    } else {
        s.mode = Mode::NumInt;
        s.num_mag = digit_val_of(c);
    }
    proof {
        assert(s@ =~= spec_begin_number(st@, c));
    }
    s
}

fn pow10_x(p: u64) -> (r: u64)
    requires
        p <= 18,
    ensures
        r as int == pow10(p as int),
        1 <= r <= 1_000_000_000_000_000_000,
    decreases p,
{
    if p == 0 {
        1
    } else {
        let prev = pow10_x(p - 1);
        proof {
            lemma_pow10_mono(p as int - 1, 17);
            assert(pow10(17int) == 100_000_000_000_000_000int) by {
                reveal_with_fuel(pow10, 19);
            }
        }
        10 * prev
    }
}

#[verifier::rlimit(100)]
fn tenths_mag_x(s: &StX) -> (r: Option<u64>)
    ensures
        (r matches Some(m) ==> spec_tenths_mag(s@) == Some(m as int) && m
            <= 1_000_000_000_000_000_000),
        r is None ==> spec_tenths_mag(s@) is None,
{
    proof {
        reveal(spec_tenths_mag);
    }
    if s.num_mag > 100_000_000_000_000_000 || s.num_frac > 2_000_000_000 || s.num_exp
        > 100_000 {
        return None;
    }
    let e: i64 = if s.num_esign {
        -(s.num_exp as i64)
    } else {
        s.num_exp as i64
    };
    let p: i64 = 1 + e - (s.num_frac as i64);
    if s.num_mag == 0 {
        Some(0)
    } else if p >= 0 {
        if p > 18 {
            return None;
        }
        let d = pow10_x(p as u64);
        if s.num_mag > 1_000_000_000_000_000_000 / d {
            return None;
        }
        proof {
            assert((s.num_mag as int) * (d as int) <= 1_000_000_000_000_000_000int)
                by (nonlinear_arith)
                requires
                    (s.num_mag as int) <= 1_000_000_000_000_000_000int / (d as int),
                    1 <= d as int,
            {}
        }
        Some(s.num_mag * d)
    } else if p < -17 {
        Some(0)
    } else {
        let d = pow10_x((-p) as u64);
        let q = s.num_mag / d;
        let rm = s.num_mag % d;
        Some(
            if 2 * rm >= d {
                q + 1
            } else {
                q
            },
        )
    }
}

#[verifier::rlimit(100)]
fn finish_number_x(st: StX) -> (r: StX)
    ensures
        r@ == spec_finish_number(st@),
{
    proof {
        reveal(spec_finish_number);
    }
    let mut s = st;
    match s.target {
        Target::Skip => {
            proof {
                assert(s@ =~= spec_finish_number(st@));
            }
            s
        },
        Target::Temp | Target::Feels => {
            let m: u64 = match tenths_mag_x(&s) {
                None => {
                    return fail_x(s);
                },
                Some(m) => m,
            };
            let v: i64 = if s.num_sign {
                -(m as i64)
            } else {
                m as i64
            };
            match s.target {
                Target::Temp => {
                    s.temp = Some(v);
                },
                _ => {
                    s.feels = Some(v);
                },
            }
            proof {
                assert(s@ =~= store_tenths(st@, m as int));
            }
            s
        },
        _ => fail_x(s),
    }
}

fn frac_digit_x(st: StX, c: char) -> (r: StX)
    requires
        is_digit_char(c),
    ensures
        r@ == spec_frac_digit(st@, c),
{
    proof {
        reveal(spec_frac_digit);
    }
    let mut s = st;
    let skip = match s.target {
        Target::Skip => true,
        _ => false,
    };
    if skip || s.num_mag > 1_000_000_000_000_000 || s.num_frac > 1_000_000_000 {
        s.mode = Mode::NumFrac;
        proof {
            assert(s@ =~= spec_frac_digit(st@, c));
        }
        s
    } else {
        s.mode = Mode::NumFrac;
        s.num_mag = s.num_mag * 10 + digit_val_of(c);
        s.num_frac = s.num_frac + 1;
        proof {
            assert(s@ =~= spec_frac_digit(st@, c));
        }
        s
    }
}

fn exp_digit_x(st: StX, c: char) -> (r: StX)
    requires
        is_digit_char(c),
    ensures
        r@ == spec_exp_digit(st@, c),
{
    proof {
        reveal(spec_exp_digit);
    }
    let mut s = st;
    if s.num_exp > 1000 {
        s
    } else {
        s.num_exp = s.num_exp * 10 + digit_val_of(c);
        proof {
            assert(s@ =~= spec_exp_digit(st@, c));
        }
        s
    }
}

fn num_delim_x(st: StX, c: char) -> (r: StX)
    ensures
        r@ == spec_num_delim(st@, c),
{
    proof {
        reveal(spec_num_delim);
    }
    let mut s = finish_number_x(st);
    match s.mode {
        Mode::Fail => s,
        _ => {
            if ws_char(c) {
                s.mode = Mode::AfterVal;
                proof {
                    assert(s@ =~= spec_num_delim(st@, c));
                }
                s
            } else {
                after_val_x(s, c)
            }
        },
    }
}

fn bv_obj_x(st: StX) -> (r: StX)
    ensures
        r@ == spec_bv_obj(st@),
{
    proof {
        reveal(spec_bv_obj);
    }
    let mut s = st;
    match s.target {
        Target::MainMem => {
            s.mode = Mode::MemFirst;
            s.stack.push(Ctx::MainObj);
        },
        Target::Skip => {
            s.mode = Mode::MemFirst;
            s.stack.push(Ctx::OtherObj);
        },
        _ => {
            return fail_x(s);
        },
    }
    proof {
        assert(s@ =~= spec_bv_obj(st@));
    }
    s
}

fn bv_arr_x(st: StX) -> (r: StX)
    ensures
        r@ == spec_bv_arr(st@),
{
    proof {
        reveal(spec_bv_arr);
    }
    let mut s = st;
    match s.target {
        Target::Weather => {
            s.mode = Mode::ElemFirst;
            s.stack.push(Ctx::WeatherArr);
        },
        Target::Skip => {
            s.mode = Mode::ElemFirst;
            s.stack.push(Ctx::OtherArr);
        },
        _ => {
            return fail_x(s);
        },
    }
    proof {
        assert(s@ =~= spec_bv_arr(st@));
    }
    s
}

fn bv_str_x(st: StX) -> (r: StX)
    ensures
        r@ == spec_bv_str(st@),
{
    proof {
        reveal(spec_bv_str);
    }
    let mut s = st;
    match s.target {
        Target::Desc => {
            s.mode = Mode::Str;
            s.skind = if s.welem_first {
                StrKind::Desc
            } else {
                StrKind::Skip
            };
            s.sbuf = Vec::new();
            s.sbuf_u = false;
        },
        Target::Skip => {
            s.mode = Mode::Str;
            s.skind = StrKind::Skip;
            s.sbuf = Vec::new();
            s.sbuf_u = false;
        },
        _ => {
            return fail_x(s);
        },
    }
    proof {
        assert(s@ =~= spec_bv_str(st@));
    }
    s
}

fn lit_rest_x(c: char) -> (v: Vec<char>)
    requires
        c == 't' || c == 'f' || c == 'n',
    ensures
        v@ == lit_rest(c),
{
    if c == 't' {
        str_chars("rue")
    } else if c == 'f' {
        str_chars("alse")
    } else {
        str_chars("ull")
    }
}

fn bv_scalar_x(st: StX, c: char) -> (r: StX)
    ensures
        r@ == spec_bv_scalar(st@, c),
{
    proof {
        reveal(spec_bv_scalar);
    }
    let mut s = st;
    if c == '-' || digit_char_test(c) {
        match s.target {
            Target::Temp | Target::Feels | Target::Skip => begin_number_x(s, c),
            _ => fail_x(s),
        }
    } else if c == 't' || c == 'f' || c == 'n' {
        match s.target {
            Target::Skip => {
                s.mode = Mode::Lit;
                s.lit = lit_rest_x(c);
                proof {
                    assert(s@ =~= spec_bv_scalar(st@, c));
                }
                s
            },
            _ => fail_x(s),
        }
    } else {
        fail_x(s)
    }
}

fn begin_value_x(st: StX, c: char) -> (r: StX)
    ensures
        r@ == spec_begin_value(st@, c),
{
    proof {
        reveal(spec_begin_value);
    }
    if c == '{' {
        bv_obj_x(st)
    } else if c == '[' {
        bv_arr_x(st)
    } else if c == '"' {
        bv_str_x(st)
    } else {
        bv_scalar_x(st, c)
    }
}

#[verifier::rlimit(100)]
fn elem_other_x(st: StX, c: char) -> (r: StX)
    ensures
        r@ == spec_elem_other(st@, c),
{
    proof {
        reveal(spec_elem_other);
    }
    let mut s = st;
    s.target = Target::Skip;
    proof {
        assert(s@ =~= (St { target: Target::Skip, ..st@ }));
    }
    if c == '{' {
        s.mode = Mode::MemFirst;
        s.stack.push(Ctx::OtherObj);
    } else if c == '[' {
        s.mode = Mode::ElemFirst;
        s.stack.push(Ctx::OtherArr);
    } else if c == '"' {
        s.mode = Mode::Str;
        s.skind = StrKind::Skip;
        s.sbuf = Vec::new();
        s.sbuf_u = false;
    } else if c == '-' || digit_char_test(c) {
        let r = begin_number_x(s, c);
        return r;
    } else if c == 't' || c == 'f' || c == 'n' {
        s.mode = Mode::Lit;
        s.lit = lit_rest_x(c);
    } else {
        return fail_x(s);
    }
    proof {
        assert(s@ =~= spec_elem_other(st@, c));
    }
    s
}

fn begin_elem_x(st: StX, c: char) -> (r: StX)
    ensures
        r@ == spec_begin_elem(st@, c),
{
    proof {
        reveal(spec_begin_elem);
    }
    let mut s = st;
    if s.stack.len() == 0 {
        return fail_x(s);
    }
    let top = s.stack[s.stack.len() - 1];
    proof {
        assert(st@.stack.last() == top);
    }
    match top {
        Ctx::WeatherArr => {
            if c == '{' {
                s.mode = Mode::MemFirst;
                s.stack.push(Ctx::WElem);
                s.welem_first = !s.w_started;
                s.w_started = true;
                s.elem_desc_seen = false;
                proof {
                    assert(s@ =~= spec_begin_elem(st@, c));
                }
                s
            } else {
                fail_x(s)
            }
        },
        Ctx::OtherArr => elem_other_x(s, c),
        _ => fail_x(s),
    }
}

#[verifier::rlimit(100)]
fn str_step_x(st: StX, c: char) -> (r: StX)
    ensures
        r@ == spec_str_step(st@, c),
{
    proof {
        reveal(spec_str_step);
    }
    let mut s = st;
    if c == '"' {
        end_string_x(s)
    } else if c == '\\' {
        s.mode = Mode::StrEsc;
        proof {
            assert(s@ =~= spec_str_step(st@, c));
        }
        s
    } else if (c as u32) < 0x20 {
        fail_x(s)
    } else {
        s.sbuf.push(c);
        proof {
            assert(s@ =~= spec_str_step(st@, c));
        }
        s
    }
}

#[verifier::rlimit(100)]
fn esc_step_x(st: StX, c: char) -> (r: StX)
    ensures
        r@ == spec_esc_step(st@, c),
{
    proof {
        reveal(spec_esc_step);
    }
    let mut s = st;
    if c == '"' || c == '\\' || c == '/' {
        s.mode = Mode::Str;
        s.sbuf.push(c);
    } else if c == 'b' {
        s.mode = Mode::Str;
        s.sbuf.push('\u{8}');
    } else if c == 'f' {
        s.mode = Mode::Str;
        s.sbuf.push('\u{c}');
    } else if c == 'n' {
        s.mode = Mode::Str;
        s.sbuf.push('\n');
    } else if c == 'r' {
        s.mode = Mode::Str;
        s.sbuf.push('\r');
    } else if c == 't' {
        s.mode = Mode::Str;
        s.sbuf.push('\t');
    } else if c == 'u' {
        s.mode = Mode::StrHex;
        s.hexleft = 4;
        s.hexval = 0;
        s.sbuf_u = true;
    } else {
        return fail_x(s);
    }
    proof {
        assert(s@ =~= spec_esc_step(st@, c));
    }
    s
}

#[verifier::rlimit(100)]
fn hex_step_x(st: StX, c: char) -> (r: StX)
    ensures
        r@ == spec_hex_step(st@, c),
{
    proof {
        reveal(spec_hex_step);
    }
    let mut s = st;
    if hex_char_test(c) && s.hexval <= 0xFFF {
        let v: u32 = s.hexval * 16 + hex_val_of(c);
        if s.hexleft > 1 {
            s.hexval = v;
            s.hexleft = s.hexleft - 1;
            proof {
                assert(s@ =~= spec_hex_step(st@, c));
            }
            s
        } else if 0xD800 <= v && v <= 0xDBFF {
            s.mode = Mode::StrSur1;
            s.hexpend = v;
            s.hexval = 0;
            s.hexleft = 0;
            proof {
                assert(s@ =~= spec_hex_step(st@, c));
            }
            s
        } else if 0xDC00 <= v && v <= 0xDFFF {
            fail_x(s)
        } else {
            let ch = char_from_code(v);
            s.sbuf.push(ch);
            s.mode = Mode::Str;
            s.hexval = 0;
            s.hexleft = 0;
            proof {
                assert(s@ =~= spec_hex_step(st@, c));
            }
            s
        }
    } else {
        fail_x(s)
    }
}

#[verifier::rlimit(100)]
fn hexlo_step_x(st: StX, c: char) -> (r: StX)
    ensures
        r@ == spec_hexlo_step(st@, c),
{
    proof {
        reveal(spec_hexlo_step);
    }
    let mut s = st;
    if hex_char_test(c) && s.hexval <= 0xFFF && 0xD800 <= s.hexpend && s.hexpend <= 0xDBFF {
        let v: u32 = s.hexval * 16 + hex_val_of(c);
        if s.hexleft > 1 {
            s.hexval = v;
            s.hexleft = s.hexleft - 1;
            proof {
                assert(s@ =~= spec_hexlo_step(st@, c));
            }
            s
        } else if 0xDC00 <= v && v <= 0xDFFF {
            let code: u32 = 0x10000 + (s.hexpend - 0xD800) * 0x400 + (v - 0xDC00);
            let ch = char_from_code(code);
            s.sbuf.push(ch);
            s.mode = Mode::Str;
            s.hexval = 0;
            s.hexpend = 0;
            s.hexleft = 0;
            proof {
                assert(s@ =~= spec_hexlo_step(st@, c));
            }
            s
        } else {
            fail_x(s)
        }
    } else {
        fail_x(s)
    }
}

fn lit_step_x(st: StX, c: char) -> (r: StX)
    ensures
        r@ == spec_lit_step(st@, c),
{
    proof {
        reveal(spec_lit_step);
    }
    let mut s = st;
    if s.lit.len() > 0 && c == s.lit[0] {
        if s.lit.len() == 1 {
            s.mode = Mode::AfterVal;
        } else {
            s.mode = Mode::Lit;
        }
        let _removed = s.lit.remove(0);
        proof {
            assert(s@ =~= spec_lit_step(st@, c));
        }
        s
    } else {
        fail_x(s)
    }
}

/// Steps for the object- and array-shape modes.
#[verifier::rlimit(100)]
fn step_frame_x(st: StX, c: char) -> (r: StX)
    requires
        st@.mode is Start || st@.mode is MemFirst || st@.mode is MemKey || st@.mode is Colon
            || st@.mode is Value || st@.mode is AfterVal || st@.mode is ElemFirst
            || st@.mode is ElemNext || st@.mode is End,
    ensures
        r@ == spec_step(st@, c),
{
    proof {
        reveal(spec_step);
    }
    let mut s = st;
    match s.mode {
        Mode::Start => {
            if ws_char(c) {
                s
            } else if c == '{' {
                s.mode = Mode::MemFirst;
                s.stack.push(Ctx::Top);
                proof {
                    assert(s@ =~= spec_step(st@, c));
                }
                s
            } else {
                fail_x(s)
            }
        },
        Mode::MemFirst => {
            if ws_char(c) {
                s
            } else if c == '"' {
                begin_key_x(s)
            } else if c == '}' {
                if s.stack.len() == 0 {
                    fail_x(s)
                } else {
                    close_frame_x(s)
                }
            } else {
                fail_x(s)
            }
        },
        Mode::MemKey => {
            if ws_char(c) {
                s
            } else if c == '"' {
                begin_key_x(s)
            } else {
                fail_x(s)
            }
        },
        Mode::Colon => {
            if ws_char(c) {
                s
            } else if c == ':' {
                s.mode = Mode::Value;
                proof {
                    assert(s@ =~= spec_step(st@, c));
                }
                s
            } else {
                fail_x(s)
            }
        },
        Mode::Value => {
            if ws_char(c) {
                s
            } else {
                begin_value_x(s, c)
            }
        },
        Mode::AfterVal => {
            if ws_char(c) {
                s
            } else {
                after_val_x(s, c)
            }
        },
        Mode::ElemFirst => {
            if ws_char(c) {
                s
            } else if c == ']' {
                if s.stack.len() == 0 {
                    fail_x(s)
                } else {
                    close_frame_x(s)
                }
            } else {
                begin_elem_x(s, c)
            }
        },
        Mode::ElemNext => {
            if ws_char(c) {
                s
            } else {
                begin_elem_x(s, c)
            }
        },
        Mode::End => {
            if ws_char(c) {
                s
            } else {
                fail_x(s)
            }
        },
        _ => {
            proof {
                assert(false);
            }
            s
        },
    }
}

/// Steps for the string and literal modes.
#[verifier::rlimit(100)]
fn step_text_x(st: StX, c: char) -> (r: StX)
    requires
        st@.mode is Str || st@.mode is StrEsc || st@.mode is StrHex || st@.mode is StrSur1
            || st@.mode is StrSur2 || st@.mode is StrHexLo || st@.mode is Lit,
    ensures
        r@ == spec_step(st@, c),
{
    proof {
        reveal(spec_step);
    }
    let mut s = st;
    match s.mode {
        Mode::Str => str_step_x(s, c),
        Mode::StrEsc => esc_step_x(s, c),
        Mode::StrHex => hex_step_x(s, c),
        Mode::StrSur1 => {
            if c == '\\' {
                s.mode = Mode::StrSur2;
                proof {
                    assert(s@ =~= spec_step(st@, c));
                }
                s
            } else {
                fail_x(s)
            }
        },
        Mode::StrSur2 => {
            if c == 'u' {
                s.mode = Mode::StrHexLo;
                s.hexleft = 4;
                s.hexval = 0;
                proof {
                    assert(s@ =~= spec_step(st@, c));
                }
                s
            } else {
                fail_x(s)
            }
        },
        Mode::StrHexLo => hexlo_step_x(s, c),
        Mode::Lit => lit_step_x(s, c),
        _ => {
            proof {
                assert(false);
            }
            s
        },
    }
}

fn num_tail_x(st: StX, c: char) -> (r: StX)
    ensures
        r@ == spec_num_tail(st@, c),
{
    proof {
        reveal(spec_num_tail);
    }
    let mut s = st;
    if c == 'e' || c == 'E' {
        s.mode = Mode::NumE;
        proof {
            assert(s@ =~= spec_num_tail(st@, c));
        }
        s
    } else if ws_char(c) || c == ',' || c == '}' || c == ']' {
        num_delim_x(s, c)
    } else {
        fail_x(s)
    }
}

/// Step for the mode after a minus sign.
#[verifier::rlimit(100)]
fn num_minus_x(st: StX, c: char) -> (r: StX)
    requires
        st@.mode is NumMinus,
    ensures
        r@ == spec_step(st@, c),
{
    proof {
        reveal(spec_step);
    }
    let mut s = st;
    if c == '0' {
        s.mode = Mode::NumZero;
        proof {
            assert(s@ =~= spec_step(st@, c));
        }
        s
    } else if digit_char_test(c) {
        s.mode = Mode::NumInt;
        s.num_mag = digit_val_of(c);
        proof {
            assert(s@ =~= spec_step(st@, c));
        }
        s
    } else {
        fail_x(s)
    }
}

/// Step for the mode after a leading zero.
#[verifier::rlimit(100)]
fn num_zero_x(st: StX, c: char) -> (r: StX)
    requires
        st@.mode is NumZero,
    ensures
        r@ == spec_step(st@, c),
{
    proof {
        reveal(spec_step);
    }
    let mut s = st;
    if c == '.' {
        s.mode = Mode::NumDot;
        proof {
            assert(s@ =~= spec_step(st@, c));
        }
        s
    } else {
        num_tail_x(s, c)
    }
}

/// Step for the mode inside the integer digits.
#[verifier::rlimit(100)]
fn num_int_x(st: StX, c: char) -> (r: StX)
    requires
        st@.mode is NumInt,
    ensures
        r@ == spec_step(st@, c),
{
    proof {
        reveal(spec_step);
    }
    let mut s = st;
    if digit_char_test(c) {
        match s.target {
            Target::Skip => s,
            _ => {
                if s.num_mag > 1_000_000_000_000_000 {
                    fail_x(s)
                } else {
                    s.num_mag = s.num_mag * 10 + digit_val_of(c);
                    proof {
                        assert(s@ =~= spec_step(st@, c));
                    }
                    s
                }
            },
        }
    } else if c == '.' {
        s.mode = Mode::NumDot;
        proof {
            assert(s@ =~= spec_step(st@, c));
        }
        s
    } else {
        num_tail_x(s, c)
    }
}

/// Steps for the integer part of a number.
fn step_num_int_x(st: StX, c: char) -> (r: StX)
    requires
        st@.mode is NumMinus || st@.mode is NumZero || st@.mode is NumInt,
    ensures
        r@ == spec_step(st@, c),
{
    let s = st;
    match s.mode {
        Mode::NumMinus => num_minus_x(s, c),
        Mode::NumZero => num_zero_x(s, c),
        Mode::NumInt => num_int_x(s, c),
        _ => {
            proof {
                assert(false);
            }
            s
        },
    }
}

/// Steps for the fraction and exponent parts of a number.
#[verifier::rlimit(100)]
fn step_num_frac_x(st: StX, c: char) -> (r: StX)
    requires
        st@.mode is NumDot || st@.mode is NumFrac || st@.mode is NumE || st@.mode is NumESign
            || st@.mode is NumEDig,
    ensures
        r@ == spec_step(st@, c),
{
    proof {
        reveal(spec_step);
    }
    let mut s = st;
    match s.mode {
        Mode::NumDot => {
            if digit_char_test(c) {
                frac_digit_x(s, c)
            } else {
                fail_x(s)
            }
        },
        Mode::NumFrac => {
            if digit_char_test(c) {
                frac_digit_x(s, c)
            } else {
                num_tail_x(s, c)
            }
        },
        Mode::NumE => {
            if c == '+' {
                s.mode = Mode::NumESign;
                s.num_esign = false;
                proof {
                    assert(s@ =~= spec_step(st@, c));
                }
                s
            } else if c == '-' {
                s.mode = Mode::NumESign;
                s.num_esign = true;
                proof {
                    assert(s@ =~= spec_step(st@, c));
                }
                s
            } else if digit_char_test(c) {
                s.mode = Mode::NumEDig;
                s.num_exp = digit_val_of(c);
                proof {
                    assert(s@ =~= spec_step(st@, c));
                }
                s
            } else {
                fail_x(s)
            }
        },
        Mode::NumESign => {
            if digit_char_test(c) {
                s.mode = Mode::NumEDig;
                s.num_exp = digit_val_of(c);
                proof {
                    assert(s@ =~= spec_step(st@, c));
                }
                s
            } else {
                fail_x(s)
            }
        },
        Mode::NumEDig => {
            if digit_char_test(c) {
                exp_digit_x(s, c)
            } else if ws_char(c) || c == ',' || c == '}' || c == ']' {
                num_delim_x(s, c)
            } else {
                fail_x(s)
            }
        },
        _ => {
            proof {
                assert(false);
            }
            s
        },
    }
}

/// One character of the body, executable; follows `spec_step` exactly.
fn step_x(st: StX, c: char) -> (r: StX)
    ensures
        r@ == spec_step(st@, c),
{
    let s = st;
    match s.mode {
        Mode::Fail => {
            proof {
                reveal(spec_step);
            }
            s
        },
        Mode::Start | Mode::MemFirst | Mode::MemKey | Mode::Colon | Mode::Value | Mode::AfterVal
            | Mode::ElemFirst | Mode::ElemNext | Mode::End => step_frame_x(s, c),
        Mode::Str | Mode::StrEsc | Mode::StrHex | Mode::StrSur1 | Mode::StrSur2
            | Mode::StrHexLo | Mode::Lit => step_text_x(s, c),
        Mode::NumMinus | Mode::NumZero | Mode::NumInt => step_num_int_x(s, c),
        Mode::NumDot | Mode::NumFrac | Mode::NumE | Mode::NumESign | Mode::NumEDig
            => step_num_frac_x(s, c),
    }
}

/// Decodes a provider response body. Succeeds exactly on bodies of the
/// expected schema with at least one condition record, and returns the
/// first condition's description and the two temperatures in tenths of a
/// degree; every other body, an empty `weather` array included, is a
/// decode failure.
pub fn decode_weather(body: &str) -> (r: Result<WeatherReport, DecodeError>)
    ensures
        (r matches Ok(rep) ==> spec_decode(body@) == Some(
            (rep.description@, rep.temp_tenths, rep.feels_like_tenths),
        )),
        r is Err ==> spec_decode(body@) is None,
{
    let n = body.unicode_len();
    let mut st = init_x();
    let mut i: usize = 0;
    while i < n
        invariant
            i <= n,
            n == body@.len(),
            st@ == spec_run(body@, i as int),
        decreases n - i,
    {
        let c = body.get_char(i);
        st = step_x(st, c);
        i += 1;
    }
    let accept = match st.mode {
        Mode::End => true,
        _ => false,
    };
    if !accept {
        return Err(DecodeError::Malformed);
    }
    match (st.desc, st.temp, st.feels) {
        (Some(d), Some(t), Some(f)) => Ok(
            WeatherReport {
                description: chars_to_string(&d),
                temp_tenths: t,
                feels_like_tenths: f,
            },
        ),
        _ => Err(DecodeError::Malformed),
    }
}

} // verus!

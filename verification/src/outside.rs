//! The calls into other crates and into the parts of the standard library that
//! carry no specification, each behind a function that states what is relied
//! on.

use base64::Engine;
use chrono::TimeZone;
use vstd::prelude::*;

use crate::markdown::texts;
use crate::text::digit_char;

verus! {

// ---- Letter case ---------------------------------------------------------

/// What `str::to_lowercase` makes of a text.
pub uninterp spec fn lower(s: Seq<char>) -> Seq<char>;

/// `str::to_lowercase`: the lowercase form of the text, a function of the text
/// alone.
#[verifier::external_body]
pub(crate) fn lowercase(s: &str) -> (r: String)
    ensures
        r@ == lower(s@),
{
    s.to_lowercase()
}

// ---- JSON ----------------------------------------------------------------

/// What `serde_json::to_string` writes for a text paired with a list of texts.
pub uninterp spec fn json_pair_text(head: Seq<char>, items: Seq<Seq<char>>) -> Seq<char>;

/// What `serde_json::from_str` reads as a text paired with a list of texts.
pub uninterp spec fn json_pair_read(raw: Seq<char>) -> Option<(Seq<char>, Seq<Seq<char>>)>;

/// What `serde_json::to_string` writes for one text.
pub uninterp spec fn json_string_text(s: Seq<char>) -> Seq<char>;

/// `serde_json::to_string` on `(head, items)`: texts always serialise, and the
/// JSON depends on them alone.
#[verifier::external_body]
pub(crate) fn json_pair(head: &str, items: &Vec<String>) -> (r: Option<String>)
    ensures
        r is Some,
        r->0@ == json_pair_text(head@, texts(items@)),
{
    serde_json::to_string(&(head, items)).ok()
}

/// `serde_json::from_str` into a text and a list of texts: nothing unless the
/// JSON has that shape. JSON that [`json_pair`] wrote reads back as what was
/// written.
#[verifier::external_body]
pub(crate) fn json_unpair(raw: &str) -> (r: Option<(String, Vec<String>)>)
    ensures
        match r {
            Some((head, items)) => json_pair_read(raw@) == Some((head@, texts(items@))),
            None => json_pair_read(raw@) is None,
        },
        forall|head: Seq<char>, items: Seq<Seq<char>>|
            raw@ == #[trigger] json_pair_text(head, items) ==> r is Some && (r->0).0@ == head
                && texts((r->0).1@) == items,
{
    serde_json::from_str(raw).ok()
}

/// `serde_json::to_string` on one text, which always serialises.
#[verifier::external_body]
pub(crate) fn json_string(s: &str) -> (r: Option<String>)
    ensures
        r is Some,
        r->0@ == json_string_text(s@),
{
    serde_json::to_string(s).ok()
}

// ---- Base64 --------------------------------------------------------------

/// The standard alphabet's character for a six-bit number.
pub open spec fn base64_char(n: int) -> char {
    if n < 26 {
        ('A' as int + n) as char
    } else if n < 52 {
        ('a' as int + n - 26) as char
    } else if n < 62 {
        ('0' as int + n - 52) as char
    } else if n == 62 {
        '+'
    } else {
        '/'
    }
}

/// A byte, or zero past the end.
pub open spec fn byte_at(b: Seq<u8>, i: int) -> int {
    if i < b.len() {
        b[i] as int
    } else {
        0
    }
}

/// The `i`-th group of six bits, three bytes making four of them.
pub open spec fn sextet(b: Seq<u8>, i: int) -> int {
    let at = i / 4 * 3;
    if i % 4 == 0 {
        byte_at(b, at) / 4
    } else if i % 4 == 1 {
        byte_at(b, at) % 4 * 16 + byte_at(b, at + 1) / 16
    } else if i % 4 == 2 {
        byte_at(b, at + 1) % 16 * 4 + byte_at(b, at + 2) / 64
    } else {
        byte_at(b, at + 2) % 64
    }
}

/// Standard base64 with padding.
pub open spec fn base64_text(b: Seq<u8>) -> Seq<char> {
    Seq::new(
        ((b.len() + 2) / 3 * 4) as nat,
        |i: int|
            if 6 * i < 8 * b.len() {
                base64_char(sextet(b, i))
            } else {
                '='
            },
    )
}

/// `Engine::encode` of `base64`'s `general_purpose::STANDARD`: standard base64
/// with padding. A slice so long that its encoding has no length is left out.
#[verifier::external_body]
pub(crate) fn base64_encode(bytes: &[u8]) -> (r: String)
    requires
        bytes@.len() <= usize::MAX / 4,
    ensures
        r@ == base64_text(bytes@),
{
    base64::engine::general_purpose::STANDARD.encode(bytes)
}

// ---- UUIDs ---------------------------------------------------------------

pub open spec fn hex_char(n: nat) -> char {
    if n < 10 {
        ('0' as nat + n) as char
    } else {
        ('a' as nat + n - 10) as char
    }
}

/// The lowest `len` hexadecimal digits of `n`, highest first.
pub open spec fn hex(n: nat, len: nat) -> Seq<char>
    decreases len,
{
    if len == 0 {
        Seq::empty()
    } else {
        hex(n / 16, (len - 1) as nat).push(hex_char(n % 16))
    }
}

/// The hyphenated form of a UUID.
pub open spec fn uuid_form(id: u128) -> Seq<char> {
    let h = hex(id as nat, 32);
    h.subrange(0, 8) + seq!['-'] + h.subrange(8, 12) + seq!['-'] + h.subrange(12, 16) + seq!['-']
        + h.subrange(16, 20) + seq!['-'] + h.subrange(20, 32)
}

/// The UUID that `Uuid::parse_str` reads in a text.
pub uninterp spec fn uuid_read(s: Seq<char>) -> Option<u128>;

/// `Uuid`'s `to_string`: lowercase and hyphenated.
#[verifier::external_body]
pub(crate) fn uuid_text(id: u128) -> (r: String)
    ensures
        r@ == uuid_form(id),
{
    uuid::Uuid::from_u128(id).to_string()
}

/// `Uuid::parse_str`: which texts it takes is a function of the text alone, and
/// the hyphenated form of a UUID is read as that UUID.
#[verifier::external_body]
pub(crate) fn uuid_parse(s: &str) -> (r: Option<u128>)
    ensures
        r == uuid_read(s@),
        forall|id: u128| s@ == #[trigger] uuid_form(id) ==> r == Some(id),
{
    uuid::Uuid::parse_str(s).ok().map(|u| u.as_u128())
}

// ---- The clock on the wall -----------------------------------------------

/// The milliseconds since 1970 that fall within the years a calendar date can
/// have, 262144 BC to 262142 AD.
pub open spec fn datable(ms: i64) -> bool {
    -8334601228800000 <= ms <= 8210266876799999
}

/// A clock's distance from UTC in seconds, counted east: less than a day.
pub open spec fn zoned(east: i32) -> bool {
    -86400 < east < 86400
}

/// The seconds since midnight that a clock `east` of UTC shows at an instant.
pub open spec fn day_second(ms: i64, east: i32) -> int {
    (ms as int / 1000 + east) % 86400
}

pub open spec fn two_digits(n: int) -> Seq<char> {
    seq![digit_char((n / 10) as nat), digit_char((n % 10) as nat)]
}

/// The hour and the minute of a time of day.
pub open spec fn hour_minute(second: int) -> Seq<char> {
    two_digits(second / 3600) + seq![':'] + two_digits(second / 60 % 60)
}

/// The hour, the minute and the second of a time of day.
pub open spec fn hour_minute_second(second: int) -> Seq<char> {
    hour_minute(second) + seq![':'] + two_digits(second % 60)
}

/// What `DateTime::format` writes for an instant, by a clock `east` of UTC.
pub uninterp spec fn clock_text(ms: i64, east: i32, format: Seq<char>) -> Seq<char>;

/// `TimeZone::timestamp_millis_opt` on `chrono::Local`, and the seconds its
/// `DateTime::offset` is east of UTC: there is one for every instant a date can
/// be had for, and it is less than a day. Which one depends on the machine's time
/// zone, so no more is said of it. A machine whose zone is set a day or more away
/// from UTC makes chrono panic, whatever the instant.
#[verifier::external_body]
pub(crate) fn local_offset(ms: i64) -> (r: Option<i32>)
    ensures
        r is Some <==> datable(ms),
        r is Some ==> zoned(r->0),
{
    chrono::Local.timestamp_millis_opt(ms).single().map(|at| at.offset().local_minus_utc())
}

/// `FixedOffset::east_opt`, `TimeZone::timestamp_millis_opt` on it, and
/// `DateTime::format`: a text for every instant a date can be had for and every
/// distance of less than a day, which depends on the arguments alone. The time of
/// day is the instant's, moved by that distance. Of the month and the day, which
/// take the first six characters, nothing more is said.
#[verifier::external_body]
pub(crate) fn fixed_clock(ms: i64, east: i32, format: &str) -> (r: Option<String>)
    requires
        format@ == "%H:%M"@ || format@ == "%b %d, %H:%M"@ || format@ == "%H:%M:%S"@,
    ensures
        r is Some <==> (datable(ms) && zoned(east)),
        r is Some ==> r->0@ == clock_text(ms, east, format@),
        r is Some && format@ == "%H:%M"@ ==> r->0@ == hour_minute(day_second(ms, east)),
        r is Some && format@ == "%H:%M:%S"@ ==> r->0@ == hour_minute_second(day_second(ms, east)),
        r is Some && format@ == "%b %d, %H:%M"@ ==> r->0@.skip(6) == ", "@ + hour_minute(
            day_second(ms, east),
        ),
{
    let zone = chrono::FixedOffset::east_opt(east)?;
    zone.timestamp_millis_opt(ms).single().map(|at| at.format(format).to_string())
}

// ---- Images --------------------------------------------------------------

/// The PNG file that `image` writes for a picture of RGBA bytes.
pub uninterp spec fn png_file(width: u32, height: u32, rgba: Seq<u8>) -> Option<Seq<u8>>;

/// `image::RgbaImage::from_raw`, then `DynamicImage::write_to` as PNG: nothing
/// where there are too few bytes for the picture; the file depends on the
/// picture alone. More bytes than the picture has are left out.
#[verifier::external_body]
pub(crate) fn png_encode(width: u32, height: u32, rgba: Vec<u8>) -> (r: Option<Vec<u8>>)
    requires
        rgba@.len() <= 4 * width * height,
    ensures
        match r {
            Some(png) => png_file(width, height, rgba@) == Some(png@),
            None => png_file(width, height, rgba@) is None,
        },
        rgba@.len() < 4 * width * height ==> r is None,
{
    let picture = image::RgbaImage::from_raw(width, height, rgba)?;
    let mut png = Vec::new();
    image::DynamicImage::ImageRgba8(picture)
        .write_to(&mut std::io::Cursor::new(&mut png), image::ImageFormat::Png)
        .ok()?;
    Some(png)
}

} // verus!

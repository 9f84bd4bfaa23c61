use vstd::arithmetic::power::pow;
use vstd::prelude::*;

verus! {

/// The 128-bit value that uuid reads from a text, or `None` where it rejects it.
pub uninterp spec fn uuid_value_of(s: Seq<char>) -> Option<u128>;

/// The serialization that url gives a parsed text, or `None` where it rejects it.
pub uninterp spec fn url_text_of(s: Seq<char>) -> Option<Seq<char>>;

/// The UTC instant that chrono reads from a timestamp text, as seconds since the
/// Unix epoch and nanoseconds, or `None` where it rejects it.
pub uninterp spec fn utc_instant_of(s: Seq<char>) -> Option<(i64, u32)>;

/// The RFC 3339 text that chrono writes for an instant, or `None` where chrono
/// cannot represent it (seconds out of range, or nanoseconds that are no valid
/// fraction or leap second).
pub uninterp spec fn utc_text_of(secs: i64, nanos: u32) -> Option<Seq<char>>;

/// A lower-case hexadecimal digit.
pub open spec fn hex_digit(d: int) -> char {
    if d < 10 {
        ('0' as int + d) as char
    } else {
        ('a' as int + d - 10) as char
    }
}

/// The `k`-th of the 32 hexadecimal digits of `v`, the most significant first.
pub open spec fn nibble(v: u128, k: int) -> int {
    (v as int / pow(16, (31 - k) as nat)) % 16
}

/// Which hexadecimal digit stands at position `i` of the hyphenated form.
pub open spec fn digit_at(i: int) -> int {
    if i < 8 {
        i
    } else if i < 13 {
        i - 1
    } else if i < 18 {
        i - 2
    } else if i < 23 {
        i - 3
    } else {
        i - 4
    }
}

/// The hyphenated form of a UUID: 32 lower-case hexadecimal digits in groups of
/// 8, 4, 4, 4 and 12.
pub open spec fn hyphenated(v: u128) -> Seq<char> {
    Seq::new(
        36,
        |i: int|
            if i == 8 || i == 13 || i == 18 || i == 23 {
                '-'
            } else {
                hex_digit(nibble(v, digit_at(i)))
            },
    )
}

/// Relies on uuid::Uuid::parse_str, read as a big-endian 128-bit value by `as_u128`.
#[verifier::external_body]
fn parse_uuid(s: &str) -> (r: Option<u128>)
    ensures
        r == uuid_value_of(s@),
{
    match uuid::Uuid::parse_str(s) {
        Ok(u) => Some(u.as_u128()),
        Err(_) => None,
    }
}

/// Relies on uuid::Uuid's hyphenated lower-case form of a big-endian value
/// (`from_u128`), which `parse_str` reads back.
#[verifier::external_body]
fn format_uuid(v: u128) -> (r: String)
    ensures
        r@ == hyphenated(v),
        uuid_value_of(r@) == Some(v),
{
    uuid::Uuid::from_u128(v).hyphenated().to_string()
}

/// Relies on url::Url::parse, and on the serialization of what it parsed.
#[verifier::external_body]
fn parse_url(s: &str) -> (r: Option<String>)
    ensures
        match r {
            Some(t) => url_text_of(s@) == Some(t@),
            None => url_text_of(s@) is None,
        },
{
    match url::Url::parse(s) {
        Ok(u) => Some(String::from(u)),
        Err(_) => None,
    }
}

/// Relies on the parsing of `chrono::DateTime<Utc>` from a string (RFC 3339 with an
/// offset, normalised to UTC), on `timestamp` and `timestamp_subsec_nanos`, and on
/// `DateTime::from_timestamp` accepting what those two return.
#[verifier::external_body]
fn parse_instant(s: &str) -> (r: Option<(i64, u32)>)
    ensures
        r == utc_instant_of(s@),
        r matches Some(p) ==> utc_text_of(p.0, p.1) is Some,
{
    match s.parse::<chrono::DateTime<chrono::Utc>>() {
        Ok(d) => Some((d.timestamp(), d.timestamp_subsec_nanos())),
        Err(_) => None,
    }
}

/// Relies on chrono::DateTime::from_timestamp, and on `to_rfc3339_opts` with
/// automatic sub-second digits and a `Z` offset.
#[verifier::external_body]
fn format_instant(secs: i64, nanos: u32) -> (r: Option<String>)
    ensures
        match r {
            Some(t) => utc_text_of(secs, nanos) == Some(t@),
            None => utc_text_of(secs, nanos) is None,
        },
{
    match chrono::DateTime::from_timestamp(secs, nanos) {
        Some(d) => Some(d.to_rfc3339_opts(chrono::SecondsFormat::AutoSi, true)),
        None => None,
    }
}

/// A user's identifier: a UUID, held as its 128-bit value.
#[derive(PartialEq, Eq, Structural, Clone, Copy, Debug)]
pub struct UserId {
    pub value: u128,
}

impl UserId {
    /// Reads a UUID in one of its textual forms (hyphenated, simple, braced, URN).
    pub fn parse(s: &str) -> (r: Option<UserId>)
        ensures
            match r {
                Some(u) => uuid_value_of(s@) == Some(u.value),
                None => uuid_value_of(s@) is None,
            },
    {
        match parse_uuid(s) {
            Some(v) => Some(UserId { value: v }),
            None => None,
        }
    }

    /// The canonical hyphenated form, which reads back as the same identifier.
    pub fn to_text(&self) -> (r: String)
        ensures
            r@ == hyphenated(self.value),
            uuid_value_of(r@) == Some(self.value),
    {
        format_uuid(self.value)
    }
}

/// An absolute URL, held in its normalised serialization.
#[derive(Clone, Debug)]
pub struct ShardUrl {
    text: String,
}

impl View for ShardUrl {
    type V = Seq<char>;

    closed spec fn view(&self) -> Seq<char> {
        self.text@
    }
}

impl ShardUrl {
    /// Reads an absolute URL, or `None` where it is malformed.
    pub fn parse(s: &str) -> (r: Option<ShardUrl>)
        ensures
            match r {
                Some(u) => url_text_of(s@) == Some(u@),
                None => url_text_of(s@) is None,
            },
    {
        match parse_url(s) {
            Some(t) => Some(ShardUrl { text: t }),
            None => None,
        }
    }

    /// The serialization.
    pub fn as_str(&self) -> (r: &str)
        ensures
            r@ == self@,
    {
        self.text.as_str()
    }
}

/// An absolute instant in UTC: seconds since the Unix epoch and nanoseconds (which
/// pass one second only within a leap second).
#[derive(PartialEq, Eq, Structural, Clone, Copy, Debug)]
pub struct UtcInstant {
    pub secs: i64,
    pub nanos: u32,
}

impl UtcInstant {
    /// Reads a date, a time and an explicit offset, normalised to UTC.
    pub fn parse(s: &str) -> (r: Option<UtcInstant>)
        ensures
            match r {
                Some(t) => utc_instant_of(s@) == Some((t.secs, t.nanos)) && utc_text_of(
                    t.secs,
                    t.nanos,
                ) is Some,
                None => utc_instant_of(s@) is None,
            },
    {
        match parse_instant(s) {
            Some(p) => Some(UtcInstant { secs: p.0, nanos: p.1 }),
            None => None,
        }
    }

    /// The instant as an RFC 3339 text in UTC, or `None` where chrono cannot
    /// represent it.
    pub fn to_text(&self) -> (r: Option<String>)
        ensures
            match r {
                Some(t) => utc_text_of(self.secs, self.nanos) == Some(t@),
                None => utc_text_of(self.secs, self.nanos) is None,
            },
    {
        format_instant(self.secs, self.nanos)
    }
}

} // verus!

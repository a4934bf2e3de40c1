//! UTC date-times as the reporting service reads them from query parameters
//! and writes them into SQL conditions.
use vstd::prelude::*;

verus! {

/// chrono's text of the UTC date-time `secs` seconds and `nanos` nanoseconds
/// after the UNIX epoch (the `Display` of `DateTime<Utc>`, as in
/// `2022-10-11 12:00:00 UTC`), or `None` when chrono cannot represent it.
pub uninterp spec fn chrono_utc_display(secs: i64, nanos: u32) -> Option<Seq<char>>;

/// The UNIX timestamp (seconds, then nanoseconds of the second) of the
/// instant that chrono's `DateTime::parse_from_rfc3339` reads from `s`, or
/// `None` when `s` is not an RFC 3339 date-time.
pub uninterp spec fn chrono_rfc3339_utc(s: Seq<char>) -> Option<(i64, u32)>;

/// chrono's `DateTime::<Utc>::from_timestamp` followed by `to_string`: the
/// text of the date-time when chrono can represent it.
#[verifier::external_body]
fn utc_display(secs: i64, nanos: u32) -> (r: Option<String>)
    ensures
        r is Some <==> chrono_utc_display(secs, nanos) is Some,
        r matches Some(s) ==> chrono_utc_display(secs, nanos) == Some(s@),
{
    match chrono::DateTime::from_timestamp(secs, nanos) {
        Some(d) => Some(d.to_string()),
        None => None,
    }
}

/// chrono's `DateTime::parse_from_rfc3339`, with the instant it reads taken
/// as a UNIX timestamp; `None` when the text is not RFC 3339.
#[verifier::external_body]
fn rfc3339_timestamp(s: &str) -> (r: Option<(i64, u32)>)
    ensures
        r == chrono_rfc3339_utc(s@),
{
    match chrono::DateTime::parse_from_rfc3339(s) {
        Ok(d) => Some((d.timestamp(), d.timestamp_subsec_nanos())),
        Err(_) => None,
    }
}

/// An instant in UTC that chrono can represent, with its text.
#[derive(Debug)]
pub struct UtcDateTime {
    secs: i64,
    nanos: u32,
    text: String,
}

impl View for UtcDateTime {
    type V = (i64, u32);

    closed spec fn view(&self) -> (i64, u32) {
        (self.secs, self.nanos)
    }
}

impl UtcDateTime {
    #[verifier::type_invariant]
    spec fn displayable(self) -> bool {
        chrono_utc_display(self.secs, self.nanos) == Some(self.text@)
    }

    /// Seconds since the UNIX epoch.
    pub open spec fn secs(&self) -> i64 {
        self@.0
    }

    /// Nanoseconds of the second.
    pub open spec fn nanos(&self) -> u32 {
        self@.1
    }

    /// The text of the instant.
    pub open spec fn text(&self) -> Seq<char> {
        chrono_utc_display(self.secs(), self.nanos())->0
    }

    /// The instant `secs` seconds and `nanos` nanoseconds after the UNIX
    /// epoch, if chrono can represent it.
    pub fn from_timestamp(secs: i64, nanos: u32) -> (r: Option<Self>)
        ensures
            r is Some <==> chrono_utc_display(secs, nanos) is Some,
            r matches Some(d) ==> d.secs() == secs && d.nanos() == nanos,
    {
        match utc_display(secs, nanos) {
            Some(text) => Some(UtcDateTime { secs, nanos, text }),
            None => None,
        }
    }

    /// The instant that an RFC 3339 text such as `2022-12-12T10:00:00+07:00`
    /// names, in UTC; `None` when the text is not RFC 3339.
    pub fn parse_rfc3339(s: &str) -> (r: Option<Self>)
        ensures
            r is Some <==> (chrono_rfc3339_utc(s@) matches Some(t) && chrono_utc_display(t.0, t.1) is Some),
            r matches Some(d) ==> chrono_rfc3339_utc(s@) == Some((d.secs(), d.nanos())),
    {
        match rfc3339_timestamp(s) {
            Some((secs, nanos)) => UtcDateTime::from_timestamp(secs, nanos),
            None => None,
        }
    }

    /// Seconds since the UNIX epoch.
    pub fn timestamp(&self) -> (r: i64)
        ensures
            r == self.secs(),
    {
        self.secs
    }

    /// Nanoseconds of the second.
    pub fn timestamp_subsec_nanos(&self) -> (r: u32)
        ensures
            r == self.nanos(),
    {
        self.nanos
    }

    /// The same instant.
    pub fn duplicate(&self) -> (r: Self)
        ensures
            r@ == self@,
    {
        proof {
            use_type_invariant(self);
        }
        UtcDateTime { secs: self.secs, nanos: self.nanos, text: self.text.clone() }
    }

    /// The text of the instant, as `to_string` writes it.
    pub fn to_display(&self) -> (r: String)
        ensures
            r@ == self.text(),
    {
        proof {
            use_type_invariant(self);
        }
        self.text.clone()
    }
}

/// A query parameter that is not an RFC 3339 date-time.
#[derive(Debug, Clone, Copy, PartialEq, Eq, Structural)]
pub struct InvalidDateTime;

/// Reads an optional date-time query parameter: absent stays absent, present
/// must be RFC 3339 and is taken in UTC.
pub fn deserialize_optional_datetime(s: Option<&str>) -> (r: Result<
    Option<UtcDateTime>,
    InvalidDateTime,
>)
    ensures
        match s {
            None => r matches Ok(None),
            Some(t) => match UtcDateTime::parse_rfc3339_spec(t@) {
                Some((secs, nanos)) => r matches Ok(Some(d)) && d.secs() == secs && d.nanos()
                    == nanos,
                None => r is Err,
            },
        },
{
    match s {
        None => Ok(None),
        Some(t) => match UtcDateTime::parse_rfc3339(t) {
            Some(d) => Ok(Some(d)),
            None => Err(InvalidDateTime),
        },
    }
}

impl UtcDateTime {
    /// The timestamp that parsing `s` gives, when it gives one.
    pub open spec fn parse_rfc3339_spec(s: Seq<char>) -> Option<(i64, u32)> {
        match chrono_rfc3339_utc(s) {
            Some(t) => if chrono_utc_display(t.0, t.1) is Some {
                Some(t)
            } else {
                None
            },
            None => None,
        }
    }
}

} // verus!

//! UTC instants, kept as a Unix timestamp with sub-second nanoseconds; the
//! calendar arithmetic and formatting are chrono's.
use vstd::prelude::*;

verus! {

/// Whether chrono's `DateTime::<Utc>::from_timestamp(secs, nanos)` yields an
/// instant: the day lies between chrono's first date (1 January of year
/// -262143) and its last (31 December of year 262142), and the nanoseconds
/// are below two seconds, reaching one second only in a leap second, which
/// follows second 59 of a minute.
pub open spec fn utc_representable(secs: i64, nanos: u32) -> bool {
    &&& -8334601228800 <= secs <= 8210266876799
    &&& nanos < 2_000_000_000
    &&& (nanos < 1_000_000_000 || secs % 60 == 59)
}

/// The text of chrono's `DateTime::<Utc>::to_rfc3339` for the instant
/// `(secs, nanos)`.
pub uninterp spec fn rfc3339_text(secs: i64, nanos: u32) -> Seq<char>;

/// What chrono's `DateTime::parse_from_rfc3339` gives for a text, converted to
/// UTC and taken as `(secs, nanos)`, or the text of its parse error.
pub uninterp spec fn rfc3339_parse(text: Seq<char>) -> Result<(i64, u32), Seq<char>>;

/// The text of chrono's `DateTime::<Utc>::format(pattern)` for the instant
/// `(secs, nanos)`.
pub uninterp spec fn strftime_text(secs: i64, nanos: u32, pattern: Seq<char>) -> Seq<char>;

/// A parse outcome that is the instant `(secs, nanos)`.
pub open spec fn parses_to(r: Result<(i64, u32), Seq<char>>, secs: i64, nanos: u32) -> bool {
    r == Ok::<(i64, u32), Seq<char>>((secs, nanos))
}

/// A parse outcome that is the error text `m`.
pub open spec fn fails_with(r: Result<(i64, u32), Seq<char>>, m: Seq<char>) -> bool {
    r == Err::<(i64, u32), Seq<char>>(m)
}

/// Instants whose year lies in 0000..=9999: the years that RFC 3339 writes
/// with four digits.
pub open spec fn four_digit_year(secs: i64) -> bool {
    -62167219200 <= secs <= 253402300799
}

/// Calls `chrono::DateTime::<Utc>::from_timestamp` and reports whether it
/// yields an instant. The contract claims what chrono's source shows: the
/// day number `secs.div_euclid(86400) + 719163` must be a date between years
/// -262143 and 262142, and `NaiveTime::from_num_seconds_from_midnight_opt`
/// accepts nanoseconds below 2e9, from 1e9 on only at second 59.
#[verifier::external_body]
fn chrono_representable(secs: i64, nanos: u32) -> (ok: bool)
    ensures
        ok == utc_representable(secs, nanos),
{
    chrono::DateTime::from_timestamp(secs, nanos).is_some()
}

/// Calls `chrono::DateTime::<Utc>::to_rfc3339` on the instant. The contract
/// claims that the text is the one named `rfc3339_text` and that, for
/// four-digit years, `parse_from_rfc3339` gives the instant back: chrono
/// writes sub-seconds exactly, writes a leap second as second 60 and reads
/// second 60 back as the leap second of second 59, and reads four-digit
/// years.
#[verifier::external_body]
fn chrono_to_rfc3339(secs: i64, nanos: u32) -> (s: String)
    requires
        utc_representable(secs, nanos),
    ensures
        s@ == rfc3339_text(secs, nanos),
        four_digit_year(secs) ==> parses_to(rfc3339_parse(s@), secs, nanos),
{
    chrono::DateTime::from_timestamp(secs, nanos).unwrap().to_rfc3339()
}

/// Calls `chrono::DateTime::parse_from_rfc3339`, converts the result to UTC
/// and returns its timestamp and nanoseconds, or the parse error's text. The
/// contract claims that this is what `rfc3339_parse` names, and that a parsed
/// instant is representable (chrono's timestamps round-trip).
#[verifier::external_body]
fn chrono_parse_rfc3339(text: &str) -> (r: Result<(i64, u32), String>)
    ensures
        match r {
            Ok(t) => parses_to(rfc3339_parse(text@), t.0, t.1) && utc_representable(t.0, t.1),
            Err(m) => fails_with(rfc3339_parse(text@), m@),
        },
{
    match chrono::DateTime::parse_from_rfc3339(text) {
        Ok(dt) => {
            let utc = dt.with_timezone(&chrono::Utc);
            Ok((utc.timestamp(), utc.timestamp_subsec_nanos()))
        },
        Err(e) => Err(e.to_string()),
    }
}

/// Calls `chrono::DateTime::<Utc>::format` with one of the two patterns this
/// library uses and renders it; the contract claims that the text is what
/// `strftime_text` names. Both patterns hold only valid specifiers, so the
/// rendering does not fail.
#[verifier::external_body]
fn chrono_format(secs: i64, nanos: u32, pattern: &str) -> (s: String)
    requires
        utc_representable(secs, nanos),
        pattern@ == "%Y%m%d_%H%M%S"@ || pattern@ == "%Y-%m-%d %H:%M:%S UTC"@,
    ensures
        s@ == strftime_text(secs, nanos, pattern@),
{
    chrono::DateTime::from_timestamp(secs, nanos).unwrap().format(pattern).to_string()
}

/// A UTC instant: seconds since the Unix epoch and nanoseconds within the
/// second (more than a billion only during a leap second).
#[derive(Debug, Clone, Copy, PartialEq, Eq)]
pub struct Timestamp {
    secs: i64,
    nanos: u32,
}

impl Timestamp {
    #[verifier::type_invariant]
    spec fn in_range(self) -> bool {
        utc_representable(self.secs, self.nanos)
    }

    /// Seconds since the Unix epoch.
    pub closed spec fn seconds(self) -> i64 {
        self.secs
    }

    /// Nanoseconds within the second.
    pub closed spec fn nanoseconds(self) -> u32 {
        self.nanos
    }

    /// Two timestamps with the same seconds and nanoseconds are the same instant.
    pub proof fn lemma_same_instant(a: Timestamp, b: Timestamp)
        requires
            a.seconds() == b.seconds(),
            a.nanoseconds() == b.nanoseconds(),
        ensures
            a == b,
    {
    }

    /// The instant `(secs, nanos)`, if chrono can represent it.
    pub fn from_unix(secs: i64, nanos: u32) -> (r: Option<Timestamp>)
        ensures
            r is Some <==> utc_representable(secs, nanos),
            r matches Some(t) ==> t.seconds() == secs && t.nanoseconds() == nanos,
    {
        if chrono_representable(secs, nanos) {
            Some(Timestamp { secs, nanos })
        } else {
            None
        }
    }

    /// Seconds since the Unix epoch.
    pub fn unix_seconds(&self) -> (s: i64)
        ensures
            s == self.seconds(),
    {
        self.secs
    }

    /// Nanoseconds within the second.
    pub fn subsec_nanos(&self) -> (n: u32)
        ensures
            n == self.nanoseconds(),
    {
        self.nanos
    }

    /// The RFC 3339 text of the instant.
    pub fn to_rfc3339(&self) -> (s: String)
        ensures
            s@ == rfc3339_text(self.seconds(), self.nanoseconds()),
            four_digit_year(self.seconds()) ==> parses_to(
                rfc3339_parse(s@),
                self.seconds(),
                self.nanoseconds(),
            ),
    {
        proof {
            use_type_invariant(self);
        }
        chrono_to_rfc3339(self.secs, self.nanos)
    }

    /// The instant written `%Y%m%d_%H%M%S`, as plan file names use it.
    pub fn compact_text(&self) -> (s: String)
        ensures
            s@ == strftime_text(self.seconds(), self.nanoseconds(), "%Y%m%d_%H%M%S"@),
    {
        proof {
            use_type_invariant(self);
        }
        chrono_format(self.secs, self.nanos, "%Y%m%d_%H%M%S")
    }

    /// The instant written `%Y-%m-%d %H:%M:%S UTC`.
    pub fn display_text(&self) -> (s: String)
        ensures
            s@ == strftime_text(self.seconds(), self.nanoseconds(), "%Y-%m-%d %H:%M:%S UTC"@),
    {
        proof {
            use_type_invariant(self);
        }
        chrono_format(self.secs, self.nanos, "%Y-%m-%d %H:%M:%S UTC")
    }

    /// Parses an RFC 3339 text into the UTC instant it denotes, or gives the
    /// parser's error text.
    pub fn parse_rfc3339(text: &str) -> (r: Result<Timestamp, String>)
        ensures
            match r {
                Ok(t) => parses_to(rfc3339_parse(text@), t.seconds(), t.nanoseconds()),
                Err(m) => fails_with(rfc3339_parse(text@), m@),
            },
    {
        match chrono_parse_rfc3339(text) {
            Ok((secs, nanos)) => Ok(Timestamp { secs, nanos }),
            Err(m) => Err(m),
        }
    }
}

} // verus!

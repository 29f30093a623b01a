use vstd::prelude::*;

verus! {

/// What chrono reads from `s` as an RFC 3339 instant in UTC: its seconds
/// since the Unix epoch, or nothing where `s` is not such an instant.
pub uninterp spec fn rfc3339_seconds(s: Seq<char>) -> Option<int>;

/// Relies on chrono's `FromStr for DateTime<Utc>` and `DateTime::timestamp`:
/// it reads an RFC 3339 instant and gives its seconds since the epoch.
#[verifier::external_body]
fn parse_rfc3339(s: &str) -> (r: Result<i64, chrono::ParseError>)
    ensures
        r is Ok <==> rfc3339_seconds(s@) is Some,
        r matches Ok(t) ==> rfc3339_seconds(s@) == Some(t as int),
{
    s.parse::<chrono::DateTime<chrono::Utc>>().map(|t| t.timestamp())
}

/// The text `date` followed by the time of day `T00:00:00Z`.
pub open spec fn midnight_text(date: Seq<char>) -> Seq<char> {
    date + seq!['T', '0', '0', ':', '0', '0', ':', '0', '0', 'Z']
}

/// An instant, in whole seconds since the Unix epoch, UTC.
#[derive(Debug, Clone, Copy, PartialEq, Eq, Structural)]
pub struct Time {
    seconds: i64,
}

impl View for Time {
    type V = i64;

    closed spec fn view(&self) -> i64 {
        self.seconds
    }
}

impl Time {
    /// The instant `seconds` after the epoch.
    pub fn from_seconds(seconds: i64) -> (r: Time)
        ensures
            r@ == seconds,
    {
        Time { seconds }
    }

    /// Seconds since the epoch.
    pub fn timestamp(&self) -> (r: i64)
        ensures
            r == self@,
    {
        self.seconds
    }

    /// Midnight UTC at the start of `date`, a calendar date written
    /// `YYYY-MM-DD`.
    pub fn from_date(date: &str) -> (r: Result<Time, chrono::ParseError>)
        ensures
            r is Ok <==> rfc3339_seconds(midnight_text(date@)) is Some,
            r matches Ok(t) ==> rfc3339_seconds(midnight_text(date@)) == Some(t@ as int),
    {
        let mut text = date.to_owned();
        text.append("T00:00:00Z");
        proof {
            reveal_strlit("T00:00:00Z");
            assert(text@ =~= midnight_text(date@));
        }
        match parse_rfc3339(text.as_str()) {
            Ok(seconds) => Ok(Time { seconds }),
            Err(e) => Err(e),
        }
    }
}

impl std::str::FromStr for Time {
    type Err = chrono::ParseError;

    fn from_str(s: &str) -> Result<Time, chrono::ParseError> {
        Time::from_date(s)
    }
}

} // verus!

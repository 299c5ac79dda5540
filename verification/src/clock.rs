//! Points in time (UTC), as `chrono::DateTime<Utc>` holds them: whole seconds
//! since the Unix epoch and a nanosecond part.
use vstd::prelude::*;

verus! {

/// First second that `DateTime<Utc>` can hold (`NaiveDate::MIN`, as
/// `DateTime::<Utc>::from_timestamp` accepts it): -262143-01-01T00:00:00Z.
pub const MIN_SECS: i64 = -8334601228800i64;

/// Last second that `DateTime<Utc>` can hold: +262142-12-31T23:59:59Z.
pub const MAX_SECS: i64 = 8210266876799i64;

/// 0000-01-01T00:00:00Z, the first second that RFC 3339 can write.
pub const RFC3339_MIN_SECS: i64 = -62167219200i64;

/// 9999-12-31T23:59:59Z, the last second that RFC 3339 can write.
pub const RFC3339_MAX_SECS: i64 = 253402300799i64;

/// The (seconds, nanoseconds) pairs that `DateTime::<Utc>::from_timestamp` accepts:
/// seconds within range, and a nanosecond part below one second, or below two
/// seconds on the last second of a minute (a leap second).
pub open spec fn valid_time(secs: int, nanos: int) -> bool {
    &&& MIN_SECS <= secs <= MAX_SECS
    &&& 0 <= nanos < 2_000_000_000
    &&& (nanos >= 1_000_000_000 ==> secs % 60 == 59)
}

/// The text that `DateTime::<Utc>::to_rfc3339` writes for a point in time.
pub uninterp spec fn rfc3339_text(secs: int, nanos: int) -> Seq<char>;

/// What `DateTime::parse_from_rfc3339(..).with_timezone(&Utc)` reads from a text,
/// as (seconds, nanoseconds).
pub uninterp spec fn rfc3339_value(text: Seq<char>) -> Option<(int, int)>;

/// When `text` is what `to_rfc3339` writes for a time with a four-digit year,
/// `parsed` is that time.
pub open spec fn reads_back_written_time(text: Seq<char>, parsed: Option<Timestamp>) -> bool {
    forall|secs: int, nanos: int|
        #![trigger rfc3339_text(secs, nanos)]
        valid_time(secs, nanos) && RFC3339_MIN_SECS <= secs <= RFC3339_MAX_SECS && text
            == rfc3339_text(secs, nanos) ==> (parsed matches Some(t) && t@ == (secs, nanos))
}

/// A point in time that the database can store and read back: one that
/// `DateTime<Utc>` holds, in a year of four digits.
pub open spec fn storable_time(t: Timestamp) -> bool {
    valid_time(t@.0, t@.1) && RFC3339_MIN_SECS <= t@.0 <= RFC3339_MAX_SECS
}

/// A point in time, UTC.
#[derive(Clone, Copy, Debug, PartialEq, Eq)]
pub struct Timestamp {
    secs: i64,
    nanos: u32,
}

impl View for Timestamp {
    type V = (int, int);

    closed spec fn view(&self) -> (int, int) {
        (self.secs as int, self.nanos as int)
    }
}

/// `SystemTime::now()` measured from `UNIX_EPOCH` (`duration_since`): whole
/// seconds and the nanosecond part, or `None` when the clock reads before the
/// epoch. The clock may read anything; only that the nanosecond part of a
/// `Duration` is below one second is stated.
#[verifier::external_body]
fn clock_since_epoch() -> (r: Option<(u64, u32)>)
    ensures
        r matches Some((secs, nanos)) ==> nanos < 1_000_000_000,
{
    match std::time::SystemTime::now().duration_since(std::time::UNIX_EPOCH) {
        Ok(d) => Some((d.as_secs(), d.subsec_nanos())),
        Err(_) => None,
    }
}

impl Timestamp {
    #[verifier::type_invariant]
    spec fn inv(self) -> bool {
        valid_time(self.secs as int, self.nanos as int)
    }

    /// The point in time `secs` seconds and `nanos` nanoseconds after the epoch,
    /// where `DateTime<Utc>` can hold it.
    pub fn from_parts(secs: i64, nanos: u32) -> (r: Option<Timestamp>)
        ensures
            r is Some <==> valid_time(secs as int, nanos as int),
            r matches Some(t) ==> t@ == (secs as int, nanos as int),
    {
        let rem: i64 = secs % 60;
        let second_of_minute: i64 = if rem < 0 { rem + 60 } else { rem };
        assert(second_of_minute == secs % 60);
        if MIN_SECS <= secs && secs <= MAX_SECS && nanos < 2_000_000_000 && (nanos < 1_000_000_000
            || second_of_minute == 59) {
            Some(Timestamp { secs, nanos })
        } else {
            None
        }
    }

    /// Two points in time with the same seconds and nanoseconds are the same.
    pub proof fn lemma_same_time(a: Timestamp, b: Timestamp)
        requires
            a@ == b@,
        ensures
            a == b,
    {
    }

    /// Whole seconds since the Unix epoch.
    pub fn secs(&self) -> (r: i64)
        ensures
            r == self@.0,
            valid_time(self@.0, self@.1),
    {
        proof {
            use_type_invariant(self);
        }
        self.secs
    }

    /// The nanosecond part.
    pub fn nanos(&self) -> (r: u32)
        ensures
            r == self@.1,
            valid_time(self@.0, self@.1),
    {
        proof {
            use_type_invariant(self);
        }
        self.nanos
    }

    /// The point in time of a clock reading taken since the Unix epoch, `secs`
    /// seconds and `nanos` nanoseconds, where `DateTime<Utc>` can hold it.
    pub fn from_clock_reading(secs: u64, nanos: u32) -> (r: Option<Timestamp>)
        ensures
            r is Some <==> valid_time(secs as int, nanos as int),
            r matches Some(t) ==> t@ == (secs as int, nanos as int),
    {
        if secs <= MAX_SECS as u64 {
            Timestamp::from_parts(secs as i64, nanos)
        } else {
            None
        }
    }

    /// The current time: the system clock's reading taken as a point in time
    /// (`from_clock_reading`), when it reads at or after the Unix epoch; `None`
    /// otherwise. The clock may read anything, so nothing more is stated of the
    /// value.
    pub fn now() -> (r: Option<Timestamp>)
        ensures
            r matches Some(t) ==> t@.0 >= 0 && t@.1 < 1_000_000_000,
    {
        match clock_since_epoch() {
            Some((secs, nanos)) => Timestamp::from_clock_reading(secs, nanos),
            None => None,
        }
    }

    /// `dt - chrono::Duration::seconds(k)`: the same time of the second, `k` seconds
    /// earlier.
    #[verifier::external_body]
    pub(crate) fn minus_seconds(&self, k: i64) -> (r: Timestamp)
        requires
            0 <= k <= 1_000_000_000,
            self@.1 < 1_000_000_000,
            MIN_SECS <= self@.0 - k,
        ensures
            r@ == (self@.0 - k, self@.1),
    {
        let dt = chrono::DateTime::from_timestamp(self.secs, self.nanos).unwrap();
        let r = dt - chrono::Duration::seconds(k);
        Timestamp { secs: r.timestamp(), nanos: r.timestamp_subsec_nanos() }
    }

    /// `DateTime::<Utc>::to_rfc3339`.
    #[verifier::external_body]
    pub(crate) fn to_rfc3339(&self) -> (r: String)
        ensures
            r@ == rfc3339_text(self@.0, self@.1),
    {
        chrono::DateTime::from_timestamp(self.secs, self.nanos).unwrap().to_rfc3339()
    }

    /// `DateTime::parse_from_rfc3339(s)` taken to UTC. What it reads back from the
    /// text `to_rfc3339` wrote for a time with a four-digit year is that time.
    #[verifier::external_body]
    pub(crate) fn parse_rfc3339(s: &str) -> (r: Option<Timestamp>)
        ensures
            r matches Some(t) ==> rfc3339_value(s@) == Some(t@),
            r is None ==> rfc3339_value(s@) is None,
            reads_back_written_time(s@, r),
    {
        match chrono::DateTime::parse_from_rfc3339(s) {
            Ok(dt) => {
                let utc = dt.with_timezone(&chrono::Utc);
                Some(Timestamp { secs: utc.timestamp(), nanos: utc.timestamp_subsec_nanos() })
            },
            Err(_) => None,
        }
    }
}

} // verus!

//! Points in time, to the nanosecond, as the session records carry them.
//!
//! A `Timestamp` holds what `chrono` calls the UNIX timestamp of a UTC date
//! and time together with the nanoseconds since the last whole second, and
//! only such pairs as `chrono` has a date and time for. `chrono` reads the
//! clock and turns a timestamp into text and back.

use vstd::prelude::*;

verus! {

/// The pattern in which a timestamp is written to the session file and read
/// back: date, a blank, time of day, and the fraction of the second with as
/// many digits (none, 3, 6 or 9) as it needs.
pub const STAMP_FORMAT: &'static str = "%Y-%m-%d %H:%M:%S%.f";

/// Whether `chrono::DateTime::from_timestamp` has a date and time for this
/// number of seconds and nanoseconds.
pub uninterp spec fn datetime_exists(secs: i64, nanos: u32) -> bool;

/// What formatting that date and time by a `strftime` pattern prints.
pub uninterp spec fn stamp_text(secs: i64, nanos: u32, format: Seq<char>) -> Seq<char>;

/// What `chrono::NaiveDateTime::parse_from_str` makes of a text under a
/// pattern: the seconds and nanoseconds of the date and time it reads, or
/// the words of its complaint.
pub uninterp spec fn stamp_parsed(text: Seq<char>, format: Seq<char>) -> Result<
    (i64, u32),
    Seq<char>,
>;

/// What `Display` of `chrono::NaiveDateTime` prints for that date and time.
pub uninterp spec fn stamp_shown(secs: i64, nanos: u32) -> Seq<char>;

/// `chrono::DateTime::from_timestamp`, asked only whether it answers.
#[verifier::external_body]
fn chrono_has_datetime(secs: i64, nanos: u32) -> (known: bool)
    ensures
        known == datetime_exists(secs, nanos),
{
    chrono::DateTime::from_timestamp(secs, nanos).is_some()
}

/// `chrono::Utc::now`, taken apart by `timestamp` and
/// `timestamp_subsec_nanos`. It builds its result with `from_timestamp`
/// from the system clock's whole seconds since 1970 and the nanoseconds
/// below one second, so the pair is one that `from_timestamp` answers for.
/// Two readings need not be in order: the system clock can be set back.
#[verifier::external_body]
fn chrono_now() -> (r: (i64, u32))
    ensures
        datetime_exists(r.0, r.1),
        r.0 >= 0,
        r.1 < 1_000_000_000,
{
    let now = chrono::Utc::now();
    (now.timestamp(), now.timestamp_subsec_nanos())
}

/// `chrono::NaiveDateTime::format` followed by `to_string`, on the date and
/// time that `from_timestamp` gives. Formatting panics on a pattern that
/// `chrono` does not understand, so only the session file's pattern is let in.
#[verifier::external_body]
fn chrono_format(secs: i64, nanos: u32, format: &str) -> (text: String)
    requires
        datetime_exists(secs, nanos),
        format@ == STAMP_FORMAT@,
    ensures
        text@ == stamp_text(secs, nanos, format@),
{
    chrono::DateTime::from_timestamp(secs, nanos).unwrap().naive_utc().format(format).to_string()
}

/// `chrono::NaiveDateTime::parse_from_str`, with the date and time taken
/// apart by `timestamp` and `timestamp_subsec_nanos` (which `from_timestamp`
/// is documented to undo) and the error as the text that its `Display`
/// prints. The outcome depends on the two texts alone.
#[verifier::external_body]
fn chrono_parse(text: &str, format: &str) -> (r: Result<(i64, u32), String>)
    ensures
        match r {
            Ok(at) => stamp_parsed(text@, format@) == Ok::<(i64, u32), Seq<char>>(at)
                && datetime_exists(at.0, at.1),
            Err(why) => stamp_parsed(text@, format@) == Err::<(i64, u32), Seq<char>>(why@),
        },
{
    match chrono::NaiveDateTime::parse_from_str(text, format) {
        Ok(at) => Ok((at.and_utc().timestamp(), at.and_utc().timestamp_subsec_nanos())),
        Err(why) => Err(why.to_string()),
    }
}

/// `Display` of `chrono::NaiveDateTime`, on the date and time that
/// `from_timestamp` gives.
#[verifier::external_body]
fn chrono_display(secs: i64, nanos: u32) -> (text: String)
    requires
        datetime_exists(secs, nanos),
    ensures
        text@ == stamp_shown(secs, nanos),
{
    chrono::DateTime::from_timestamp(secs, nanos).unwrap().naive_utc().to_string()
}

/// A point in time. The derived order is the order in time: by seconds,
/// then by nanoseconds.
#[derive(Clone, Copy, Debug, PartialEq, Eq, Structural, PartialOrd, Ord, Hash)]
pub struct Timestamp {
    secs: i64,
    nanos: u32,
}

impl Timestamp {
    #[verifier::type_invariant]
    spec fn has_datetime(self) -> bool {
        datetime_exists(self.secs, self.nanos)
    }

    /// Whole seconds since 1970-01-01 00:00:00 UTC.
    pub closed spec fn epoch_secs(self) -> i64 {
        self.secs
    }

    /// Nanoseconds since the last whole second; a thousand million or more
    /// inside a leap second.
    pub closed spec fn subsec_nanos(self) -> u32 {
        self.nanos
    }

    /// Whether `self` is no later than `other`.
    pub open spec fn not_after(self, other: Timestamp) -> bool {
        self.epoch_secs() < other.epoch_secs() || (self.epoch_secs() == other.epoch_secs()
            && self.subsec_nanos() <= other.subsec_nanos())
    }

    /// The later of two points in time.
    pub open spec fn later_of(self, other: Timestamp) -> Timestamp {
        if self.not_after(other) {
            other
        } else {
            self
        }
    }

    /// The text of `self` in the session file.
    pub open spec fn text(self) -> Seq<char> {
        stamp_text(self.epoch_secs(), self.subsec_nanos(), STAMP_FORMAT@)
    }

    /// The text of `self` as it is shown to the user.
    pub open spec fn shown(self) -> Seq<char> {
        stamp_shown(self.epoch_secs(), self.subsec_nanos())
    }

    /// The point in time with these seconds and nanoseconds.
    pub closed spec fn of_parts(secs: i64, nanos: u32) -> Timestamp {
        Timestamp { secs, nanos }
    }

    /// What reading `text` in the session file's pattern gives: a point in
    /// time, or the words of `chrono`'s complaint.
    pub open spec fn read(text: Seq<char>) -> Result<Timestamp, Seq<char>> {
        match stamp_parsed(text, STAMP_FORMAT@) {
            Ok(parts) => Ok(Timestamp::of_parts(parts.0, parts.1)),
            Err(why) => Err(why),
        }
    }

    /// The timestamp of these seconds and nanoseconds, where `chrono` has a
    /// date and time for them.
    pub fn new(secs: i64, nanos: u32) -> (r: Option<Timestamp>)
        ensures
            r is Some <==> datetime_exists(secs, nanos),
            r matches Some(at) ==> at == Timestamp::of_parts(secs, nanos) && at.epoch_secs() == secs
                && at.subsec_nanos() == nanos,
    {
        if chrono_has_datetime(secs, nanos) {
            Some(Timestamp { secs, nanos })
        } else {
            None
        }
    }

    /// What the system clock says now.
    pub fn now() -> (at: Timestamp)
        ensures
            at.subsec_nanos() < 1_000_000_000,
    {
        let (secs, nanos) = chrono_now();
        Timestamp { secs, nanos }
    }

    /// Whole seconds since 1970-01-01 00:00:00 UTC.
    pub fn secs(&self) -> (secs: i64)
        ensures
            secs == self.epoch_secs(),
    {
        self.secs
    }

    /// Nanoseconds since the last whole second.
    pub fn nanos(&self) -> (nanos: u32)
        ensures
            nanos == self.subsec_nanos(),
    {
        self.nanos
    }

    /// Says whether `self` is no later than `other`.
    pub fn is_not_after(&self, other: &Timestamp) -> (r: bool)
        ensures
            r == self.not_after(*other),
    {
        self.secs < other.secs || (self.secs == other.secs && self.nanos <= other.nanos)
    }

    /// Writes `self` in the session file's pattern.
    pub fn to_text(&self) -> (text: String)
        ensures
            text@ == self.text(),
    {
        proof {
            use_type_invariant(self);
        }
        chrono_format(self.secs, self.nanos, STAMP_FORMAT)
    }

    /// Writes `self` as it is shown to the user.
    pub fn to_shown(&self) -> (text: String)
        ensures
            text@ == self.shown(),
    {
        proof {
            use_type_invariant(self);
        }
        chrono_display(self.secs, self.nanos)
    }

    /// Reads a timestamp written in the session file's pattern, or says why
    /// the text is none.
    pub fn parse(text: &str) -> (r: Result<Timestamp, String>)
        ensures
            match r {
                Ok(at) => Timestamp::read(text@) == Ok::<Timestamp, Seq<char>>(at),
                Err(why) => Timestamp::read(text@) == Err::<Timestamp, Seq<char>>(why@),
            },
    {
        match chrono_parse(text, STAMP_FORMAT) {
            Ok((secs, nanos)) => Ok(Timestamp { secs, nanos }),
            Err(why) => Err(why),
        }
    }
}

/// A point in time is its seconds and nanoseconds, and nothing more.
pub proof fn lemma_timestamp_parts(secs: i64, nanos: u32, at: Timestamp)
    ensures
        Timestamp::of_parts(secs, nanos).epoch_secs() == secs,
        Timestamp::of_parts(secs, nanos).subsec_nanos() == nanos,
        at == Timestamp::of_parts(at.epoch_secs(), at.subsec_nanos()),
{
}

} // verus!

//! Instants of UTC time, as `chrono` represents them.

use vstd::prelude::*;

verus! {

/// The first second that `chrono` can represent.
pub const MIN_SECONDS: i64 = -8334601228800;

/// The last second that `chrono` can represent.
pub const MAX_SECONDS: i64 = 8210266876799;

/// An instant of UTC time: whole seconds since 1970 and the nanoseconds that
/// follow. As in `chrono`, the nanoseconds of the last second of a minute may
/// run on past one second, to stand for a leap second.
#[derive(Clone, Copy, Debug, PartialEq, Eq, Structural)]
pub struct Timestamp {
    seconds: i64,
    nanoseconds: u32,
}

/// The pairs of seconds and nanoseconds that name an instant.
pub open spec fn is_instant(seconds: int, nanoseconds: int) -> bool {
    &&& MIN_SECONDS <= seconds <= MAX_SECONDS
    &&& 0 <= nanoseconds
    &&& nanoseconds < 1_000_000_000 || (nanoseconds < 2_000_000_000 && seconds % 60 == 59)
}

/// The numbers of milliseconds since 1970 that name an instant.
pub open spec fn is_millis(millis: int) -> bool {
    MIN_SECONDS <= millis / 1000 <= MAX_SECONDS
}

/// The RFC 3339 text that `chrono` gives an instant.
pub uninterp spec fn rfc3339_text(seconds: int, nanoseconds: int) -> Seq<char>;

/// The instant, as seconds and nanoseconds, that `chrono` reads from a text.
pub uninterp spec fn instant_of_text(text: Seq<char>) -> Option<(int, int)>;

impl Timestamp {
    #[verifier::type_invariant]
    spec fn representable(self) -> bool {
        is_instant(self.seconds as int, self.nanoseconds as int)
    }

    /// Whole seconds since 1970.
    pub closed spec fn seconds(self) -> int {
        self.seconds as int
    }

    /// Nanoseconds after the whole second.
    pub closed spec fn nanoseconds(self) -> int {
        self.nanoseconds as int
    }

    /// Whole milliseconds since 1970.
    pub open spec fn millis(self) -> int {
        self.seconds() * 1000 + self.nanoseconds() / 1_000_000
    }

    /// This instant comes strictly before the other.
    pub open spec fn before(self, other: Timestamp) -> bool {
        self.seconds() < other.seconds() || (self.seconds() == other.seconds()
            && self.nanoseconds() < other.nanoseconds())
    }

    /// This is the instant of the given number of milliseconds since 1970.
    pub open spec fn is_at(self, millis: int) -> bool {
        self.seconds() == millis / 1000 && self.nanoseconds() == (millis % 1000) * 1_000_000
    }

    /// This instant comes strictly before the given number of milliseconds
    /// since 1970.
    pub open spec fn before_millis(self, millis: int) -> bool {
        self.seconds() < millis / 1000 || (self.seconds() == millis / 1000 && self.nanoseconds() < (
        millis % 1000) * 1_000_000)
    }

    /// The text by which the instant is stored.
    pub open spec fn text(self) -> Seq<char> {
        rfc3339_text(self.seconds(), self.nanoseconds())
    }

    /// The instant of the given seconds and nanoseconds, if there is one.
    pub fn new(seconds: i64, nanoseconds: u32) -> (instant: Option<Timestamp>)
        ensures
            instant is Some <==> is_instant(seconds as int, nanoseconds as int),
            instant matches Some(t) ==> t.seconds() == seconds && t.nanoseconds() == nanoseconds,
    {
        if seconds < MIN_SECONDS || seconds > MAX_SECONDS {
            return None;
        }
        if nanoseconds >= 1_000_000_000 && (nanoseconds >= 2_000_000_000 || !ends_minute(seconds)) {
            return None;
        }
        Some(Timestamp { seconds, nanoseconds })
    }

    /// Whole milliseconds since 1970.
    pub fn timestamp_millis(&self) -> (millis: i64)
        ensures
            millis == self.millis(),
    {
        proof {
            use_type_invariant(self);
        }
        self.seconds * 1000 + (self.nanoseconds / 1_000_000) as i64
    }

    /// The instant of a number of milliseconds since 1970. `None` outside the
    /// range of representable instants.
    pub fn from_timestamp_millis(millis: i64) -> (instant: Option<Timestamp>)
        ensures
            instant is Some <==> is_millis(millis as int),
            instant matches Some(t) ==> t.is_at(millis as int) && t.millis() == millis,
    {
        chrono_from_millis(millis)
    }

    /// The RFC 3339 text of the instant.
    pub fn to_rfc3339(&self) -> (text: String)
        ensures
            text@ == self.text(),
            instant_of_text(text@) == Some((self.seconds(), self.nanoseconds())),
    {
        proof {
            use_type_invariant(self);
        }
        chrono_rfc3339(self.seconds, self.nanoseconds)
    }

    /// The instant that an RFC 3339 text names.
    pub fn parse(text: &str) -> (instant: Option<Timestamp>)
        ensures
            instant is Some <==> instant_of_text(text@) is Some,
            instant matches Some(t) ==> instant_of_text(text@) == Some((t.seconds(), t.nanoseconds())),
    {
        chrono_parse(text)
    }

    /// The current time: an instant that can be stored and read back, and no
    /// leap second. Which instant it is, the clock decides.
    pub(crate) fn now() -> (instant: Timestamp)
        ensures
            is_instant(instant.seconds(), instant.nanoseconds()),
            instant.nanoseconds() < 1_000_000_000,
    {
        chrono_now()
    }

    /// Whether this instant comes strictly before the other.
    pub fn is_before(&self, other: &Timestamp) -> (earlier: bool)
        ensures
            earlier == self.before(*other),
    {
        self.seconds < other.seconds || (self.seconds == other.seconds && self.nanoseconds
            < other.nanoseconds)
    }
}

/// Seconds and nanoseconds determine the instant.
pub proof fn lemma_same_instant(left: Timestamp, right: Timestamp)
    requires
        left.seconds() == right.seconds(),
        left.nanoseconds() == right.nanoseconds(),
    ensures
        left == right,
{
}

fn ends_minute(seconds: i64) -> (ends: bool)
    requires
        MIN_SECONDS <= seconds <= MAX_SECONDS,
    ensures
        ends == (seconds % 60 == 59),
{
    // The offset is a whole number of minutes and makes the sum nonnegative.
    (seconds + 8334601228800) % 60 == 59
}

/// `chrono::DateTime::from_timestamp_millis`: an instant for every number of
/// milliseconds whose whole seconds are representable: those seconds, and the
/// rest of the milliseconds as nanoseconds.
#[verifier::external_body]
fn chrono_from_millis(millis: i64) -> (instant: Option<Timestamp>)
    ensures
        instant is Some <==> is_millis(millis as int),
        instant matches Some(t) ==> t.is_at(millis as int),
{
    let instant = chrono::DateTime::from_timestamp_millis(millis)?;
    Some(Timestamp { seconds: instant.timestamp(), nanoseconds: instant.timestamp_subsec_nanos() })
}

/// `chrono::DateTime::to_rfc3339`: the text is a function of the instant, and
/// reading it gives the instant back.
#[verifier::external_body]
fn chrono_rfc3339(seconds: i64, nanoseconds: u32) -> (text: String)
    requires
        is_instant(seconds as int, nanoseconds as int),
    ensures
        text@ == rfc3339_text(seconds as int, nanoseconds as int),
        instant_of_text(text@) == Some((seconds as int, nanoseconds as int)),
{
    chrono::DateTime::from_timestamp(seconds, nanoseconds).unwrap().to_rfc3339()
}

/// `str::parse::<chrono::DateTime<chrono::Utc>>`: whether the text is read, and
/// as which instant, depends on the text alone.
#[verifier::external_body]
fn chrono_parse(text: &str) -> (instant: Option<Timestamp>)
    ensures
        instant is Some <==> instant_of_text(text@) is Some,
        instant matches Some(t) ==> instant_of_text(text@) == Some((t.seconds(), t.nanoseconds())),
{
    let instant = text.parse::<chrono::DateTime<chrono::Utc>>().ok()?;
    Some(Timestamp { seconds: instant.timestamp(), nanoseconds: instant.timestamp_subsec_nanos() })
}

/// `chrono::Utc::now`: an instant that `chrono` can represent, whose nanoseconds
/// stay below one second. Nothing is said of which instant it is.
#[verifier::external_body]
fn chrono_now() -> (instant: Timestamp)
    ensures
        is_instant(instant.seconds(), instant.nanoseconds()),
        instant.nanoseconds() < 1_000_000_000,
{
    let instant = chrono::Utc::now();
    Timestamp { seconds: instant.timestamp(), nanoseconds: instant.timestamp_subsec_nanos() }
}

} // verus!

use vstd::prelude::*;
use chrono::Timelike;
use crate::event::{Event, EventTarget};

pub mod driver;

verus! {

/// What the clock read: the second of the minute, the nanoseconds within
/// that second, and the reading as text.
pub struct ClockReading {
    pub nanosecond: u32,
    pub second: u32,
    pub text: String,
}

/// Whether a clock text names UTC: it ends in " UTC".
pub open spec fn names_utc(text: Seq<char>) -> bool {
    text.len() >= 4 && text.subrange(text.len() - 4, text.len() as int) == " UTC"@
}

/// Reads the system clock with `SystemTime::now().duration_since(UNIX_EPOCH)`,
/// as whole seconds and the nanoseconds within the second; nothing when the
/// clock reads before 1970.  std documents the sub-second nanoseconds of a
/// `Duration` as less than one billion.  Which time it reads is not stated.
#[verifier::external_body]
fn system_clock() -> (r: Option<(u64, u32)>)
    ensures
        r matches Some((_, nanos)) ==> nanos < 1_000_000_000,
{
    match std::time::SystemTime::now().duration_since(std::time::UNIX_EPOCH) {
        Ok(d) => Some((d.as_secs(), d.subsec_nanos())),
        Err(_) => None,
    }
}

/// What chrono shows for the UTC time `secs` seconds and `nanos`
/// nanoseconds after the Unix epoch (`DateTime::from_timestamp` followed by
/// `to_string`); nothing where chrono's calendar cannot hold that time.
pub uninterp spec fn utc_text(secs: i64, nanos: u32) -> Option<Seq<char>>;

/// The UTC time `secs` seconds and `nanos` nanoseconds after the Unix
/// epoch, with `chrono::DateTime::from_timestamp`, taking its
/// `nanosecond()`, `second()` and `to_string()`; nothing where chrono's
/// calendar cannot hold it.  The result depends on the two arguments
/// alone; its text is named `utc_text` (chrono's calendar and its date
/// format are not restated here).  chrono's source builds the time of day
/// from `secs` modulo 86400 and keeps `nanos` as its fraction, so the
/// second is `secs` modulo 60 and the nanoseconds are `nanos`; it shows a
/// `DateTime` as its date and time, a space and its offset, and `Utc` as
/// "UTC".
#[verifier::external_body]
fn utc_reading(secs: i64, nanos: u32) -> (r: Option<ClockReading>)
    ensures
        r is Some <==> utc_text(secs, nanos) is Some,
        r matches Some(c) ==> {
            &&& c.nanosecond == nanos
            &&& c.second == secs % 60
            &&& utc_text(secs, nanos) == Some(c.text@)
            &&& names_utc(c.text@)
        },
{
    match chrono::DateTime::from_timestamp(secs, nanos) {
        Some(t) => Some(ClockReading { nanosecond: t.nanosecond(), second: t.second(), text: t.to_string() }),
        None => None,
    }
}

/// Whether `c` is the UTC reading of the instant `secs` seconds and
/// `nanos` nanoseconds after the Unix epoch.
pub open spec fn is_reading_at(c: ClockReading, secs: u64, nanos: u32) -> bool {
    &&& secs <= i64::MAX
    &&& c.second == secs % 60
    &&& c.nanosecond == nanos
    &&& utc_text(secs as i64, nanos) == Some(c.text@)
    &&& names_utc(c.text@)
}

/// The UTC reading of the instant `secs` seconds and `nanos` nanoseconds
/// after the Unix epoch: its second of the minute, its nanoseconds and its
/// text; nothing beyond the range of `i64` seconds or of chrono's calendar.
pub fn reading_at(secs: u64, nanos: u32) -> (r: Option<ClockReading>)
    ensures
        secs > i64::MAX ==> r is None,
        secs <= i64::MAX ==> (r is Some <==> utc_text(secs as i64, nanos) is Some),
        r matches Some(c) ==> is_reading_at(c, secs, nanos),
{
    if secs <= i64::MAX as u64 {
        utc_reading(secs as i64, nanos)
    } else {
        None
    }
}

/// Reads the clock as UTC: the reading of the instant that the system
/// clock shows, never a leap-second one; nothing when the system clock
/// reads before 1970 or beyond chrono's calendar.
pub fn read_clock() -> (r: Option<ClockReading>)
    ensures
        r matches Some(c) ==> exists|secs: u64, nanos: u32|
            nanos < 1_000_000_000 && #[trigger] is_reading_at(c, secs, nanos),
{
    match system_clock() {
        Some((secs, nanos)) => reading_at(secs, nanos),
        None => None,
    }
}

/// Nanoseconds from a reading at `second`:`nanosecond` within a minute to
/// the start of the next minute.
pub open spec fn minute_delay(nanosecond: int, second: int) -> int {
    (1_000_000_000 - nanosecond) + 1_000_000_000 * (59 - second)
}

/// Waiting the delay from a reading lands exactly on the start of the
/// next minute.
pub proof fn law_delay_lands_on_the_minute(nanosecond: int, second: int)
    requires
        0 <= nanosecond <= 1_000_000_000,
        0 <= second <= 59,
    ensures
        second * 1_000_000_000 + nanosecond + minute_delay(nanosecond, second) == 60_000_000_000,
        minute_delay(nanosecond, second) >= 0,
{
}

/// Nanoseconds to wait, from a clock reading, until the next minute starts.
pub fn delay_to_next_minute(nanosecond: u32, second: u32) -> (d: u64)
    requires
        nanosecond <= 1_000_000_000,
        second <= 59,
    ensures
        d == minute_delay(nanosecond as int, second as int),
{
    (1_000_000_000 - nanosecond) as u64 + 1_000_000_000 * (59 - second as u64)
}

/// The event a clock device named `source` publishes at `time_text`.
pub fn time_event(source: String, time_text: String) -> (ev: Event)
    ensures
        ev.name@ == "current_time"@,
        ev.source@ == source@,
        ev.target == EventTarget::Everyone,
        ev.data@ == Map::<Seq<char>, Seq<char>>::empty().insert("time"@, time_text@),
{
    let mut ev = Event::new(String::from_str("current_time"), source);
    ev.data.insert(String::from_str("time"), time_text);
    ev
}

/// A device that publishes the current time at the start of every minute.
#[derive(Debug, Clone, PartialEq)]
pub struct TimeDevice {
    name: String,
}

impl View for TimeDevice {
    type V = Seq<char>;

    /// The device's name.
    closed spec fn view(&self) -> Seq<char> {
        self.name@
    }
}

impl TimeDevice {
    /// A clock device with an empty name.
    pub fn new() -> (d: Self)
        ensures
            d@ == Seq::<char>::empty(),
    {
        TimeDevice { name: String::new() }
    }

    /// The device's name.
    pub fn name(&self) -> (r: String)
        ensures
            r@ == self@,
    {
        self.name.clone()
    }

    /// Renames the device.
    pub fn set_name(&mut self, name: String)
        ensures
            final(self)@ == name@,
    {
        self.name = name;
    }

    /// Nanoseconds to wait until the next minute starts, after reading the
    /// clock: more than none, at most a minute; nothing when the clock
    /// cannot be read.
    pub fn next_delay(&self) -> (r: Option<u64>)
        ensures
            r matches Some(d) ==> {
                &&& exists|secs: u64, nanos: u32|
                    nanos < 1_000_000_000 && secs <= i64::MAX && #[trigger] utc_text(secs as i64, nanos) is Some
                        && d == minute_delay(nanos as int, (secs % 60) as int)
                &&& 0 < d <= 60_000_000_000
            },
    {
        match read_clock() {
            Some(reading) => {
                let ghost (secs, nanos) = choose|secs: u64, nanos: u32|
                    nanos < 1_000_000_000 && #[trigger] is_reading_at(reading, secs, nanos);
                let d = delay_to_next_minute(reading.nanosecond, reading.second);
                assert(utc_text(secs as i64, nanos) is Some);
                Some(d)
            },
            None => None,
        }
    }

    /// The `current_time` event that the device publishes, carrying the
    /// clock's reading as text under `time`; nothing when the clock cannot
    /// be read.
    pub fn tick_event(&self) -> (r: Option<Event>)
        ensures
            r matches Some(ev) ==> {
                &&& ev.name@ == "current_time"@
                &&& ev.source@ == self@
                &&& ev.target == EventTarget::Everyone
                &&& ev.data@.dom() == Set::<Seq<char>>::empty().insert("time"@)
                &&& exists|secs: u64, nanos: u32|
                    nanos < 1_000_000_000 && secs <= i64::MAX && #[trigger] utc_text(secs as i64, nanos)
                        == Some(ev.data@["time"@])
                &&& names_utc(ev.data@["time"@])
            },
    {
        match read_clock() {
            Some(reading) => {
                let ghost (secs, nanos) = choose|secs: u64, nanos: u32|
                    nanos < 1_000_000_000 && #[trigger] is_reading_at(reading, secs, nanos);
                let ev = time_event(self.name(), reading.text);
                assert(ev.data@.dom() =~= Set::<Seq<char>>::empty().insert("time"@));
                Some(ev)
            },
            None => None,
        }
    }
}

} // verus!

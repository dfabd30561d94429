use vstd::prelude::*;

verus! {

/// The earliest second an instant can name: the start of 1 January of year -262143.
pub const MIN_INSTANT_SECS: i64 = -8_334_601_228_800i64;

/// The latest second an instant can name: the last second of 31 December of year 262142.
pub const MAX_INSTANT_SECS: i64 = 8_210_266_876_799i64;

/// Whether `secs` seconds and `nanos` nanoseconds after the Unix epoch name an instant
/// of the proleptic Gregorian calendar: the second lies between [`MIN_INSTANT_SECS`] and
/// [`MAX_INSTANT_SECS`], the nanoseconds are below two seconds, and a count of one
/// second or more (a leap second) falls only on the last second of a minute.
pub open spec fn is_valid_instant(secs: int, nanos: int) -> bool {
    &&& MIN_INSTANT_SECS <= secs <= MAX_INSTANT_SECS
    &&& 0 <= nanos < 2_000_000_000
    &&& nanos >= 1_000_000_000 ==> secs % 60 == 59
}

/// An instant in UTC, held as whole seconds since the Unix epoch and the nanoseconds
/// past that second (the upper half of the range marking a leap second).
///
/// This is the value a timestamp column or parameter carries through the library; the
/// conversion to and from calendar types happens at the edge of the program, and
/// succeeds exactly for the values that satisfy [`UtcDateTime::valid`].
#[derive(Clone, Copy, Debug, PartialEq, Eq, Structural)]
pub struct UtcDateTime {
    pub secs: i64,
    pub nanos: u32,
}

proof fn lemma_second_of_minute(secs: int)
    ensures
        (secs - MIN_INSTANT_SECS) % 60 == secs % 60,
{
    vstd::arithmetic::div_mod::lemma_mod_multiples_vanish(138_910_020_480, secs, 60);
    assert(secs - MIN_INSTANT_SECS == 60 * 138_910_020_480 + secs);
}

impl UtcDateTime {
    /// Whether this value names an instant of the calendar.
    pub open spec fn valid(self) -> bool {
        is_valid_instant(self.secs as int, self.nanos as int)
    }

    /// The instant `secs` seconds and `nanos` nanoseconds after the epoch.
    pub fn new(secs: i64, nanos: u32) -> (d: UtcDateTime)
        requires
            is_valid_instant(secs as int, nanos as int),
        ensures
            d.secs == secs,
            d.nanos == nanos,
            d.valid(),
    {
        UtcDateTime { secs, nanos }
    }

    /// The instant `secs` seconds and `nanos` nanoseconds after the epoch, or `None`
    /// when these do not name an instant of the calendar.
    pub fn try_new(secs: i64, nanos: u32) -> (d: Option<UtcDateTime>)
        ensures
            d is Some <==> is_valid_instant(secs as int, nanos as int),
            d matches Some(v) ==> v.secs == secs && v.nanos == nanos,
    {
        if secs < MIN_INSTANT_SECS || secs > MAX_INSTANT_SECS || nanos >= 2_000_000_000 {
            return None;
        }
        if nanos >= 1_000_000_000 {
            // `MIN_INSTANT_SECS` is a whole number of minutes, so counting from it
            // keeps the second within the minute and avoids a negative remainder.
            let since_min = (secs - MIN_INSTANT_SECS) as u64;
            proof {
                lemma_second_of_minute(secs as int);
            }
            if since_min % 60 != 59 {
                return None;
            }
        }
        Some(UtcDateTime { secs, nanos })
    }
}

} // verus!

use vstd::prelude::*;

use crate::decimal::{decimal, push_decimal};
use crate::shift::{abbreviation_of, shift_of, Shift, ALPHA_FLIGHT, DAWN_GUARD, NIGHT_WATCH};

verus! {

/// A time on the bus clock: an hour of the day, a minute and a second.
///
/// Sub-second precision is not represented.
#[derive(Debug, Clone, Copy, PartialEq, Eq, Structural)]
pub struct BusTime {
    hour: u32,
    minute: u8,
    second: u8,
}

/// How a time reads: the shift's code, then the hours into the shift, the
/// minute and the second, as in "NW + 3:0:0". No number is zero-padded.
pub open spec fn time_text(hour: nat, minute: nat, second: nat) -> Seq<char> {
    abbreviation_of(shift_of(hour)) + " + "@ + decimal(hour % 6) + ":"@ + decimal(minute) + ":"@
        + decimal(second)
}

impl BusTime {
    #[verifier::type_invariant]
    spec fn valid(self) -> bool {
        self.hour < 24 && self.minute < 60 && self.second < 60
    }

    /// The hour of the day, in `[0, 24)`.
    pub closed spec fn spec_hour(self) -> nat {
        self.hour as nat
    }

    /// The minute, in `[0, 60)`.
    pub closed spec fn spec_minute(self) -> nat {
        self.minute as nat
    }

    /// The second, in `[0, 60)`.
    pub closed spec fn spec_second(self) -> nat {
        self.second as nat
    }

    /// Builds a time from an hour count, a minute and a second.
    ///
    /// The hours are taken modulo 24, so that a count of elapsed hours can be
    /// given directly. A minute or a second of 60 or more is taken for a
    /// mistake and gives `None`.
    pub fn from_hms(hours: u32, minutes: u8, seconds: u8) -> (r: Option<BusTime>)
        ensures
            r is Some <==> minutes < 60 && seconds < 60,
            r matches Some(t) ==> t.spec_hour() == hours % 24 && t.spec_minute() == minutes
                && t.spec_second() == seconds,
    {
        if minutes >= 60 || seconds >= 60 {
            None
        } else {
            Some(BusTime { hour: hours % 24, minute: minutes, second: seconds })
        }
    }

    /// The hour of the day, in `[0, 24)`.
    pub fn hour(&self) -> (r: u32)
        ensures
            r == self.spec_hour(),
            r < 24,
    {
        proof {
            use_type_invariant(self);
        }
        self.hour
    }

    /// The minute, in `[0, 60)`.
    pub fn minute(&self) -> (r: u8)
        ensures
            r == self.spec_minute(),
            r < 60,
    {
        proof {
            use_type_invariant(self);
        }
        self.minute
    }

    /// The second, in `[0, 60)`.
    pub fn second(&self) -> (r: u8)
        ensures
            r == self.spec_second(),
            r < 60,
    {
        proof {
            use_type_invariant(self);
        }
        self.second
    }

    /// The shift that this time falls into.
    pub fn shift(&self) -> (r: Shift)
        ensures
            r == shift_of(self.spec_hour()),
    {
        proof {
            use_type_invariant(self);
        }
        if self.hour < DAWN_GUARD as u32 {
            Shift::ZetaShift
        } else if self.hour < ALPHA_FLIGHT as u32 {
            Shift::DawnGuard
        } else if self.hour < NIGHT_WATCH as u32 {
            Shift::AlphaFlight
        } else {
            // Every constructor keeps the hour below 24.
            assert(self.hour < 24);
            Shift::NightWatch
        }
    }

    /// The number of whole hours since the start of the current shift.
    pub fn hours_into_shift(&self) -> (r: u32)
        ensures
            r == self.spec_hour() % 6,
            r < 6,
    {
        self.hour % 6
    }

    /// This time as text, relative to its shift (see `time_text`).
    pub fn to_string(&self) -> (r: String)
        ensures
            r@ == time_text(self.spec_hour(), self.spec_minute(), self.spec_second()),
    {
        let mut out = String::from_str(self.shift().abbreviation());
        out.append(" + ");
        push_decimal(&mut out, self.hours_into_shift());
        out.append(":");
        push_decimal(&mut out, self.minute as u32);
        out.append(":");
        push_decimal(&mut out, self.second as u32);
        out
    }
}

/// Classifying the same time twice gives the same shift: what `shift`
/// returns is fixed by the time alone.
pub proof fn lemma_shift_stable(t: BusTime, first: Shift, second: Shift)
    requires
        first == shift_of(t.spec_hour()),
        second == shift_of(t.spec_hour()),
    ensures
        first == second,
{
}

} // verus!

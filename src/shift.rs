use vstd::prelude::*;

verus! {

/// The hour at which Zeta Shift starts.
pub const ZETA_SHIFT: usize = 0;

/// The hour at which Dawn Guard starts.
pub const DAWN_GUARD: usize = 6;

/// The hour at which Alpha Flight starts.
pub const ALPHA_FLIGHT: usize = 12;

/// The hour at which Night Watch starts.
pub const NIGHT_WATCH: usize = 18;

/// One of the four six-hour shifts of the bus clock.
#[derive(Debug, Clone, Copy, PartialEq, Eq, Structural)]
pub enum Shift {
    ZetaShift,
    DawnGuard,
    AlphaFlight,
    NightWatch,
}

/// The shift that an hour of the day (in `[0, 24)`) falls into.
pub open spec fn shift_of(hour: nat) -> Shift {
    if hour < DAWN_GUARD {
        Shift::ZetaShift
    } else if hour < ALPHA_FLIGHT {
        Shift::DawnGuard
    } else if hour < NIGHT_WATCH {
        Shift::AlphaFlight
    } else {
        Shift::NightWatch
    }
}

/// The hour at which a shift starts.
pub open spec fn shift_start(s: Shift) -> nat {
    match s {
        Shift::ZetaShift => ZETA_SHIFT as nat,
        Shift::DawnGuard => DAWN_GUARD as nat,
        Shift::AlphaFlight => ALPHA_FLIGHT as nat,
        Shift::NightWatch => NIGHT_WATCH as nat,
    }
}

/// The four shifts cover the hours of a day as four contiguous ranges, with
/// no gap and no overlap: `[0, 6)`, `[6, 12)`, `[12, 18)` and `[18, 24)`.
pub proof fn lemma_shift_partition(hour: nat)
    requires
        hour < 24,
    ensures
        shift_of(hour) == Shift::ZetaShift <==> hour < 6,
        shift_of(hour) == Shift::DawnGuard <==> 6 <= hour < 12,
        shift_of(hour) == Shift::AlphaFlight <==> 12 <= hour < 18,
        shift_of(hour) == Shift::NightWatch <==> 18 <= hour < 24,
{
}

/// An hour of the day is the start of its shift plus the hours into it, and
/// those are `hour % 6`.
pub proof fn lemma_hours_into_shift(hour: nat)
    requires
        hour < 24,
    ensures
        shift_start(shift_of(hour)) <= hour,
        hour - shift_start(shift_of(hour)) == hour % 6,
{
}

/// The full name of a shift.
pub open spec fn full_name(s: Shift) -> Seq<char> {
    match s {
        Shift::ZetaShift => "Zeta Shift"@,
        Shift::DawnGuard => "Dawn Guard"@,
        Shift::AlphaFlight => "Alpha Flight"@,
        Shift::NightWatch => "Night Watch"@,
    }
}

/// The two-letter code of a shift.
pub open spec fn abbreviation_of(s: Shift) -> Seq<char> {
    match s {
        Shift::ZetaShift => "ZS"@,
        Shift::DawnGuard => "DG"@,
        Shift::AlphaFlight => "AF"@,
        Shift::NightWatch => "NW"@,
    }
}

impl Shift {
    /// The full name of this shift, such as "Zeta Shift".
    pub fn to_string(&self) -> (r: String)
        ensures
            r@ == full_name(*self),
    {
        let name = match self {
            Shift::ZetaShift => "Zeta Shift",
            Shift::DawnGuard => "Dawn Guard",
            Shift::AlphaFlight => "Alpha Flight",
            Shift::NightWatch => "Night Watch",
        };
        String::from_str(name)
    }

    /// The two-letter code of this shift, such as "ZS".
    pub fn abbreviation(&self) -> (r: &'static str)
        ensures
            r@ == abbreviation_of(*self),
    {
        match self {
            Shift::ZetaShift => "ZS",
            Shift::DawnGuard => "DG",
            Shift::AlphaFlight => "AF",
            Shift::NightWatch => "NW",
        }
    }
}

} // verus!

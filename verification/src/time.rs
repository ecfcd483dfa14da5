//! Points in simulated time, and the clock periods that move them forward.

use core::fmt::Debug;
use core::ops::{Add, Mul};
use core::time::Duration;
use femtos::Duration as FemtosDuration;
use femtos::Instant as FemtosInstant;
use fugit::Duration as TickDuration;
use fugit::Instant as TickInstant;
use vstd::prelude::*;

verus! {

/// A point in simulated time.
///
/// An instant is copied freely, is totally ordered, and moves forward when a
/// `Duration` is added to it. Which representation stands behind it is left to
/// the simulation: nanoseconds, femtoseconds, or the ticks of a fixed-rate
/// counter.
pub trait Instant: Add<Self::Duration, Output = Self> + Eq + Ord + Debug + Copy {
    /// A length of time that can be added to an instant of this type.
    type Duration: Mul<u32, Output = Self::Duration> + Debug;

    /// Whether one period at `hertz` can be computed in this representation.
    /// A frequency of zero never has a period; unless a representation says
    /// otherwise, every other frequency has one.
    open spec fn has_period(hertz: u64) -> bool {
        hertz != 0
    }

    /// Whether `instant` may be the start of the epoch. A representation that
    /// states nothing leaves it open.
    open spec fn is_start(instant: Self) -> bool {
        true
    }

    /// Whether `period` may be the duration of one period at `hertz`. A
    /// representation that states nothing leaves it open.
    open spec fn is_period(hertz: u64, period: Self::Duration) -> bool {
        true
    }

    /// The start of the epoch in this representation.
    fn start() -> (epoch: Self)
        ensures
            Self::is_start(epoch),
    ;

    /// The duration of one period at the frequency `hertz`, rounded down to
    /// the resolution of this representation.
    fn hertz_to_duration(hertz: u64) -> (period: Self::Duration)
        requires
            Self::has_period(hertz),
        ensures
            Self::is_period(hertz, period),
    ;
}

/// Nanoseconds in one second.
pub const NANOS_PER_SEC: u64 = 1_000_000_000;

/// Femtoseconds in one second.
pub const FEMTOS_PER_SEC: u64 = 1_000_000_000_000_000;

/// The length of one period at `hertz` in units of which `per_sec` make up a
/// second, rounded down.
pub open spec fn period_in_units(per_sec: u64, hertz: u64) -> u64
    recommends
        hertz != 0,
{
    (per_sec as int / hertz as int) as u64
}

/// The number of whole units, `per_sec` of them to the second, in one period at
/// `hertz`.
pub fn period_units(per_sec: u64, hertz: u64) -> (units: u64)
    requires
        hertz != 0,
    ensures
        units == period_in_units(per_sec, hertz),
        units * hertz <= per_sec < (units + 1) * hertz,
{
    let units = per_sec / hertz;
    assert(units * hertz <= per_sec < (units + 1) * hertz) by (nonlinear_arith)
        requires
            hertz != 0,
            units == per_sec as int / hertz as int,
    ;
    units
}

/// The `std::time::Duration` that `Duration::from_nanos` makes of a count of
/// nanoseconds.
pub uninterp spec fn duration_of_nanos(nanos: u64) -> Duration;

/// Calls `core::time::Duration::from_nanos`. The contract claims that the
/// duration depends on the count alone; the call cannot panic.
#[verifier::external_body]
fn duration_from_nanos(nanos: u64) -> (d: Duration)
    ensures
        d == duration_of_nanos(nanos),
{
    Duration::from_nanos(nanos)
}

impl Instant for Duration {
    type Duration = Duration;

    open spec fn has_period(hertz: u64) -> bool {
        hertz != 0
    }

    /// Time starts at zero nanoseconds.
    open spec fn is_start(instant: Self) -> bool {
        instant == duration_of_nanos(0)
    }

    /// A period is its length in whole nanoseconds.
    open spec fn is_period(hertz: u64, period: Duration) -> bool {
        period == duration_of_nanos(period_in_units(NANOS_PER_SEC, hertz))
    }

    fn start() -> (epoch: Self) {
        duration_from_nanos(0)
    }

    fn hertz_to_duration(hertz: u64) -> (period: Duration) {
        duration_from_nanos(period_units(NANOS_PER_SEC, hertz))
    }
}

#[verifier::external_type_specification]
#[verifier::external_body]
pub struct ExFemtosDuration(FemtosDuration);

#[verifier::external_type_specification]
#[verifier::external_body]
pub struct ExFemtosInstant(FemtosInstant);

/// The `femtos::Duration` that `Duration::from_femtos` makes of a count of
/// femtoseconds.
pub uninterp spec fn duration_of_femtos(femtos: u64) -> FemtosDuration;

/// Calls `FemtosDuration::from_femtos` on the count, widened to the crate's
/// `Femtos`. The contract claims that the duration depends on the count alone;
/// the call only stores the count.
#[verifier::external_body]
fn duration_from_femtos(femtos: u64) -> (d: FemtosDuration)
    ensures
        d == duration_of_femtos(femtos),
{
    FemtosDuration::from_femtos(femtos as femtos::Femtos)
}

/// Hands out `femtos::Instant::START`, the instant zero femtoseconds after the
/// start of time. An instant of that crate is opaque here, so nothing is
/// claimed of it.
#[verifier::external_body]
fn femtos_start() -> FemtosInstant {
    FemtosInstant::START
}

/// Whether `instant` is an instant that `femtos::Instant::START` was read as.
pub closed spec fn femtos_epoch(instant: FemtosInstant) -> bool {
    call_ensures(femtos_start, (), instant)
}

impl Instant for FemtosInstant {
    type Duration = FemtosDuration;

    open spec fn has_period(hertz: u64) -> bool {
        hertz != 0
    }

    /// Time starts at the crate's own start of time.
    open spec fn is_start(instant: Self) -> bool {
        femtos_epoch(instant)
    }

    /// A period is its length in whole femtoseconds.
    open spec fn is_period(hertz: u64, period: FemtosDuration) -> bool {
        period == duration_of_femtos(period_in_units(FEMTOS_PER_SEC, hertz))
    }

    fn start() -> (epoch: Self) {
        femtos_start()
    }

    fn hertz_to_duration(hertz: u64) -> (period: FemtosDuration) {
        duration_from_femtos(period_units(FEMTOS_PER_SEC, hertz))
    }
}

#[verifier::external_type_specification]
#[verifier::external_body]
#[verifier::reject_recursive_types(T)]
pub struct ExTickDuration<T, const NOM: u32, const DENOM: u32>(TickDuration<T, NOM, DENOM>);

#[verifier::external_type_specification]
#[verifier::external_body]
#[verifier::reject_recursive_types(T)]
pub struct ExTickInstant<T, const NOM: u32, const DENOM: u32>(TickInstant<T, NOM, DENOM>);

/// The frequency that a 32-bit tick counter sees: `hertz` cut to its low 32
/// bits.
pub open spec fn low_hertz(hertz: u64) -> u32 {
    (hertz as int % 0x1_0000_0000) as u32
}

/// Cuts `hertz` to its low 32 bits.
pub fn hertz_low_bits(hertz: u64) -> (low: u32)
    ensures
        low == low_hertz(hertz),
{
    let low = #[verifier::truncate] (hertz as u32);
    assert(hertz as u32 == hertz % 0x1_0000_0000) by (bit_vector);
    low
}

/// Calls `fugit::Instant::<u32, NOM, DENOM>::from_ticks`. An instant of that
/// crate is opaque here, so nothing is claimed of it. The call does not panic:
/// `NOM` and `DENOM` are checked to be positive when the program is built.
#[verifier::external_body]
fn tick_instant_u32<const NOM: u32, const DENOM: u32>(ticks: u32) -> TickInstant<u32, NOM, DENOM> {
    TickInstant::<u32, NOM, DENOM>::from_ticks(ticks)
}

/// Calls `fugit::Duration::<u32, NOM, DENOM>::from_ticks`, of which nothing is
/// claimed either.
#[verifier::external_body]
fn tick_duration_u32<const NOM: u32, const DENOM: u32>(ticks: u32) -> TickDuration<
    u32,
    NOM,
    DENOM,
> {
    TickDuration::<u32, NOM, DENOM>::from_ticks(ticks)
}

/// Calls `fugit::Instant::<u64, NOM, DENOM>::from_ticks`, of which nothing is
/// claimed.
#[verifier::external_body]
fn tick_instant_u64<const NOM: u32, const DENOM: u32>(ticks: u64) -> TickInstant<u64, NOM, DENOM> {
    TickInstant::<u64, NOM, DENOM>::from_ticks(ticks)
}

/// Calls `fugit::Duration::<u64, NOM, DENOM>::from_ticks`, of which nothing is
/// claimed.
#[verifier::external_body]
fn tick_duration_u64<const NOM: u32, const DENOM: u32>(ticks: u64) -> TickDuration<
    u64,
    NOM,
    DENOM,
> {
    TickDuration::<u64, NOM, DENOM>::from_ticks(ticks)
}

/// The ticks of one period at `hertz` on a 32-bit counter that runs at `denom`
/// ticks per unit of time: `denom` divided by the low 32 bits of `hertz`.
pub fn period_ticks_u32(denom: u32, hertz: u64) -> (ticks: u32)
    requires
        low_hertz(hertz) != 0,
    ensures
        ticks == period_in_units(denom as u64, low_hertz(hertz) as u64),
{
    denom / hertz_low_bits(hertz)
}

/// Whether `instant` is an instant that `fugit::Instant::from_ticks` made of
/// `ticks` ticks of a 32-bit counter.
pub closed spec fn instant_of_ticks_u32<const NOM: u32, const DENOM: u32>(
    ticks: u32,
    instant: TickInstant<u32, NOM, DENOM>,
) -> bool {
    call_ensures(tick_instant_u32::<NOM, DENOM>, (ticks,), instant)
}

/// Whether `duration` is a duration that `fugit::Duration::from_ticks` made of
/// `ticks` ticks of a 32-bit counter.
pub closed spec fn duration_of_ticks_u32<const NOM: u32, const DENOM: u32>(
    ticks: u32,
    duration: TickDuration<u32, NOM, DENOM>,
) -> bool {
    call_ensures(tick_duration_u32::<NOM, DENOM>, (ticks,), duration)
}

impl<const NOM: u32, const DENOM: u32> Instant for TickInstant<u32, NOM, DENOM> where
    Self: Add<TickDuration<u32, NOM, DENOM>, Output = Self>,
 {
    type Duration = TickDuration<u32, NOM, DENOM>;

    open spec fn has_period(hertz: u64) -> bool {
        low_hertz(hertz) != 0
    }

    /// Time starts at tick zero.
    open spec fn is_start(instant: Self) -> bool {
        instant_of_ticks_u32(0, instant)
    }

    /// A period is `DENOM` ticks divided by the low 32 bits of the frequency.
    open spec fn is_period(hertz: u64, period: TickDuration<u32, NOM, DENOM>) -> bool {
        duration_of_ticks_u32(
            period_in_units(DENOM as u64, low_hertz(hertz) as u64) as u32,
            period,
        )
    }

    fn start() -> (epoch: Self) {
        tick_instant_u32::<NOM, DENOM>(0)
    }

    fn hertz_to_duration(hertz: u64) -> (period: TickDuration<u32, NOM, DENOM>) {
        tick_duration_u32::<NOM, DENOM>(period_ticks_u32(DENOM, hertz))
    }
}

/// Whether `instant` is an instant that `fugit::Instant::from_ticks` made of
/// `ticks` ticks of a 64-bit counter.
pub closed spec fn instant_of_ticks_u64<const NOM: u32, const DENOM: u32>(
    ticks: u64,
    instant: TickInstant<u64, NOM, DENOM>,
) -> bool {
    call_ensures(tick_instant_u64::<NOM, DENOM>, (ticks,), instant)
}

/// Whether `duration` is a duration that `fugit::Duration::from_ticks` made of
/// `ticks` ticks of a 64-bit counter.
pub closed spec fn duration_of_ticks_u64<const NOM: u32, const DENOM: u32>(
    ticks: u64,
    duration: TickDuration<u64, NOM, DENOM>,
) -> bool {
    call_ensures(tick_duration_u64::<NOM, DENOM>, (ticks,), duration)
}

impl<const NOM: u32, const DENOM: u32> Instant for TickInstant<u64, NOM, DENOM> where
    Self: Add<TickDuration<u64, NOM, DENOM>, Output = Self>,
 {
    type Duration = TickDuration<u64, NOM, DENOM>;

    open spec fn has_period(hertz: u64) -> bool {
        hertz != 0
    }

    /// Time starts at tick zero.
    open spec fn is_start(instant: Self) -> bool {
        instant_of_ticks_u64(0, instant)
    }

    /// A period is `DENOM` ticks divided by the frequency.
    open spec fn is_period(hertz: u64, period: TickDuration<u64, NOM, DENOM>) -> bool {
        duration_of_ticks_u64(period_in_units(DENOM as u64, hertz), period)
    }

    fn start() -> (epoch: Self) {
        tick_instant_u64::<NOM, DENOM>(0)
    }

    fn hertz_to_duration(hertz: u64) -> (period: TickDuration<u64, NOM, DENOM>) {
        tick_duration_u64::<NOM, DENOM>(period_units(DENOM as u64, hertz))
    }
}

} // verus!

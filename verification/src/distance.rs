//! The calculation pipeline: from a pair of timestamps to a light-travel
//! distance, the nearest catalogued object, and a travel-time figure.
//!
//! All quantities are exact integers in scaled units. With `elapsed` the
//! whole seconds between the two timestamps, the exact light-year value is
//! the rational `elapsed / SECONDS_PER_JULIAN_YEAR`; the library carries it
//! as micro-light-years (rounded down), as meters (exact, since one
//! light-second is a whole number of meters), and as milli-miles (rounded
//! down).

use vstd::prelude::*;
use vstd::arithmetic::div_mod::{
    lemma_div_is_ordered,
    lemma_fundamental_div_mod,
    lemma_mod_division_less_than_divisor,
    lemma_multiply_divide_le,
};
use vstd::arithmetic::mul::{
    lemma_mul_inequality,
    lemma_mul_is_associative,
    lemma_mul_strict_inequality,
};
use crate::catalog::{CelestialObject, ReferenceCatalog, is_nearest_entry};
use crate::duration_text::{MAX_LIGHT_METERS, travel_time_description, travel_time_text};

verus! {

/// Seconds in a Julian year (exactly 365.25 days): the fixed, calendar-blind
/// time-to-distance conversion basis.
pub const SECONDS_PER_JULIAN_YEAR: u64 = 31_557_600;

/// The speed of light in meters per second.
pub const LIGHT_METERS_PER_SECOND: u64 = 299_792_458;

/// Meters in one light-year: the speed of light times the seconds in a
/// Julian year (9,460,730,472,580.8 km, held in meters to stay integral).
pub const METERS_PER_LIGHT_YEAR: u64 = 9_460_730_472_580_800;

/// Deci-miles in one light-year (5,878,625,373,183.6 miles, held tenfold to
/// stay integral).
pub const DECI_MILES_PER_LIGHT_YEAR: u64 = 58_786_253_731_836;

/// The light-travel distance after `elapsed` seconds, in micro-light-years,
/// rounded down.
pub open spec fn micro_light_years_of(elapsed: int) -> int {
    elapsed * 1_000_000 / (SECONDS_PER_JULIAN_YEAR as int)
}

/// The light-travel distance after `elapsed` seconds, in meters. This is
/// exact: light covers a whole number of meters each second.
pub open spec fn light_meters_of(elapsed: int) -> int {
    elapsed * (LIGHT_METERS_PER_SECOND as int)
}

/// The light-travel distance after `elapsed` seconds, in milli-miles,
/// rounded down.
pub open spec fn milli_miles_of(elapsed: int) -> int {
    elapsed * (DECI_MILES_PER_LIGHT_YEAR as int) * 100 / (SECONDS_PER_JULIAN_YEAR as int)
}

/// An input the pipeline rejects.
#[derive(Debug, PartialEq, Eq, Structural)]
pub enum CalcError {
    /// The target timestamp lies strictly after the current timestamp.
    InvalidInput,
}

/// The outcome of one calculation: a distance in three scaled units, a
/// travel-time figure, and the nearest catalogued object.
#[derive(Debug)]
pub struct CalculationResult {
    /// Whole seconds from the target timestamp up to the current one.
    pub elapsed_seconds: u64,
    /// The light-travel distance in micro-light-years, rounded down.
    pub micro_light_years: u64,
    /// The light-travel distance in meters, exact.
    pub meters: u128,
    /// The light-travel distance in milli-miles, rounded down.
    pub milli_miles: u128,
    /// Travel time at the fixed probe speed, e.g. "70.5 thousand years".
    pub travel_time_description: String,
    /// The catalog entry nearest to the distance; absent only when the
    /// catalog is empty.
    pub nearest_landmark: Option<CelestialObject>,
}

/// Converts a past timestamp into a light-travel distance and the nearest
/// catalogued object. Both timestamps are in whole seconds since a common
/// epoch. Fails exactly when `target` lies strictly after `now`; every
/// other input yields a full result.
pub fn calculate(now: i64, target: i64, catalog: &ReferenceCatalog) -> (r: Result<
    CalculationResult,
    CalcError,
>)
    ensures
        r is Err <==> target > now,
        r matches Err(e) ==> e == CalcError::InvalidInput,
        r matches Ok(res) ==> {
            &&& res.elapsed_seconds == now - target
            &&& res.micro_light_years == micro_light_years_of(now - target)
            &&& res.meters == light_meters_of(now - target)
            &&& res.milli_miles == milli_miles_of(now - target)
            &&& res.travel_time_description@ == travel_time_text(light_meters_of(now - target))
            &&& (res.nearest_landmark is None <==> catalog@.len() == 0)
            &&& match res.nearest_landmark {
                Some(e) => is_nearest_entry(catalog@, res.micro_light_years, e),
                None => true,
            }
        },
{
    if target > now {
        return Err(CalcError::InvalidInput);
    }
    let elapsed: u64 = ((now as i128) - (target as i128)) as u64;

    let scaled: u128 = (elapsed as u128) * 1_000_000;
    proof {
        lemma_multiply_divide_le(
            scaled as int,
            SECONDS_PER_JULIAN_YEAR as int,
            u64::MAX as int,
        );
    }
    let micro_light_years: u64 = (scaled / (SECONDS_PER_JULIAN_YEAR as u128)) as u64;

    proof {
        lemma_mul_inequality(elapsed as int, u64::MAX as int, LIGHT_METERS_PER_SECOND as int);
    }
    let meters: u128 = (elapsed as u128) * (LIGHT_METERS_PER_SECOND as u128);

    proof {
        lemma_mul_inequality(elapsed as int, u64::MAX as int, DECI_MILES_PER_LIGHT_YEAR as int);
        lemma_mul_inequality(
            (elapsed as int) * (DECI_MILES_PER_LIGHT_YEAR as int),
            (u64::MAX as int) * (DECI_MILES_PER_LIGHT_YEAR as int),
            100,
        );
    }
    let mile_scaled: u128 = (elapsed as u128) * (DECI_MILES_PER_LIGHT_YEAR as u128) * 100;
    let milli_miles: u128 = mile_scaled / (SECONDS_PER_JULIAN_YEAR as u128);

    let travel_time_description = travel_time_description(meters);
    let nearest_landmark = catalog.nearest_to(micro_light_years);

    Ok(
        CalculationResult {
            elapsed_seconds: elapsed,
            micro_light_years,
            meters,
            milli_miles,
            travel_time_description,
            nearest_landmark,
        },
    )
}

/// Monotonicity of the distance in the target timestamp: moving the target
/// earlier (with the current timestamp fixed) never shrinks the distance,
/// and strictly grows the elapsed time and the exact meter distance.  Since
/// the exact light-year value is `elapsed / SECONDS_PER_JULIAN_YEAR` with a
/// fixed positive divisor, it is ordered exactly as the elapsed time is.
pub proof fn lemma_distance_monotonic(now: int, t1: int, t2: int)
    requires
        t1 <= t2 <= now,
    ensures
        now - t1 >= now - t2,
        t1 < t2 ==> now - t1 > now - t2,
        micro_light_years_of(now - t1) >= micro_light_years_of(now - t2),
        light_meters_of(now - t1) >= light_meters_of(now - t2),
        t1 < t2 ==> light_meters_of(now - t1) > light_meters_of(now - t2),
        milli_miles_of(now - t1) >= milli_miles_of(now - t2),
{
    let e1 = now - t1;
    let e2 = now - t2;
    lemma_mul_inequality(e2, e1, 1_000_000);
    lemma_div_is_ordered(e2 * 1_000_000, e1 * 1_000_000, SECONDS_PER_JULIAN_YEAR as int);
    lemma_mul_inequality(e2, e1, LIGHT_METERS_PER_SECOND as int);
    if t1 < t2 {
        lemma_mul_strict_inequality(e2, e1, LIGHT_METERS_PER_SECOND as int);
    }
    lemma_mul_inequality(e2, e1, DECI_MILES_PER_LIGHT_YEAR as int);
    lemma_mul_inequality(
        e2 * (DECI_MILES_PER_LIGHT_YEAR as int),
        e1 * (DECI_MILES_PER_LIGHT_YEAR as int),
        100,
    );
    lemma_div_is_ordered(
        e2 * (DECI_MILES_PER_LIGHT_YEAR as int) * 100,
        e1 * (DECI_MILES_PER_LIGHT_YEAR as int) * 100,
        SECONDS_PER_JULIAN_YEAR as int,
    );
}

/// Unit consistency. The meter distance satisfies exactly
/// `meters × SECONDS_PER_JULIAN_YEAR == elapsed × METERS_PER_LIGHT_YEAR`,
/// which is `meters == lightYears × METERS_PER_LIGHT_YEAR` for the exact
/// light-year value `elapsed / SECONDS_PER_JULIAN_YEAR`. The milli-mile
/// distance is the floor of `lightYears × DECI_MILES_PER_LIGHT_YEAR × 100`,
/// pinned by the two-sided bound below.
pub proof fn lemma_unit_consistency(elapsed: int)
    requires
        elapsed >= 0,
    ensures
        light_meters_of(elapsed) * (SECONDS_PER_JULIAN_YEAR as int) == elapsed * (
        METERS_PER_LIGHT_YEAR as int),
        (SECONDS_PER_JULIAN_YEAR as int) * milli_miles_of(elapsed) <= elapsed * (
        DECI_MILES_PER_LIGHT_YEAR as int) * 100,
        elapsed * (DECI_MILES_PER_LIGHT_YEAR as int) * 100 < (SECONDS_PER_JULIAN_YEAR as int) * (
        milli_miles_of(elapsed) + 1),
{
    lemma_mul_is_associative(
        elapsed,
        LIGHT_METERS_PER_SECOND as int,
        SECONDS_PER_JULIAN_YEAR as int,
    );
    let n = elapsed * (DECI_MILES_PER_LIGHT_YEAR as int) * 100;
    lemma_fundamental_div_mod(n, SECONDS_PER_JULIAN_YEAR as int);
    lemma_mod_division_less_than_divisor(n, SECONDS_PER_JULIAN_YEAR as int);
}

} // verus!

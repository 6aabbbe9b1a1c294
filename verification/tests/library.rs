use time_telescope::calculate;
use time_telescope::CalcError;
use time_telescope::CelestialObject;
use time_telescope::ReferenceCatalog;
use time_telescope::distance::DECI_MILES_PER_LIGHT_YEAR;
use time_telescope::distance::METERS_PER_LIGHT_YEAR;
use time_telescope::distance::SECONDS_PER_JULIAN_YEAR;

fn entry(id: i64, name: &str, distance_micro_ly: u64) -> CelestialObject {
    CelestialObject {
        id,
        name: name.to_string(),
        distance_micro_ly,
        object_type: "Star".to_string(),
        description: "A test object.".to_string(),
    }
}

fn small_catalog() -> ReferenceCatalog {
    // 4.24, 8.6 and 25.0 light-years, in micro-light-years.
    let entries = vec![
        entry(1, "Proxima Centauri", 4_240_000),
        entry(2, "Sirius", 8_600_000),
        entry(3, "Fomalhaut", 25_000_000),
    ];
    ReferenceCatalog::new(entries).expect("valid catalog")
}

#[test]
fn future_target_rejected() {
    let cat = small_catalog();
    let r = calculate(1_000, 1_001, &cat);
    assert_eq!(r.unwrap_err(), CalcError::InvalidInput);
}

#[test]
fn empty_catalog_is_absent_not_an_error() {
    let cat = ReferenceCatalog::new(vec![]).expect("empty catalog is valid");
    assert_eq!(cat.len(), 0);
    assert!(cat.nearest_to(5_000_000).is_none());
    let r = calculate(1_000, 500, &cat).expect("valid input");
    assert!(r.nearest_landmark.is_none());
    assert_eq!(r.elapsed_seconds, 500);
}

#[test]
fn nearest_picks_minimal_absolute_difference() {
    let cat = small_catalog();
    // Query 10.0 light-years: |10 - 8.6| = 1.4 beats |10 - 4.24| = 5.76
    // and |10 - 25| = 15.
    let found = cat.nearest_to(10_000_000).expect("catalog not empty");
    assert_eq!(found.id, 2);
    assert_eq!(found.name, "Sirius");
    assert_eq!(found.distance_micro_ly, 8_600_000);
}

#[test]
fn nearest_tie_breaks_by_lowest_identifier() {
    // Entries at 20.0 and 30.0 light-years are equally far from 25.0.
    let entries = vec![entry(7, "Near", 20_000_000), entry(3, "Far", 30_000_000)];
    let cat = ReferenceCatalog::new(entries).expect("valid catalog");
    for _ in 0..5 {
        let found = cat.nearest_to(25_000_000).expect("catalog not empty");
        assert_eq!(found.id, 3);
        assert_eq!(found.name, "Far");
    }
    // The same with the identifiers swapped.
    let entries = vec![entry(3, "Near", 20_000_000), entry(7, "Far", 30_000_000)];
    let cat = ReferenceCatalog::new(entries).expect("valid catalog");
    let found = cat.nearest_to(25_000_000).expect("catalog not empty");
    assert_eq!(found.id, 3);
    assert_eq!(found.name, "Near");
}

#[test]
fn four_year_scenario() {
    // now = 2024-01-01T00:00:00Z, target = 2020-01-01T00:00:00Z:
    // four years including one leap day, 126,230,400 seconds.
    let cat = small_catalog();
    let r = calculate(1_704_067_200, 1_577_836_800, &cat).expect("valid input");
    assert_eq!(r.elapsed_seconds, 126_230_400);
    // Exactly 4 Julian years, hence exactly 4.0 light-years.
    assert_eq!(r.micro_light_years, 4_000_000);
    assert_eq!(r.meters, 37_842_921_890_323_200);
    assert_eq!(r.milli_miles, 23_514_501_492_734_400);
    assert_eq!(r.travel_time_description.as_str(), "70.5 thousand years");
    // 4.0 is closest to the 4.24 entry.
    assert_eq!(r.nearest_landmark.expect("catalog not empty").id, 1);
}

#[test]
fn target_equals_now() {
    let cat = small_catalog();
    let r = calculate(1_704_067_200, 1_704_067_200, &cat).expect("valid input");
    assert_eq!(r.elapsed_seconds, 0);
    assert_eq!(r.micro_light_years, 0);
    assert_eq!(r.meters, 0);
    assert_eq!(r.milli_miles, 0);
    assert_eq!(r.travel_time_description.as_str(), "0.0 days");
    // Distance zero is nearest to the smallest catalogued distance.
    assert_eq!(r.nearest_landmark.expect("catalog not empty").id, 1);
}

#[test]
fn unit_consistency_on_concrete_values() {
    let cat = small_catalog();
    let r = calculate(1_000, 0, &cat).expect("valid input");
    assert_eq!(r.elapsed_seconds, 1_000);
    // meters × seconds-per-year == elapsed × meters-per-light-year, exactly.
    assert_eq!(r.meters, 299_792_458_000);
    assert_eq!(
        r.meters * u128::from(SECONDS_PER_JULIAN_YEAR),
        1_000u128 * u128::from(METERS_PER_LIGHT_YEAR)
    );
    // milli-miles is the floor of elapsed × deci-miles-per-light-year × 100
    // divided by the seconds in a Julian year.
    let n = 1_000u128 * u128::from(DECI_MILES_PER_LIGHT_YEAR) * 100;
    assert_eq!(r.milli_miles, n / u128::from(SECONDS_PER_JULIAN_YEAR));
    assert_eq!(r.milli_miles, 186_282_397_051);
}

#[test]
fn earlier_target_never_shrinks_the_distance() {
    let cat = small_catalog();
    let now = 1_704_067_200;
    let older = calculate(now, 1_000_000_000, &cat).expect("valid input");
    let newer = calculate(now, 1_500_000_000, &cat).expect("valid input");
    assert!(older.elapsed_seconds > newer.elapsed_seconds);
    assert!(older.micro_light_years >= newer.micro_light_years);
    assert!(older.meters > newer.meters);
    assert!(older.milli_miles >= newer.milli_miles);
}

#[test]
fn catalog_rejects_duplicate_identifiers() {
    let entries = vec![entry(1, "One", 1_000_000), entry(1, "Other", 2_000_000)];
    assert!(ReferenceCatalog::new(entries).is_none());
}

#[test]
fn catalog_rejects_empty_names() {
    let entries = vec![entry(1, "One", 1_000_000), entry(2, "", 2_000_000)];
    assert!(ReferenceCatalog::new(entries).is_none());
}

#[test]
fn catalog_accessors() {
    let cat = small_catalog();
    assert_eq!(cat.len(), 3);
    assert_eq!(cat.entry(0).name, "Proxima Centauri");
    assert_eq!(cat.entry(2).distance_micro_ly, 25_000_000);
    assert_eq!(cat.entry(1).object_type, "Star");
}

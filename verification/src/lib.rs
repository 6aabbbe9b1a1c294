//! Light-travel distance calculator with a nearest-landmark catalog.
//!
//! Given a current and a past timestamp (seconds since the Unix epoch), the
//! library derives the elapsed time, converts it into a light-travel distance
//! (light-years, kilometers, miles), finds the catalogued astronomical object
//! nearest to that distance, and renders an illustrative travel-time figure at
//! a fixed spacecraft speed.
//!
//! All distances are held as exact integers in scaled units (micro-light-years,
//! meters, milli-miles), so every conversion is stated and proved exactly.

pub mod catalog;
pub mod distance;
pub mod duration_text;

pub use catalog::CelestialObject;
pub use catalog::ReferenceCatalog;
pub use distance::CalcError;
pub use distance::CalculationResult;
pub use distance::calculate;

//! Synthetic sensor readings.
//!
//! Fractional sensor values are carried in hundredths, so a dust
//! concentration of `50.01` is the integer `5001`.  The surrounding
//! application scales them back before putting them on the wire.

use vstd::prelude::*;
use rand::RngExt;
use rand::rngs::ThreadRng;

verus! {

#[verifier::external_type_specification]
#[verifier::external_body]
pub struct ExThreadRng(ThreadRng);

/// One synthetic reading, ready for wire encoding.
pub struct Reading {
    /// Hundredths of a degree.
    pub temperature: i32,
    /// Hundredths of a percent.
    pub humidity: u32,
    pub pressure: i32,
    /// Hundredths.
    pub dust_concentration: u32,
    /// The display label of the purity level derived from the dust
    /// concentration.
    pub air_purity: String,
}

impl Reading {
    pub fn new(
        temperature: i32,
        humidity: u32,
        pressure: i32,
        dust_concentration: u32,
        air_purity: String,
    ) -> (r: Reading)
        ensures
            r.temperature == temperature,
            r.humidity == humidity,
            r.pressure == pressure,
            r.dust_concentration == dust_concentration,
            r.air_purity == air_purity,
    {
        Reading { temperature, humidity, pressure, dust_concentration, air_purity }
    }
}

/// Air purity, in four bands of dust concentration.
#[derive(Clone, Copy, Debug, PartialEq, Eq, Structural)]
pub enum AirPurity {
    Dangerous,
    High,
    Low,
    FreshAir,
}

impl AirPurity {
    /// The purity band that a dust concentration (in hundredths) falls in:
    /// up to 50 is fresh air, above 50 up to 100 is low, above 100 up to
    /// 150 is high, and everything beyond is dangerous.
    pub open spec fn from_value_spec(value: u32) -> AirPurity {
        if value <= 5_000 {
            AirPurity::FreshAir
        } else if value <= 10_000 {
            AirPurity::Low
        } else if value <= 15_000 {
            AirPurity::High
        } else {
            AirPurity::Dangerous
        }
    }

    /// Bands a dust concentration given in hundredths.
    pub fn from_value(value: u32) -> (p: AirPurity)
        ensures
            p == AirPurity::from_value_spec(value),
    {
        if value <= 5_000 {
            AirPurity::FreshAir
        } else if value <= 10_000 {
            AirPurity::Low
        } else if value <= 15_000 {
            AirPurity::High
        } else {
            AirPurity::Dangerous
        }
    }

    /// The fixed display label of each purity level.
    pub open spec fn label_spec(self) -> Seq<char> {
        match self {
            AirPurity::FreshAir => "Fresh Air"@,
            AirPurity::Low => "Low Pollution"@,
            AirPurity::High => "High Pollution"@,
            AirPurity::Dangerous => "Dangerous Pollution"@,
        }
    }

    /// Renders the display label.
    pub fn to_string(&self) -> (s: String)
        ensures
            s@ == self.label_spec(),
    {
        match self {
            AirPurity::FreshAir => String::from_str("Fresh Air"),
            AirPurity::Low => String::from_str("Low Pollution"),
            AirPurity::High => String::from_str("High Pollution"),
            AirPurity::Dangerous => String::from_str("Dangerous Pollution"),
        }
    }
}

/// Relies on rand's `RngExt::random_range` over the non-empty inclusive
/// range `0..=10_000`: the sample lies in the range.
#[verifier::external_body]
pub(crate) fn random_gen_humidity(rng: &mut ThreadRng) -> (r: u32)
    ensures
        r <= 10_000,
{
    rng.random_range(0..=10_000u32)
}

/// Relies on rand's `RngExt::random_range` over the non-empty inclusive
/// range `1_500..=3_500`: the sample lies in the range.
#[verifier::external_body]
pub(crate) fn random_gen_temperature(rng: &mut ThreadRng) -> (r: i32)
    ensures
        1_500 <= r <= 3_500,
{
    rng.random_range(1_500..=3_500i32)
}

/// Relies on rand's `RngExt::random_range` over the non-empty inclusive
/// range `900..=1_100`: the sample lies in the range.
#[verifier::external_body]
pub(crate) fn random_gen_pressure(rng: &mut ThreadRng) -> (r: i32)
    ensures
        900 <= r <= 1_100,
{
    rng.random_range(900..=1_100i32)
}

/// Relies on rand's `RngExt::random_range` over the non-empty inclusive
/// range `0..=100_000`: the sample lies in the range.
#[verifier::external_body]
pub(crate) fn random_gen_dust_concentration(rng: &mut ThreadRng) -> (r: u32)
    ensures
        r <= 100_000,
{
    rng.random_range(0..=100_000u32)
}

/// Fabricates one reading from the worker's own random source.  The purity
/// label always matches the band of the drawn dust concentration.
pub fn generate_random_reading(rng: &mut ThreadRng) -> (r: Reading)
    ensures
        1_500 <= r.temperature <= 3_500,
        r.humidity <= 10_000,
        900 <= r.pressure <= 1_100,
        r.dust_concentration <= 100_000,
        r.air_purity@ == AirPurity::from_value_spec(r.dust_concentration).label_spec(),
{
    let dust_concentration = random_gen_dust_concentration(rng);
    let air_purity = AirPurity::from_value(dust_concentration).to_string();
    Reading::new(
        random_gen_temperature(rng),
        random_gen_humidity(rng),
        random_gen_pressure(rng),
        dust_concentration,
        air_purity,
    )
}

} // verus!

//! The persisted weather record, the request that asks for one, and the
//! proximity rule that decides whether a stored record answers a request.
//!
//! Angles are whole microdegrees, temperatures whole millidegrees Celsius and
//! instants whole seconds, so that every comparison is exact.

use vstd::prelude::*;

verus! {

/// Microdegrees in one degree.
pub const MICRODEGREES_PER_DEGREE: i64 = 1_000_000;

/// Half-width of the window inside which a stored record answers a request:
/// half a degree.
pub const DEFAULT_TOLERANCE: i64 = 500_000;

/// A location that a client asks about.
#[derive(Clone, Copy, Debug, PartialEq, Eq)]
pub struct CacheQuery {
    /// Latitude in microdegrees.
    pub latitude: i64,
    /// Longitude in microdegrees.
    pub longitude: i64,
}

/// One stored observation.
#[derive(Clone, Copy, Debug, PartialEq, Eq)]
pub struct WeatherRecord {
    /// Identifier given by the table, where it gives one.
    pub id: Option<u128>,
    /// Latitude in microdegrees.
    pub latitude: i64,
    /// Longitude in microdegrees.
    pub longitude: i64,
    /// Temperature in millidegrees Celsius.
    pub temperature: i64,
    /// Second at which the record was written.
    pub created_at: i64,
}

/// The present conditions that the provider reports.
#[derive(Clone, Copy, Debug, PartialEq, Eq)]
pub struct CurrentWeather {
    /// Temperature two metres above ground, in millidegrees Celsius.
    pub temperature_2m: i64,
}

/// A provider's answer: the grid point it chose and the conditions there.
#[derive(Clone, Copy, Debug, PartialEq, Eq)]
pub struct WeatherInfo {
    /// Latitude of the provider's grid point, in microdegrees.
    pub latitude: i64,
    /// Longitude of the provider's grid point, in microdegrees.
    pub longitude: i64,
    pub current: CurrentWeather,
}

/// `stored` lies strictly inside the open interval of half-width `tolerance`
/// around `wanted`.
pub open spec fn within(stored: int, wanted: int, tolerance: int) -> bool {
    wanted - tolerance < stored < wanted + tolerance
}

/// `record` answers a request for (`latitude`, `longitude`): both of its
/// coordinates lie inside the tolerance window.
pub open spec fn answers(record: WeatherRecord, latitude: int, longitude: int, tolerance: int) -> bool {
    &&& within(record.latitude as int, latitude, tolerance)
    &&& within(record.longitude as int, longitude, tolerance)
}

/// Decides `within` without leaving the machine's integers.
pub fn is_within(stored: i64, wanted: i64, tolerance: i64) -> (inside: bool)
    ensures
        inside == within(stored as int, wanted as int, tolerance as int),
{
    let low: i128 = wanted as i128 - tolerance as i128;
    let high: i128 = wanted as i128 + tolerance as i128;
    low < stored as i128 && (stored as i128) < high
}

impl CacheQuery {
    pub fn new(latitude: i64, longitude: i64) -> (query: CacheQuery)
        ensures
            query.latitude == latitude,
            query.longitude == longitude,
    {
        CacheQuery { latitude, longitude }
    }
}

impl WeatherRecord {
    /// A record that no table has numbered yet.
    pub fn new(latitude: i64, longitude: i64, temperature: i64, created_at: i64) -> (record:
        WeatherRecord)
        ensures
            record == (WeatherRecord { id: None, latitude, longitude, temperature, created_at }),
    {
        WeatherRecord { id: None, latitude, longitude, temperature, created_at }
    }

    /// Whether this record answers a request for the given place.
    pub fn is_near(&self, latitude: i64, longitude: i64, tolerance: i64) -> (near: bool)
        ensures
            near == answers(*self, latitude as int, longitude as int, tolerance as int),
    {
        is_within(self.latitude, latitude, tolerance) && is_within(
            self.longitude,
            longitude,
            tolerance,
        )
    }

    /// Whether the record was written at or before `cutoff`.
    pub open spec fn expired(self, cutoff: int) -> bool {
        self.created_at <= cutoff
    }

    pub fn is_expired(&self, cutoff: i64) -> (gone: bool)
        ensures
            gone == self.expired(cutoff as int),
    {
        self.created_at <= cutoff
    }
}

} // verus!

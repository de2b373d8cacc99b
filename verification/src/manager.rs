//! The station's current readings and the forecast copied from them.

use vstd::prelude::*;
use crate::direction::{decoded, observe, retained, WindDirection};
use crate::forecast::ForecastData;
use crate::numeral::Single;
use crate::speed::{WindSpeed, NANOS_PER_SEC};

verus! {

/// The latest reading of every sensor.
#[derive(Clone, Copy, Debug)]
pub struct CurrentManagerResult {
    /// Temperature of the pressure sensor, degrees Celsius.
    pub bmp280_temp: Single,
    /// Pressure, hectopascal.
    pub bmp280_pressure: Single,
    /// Temperature of the humidity sensor, degrees Celsius.
    pub dht22_temp: Single,
    /// Relative humidity, percent.
    pub dht22_humidity: Single,
    pub rainfall: bool,
    pub anemometer_speed: WindSpeed,
    pub weathervane_position: WindDirection,
}

/// A new reading where there is one, else the stored one.
pub open spec fn kept(stored: Single, reading: Option<Single>) -> Single {
    match reading {
        Some(value) => value,
        None => stored,
    }
}

/// Keeps the stored value where a sensor gave no reading.
fn keep(stored: Single, reading: Option<Single>) -> (value: Single)
    ensures
        value == kept(stored, reading),
{
    match reading {
        Some(value) => value,
        None => stored,
    }
}

impl CurrentManagerResult {
    /// The forecast that these readings make: temperature and pressure
    /// of the pressure sensor, humidity of the humidity sensor, and
    /// wind direction, wind speed and rainfall as they stand.
    pub open spec fn snapshot(&self) -> ForecastData {
        ForecastData {
            temperature: self.bmp280_temp,
            humidity: self.dht22_humidity,
            pressure: self.bmp280_pressure,
            wind_direction: self.weathervane_position,
            wind_speed: self.anemometer_speed,
            rainfall: self.rainfall,
        }
    }

    /// Before any reading: every number zero, no rainfall, standstill,
    /// direction unknown.
    pub fn new() -> (result: CurrentManagerResult)
        ensures
            result.bmp280_temp.bits == 0,
            result.bmp280_pressure.bits == 0,
            result.dht22_temp.bits == 0,
            result.dht22_humidity.bits == 0,
            !result.rainfall,
            result.anemometer_speed == (WindSpeed { half_turns: 0, span_nanos: NANOS_PER_SEC }),
            result.weathervane_position == WindDirection::Unknown,
    {
        CurrentManagerResult {
            bmp280_temp: Single::from_bits(0),
            bmp280_pressure: Single::from_bits(0),
            dht22_temp: Single::from_bits(0),
            dht22_humidity: Single::from_bits(0),
            rainfall: false,
            anemometer_speed: WindSpeed::zero(),
            weathervane_position: WindDirection::Unknown,
        }
    }

    /// Takes a reading of the pressure sensor. A value that could not be
    /// read leaves the stored one; nothing else changes.
    pub fn get_bmp280(&mut self, pressure: Option<Single>, temperature: Option<Single>)
        ensures
            *final(self) == (CurrentManagerResult {
                bmp280_pressure: kept(old(self).bmp280_pressure, pressure),
                bmp280_temp: kept(old(self).bmp280_temp, temperature),
                ..*old(self)
            }),
    {
        self.bmp280_pressure = keep(self.bmp280_pressure, pressure);
        self.bmp280_temp = keep(self.bmp280_temp, temperature);
    }

    /// Takes a reading of the humidity sensor. A value that could not be
    /// read leaves the stored one; nothing else changes.
    pub fn get_dht22(&mut self, temperature: Option<Single>, humidity: Option<Single>)
        ensures
            *final(self) == (CurrentManagerResult {
                dht22_temp: kept(old(self).dht22_temp, temperature),
                dht22_humidity: kept(old(self).dht22_humidity, humidity),
                ..*old(self)
            }),
    {
        self.dht22_temp = keep(self.dht22_temp, temperature);
        self.dht22_humidity = keep(self.dht22_humidity, humidity);
    }

    /// Takes a reading of the vane's eight contacts, each `true` where
    /// the line is asserted. The stored direction changes only where
    /// the reading decodes to a direction; nothing else changes.
    pub fn get_weathervane_position(&mut self, readings: [bool; 8])
        ensures
            *final(self) == (CurrentManagerResult {
                weathervane_position: retained(
                    old(self).weathervane_position,
                    decoded(readings@),
                ),
                ..*old(self)
            }),
            decoded(readings@) is None ==> *final(self) == *old(self),
    {
        self.weathervane_position = observe(self.weathervane_position, readings);
    }

    /// Stores the speed read from the anemometer; nothing else changes.
    pub fn get_anemometer_speed(&mut self, speed: WindSpeed)
        ensures
            *final(self) == (CurrentManagerResult { anemometer_speed: speed, ..*old(self) }),
    {
        self.anemometer_speed = speed;
    }

    /// Takes a reading of the rain sensor's line: it rains while the
    /// line is low. Nothing else changes.
    pub fn get_rainfall(&mut self, line_high: bool)
        ensures
            *final(self) == (CurrentManagerResult { rainfall: !line_high, ..*old(self) }),
    {
        self.rainfall = !line_high;
    }

    /// Copies the readings that an announcement speaks.
    pub fn forecast(&self) -> (forecast: ForecastData)
        ensures
            forecast == self.snapshot(),
    {
        ForecastData {
            temperature: self.bmp280_temp,
            humidity: self.dht22_humidity,
            pressure: self.bmp280_pressure,
            wind_direction: self.weathervane_position,
            wind_speed: self.anemometer_speed,
            rainfall: self.rainfall,
        }
    }
}

/// Whether the button is pressed: it pulls its line low.
pub fn button_is_pressed(line_high: bool) -> (pressed: bool)
    ensures
        pressed == !line_high,
{
    !line_high
}

} // verus!

//! Decision logic of a small weather station: decoding the wind vane,
//! timing the anemometer, rendering spoken forecasts and handing them
//! to a single announcement worker.

pub mod direction;
pub mod speed;
pub mod numeral;
pub mod forecast;
pub mod rotation;
pub mod audio;
pub mod control;
pub mod manager;

//! Control logic for a filament-drying appliance: a material catalog with a
//! circular menu order, a checksum-validated sensor read protocol, a
//! character-display wire protocol with a diff-based update layer, a shared
//! state record mutated by button events, and the per-tick heater control
//! algorithm (hysteresis plus timed auto-shutoff).
//!
//! All hardware access (GPIO pins, the I2C bus, sleeps) lives outside this
//! crate; these modules compute decisions and byte sequences from plain
//! values and hand them back to the caller to act on.

pub mod button_cluster;
pub mod display;
pub mod dry_table;
pub mod dryer;
pub mod lcd_interface;
pub mod shared_data;
pub mod temp_sensor;

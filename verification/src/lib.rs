//! Verified core of an airborne sensor platform: register encodings, byte
//! layouts and conversions of its sensor drivers, and the small decision
//! machines of its tasks.

pub mod as7341;
pub mod backoff;
pub mod bits;
pub mod bmp280;
pub mod bno055;
pub mod bytes;
pub mod duration;
pub mod listener;
pub mod lora;
pub mod radio;
pub mod system_sensors;
pub mod tasks;
pub mod tel0157;
pub mod types;

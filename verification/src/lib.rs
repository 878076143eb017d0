//! Local gateway for NEP microinverters: payload decoding, exact scaling of the
//! decoded words, and the decisions of the HTTP, MQTT and relay sides.

pub mod checksum;
pub mod clock;
pub mod config;
pub mod discovery;
pub mod handlers;
pub mod laws;
pub mod model;
pub mod mqtt;
pub mod payload;
pub mod ratio;
pub mod telemetry;
pub mod text;
pub mod upstream;

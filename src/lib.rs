//! Connection and event-multiplexing core of a single-peer wireless sensor
//! device: press counting, the per-connection session reactor, the firmware
//! update coordinator, session admission and the advertisement payload.

pub mod advertising;
pub mod buttons;
pub mod record;
pub mod session;
pub mod supervisor;
pub mod update;

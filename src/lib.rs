//! A client-side model of the LIFX smart lights on a local network.
//!
//! Each device is a set of refreshable fields, each with its own maximum age
//! and refresh policy. A tick on a device gives the requests that would
//! refresh its stale fields; replies received from the network are folded
//! into the device table by identity.
pub mod bulb;
pub mod client;
pub mod codec;
pub mod refreshable_data;

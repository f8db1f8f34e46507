//! Driver layer that lets several servomotor handles share one serial bus.
//!
//! A [`motors::Motors`] registry owns the bus through a [`channel::Channel`],
//! which admits one request/response exchange at a time.  A [`motor::Motor`]
//! names one servomotor by its bus id and turns each servo operation into one
//! such exchange.  Frames are built and read by the `drs_0x01` protocol crate.

pub mod channel;
pub mod communication;
pub mod error;
pub mod motor;
pub mod motors;
pub mod protocol;

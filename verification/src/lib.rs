//! A durable record store for greenhouse sensor telemetry.
//!
//! Records (temperature, humidity and soil moisture readings from a
//! device) are kept in a stable, restart-surviving map keyed by a
//! monotonically increasing identifier, and offered through create,
//! read, update and delete operations with input validation.
//!
//! - [`record`]: the data model, validation, and the error taxonomy.
//! - [`codec`]: the binary encoding used on durable storage, with a
//!   proved round trip.
//! - [`store`]: the trusted interface to the stable-memory substrate.
//! - [`service`]: the operations, verified against the store invariant.
//! - [`text`]: verified rendering of the error messages.
//! - [`laws`]: proved properties relating several operations.

pub mod codec;
pub mod laws;
pub mod record;
pub mod service;
pub mod store;
pub mod text;

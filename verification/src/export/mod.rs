//! The generator façades: the concrete synchronous and asynchronous
//! generator types built around the driver.

pub mod asynk;
pub mod sync;

//! Components for NimBLE, the Bluetooth Low Energy stack used in RIOT

pub mod uuid;

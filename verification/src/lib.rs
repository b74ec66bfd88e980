//! Core of a screen-streaming service: frame change detection, encoding,
//! fan-out to independently paced viewers and the per-connection session
//! protocol, with the contracts of each stated and machine-checked.

pub mod capture;
pub mod config;
pub mod error;
pub mod frame;
pub mod hub;
pub mod input;
pub mod network;
pub mod utils;

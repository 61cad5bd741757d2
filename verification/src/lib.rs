//! Decoding layer for OBD-II vehicle diagnostics.
//!
//! A device hands over one byte sequence per responding ECU; this crate turns
//! those sequences into typed, validated values.

pub mod accessors;
pub mod commands;
pub mod decode;
pub mod echo;
pub mod error;
pub mod shape;
pub mod text;
pub mod types;

pub use error::{DeviceError, Error};
pub use types::{Dtc, DtcsInfo, Rpm};

//! Typed view of the status codes that the native FLAC stream encoder
//! returns from its initialisation routines.
//!
//! The native library reports the outcome of `FLAC__stream_encoder_init_*()`
//! as a small unsigned integer. Zero means that the encoder is ready; every
//! other reserved value names one reason for the failure. This crate gives
//! each of those reasons a variant of [`FlacEncoderInitError`] and proves that
//! the conversion between the two representations loses nothing.

pub mod encoder;

pub use encoder::error::{ClassificationFailure, FlacEncoderInitError};

//! Encoder-side status taxonomy.

pub mod error;
pub mod status;

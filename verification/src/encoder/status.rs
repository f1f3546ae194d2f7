//! The integer values that the native encoder's interface reserves for the
//! outcome of initialisation.
//!
//! The values are part of the native library's binary interface: they are
//! fixed by its public header and never change between builds.

use vstd::prelude::*;

verus! {

/// Initialisation succeeded. This is the only reserved value that names no
/// failure.
pub const INIT_STATUS_OK: u32 = 0;

/// General failure to set up the encoder.
pub const INIT_STATUS_ENCODER_ERROR: u32 = 1;

/// The library was built without support for the requested container.
pub const INIT_STATUS_UNSUPPORTED_CONTAINER: u32 = 2;

/// A required callback was not supplied.
pub const INIT_STATUS_INVALID_CALLBACKS: u32 = 3;

/// The number of channels is invalid.
pub const INIT_STATUS_INVALID_NUMBER_OF_CHANNELS: u32 = 4;

/// The bits-per-sample setting is invalid.
pub const INIT_STATUS_INVALID_BITS_PER_SAMPLE: u32 = 5;

/// The sample rate is invalid.
pub const INIT_STATUS_INVALID_SAMPLE_RATE: u32 = 6;

/// The block size is invalid.
pub const INIT_STATUS_INVALID_BLOCK_SIZE: u32 = 7;

/// The maximum LPC order is invalid.
pub const INIT_STATUS_INVALID_MAX_LPC_ORDER: u32 = 8;

/// The precision of the quantised linear predictor coefficients is invalid.
pub const INIT_STATUS_INVALID_QLP_COEFF_PRECISION: u32 = 9;

/// The block size is smaller than the maximum LPC order.
pub const INIT_STATUS_BLOCK_SIZE_TOO_SMALL_FOR_LPC_ORDER: u32 = 10;

/// The encoder is bound to the streamable subset, which other settings
/// violate.
pub const INIT_STATUS_NOT_STREAMABLE: u32 = 11;

/// The metadata handed to the encoder is invalid.
pub const INIT_STATUS_INVALID_METADATA: u32 = 12;

/// The encoder was already initialised.
pub const INIT_STATUS_ALREADY_INITIALIZED: u32 = 13;

/// Whether `raw` is one of the values reserved for a failed initialisation.
pub open spec fn is_failure_status(raw: u32) -> bool {
    ||| raw == INIT_STATUS_ENCODER_ERROR
    ||| raw == INIT_STATUS_UNSUPPORTED_CONTAINER
    ||| raw == INIT_STATUS_INVALID_CALLBACKS
    ||| raw == INIT_STATUS_INVALID_NUMBER_OF_CHANNELS
    ||| raw == INIT_STATUS_INVALID_BITS_PER_SAMPLE
    ||| raw == INIT_STATUS_INVALID_SAMPLE_RATE
    ||| raw == INIT_STATUS_INVALID_BLOCK_SIZE
    ||| raw == INIT_STATUS_INVALID_MAX_LPC_ORDER
    ||| raw == INIT_STATUS_INVALID_QLP_COEFF_PRECISION
    ||| raw == INIT_STATUS_BLOCK_SIZE_TOO_SMALL_FOR_LPC_ORDER
    ||| raw == INIT_STATUS_NOT_STREAMABLE
    ||| raw == INIT_STATUS_INVALID_METADATA
    ||| raw == INIT_STATUS_ALREADY_INITIALIZED
}

/// The values reserved for a failed initialisation, as a set.
pub open spec fn failure_statuses() -> Set<u32> {
    Set::new(|raw: u32| is_failure_status(raw))
}

/// The reserved failure values are pairwise distinct: there are thirteen of
/// them.
pub proof fn lemma_failure_statuses_count()
    ensures
        failure_statuses().finite(),
        failure_statuses().len() == 13,
{
    let listed: Set<u32> = set![
        INIT_STATUS_ENCODER_ERROR,
        INIT_STATUS_UNSUPPORTED_CONTAINER,
        INIT_STATUS_INVALID_CALLBACKS,
        INIT_STATUS_INVALID_NUMBER_OF_CHANNELS,
        INIT_STATUS_INVALID_BITS_PER_SAMPLE,
        INIT_STATUS_INVALID_SAMPLE_RATE,
        INIT_STATUS_INVALID_BLOCK_SIZE,
        INIT_STATUS_INVALID_MAX_LPC_ORDER,
        INIT_STATUS_INVALID_QLP_COEFF_PRECISION,
        INIT_STATUS_BLOCK_SIZE_TOO_SMALL_FOR_LPC_ORDER,
        INIT_STATUS_NOT_STREAMABLE,
        INIT_STATUS_INVALID_METADATA,
        INIT_STATUS_ALREADY_INITIALIZED
    ];
    assert(failure_statuses() =~= listed);
}

} // verus!

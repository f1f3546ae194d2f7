//! The reasons for which the native encoder refuses to initialise, as a type.

use vstd::prelude::*;

use crate::encoder::status::{
    is_failure_status, INIT_STATUS_ALREADY_INITIALIZED,
    INIT_STATUS_BLOCK_SIZE_TOO_SMALL_FOR_LPC_ORDER, INIT_STATUS_ENCODER_ERROR,
    INIT_STATUS_INVALID_BITS_PER_SAMPLE, INIT_STATUS_INVALID_BLOCK_SIZE,
    INIT_STATUS_INVALID_CALLBACKS, INIT_STATUS_INVALID_MAX_LPC_ORDER,
    INIT_STATUS_INVALID_METADATA, INIT_STATUS_INVALID_NUMBER_OF_CHANNELS,
    INIT_STATUS_INVALID_QLP_COEFF_PRECISION, INIT_STATUS_INVALID_SAMPLE_RATE,
    INIT_STATUS_NOT_STREAMABLE, INIT_STATUS_OK, INIT_STATUS_UNSUPPORTED_CONTAINER,
};

verus! {

/// Possible erroneous return values for the `FLAC__stream_encoder_init_*()` functions.
#[derive(Debug, Copy, Clone, Hash, PartialEq, Eq, PartialOrd, Ord, Structural)]
pub enum FlacEncoderInitError {
    /// General failure to set up encoder; call `FLAC__stream_encoder_get_state()` for cause.
    EncoderError,
    /// The library was not compiled with support for the given container format.
    UnsupportedContainer,
    /// A required callback was not supplied.
    InvalidCallbacks,
    /// The encoder has an invalid setting for number of channels.
    InvalidNumberOfChannels,
    /// The encoder has an invalid setting for bits-per-sample.
    ///
    /// FLAC supports 4-32 bps but the reference encoder currently supports only up to 24 bps.
    InvalidBitsPerSample,
    /// The encoder has an invalid setting for the input sample rate.
    InvalidSampleRate,
    /// The encoder has an invalid setting for the block size.
    InvalidBlockSize,
    /// The encoder has an invalid setting for the maximum LPC order.
    InvalidMaxLpcOrder,
    /// The encoder has an invalid setting for the precision of the quantized linear predictor
    /// coefficients.
    InvalidQlpCoeffPrecision,
    /// The specified block size is less than the maximum LPC order.
    BlockSizeTooSmallForLpcOrder,
    /// The encoder is bound to the streamable subset but other settings violate it.
    NotStreamable,
    /// The metadata input to the encoder is invalid, in one of the following ways:
    ///   * `FLAC__stream_encoder_set_metadata()` was called with a null pointer but a block
    ///     count > 0
    ///   * One of the metadata blocks contains an undefined type
    ///   * It contains an illegal CUESHEET as checked by `FLAC__format_cuesheet_is_legal()`
    ///   * It contains an illegal SEEKTABLE as checked by `FLAC__format_seektable_is_legal()`
    ///   * It contains more than one SEEKTABLE block or more than one VORBIS_COMMENT block
    InvalidMetadata,
    /// `FLAC__stream_encoder_init_*()` was called when the encoder was already initialized,
    /// usually because `FLAC__stream_encoder_finish()` was not called.
    AlreadyInitialized,
}

impl FlacEncoderInitError {
    /// The status value that the native interface reserves for this failure.
    pub open spec fn code(self) -> u32 {
        match self {
            FlacEncoderInitError::EncoderError => INIT_STATUS_ENCODER_ERROR,
            FlacEncoderInitError::UnsupportedContainer => INIT_STATUS_UNSUPPORTED_CONTAINER,
            FlacEncoderInitError::InvalidCallbacks => INIT_STATUS_INVALID_CALLBACKS,
            FlacEncoderInitError::InvalidNumberOfChannels => INIT_STATUS_INVALID_NUMBER_OF_CHANNELS,
            FlacEncoderInitError::InvalidBitsPerSample => INIT_STATUS_INVALID_BITS_PER_SAMPLE,
            FlacEncoderInitError::InvalidSampleRate => INIT_STATUS_INVALID_SAMPLE_RATE,
            FlacEncoderInitError::InvalidBlockSize => INIT_STATUS_INVALID_BLOCK_SIZE,
            FlacEncoderInitError::InvalidMaxLpcOrder => INIT_STATUS_INVALID_MAX_LPC_ORDER,
            FlacEncoderInitError::InvalidQlpCoeffPrecision => INIT_STATUS_INVALID_QLP_COEFF_PRECISION,
            FlacEncoderInitError::BlockSizeTooSmallForLpcOrder => INIT_STATUS_BLOCK_SIZE_TOO_SMALL_FOR_LPC_ORDER,
            FlacEncoderInitError::NotStreamable => INIT_STATUS_NOT_STREAMABLE,
            FlacEncoderInitError::InvalidMetadata => INIT_STATUS_INVALID_METADATA,
            FlacEncoderInitError::AlreadyInitialized => INIT_STATUS_ALREADY_INITIALIZED,
        }
    }

    /// Returns the status value that the native interface reserves for this failure.
    pub fn to_raw(self) -> (raw: u32)
        ensures
            raw == self.code(),
            is_failure_status(raw),
    {
        match self {
            FlacEncoderInitError::EncoderError => INIT_STATUS_ENCODER_ERROR,
            FlacEncoderInitError::UnsupportedContainer => INIT_STATUS_UNSUPPORTED_CONTAINER,
            FlacEncoderInitError::InvalidCallbacks => INIT_STATUS_INVALID_CALLBACKS,
            FlacEncoderInitError::InvalidNumberOfChannels => INIT_STATUS_INVALID_NUMBER_OF_CHANNELS,
            FlacEncoderInitError::InvalidBitsPerSample => INIT_STATUS_INVALID_BITS_PER_SAMPLE,
            FlacEncoderInitError::InvalidSampleRate => INIT_STATUS_INVALID_SAMPLE_RATE,
            FlacEncoderInitError::InvalidBlockSize => INIT_STATUS_INVALID_BLOCK_SIZE,
            FlacEncoderInitError::InvalidMaxLpcOrder => INIT_STATUS_INVALID_MAX_LPC_ORDER,
            FlacEncoderInitError::InvalidQlpCoeffPrecision => INIT_STATUS_INVALID_QLP_COEFF_PRECISION,
            FlacEncoderInitError::BlockSizeTooSmallForLpcOrder => INIT_STATUS_BLOCK_SIZE_TOO_SMALL_FOR_LPC_ORDER,
            FlacEncoderInitError::NotStreamable => INIT_STATUS_NOT_STREAMABLE,
            FlacEncoderInitError::InvalidMetadata => INIT_STATUS_INVALID_METADATA,
            FlacEncoderInitError::AlreadyInitialized => INIT_STATUS_ALREADY_INITIALIZED,
        }
    }

    /// What a status value stands for: the failure that the native interface
    /// reports as `raw`, where there is one.
    pub open spec fn classified(raw: u32) -> Result<FlacEncoderInitError, ClassificationFailure> {
        if exists|e: FlacEncoderInitError| #[trigger] e.code() == raw {
            Ok(choose|e: FlacEncoderInitError| #[trigger] e.code() == raw)
        } else {
            Err(ClassificationFailure::UnknownCode)
        }
    }

    /// Looks `raw` up among the status values reserved for a failed
    /// initialisation.
    ///
    /// Every value is accepted. One that names no failure, the success status
    /// among them, is reported as [`ClassificationFailure::UnknownCode`] and
    /// never mapped to a variant.
    pub fn classify(raw: u32) -> (res: Result<FlacEncoderInitError, ClassificationFailure>)
        ensures
            res == Self::classified(raw),
            res is Ok <==> is_failure_status(raw),
            res matches Ok(e) ==> e.code() == raw,
    {
        let res = match raw {
            INIT_STATUS_ENCODER_ERROR => Ok(FlacEncoderInitError::EncoderError),
            INIT_STATUS_UNSUPPORTED_CONTAINER => Ok(FlacEncoderInitError::UnsupportedContainer),
            INIT_STATUS_INVALID_CALLBACKS => Ok(FlacEncoderInitError::InvalidCallbacks),
            INIT_STATUS_INVALID_NUMBER_OF_CHANNELS => Ok(FlacEncoderInitError::InvalidNumberOfChannels),
            INIT_STATUS_INVALID_BITS_PER_SAMPLE => Ok(FlacEncoderInitError::InvalidBitsPerSample),
            INIT_STATUS_INVALID_SAMPLE_RATE => Ok(FlacEncoderInitError::InvalidSampleRate),
            INIT_STATUS_INVALID_BLOCK_SIZE => Ok(FlacEncoderInitError::InvalidBlockSize),
            INIT_STATUS_INVALID_MAX_LPC_ORDER => Ok(FlacEncoderInitError::InvalidMaxLpcOrder),
            INIT_STATUS_INVALID_QLP_COEFF_PRECISION => Ok(FlacEncoderInitError::InvalidQlpCoeffPrecision),
            INIT_STATUS_BLOCK_SIZE_TOO_SMALL_FOR_LPC_ORDER => Ok(FlacEncoderInitError::BlockSizeTooSmallForLpcOrder),
            INIT_STATUS_NOT_STREAMABLE => Ok(FlacEncoderInitError::NotStreamable),
            INIT_STATUS_INVALID_METADATA => Ok(FlacEncoderInitError::InvalidMetadata),
            INIT_STATUS_ALREADY_INITIALIZED => Ok(FlacEncoderInitError::AlreadyInitialized),
            _ => Err(ClassificationFailure::UnknownCode),
        };
        proof {
            if let Ok(e) = res {
                assert(e.code() == raw);
            }
        }
        res
    }
}

impl Into<u32> for FlacEncoderInitError {
    /// Same as [`FlacEncoderInitError::to_raw`].
    fn into(self) -> (raw: u32) {
        self.to_raw()
    }
}

impl vstd::std_specs::convert::IntoSpecImpl<u32> for FlacEncoderInitError {
    open spec fn obeys_into_spec() -> bool {
        true
    }

    open spec fn into_spec(self) -> u32 {
        self.code()
    }
}

impl TryFrom<u32> for FlacEncoderInitError {
    type Error = ();

    /// Same as [`FlacEncoderInitError::classify`], with the failure reduced to `()`.
    fn try_from(raw: u32) -> (res: Result<FlacEncoderInitError, ()>) {
        match FlacEncoderInitError::classify(raw) {
            Ok(e) => Ok(e),
            Err(_) => Err(()),
        }
    }
}

impl vstd::std_specs::convert::TryFromSpecImpl<u32> for FlacEncoderInitError {
    open spec fn obeys_try_from_spec() -> bool {
        true
    }

    open spec fn try_from_spec(raw: u32) -> Result<FlacEncoderInitError, ()> {
        match FlacEncoderInitError::classified(raw) {
            Ok(e) => Ok(e),
            Err(_) => Err(()),
        }
    }
}

/// Why a status value could not be classified.
#[derive(Debug, Copy, Clone, Hash, PartialEq, Eq, Structural)]
pub enum ClassificationFailure {
    /// The value is not reserved for any failure of initialisation.
    UnknownCode,
}

/// Classifying the status value of a failure gives that failure back.
pub proof fn lemma_classified_inverts_code(e: FlacEncoderInitError)
    ensures
        FlacEncoderInitError::classified(e.code()) == Ok::<
            FlacEncoderInitError,
            ClassificationFailure,
        >(e),
{
    let found = choose|f: FlacEncoderInitError| #[trigger] f.code() == e.code();
    lemma_codes_distinct(found, e);
}

/// A status value classifies as a failure exactly when it is reserved for
/// one, and then the failure found is the one reported as that value.
pub proof fn lemma_code_inverts_classified(raw: u32)
    ensures
        FlacEncoderInitError::classified(raw) is Ok <==> is_failure_status(raw),
        FlacEncoderInitError::classified(raw) matches Ok(e) ==> e.code() == raw,
{
    if is_failure_status(raw) {
        let e = lemma_failure_status_has_variant(raw);
        assert(e.code() == raw);
    }
}

/// The status value of a failure is one of the reserved values, and is not
/// the success status.
pub proof fn lemma_code_is_failure_status(e: FlacEncoderInitError)
    ensures
        is_failure_status(e.code()),
        e.code() != INIT_STATUS_OK,
{
}

/// A value that is reserved for no failure, the success status among them,
/// classifies as unknown.
pub proof fn lemma_unreserved_is_unknown(raw: u32)
    requires
        !is_failure_status(raw),
    ensures
        FlacEncoderInitError::classified(raw) == Err::<
            FlacEncoderInitError,
            ClassificationFailure,
        >(ClassificationFailure::UnknownCode),
{
    lemma_code_inverts_classified(raw);
}

/// Two different failures never share a status value.
pub proof fn lemma_codes_distinct(a: FlacEncoderInitError, b: FlacEncoderInitError)
    ensures
        a.code() == b.code() ==> a == b,
{
}

/// Every value reserved for a failure is the status value of some variant.
proof fn lemma_failure_status_has_variant(raw: u32) -> (e: FlacEncoderInitError)
    requires
        is_failure_status(raw),
    ensures
        e.code() == raw,
{
    if raw == INIT_STATUS_ENCODER_ERROR {
        FlacEncoderInitError::EncoderError
    } else if raw == INIT_STATUS_UNSUPPORTED_CONTAINER {
        FlacEncoderInitError::UnsupportedContainer
    } else if raw == INIT_STATUS_INVALID_CALLBACKS {
        FlacEncoderInitError::InvalidCallbacks
    } else if raw == INIT_STATUS_INVALID_NUMBER_OF_CHANNELS {
        FlacEncoderInitError::InvalidNumberOfChannels
    } else if raw == INIT_STATUS_INVALID_BITS_PER_SAMPLE {
        FlacEncoderInitError::InvalidBitsPerSample
    } else if raw == INIT_STATUS_INVALID_SAMPLE_RATE {
        FlacEncoderInitError::InvalidSampleRate
    } else if raw == INIT_STATUS_INVALID_BLOCK_SIZE {
        FlacEncoderInitError::InvalidBlockSize
    } else if raw == INIT_STATUS_INVALID_MAX_LPC_ORDER {
        FlacEncoderInitError::InvalidMaxLpcOrder
    } else if raw == INIT_STATUS_INVALID_QLP_COEFF_PRECISION {
        FlacEncoderInitError::InvalidQlpCoeffPrecision
    } else if raw == INIT_STATUS_BLOCK_SIZE_TOO_SMALL_FOR_LPC_ORDER {
        FlacEncoderInitError::BlockSizeTooSmallForLpcOrder
    } else if raw == INIT_STATUS_NOT_STREAMABLE {
        FlacEncoderInitError::NotStreamable
    } else if raw == INIT_STATUS_INVALID_METADATA {
        FlacEncoderInitError::InvalidMetadata
    } else {
        FlacEncoderInitError::AlreadyInitialized
    }
}

} // verus!

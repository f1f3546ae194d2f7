use std::collections::HashSet;
use std::convert::TryFrom;

use flac_bound::encoder::status::{
    INIT_STATUS_ALREADY_INITIALIZED, INIT_STATUS_BLOCK_SIZE_TOO_SMALL_FOR_LPC_ORDER,
    INIT_STATUS_ENCODER_ERROR, INIT_STATUS_INVALID_BITS_PER_SAMPLE,
    INIT_STATUS_INVALID_BLOCK_SIZE, INIT_STATUS_INVALID_CALLBACKS,
    INIT_STATUS_INVALID_MAX_LPC_ORDER, INIT_STATUS_INVALID_METADATA,
    INIT_STATUS_INVALID_NUMBER_OF_CHANNELS, INIT_STATUS_INVALID_QLP_COEFF_PRECISION,
    INIT_STATUS_INVALID_SAMPLE_RATE, INIT_STATUS_NOT_STREAMABLE, INIT_STATUS_OK,
    INIT_STATUS_UNSUPPORTED_CONTAINER,
};
use flac_bound::{ClassificationFailure, FlacEncoderInitError};

fn all_variants() -> Vec<FlacEncoderInitError> {
    vec![
        FlacEncoderInitError::EncoderError,
        FlacEncoderInitError::UnsupportedContainer,
        FlacEncoderInitError::InvalidCallbacks,
        FlacEncoderInitError::InvalidNumberOfChannels,
        FlacEncoderInitError::InvalidBitsPerSample,
        FlacEncoderInitError::InvalidSampleRate,
        FlacEncoderInitError::InvalidBlockSize,
        FlacEncoderInitError::InvalidMaxLpcOrder,
        FlacEncoderInitError::InvalidQlpCoeffPrecision,
        FlacEncoderInitError::BlockSizeTooSmallForLpcOrder,
        FlacEncoderInitError::NotStreamable,
        FlacEncoderInitError::InvalidMetadata,
        FlacEncoderInitError::AlreadyInitialized,
    ]
}

#[test]
fn reserved_constants_have_the_native_values() {
    assert_eq!(INIT_STATUS_OK, 0);
    assert_eq!(INIT_STATUS_ENCODER_ERROR, 1);
    assert_eq!(INIT_STATUS_UNSUPPORTED_CONTAINER, 2);
    assert_eq!(INIT_STATUS_INVALID_CALLBACKS, 3);
    assert_eq!(INIT_STATUS_INVALID_NUMBER_OF_CHANNELS, 4);
    assert_eq!(INIT_STATUS_INVALID_BITS_PER_SAMPLE, 5);
    assert_eq!(INIT_STATUS_INVALID_SAMPLE_RATE, 6);
    assert_eq!(INIT_STATUS_INVALID_BLOCK_SIZE, 7);
    assert_eq!(INIT_STATUS_INVALID_MAX_LPC_ORDER, 8);
    assert_eq!(INIT_STATUS_INVALID_QLP_COEFF_PRECISION, 9);
    assert_eq!(INIT_STATUS_BLOCK_SIZE_TOO_SMALL_FOR_LPC_ORDER, 10);
    assert_eq!(INIT_STATUS_NOT_STREAMABLE, 11);
    assert_eq!(INIT_STATUS_INVALID_METADATA, 12);
    assert_eq!(INIT_STATUS_ALREADY_INITIALIZED, 13);
}

#[test]
fn to_raw_gives_each_variant_its_reserved_value() {
    assert_eq!(FlacEncoderInitError::EncoderError.to_raw(), 1);
    assert_eq!(FlacEncoderInitError::UnsupportedContainer.to_raw(), 2);
    assert_eq!(FlacEncoderInitError::InvalidCallbacks.to_raw(), 3);
    assert_eq!(FlacEncoderInitError::InvalidNumberOfChannels.to_raw(), 4);
    assert_eq!(FlacEncoderInitError::InvalidBitsPerSample.to_raw(), 5);
    assert_eq!(FlacEncoderInitError::InvalidSampleRate.to_raw(), 6);
    assert_eq!(FlacEncoderInitError::InvalidBlockSize.to_raw(), 7);
    assert_eq!(FlacEncoderInitError::InvalidMaxLpcOrder.to_raw(), 8);
    assert_eq!(FlacEncoderInitError::InvalidQlpCoeffPrecision.to_raw(), 9);
    assert_eq!(FlacEncoderInitError::BlockSizeTooSmallForLpcOrder.to_raw(), 10);
    assert_eq!(FlacEncoderInitError::NotStreamable.to_raw(), 11);
    assert_eq!(FlacEncoderInitError::InvalidMetadata.to_raw(), 12);
    assert_eq!(FlacEncoderInitError::AlreadyInitialized.to_raw(), 13);
}

#[test]
fn to_raw_never_gives_the_success_status() {
    for error in all_variants() {
        let raw = error.to_raw();
        assert_ne!(raw, INIT_STATUS_OK);
        assert!((INIT_STATUS_ENCODER_ERROR..=INIT_STATUS_ALREADY_INITIALIZED).contains(&raw));
    }
}

#[test]
fn classify_inverts_to_raw_for_every_variant() {
    for error in all_variants() {
        assert_eq!(FlacEncoderInitError::classify(error.to_raw()), Ok(error));
    }
}

#[test]
fn try_from_inverts_into_for_every_variant() {
    for error in all_variants() {
        let raw: u32 = error.into();
        assert_eq!(FlacEncoderInitError::try_from(raw), Ok(error));
    }
}

#[test]
fn to_raw_inverts_classify_for_every_reserved_value() {
    for raw in 1u32..=13 {
        let error = FlacEncoderInitError::classify(raw).unwrap();
        assert_eq!(error.to_raw(), raw);
    }
}

#[test]
fn classify_gives_each_reserved_value_its_variant() {
    let expected = all_variants();
    for (index, error) in expected.iter().enumerate() {
        let raw = index as u32 + 1;
        assert_eq!(FlacEncoderInitError::classify(raw), Ok(*error));
    }
}

#[test]
fn classify_rejects_the_success_status() {
    assert_eq!(
        FlacEncoderInitError::classify(0),
        Err(ClassificationFailure::UnknownCode)
    );
    assert_eq!(
        FlacEncoderInitError::classify(INIT_STATUS_OK),
        Err(ClassificationFailure::UnknownCode)
    );
}

#[test]
fn try_from_rejects_the_success_status() {
    assert_eq!(FlacEncoderInitError::try_from(0u32), Err(()));
}

#[test]
fn classify_rejects_values_outside_the_reserved_ones() {
    let minus_one = u32::MAX;
    for raw in [14u32, 255, 1000, 9999, 0x8000_0000, minus_one] {
        assert_eq!(
            FlacEncoderInitError::classify(raw),
            Err(ClassificationFailure::UnknownCode)
        );
        assert_eq!(FlacEncoderInitError::try_from(raw), Err(()));
    }
}

#[test]
fn classify_accepts_exactly_the_reserved_values() {
    for raw in 0u32..=70_000 {
        let expected_ok = (1..=13).contains(&raw);
        assert_eq!(FlacEncoderInitError::classify(raw).is_ok(), expected_ok);
        assert_eq!(FlacEncoderInitError::try_from(raw).is_ok(), expected_ok);
    }
}

#[test]
fn first_value_past_the_reserved_ones_is_unknown() {
    assert_eq!(
        FlacEncoderInitError::classify(INIT_STATUS_ALREADY_INITIALIZED + 1),
        Err(ClassificationFailure::UnknownCode)
    );
}

#[test]
fn status_values_are_pairwise_distinct() {
    let raws: HashSet<u32> = all_variants().into_iter().map(|e| e.to_raw()).collect();
    assert_eq!(raws.len(), 13);
    let variants: HashSet<FlacEncoderInitError> = all_variants().into_iter().collect();
    assert_eq!(variants.len(), 13);
}

#[test]
fn classify_encoder_error() {
    assert_eq!(
        FlacEncoderInitError::classify(INIT_STATUS_ENCODER_ERROR),
        Ok(FlacEncoderInitError::EncoderError)
    );
}

#[test]
fn classify_already_initialized() {
    assert_eq!(
        FlacEncoderInitError::classify(INIT_STATUS_ALREADY_INITIALIZED),
        Ok(FlacEncoderInitError::AlreadyInitialized)
    );
}

#[test]
fn to_raw_not_streamable() {
    assert_eq!(
        FlacEncoderInitError::NotStreamable.to_raw(),
        INIT_STATUS_NOT_STREAMABLE
    );
    assert_eq!(FlacEncoderInitError::NotStreamable.to_raw(), 11);
}

#[test]
fn classify_9999_is_unknown() {
    assert_eq!(
        FlacEncoderInitError::classify(9999),
        Err(ClassificationFailure::UnknownCode)
    );
}

#[test]
fn into_agrees_with_to_raw() {
    for error in all_variants() {
        let raw: u32 = error.into();
        assert_eq!(raw, error.to_raw());
    }
}

#[test]
fn try_from_agrees_with_classify() {
    for raw in 0u32..=32 {
        assert_eq!(
            FlacEncoderInitError::try_from(raw).ok(),
            FlacEncoderInitError::classify(raw).ok()
        );
    }
}

#[test]
fn variants_are_ordered_as_their_status_values() {
    for a in all_variants() {
        for b in all_variants() {
            assert_eq!(a.cmp(&b), a.to_raw().cmp(&b.to_raw()));
            assert_eq!(a == b, a.to_raw() == b.to_raw());
        }
    }
    assert!(FlacEncoderInitError::EncoderError < FlacEncoderInitError::AlreadyInitialized);
}

#[test]
fn values_are_copied_and_printed_by_name() {
    let error = FlacEncoderInitError::InvalidMetadata;
    let copy = error;
    assert_eq!(error, copy);
    assert_eq!(format!("{:?}", error), "InvalidMetadata");
    assert_eq!(
        format!("{:?}", ClassificationFailure::UnknownCode),
        "UnknownCode"
    );
}

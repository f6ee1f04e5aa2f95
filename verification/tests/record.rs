use offchain_indexing::config::ResolvedIndexingState;
use offchain_indexing::error::ReconcileError;
use offchain_indexing::record::PersistedRecord;
use parity_scale_codec::{Decode, Encode};

fn record(enabled: bool, needs_warning: bool) -> PersistedRecord {
    PersistedRecord { enabled, needs_warning }
}

#[test]
fn encode_writes_two_flag_bytes() {
    assert_eq!(record(false, false).encode(), vec![0u8, 0u8]);
    assert_eq!(record(true, false).encode(), vec![1u8, 0u8]);
    assert_eq!(record(false, true).encode(), vec![0u8, 1u8]);
    assert_eq!(record(true, true).encode(), vec![1u8, 1u8]);
}

#[test]
fn encode_agrees_with_the_codec_on_a_pair() {
    for enabled in [false, true] {
        for needs_warning in [false, true] {
            assert_eq!(
                record(enabled, needs_warning).encode(),
                (enabled, needs_warning).encode()
            );
        }
    }
}

#[test]
fn decode_inverts_encode_for_every_record() {
    for enabled in [false, true] {
        for needs_warning in [false, true] {
            let written = record(enabled, needs_warning);
            let bytes = written.encode();
            assert_eq!(PersistedRecord::decode(&bytes), Ok(written));
        }
    }
}

#[test]
fn decode_reads_two_bytes_in_order() {
    assert_eq!(PersistedRecord::decode(&[1, 0]), Ok(record(true, false)));
    assert_eq!(PersistedRecord::decode(&[0, 1]), Ok(record(false, true)));
    assert_eq!(PersistedRecord::decode(&[0, 0]), Ok(record(false, false)));
    assert_eq!(PersistedRecord::decode(&[1, 1]), Ok(record(true, true)));
}

#[test]
fn decode_accepts_what_the_codec_wrote() {
    let bytes = (true, true).encode();
    assert_eq!(PersistedRecord::decode(&bytes), Ok(record(true, true)));
    let decoded = <(bool, bool)>::decode(&mut &record(false, true).encode()[..]);
    assert_eq!(decoded, Ok((false, true)));
}

#[test]
fn legacy_single_byte_decodes_without_warning() {
    assert_eq!(PersistedRecord::decode(&[1]), Ok(record(true, false)));
    assert_eq!(PersistedRecord::decode(&[0]), Ok(record(false, false)));
    assert_eq!(PersistedRecord::decode(&true.encode()), Ok(record(true, false)));
    assert_eq!(PersistedRecord::decode(&false.encode()), Ok(record(false, false)));
}

#[test]
fn decode_rejects_other_lengths() {
    assert_eq!(PersistedRecord::decode(&[]), Err(ReconcileError::DecodeError));
    assert_eq!(PersistedRecord::decode(&[1, 0, 0]), Err(ReconcileError::DecodeError));
    assert_eq!(PersistedRecord::decode(&[0, 0, 0, 0]), Err(ReconcileError::DecodeError));
}

#[test]
fn decode_rejects_bytes_that_are_no_boolean() {
    assert_eq!(PersistedRecord::decode(&[2]), Err(ReconcileError::DecodeError));
    assert_eq!(PersistedRecord::decode(&[255]), Err(ReconcileError::DecodeError));
    assert_eq!(PersistedRecord::decode(&[2, 0]), Err(ReconcileError::DecodeError));
    assert_eq!(PersistedRecord::decode(&[0, 2]), Err(ReconcileError::DecodeError));
    assert_eq!(PersistedRecord::decode(&[1, 255]), Err(ReconcileError::DecodeError));
}

#[test]
fn record_resolves_to_its_flag() {
    assert_eq!(record(true, false).resolved(), ResolvedIndexingState::Enabled);
    assert_eq!(record(true, true).resolved(), ResolvedIndexingState::Enabled);
    assert_eq!(record(false, false).resolved(), ResolvedIndexingState::Disabled);
    assert_eq!(record(false, true).resolved(), ResolvedIndexingState::Disabled);
}

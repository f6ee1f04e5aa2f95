//! The record that the start-up check keeps in the metadata store, and its
//! encoding.
//!
//! A record is encoded with the SCALE codec as a pair of booleans: two
//! bytes, each `0x00` or `0x01`. Databases written before the warning latch
//! existed hold a single boolean, one byte, which still decodes.

use crate::config::ResolvedIndexingState;
use crate::error::ReconcileError;
use parity_scale_codec::{Decode, Encode};
use vstd::prelude::*;

verus! {

/// The error of the SCALE codec, carried through without looking inside.
#[verifier::external_type_specification]
#[verifier::external_body]
pub struct ExCodecError(parity_scale_codec::Error);

/// The byte that encodes a boolean.
pub open spec fn flag_byte(flag: bool) -> u8 {
    if flag {
        1u8
    } else {
        0u8
    }
}

/// Whether a byte encodes a boolean.
pub open spec fn is_flag_byte(byte: u8) -> bool {
    byte == 0 || byte == 1
}

/// Calls `Encode::encode` of `parity_scale_codec` on a pair of booleans.
/// Trusted: the codec writes one byte for each boolean, first component
/// first, `0x01` for `true` and `0x00` for `false`, and nothing else.
#[verifier::external_body]
fn scale_encode_flags(enabled: bool, needs_warning: bool) -> (bytes: Vec<u8>)
    ensures
        bytes@ == seq![flag_byte(enabled), flag_byte(needs_warning)],
{
    (enabled, needs_warning).encode()
}

/// Calls `Decode::decode` of `parity_scale_codec` for a pair of booleans on
/// a byte slice. Trusted: the codec reads the first two bytes, fails if
/// there are fewer than two or if either is neither `0x00` nor `0x01`, and
/// otherwise returns the two booleans in order; bytes after the second are
/// not looked at.
#[verifier::external_body]
fn scale_decode_flags(raw: &[u8]) -> (decoded: Result<(bool, bool), parity_scale_codec::Error>)
    ensures
        decoded is Ok <==> (raw@.len() >= 2 && is_flag_byte(raw@[0]) && is_flag_byte(raw@[1])),
        decoded matches Ok(flags) ==> (raw@.len() >= 2 && raw@[0] == flag_byte(flags.0) && raw@[1]
            == flag_byte(flags.1)),
{
    let mut input = raw;
    <(bool, bool)>::decode(&mut input)
}

/// Calls `Decode::decode` of `parity_scale_codec` for one boolean on a byte
/// slice. Trusted: the codec reads the first byte, fails if there is none
/// or if it is neither `0x00` nor `0x01`, and otherwise returns the boolean
/// it stands for; bytes after the first are not looked at.
#[verifier::external_body]
fn scale_decode_flag(raw: &[u8]) -> (decoded: Result<bool, parity_scale_codec::Error>)
    ensures
        decoded is Ok <==> (raw@.len() >= 1 && is_flag_byte(raw@[0])),
        decoded matches Ok(flag) ==> (raw@.len() >= 1 && raw@[0] == flag_byte(flag)),
{
    let mut input = raw;
    bool::decode(&mut input)
}

/// What the start-up check remembers from one run to the next.
#[derive(Debug, Clone, Copy, PartialEq, Eq, Structural)]
pub struct PersistedRecord {
    /// Whether the indexing API is enabled for this database.
    pub enabled: bool,
    /// A latch: set once a forced override changed `enabled`, and never
    /// cleared afterwards. Historical offchain data may then be incomplete.
    pub needs_warning: bool,
}

impl PersistedRecord {
    /// The canonical encoding: two bytes, `enabled` first.
    pub open spec fn spec_encode(self) -> Seq<u8> {
        seq![flag_byte(self.enabled), flag_byte(self.needs_warning)]
    }

    /// The record that stored bytes stand for, if any. Two bytes are a
    /// record in the canonical encoding; one byte is a record of the older
    /// format, whose latch is unset. Each byte must encode a boolean. Any
    /// other length is no record.
    pub open spec fn spec_decode(raw: Seq<u8>) -> Option<PersistedRecord> {
        if raw.len() == 2 && is_flag_byte(raw[0]) && is_flag_byte(raw[1]) {
            Some(PersistedRecord { enabled: raw[0] == 1, needs_warning: raw[1] == 1 })
        } else if raw.len() == 1 && is_flag_byte(raw[0]) {
            Some(PersistedRecord { enabled: raw[0] == 1, needs_warning: false })
        } else {
            None
        }
    }

    /// The state that a node running on this record resolves to.
    pub open spec fn spec_resolved(self) -> ResolvedIndexingState {
        ResolvedIndexingState::of_flag(self.enabled)
    }

    /// Encodes the record for the metadata store.
    pub fn encode(&self) -> (bytes: Vec<u8>)
        ensures
            bytes@ == self.spec_encode(),
    {
        scale_encode_flags(self.enabled, self.needs_warning)
    }

    /// Decodes stored bytes. Fails with `DecodeError` exactly on the bytes
    /// that are no record.
    pub fn decode(raw: &[u8]) -> (decoded: Result<PersistedRecord, ReconcileError>)
        ensures
            decoded == match PersistedRecord::spec_decode(raw@) {
                Some(record) => Ok::<PersistedRecord, ReconcileError>(record),
                None => Err(ReconcileError::DecodeError),
            },
    {
        if raw.len() == 2 {
            match scale_decode_flags(raw) {
                Ok((enabled, needs_warning)) => Ok(PersistedRecord { enabled, needs_warning }),
                Err(_) => Err(ReconcileError::DecodeError),
            }
        } else if raw.len() == 1 {
            match scale_decode_flag(raw) {
                Ok(enabled) => Ok(PersistedRecord { enabled, needs_warning: false }),
                Err(_) => Err(ReconcileError::DecodeError),
            }
        } else {
            Err(ReconcileError::DecodeError)
        }
    }

    /// The state that a node running on this record resolves to.
    pub fn resolved(&self) -> (state: ResolvedIndexingState)
        ensures
            state == self.spec_resolved(),
    {
        ResolvedIndexingState::from_flag(self.enabled)
    }
}

/// Decoding the encoding of a record gives the record back.
pub proof fn lemma_decode_inverts_encode(record: PersistedRecord)
    ensures
        PersistedRecord::spec_decode(record.spec_encode()) == Some(record),
{
}

/// A record of the older format, a single boolean, decodes to that boolean
/// with the latch unset.
pub proof fn lemma_legacy_record_has_no_warning(enabled: bool)
    ensures
        PersistedRecord::spec_decode(seq![flag_byte(enabled)]) == Some(
            PersistedRecord { enabled, needs_warning: false },
        ),
{
}

/// The canonical encoding is the only two-byte sequence that decodes to a
/// record: encoding what was decoded from two bytes gives the bytes back.
pub proof fn lemma_encode_inverts_decode(raw: Seq<u8>)
    requires
        raw.len() == 2,
        PersistedRecord::spec_decode(raw) is Some,
    ensures
        PersistedRecord::spec_decode(raw).unwrap().spec_encode() == raw,
{
}

} // verus!

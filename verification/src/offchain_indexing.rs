//! Offchain indexing specific validation.
//!
//! On every start the node reconciles the state that the operator asks for
//! with the record that an earlier run left in the metadata store, so that
//! indexing does not silently change between executions. Reading and
//! writing the store is the caller's part: it hands in what the store
//! returned for the reserved entry, writes the record that comes back, and
//! reports how the write went.

use crate::config::{OffchainIndexingConfig, OffchainIndexingState, ResolvedIndexingState};
use crate::error::{ReconcileError, ResyncReason, Warning};
use crate::record::PersistedRecord;
use vstd::prelude::*;

verus! {

/// The value of `enabled` that a request names, if it names one. `Default`
/// names none.
pub open spec fn requested_value(state: OffchainIndexingState) -> Option<bool> {
    match state {
        OffchainIndexingState::Default => None,
        OffchainIndexingState::Enable | OffchainIndexingState::ForceEnable => Some(true),
        OffchainIndexingState::Disable | OffchainIndexingState::ForceDisable => Some(false),
    }
}

/// Whether a request overrides what the database recorded.
pub open spec fn is_forced(state: OffchainIndexingState) -> bool {
    state == OffchainIndexingState::ForceEnable || state == OffchainIndexingState::ForceDisable
}

/// The record of a first start: the requested value, or the validator role
/// where none is requested, with the latch unset.
pub open spec fn spec_first_record(config: OffchainIndexingConfig) -> PersistedRecord {
    PersistedRecord {
        enabled: match requested_value(config.state) {
            Some(enabled) => enabled,
            None => config.is_validator,
        },
        needs_warning: false,
    }
}

/// The record that follows `previous` under a request. A request that
/// names no value, or the recorded one, leaves the record as it is. A
/// request for the other value is an error unless it is forced, and a
/// forced one sets the latch.
pub open spec fn spec_next_record(previous: PersistedRecord, state: OffchainIndexingState) -> Result<
    PersistedRecord,
    ResyncReason,
> {
    match requested_value(state) {
        None => Ok(previous),
        Some(enabled) => if enabled == previous.enabled {
            Ok(previous)
        } else if is_forced(state) {
            Ok(PersistedRecord { enabled, needs_warning: true })
        } else if previous.enabled {
            Err(ResyncReason::IndexingRequired)
        } else {
            Err(ResyncReason::IndexingMissing)
        },
    }
}

/// The record to persist, given the record of the previous run, if there
/// was one.
pub open spec fn spec_resolve(
    previous: Option<PersistedRecord>,
    config: OffchainIndexingConfig,
) -> Result<PersistedRecord, ReconcileError> {
    match previous {
        None => Ok(spec_first_record(config)),
        Some(previous) => match spec_next_record(previous, config.state) {
            Ok(record) => Ok(record),
            Err(reason) => Err(ReconcileError::ResyncRequired { reason }),
        },
    }
}

/// Decides the record to persist from the record of the previous run, if
/// there was one, and the operator's configuration. Fails with
/// `ResyncRequired` exactly when the request names, without force, the
/// value that the record does not hold.
pub fn resolve_record(previous: Option<PersistedRecord>, config: &OffchainIndexingConfig) -> (resolved:
    Result<PersistedRecord, ReconcileError>)
    ensures
        resolved == spec_resolve(previous, *config),
{
    match previous {
        Some(previous) => {
            let mut needs_warning = previous.needs_warning;
            let enabled = match (previous.enabled, config.state) {
                (true, OffchainIndexingState::Disable) => {
                    return Err(
                        ReconcileError::ResyncRequired { reason: ResyncReason::IndexingRequired },
                    );
                },
                (false, OffchainIndexingState::Enable) => {
                    return Err(
                        ReconcileError::ResyncRequired { reason: ResyncReason::IndexingMissing },
                    );
                },
                // no change
                (true, OffchainIndexingState::Enable) => true,
                (true, OffchainIndexingState::ForceEnable) => true,
                // no change
                (false, OffchainIndexingState::Disable) => false,
                (false, OffchainIndexingState::ForceDisable) => false,
                // force overwrite
                (true, OffchainIndexingState::ForceDisable) => {
                    needs_warning = true;
                    false
                },
                (false, OffchainIndexingState::ForceEnable) => {
                    needs_warning = true;
                    true
                },
                (recorded, OffchainIndexingState::Default) => recorded,
            };
            Ok(PersistedRecord { enabled, needs_warning })
        },
        None => {
            // the database does not contain this value,
            // which implies this is the first start
            let enabled = match config.state {
                OffchainIndexingState::Default => config.is_validator,
                OffchainIndexingState::Enable | OffchainIndexingState::ForceEnable => true,
                OffchainIndexingState::Disable | OffchainIndexingState::ForceDisable => false,
            };
            Ok(PersistedRecord { enabled, needs_warning: false })
        },
    }
}

/// What the store returned for the reserved entry, the stored bytes taken
/// as a sequence: an error message if the read failed, nothing if the
/// entry is absent.
pub open spec fn fetched_bytes(fetched: Result<Option<Vec<u8>>, String>) -> Result<
    Option<Seq<u8>>,
    String,
> {
    match fetched {
        Ok(Some(raw)) => Ok(Some(raw@)),
        Ok(None) => Ok(None),
        Err(message) => Err(message),
    }
}

/// The record of the previous run as the store's answer gives it: none if
/// the entry is absent, `StoreError` if the read failed, `DecodeError` if
/// the stored bytes are no record.
pub open spec fn spec_read(fetched: Result<Option<Seq<u8>>, String>) -> Result<
    Option<PersistedRecord>,
    ReconcileError,
> {
    match fetched {
        Err(message) => Err(ReconcileError::StoreError { message }),
        Ok(None) => Ok(None),
        Ok(Some(raw)) => match PersistedRecord::spec_decode(raw) {
            Some(record) => Ok(Some(record)),
            None => Err(ReconcileError::DecodeError),
        },
    }
}

/// Reads the record of the previous run out of the store's answer for the
/// reserved entry.
///
/// Returns `Ok(None)` for an absent entry and the optional record
/// `(enabled, needs_warning)` for a present one.
pub fn read_db_offchain_indexing(fetched: Result<Option<Vec<u8>>, String>) -> (previous: Result<
    Option<PersistedRecord>,
    ReconcileError,
>)
    ensures
        previous == spec_read(fetched_bytes(fetched)),
{
    match fetched {
        Err(message) => Err(ReconcileError::StoreError { message }),
        Ok(None) => Ok(None),
        Ok(Some(raw)) => match PersistedRecord::decode(raw.as_slice()) {
            Ok(record) => Ok(Some(record)),
            Err(_) => Err(ReconcileError::DecodeError),
        },
    }
}

/// What the start-up check decided: a warning for the operator, if one is
/// due, and either the record to write or the error that ends the start-up.
#[derive(Debug, PartialEq, Eq)]
pub struct Reconciliation {
    /// To be reported before anything else happens, whatever the outcome.
    pub warning: Option<Warning>,
    /// The record to write to the reserved entry, or the fatal error.
    /// Nothing is to be written on an error.
    pub outcome: Result<PersistedRecord, ReconcileError>,
}

/// The record of the previous run that the check goes by: the one that
/// the stored bytes stand for. An absent entry gives none, and so do bytes
/// that are no record, so that a corrupt entry cannot keep a node from
/// starting.
pub open spec fn spec_previous(stored: Option<Seq<u8>>) -> Option<PersistedRecord> {
    match stored {
        Some(raw) => PersistedRecord::spec_decode(raw),
        None => None,
    }
}

/// The warning that is due for an entry: stored bytes that are no record
/// are reported as unreadable, a record whose latch is set as incomplete
/// history.
pub open spec fn spec_warning(stored: Option<Seq<u8>>) -> Option<Warning> {
    match stored {
        None => None,
        Some(raw) => match PersistedRecord::spec_decode(raw) {
            None => Some(Warning::PreviousStateUnreadable),
            Some(record) => if record.needs_warning {
                Some(Warning::HistoryIncomplete)
            } else {
                None
            },
        },
    }
}

/// The decision of the start-up check. A failed read is fatal and decides
/// nothing else. Otherwise the warning goes by the entry alone, and the
/// outcome by the record of the previous run and the configuration.
pub open spec fn spec_check(
    fetched: Result<Option<Seq<u8>>, String>,
    config: OffchainIndexingConfig,
) -> Reconciliation {
    match fetched {
        Err(message) => Reconciliation {
            warning: None,
            outcome: Err(ReconcileError::StoreError { message }),
        },
        Ok(stored) => Reconciliation {
            warning: spec_warning(stored),
            outcome: spec_resolve(spec_previous(stored), config),
        },
    }
}

/// Validate the requested state against the flag stored in the database
/// and decide the record that is to replace it.
///
/// `fetched` is what the metadata store returned for the reserved entry.
/// Indexing shall not change in between executions: where the request
/// contradicts the stored record without forcing it, the outcome is
/// `ResyncRequired` and nothing is to be written.
pub fn check_offchain_indexing(
    fetched: Result<Option<Vec<u8>>, String>,
    config: &OffchainIndexingConfig,
) -> (decision: Reconciliation)
    ensures
        decision == spec_check(fetched_bytes(fetched), *config),
{
    let previous = match read_db_offchain_indexing(fetched) {
        Ok(previous) => previous,
        Err(ReconcileError::DecodeError) => {
            return Reconciliation {
                warning: Some(Warning::PreviousStateUnreadable),
                outcome: resolve_record(None, config),
            };
        },
        Err(error) => {
            return Reconciliation { warning: None, outcome: Err(error) };
        },
    };
    let warning = match previous {
        Some(record) => if record.needs_warning {
            Some(Warning::HistoryIncomplete)
        } else {
            None
        },
        None => None,
    };
    Reconciliation { warning, outcome: resolve_record(previous, config) }
}

/// The result of the whole check once the store has answered the write of
/// `record`: the state that the record resolves to if the write succeeded,
/// `StoreError` if it failed.
pub open spec fn spec_conclude(record: PersistedRecord, written: Result<(), String>) -> Result<
    ResolvedIndexingState,
    ReconcileError,
> {
    match written {
        Ok(_) => Ok(record.spec_resolved()),
        Err(message) => Err(ReconcileError::StoreError { message }),
    }
}

/// Concludes the check after the write of `record` to the reserved entry.
/// A resolved state is given out only for a record that the store holds.
pub fn conclude_offchain_indexing(record: &PersistedRecord, written: Result<(), String>) -> (resolved:
    Result<ResolvedIndexingState, ReconcileError>)
    ensures
        resolved == spec_conclude(*record, written),
{
    match written {
        Ok(_) => Ok(record.resolved()),
        Err(message) => Err(ReconcileError::StoreError { message }),
    }
}

/// The reserved entry after the check has run on `stored`, and the result
/// of the check, where the store answers the read and the write: the
/// record of the outcome replaces the entry, and on an error the entry
/// stays as it was.
pub open spec fn spec_run(stored: Option<Seq<u8>>, config: OffchainIndexingConfig) -> (
    Option<Seq<u8>>,
    Result<ResolvedIndexingState, ReconcileError>,
) {
    match spec_check(Ok(stored), config).outcome {
        Ok(record) => (Some(record.spec_encode()), spec_conclude(record, Ok(()))),
        Err(error) => (stored, Err(error)),
    }
}

/// On a first start without a preference the validator role decides: a
/// validator enables indexing, any other node disables it, and the latch
/// starts unset.
pub proof fn lemma_first_start_follows_validator(is_validator: bool)
    ensures
        spec_run(None, OffchainIndexingConfig { state: OffchainIndexingState::Default, is_validator })
            == (
            Some(PersistedRecord { enabled: is_validator, needs_warning: false }.spec_encode()),
            Ok::<ResolvedIndexingState, ReconcileError>(
                ResolvedIndexingState::of_flag(is_validator),
            ),
        ),
{
}

/// On a first start with a preference the preference decides, forced or
/// not, and the latch starts unset.
pub proof fn lemma_first_start_follows_request(config: OffchainIndexingConfig, enabled: bool)
    requires
        requested_value(config.state) == Some(enabled),
    ensures
        spec_run(None, config) == (
            Some(PersistedRecord { enabled, needs_warning: false }.spec_encode()),
            Ok::<ResolvedIndexingState, ReconcileError>(ResolvedIndexingState::of_flag(enabled)),
        ),
{
}

/// Running the check again with the same configuration, on the entry that
/// the first run left, gives the same result and leaves the entry as it
/// is: the same resolved state on what a successful run wrote, the same
/// error on what a failed run left alone.
pub proof fn lemma_second_run_changes_nothing(
    stored: Option<Seq<u8>>,
    config: OffchainIndexingConfig,
)
    ensures
        spec_run(spec_run(stored, config).0, config) == spec_run(stored, config),
{
    if let Ok(record) = spec_check(Ok(stored), config).outcome {
        crate::record::lemma_decode_inverts_encode(record);
    }
}

/// A database that recorded indexing as enabled rejects a plain request to
/// disable it, whatever the latch and the role, and its entry stays as it
/// is.
pub proof fn lemma_unforced_disable_is_rejected(
    raw: Seq<u8>,
    previous: PersistedRecord,
    is_validator: bool,
)
    requires
        PersistedRecord::spec_decode(raw) == Some(previous),
        previous.enabled,
    ensures
        spec_run(
            Some(raw),
            OffchainIndexingConfig { state: OffchainIndexingState::Disable, is_validator },
        ) == (
            Some(raw),
            Err::<ResolvedIndexingState, ReconcileError>(
                ReconcileError::ResyncRequired { reason: ResyncReason::IndexingRequired },
            ),
        ),
{
}

/// A database that recorded indexing as disabled rejects a plain request
/// to enable it, whatever the latch and the role, and its entry stays as it
/// is.
pub proof fn lemma_unforced_enable_is_rejected(
    raw: Seq<u8>,
    previous: PersistedRecord,
    is_validator: bool,
)
    requires
        PersistedRecord::spec_decode(raw) == Some(previous),
        !previous.enabled,
    ensures
        spec_run(
            Some(raw),
            OffchainIndexingConfig { state: OffchainIndexingState::Enable, is_validator },
        ) == (
            Some(raw),
            Err::<ResolvedIndexingState, ReconcileError>(
                ReconcileError::ResyncRequired { reason: ResyncReason::IndexingMissing },
            ),
        ),
{
}

/// A forced request for the value that the database did not record goes
/// through and sets the latch.
pub proof fn lemma_forced_change_sets_latch(
    raw: Seq<u8>,
    previous: PersistedRecord,
    config: OffchainIndexingConfig,
)
    requires
        PersistedRecord::spec_decode(raw) == Some(previous),
        is_forced(config.state),
        requested_value(config.state) == Some(!previous.enabled),
    ensures
        spec_run(Some(raw), config) == (
            Some(PersistedRecord { enabled: !previous.enabled, needs_warning: true }.spec_encode()),
            Ok::<ResolvedIndexingState, ReconcileError>(
                ResolvedIndexingState::of_flag(!previous.enabled),
            ),
        ),
{
}

/// A set latch is reported on every start and is never cleared: whatever
/// the configuration, the warning is due, and a record that the check
/// writes has the latch set again.
pub proof fn lemma_latch_sticks(
    raw: Seq<u8>,
    previous: PersistedRecord,
    config: OffchainIndexingConfig,
)
    requires
        PersistedRecord::spec_decode(raw) == Some(previous),
        previous.needs_warning,
    ensures
        spec_check(Ok(Some(raw)), config).warning == Some(Warning::HistoryIncomplete),
        spec_check(Ok(Some(raw)), config).outcome matches Ok(record) ==> record.needs_warning,
        config.state == OffchainIndexingState::Default ==> spec_run(Some(raw), config) == (
            Some(previous.spec_encode()),
            Ok::<ResolvedIndexingState, ReconcileError>(
                ResolvedIndexingState::of_flag(previous.enabled),
            ),
        ),
{
}

/// A request that names no value, or the value that the database recorded,
/// forced or not, keeps the record, latch included.
pub proof fn lemma_request_for_recorded_value_keeps_record(
    raw: Seq<u8>,
    previous: PersistedRecord,
    config: OffchainIndexingConfig,
)
    requires
        PersistedRecord::spec_decode(raw) == Some(previous),
        requested_value(config.state) == Some(previous.enabled) || requested_value(config.state)
            is None,
    ensures
        spec_run(Some(raw), config) == (
            Some(previous.spec_encode()),
            Ok::<ResolvedIndexingState, ReconcileError>(
                ResolvedIndexingState::of_flag(previous.enabled),
            ),
        ),
        raw.len() == 2 ==> spec_run(Some(raw), config).0 == Some(raw),
{
    if raw.len() == 2 {
        crate::record::lemma_encode_inverts_decode(raw);
    }
}

/// The recorded value never changes silently: where the check writes a
/// record whose value differs from the recorded one, the request was
/// forced and the latch is set.
pub proof fn lemma_value_changes_only_by_force(
    previous: PersistedRecord,
    config: OffchainIndexingConfig,
)
    ensures
        spec_resolve(Some(previous), config) matches Ok(record) ==> (record.enabled
            != previous.enabled ==> is_forced(config.state) && record.needs_warning),
{
}

} // verus!

use offchain_indexing::error::{ReconcileError, ResyncReason, Warning};

#[test]
fn resync_reasons_have_their_text() {
    assert_eq!(
        ResyncReason::IndexingRequired.message(),
        "The DB requires indexing to be enabled. Start a separate DB or use ForceDisable, but be aware that re-enabling will require re-sync"
    );
    assert_eq!(
        ResyncReason::IndexingMissing.message(),
        "Re-sync required due to config change of offchain indexing"
    );
}

#[test]
fn resync_error_shows_its_reason() {
    let error = ReconcileError::ResyncRequired { reason: ResyncReason::IndexingMissing };
    assert_eq!(error.message(), ResyncReason::IndexingMissing.message());
    let error = ReconcileError::ResyncRequired { reason: ResyncReason::IndexingRequired };
    assert_eq!(error.message(), ResyncReason::IndexingRequired.message());
}

#[test]
fn store_error_shows_what_the_store_reported() {
    let error = ReconcileError::StoreError { message: "disk full".to_string() };
    assert_eq!(error.message(), "disk full");
}

#[test]
fn decode_error_has_its_text() {
    assert_eq!(
        ReconcileError::DecodeError.message(),
        "Failed to decode offchain indexing state value"
    );
}

#[test]
fn warnings_have_their_text() {
    assert_eq!(
        Warning::PreviousStateUnreadable.message(),
        "Failed to obtain previous offchain indexing state from DB, overwriting."
    );
    assert_eq!(
        Warning::HistoryIncomplete.message(),
        "Historical data in the offchain DB could be incomplete!"
    );
}

#[test]
fn cloned_error_equals_its_source() {
    let errors = [
        ReconcileError::ResyncRequired { reason: ResyncReason::IndexingRequired },
        ReconcileError::StoreError { message: "io".to_string() },
        ReconcileError::DecodeError,
    ];
    for error in errors {
        assert_eq!(error.clone(), error);
    }
}

use via_core_ext::clients::da_clients::types::{DAError, DispatchResponse, ErrorCause};

#[test]
fn fatal_and_retriable_errors_carry_the_flag() {
    let fatal = DAError::fatal(ErrorCause::MissingChunk);
    assert!(!fatal.is_retriable());
    assert!(!fatal.is_retriable);
    assert_eq!(fatal.error, ErrorCause::MissingChunk);

    let retriable = DAError::retriable(ErrorCause::Submit("timeout".to_string()));
    assert!(retriable.is_retriable());
    assert_eq!(retriable.error, ErrorCause::Submit("timeout".to_string()));
}

#[test]
fn error_message_names_class_and_cause() {
    assert_eq!(
        DAError::fatal(ErrorCause::MissingChunk).message(),
        "fatal data availability client error: Failed to get blob"
    );
    assert_eq!(
        DAError::retriable(ErrorCause::Submit("connection reset".to_string())).message(),
        "retriable data availability client error: Error to submit blob: connection reset"
    );
    assert_eq!(
        DAError::retriable(ErrorCause::Retrieve("not yet".to_string())).message(),
        "retriable data availability client error: Error to get blob: not yet"
    );
}

#[test]
fn each_cause_has_its_words() {
    let cases = [
        (
            ErrorCause::InvalidHex("Odd number of digits".to_string()),
            "Odd number of digits",
        ),
        (ErrorCause::BlockHeight, "Failed to convert block height"),
        (ErrorCause::CommitmentBytes, "Failed to convert commitment"),
        (
            ErrorCause::Commitment("Unsupported app version: 9".to_string()),
            "Error to create commitment: Unsupported app version: 9",
        ),
        (ErrorCause::Namespace, "Invalid namespace"),
        (ErrorCause::BlobIds, "Failed to deserialize blob ids"),
        (
            ErrorCause::ChunkCount {
                listed: 1,
                declared: 2,
            },
            "Mismatch, blob ids len [1] != chunk size [2]",
        ),
        (
            ErrorCause::ChunkCount {
                listed: 120,
                declared: 0,
            },
            "Mismatch, blob ids len [120] != chunk size [0]",
        ),
        (ErrorCause::BlobIdLength, "Blob id too long"),
        (ErrorCause::MissingChunk, "Failed to get blob"),
        (
            ErrorCause::Connect("refused".to_string()),
            "Failed to create a client: refused",
        ),
    ];
    for (cause, words) in cases {
        assert_eq!(cause.describe(), words);
    }
}

#[test]
fn dispatch_response_from_string() {
    let response = DispatchResponse::from("abcd".to_string());
    assert_eq!(response.blob_id, "abcd");
}

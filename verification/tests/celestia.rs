use via_core_ext::clients::da_clients::celestia::CelestiaClient;
use via_core_ext::clients::da_clients::common::{encode_blob_id, parse_blob_id};
use via_core_ext::clients::da_clients::types::{ErrorCause, InclusionData};

fn client() -> CelestiaClient {
    CelestiaClient::new("http://localhost:26658".to_string(), 1_000_000, Ok(())).unwrap()
}

fn via_namespace() -> Vec<u8> {
    let mut namespace = vec![0u8; 21];
    namespace.extend_from_slice(b"VIA\0\0\0\0\0");
    namespace
}

#[test]
fn unreachable_node_gives_no_client() {
    let err = CelestiaClient::new(
        "http://localhost:26658".to_string(),
        1024,
        Err("connection refused".to_string()),
    )
    .unwrap_err();
    assert_eq!(
        err.error,
        ErrorCause::Connect("connection refused".to_string())
    );
    assert!(!err.is_retriable());
}

#[test]
fn reachable_node_gives_a_client() {
    let client = client();
    assert_eq!(client.light_node_url(), "http://localhost:26658");
    assert_eq!(client.blob_size_limit(), Some(1_000_000));
}

#[test]
fn submission_carries_the_commitment_of_the_data() {
    let data = b"pubdata of a batch".to_vec();
    let submission = client().submission(data.clone()).unwrap();

    let namespace = celestia_types::nmt::Namespace::new_v0(b"VIA\0\0\0\0\0").unwrap();
    assert_eq!(submission.namespace, namespace.as_bytes().to_vec());
    assert_eq!(submission.namespace, via_namespace());
    assert_eq!(submission.data, data);
    assert_eq!(submission.share_version, 0);
    assert_eq!(submission.app_version, 5);

    let blob = celestia_types::Blob::new(
        namespace,
        data.clone(),
        None,
        celestia_types::AppVersion::V5,
    )
    .unwrap();
    assert_eq!(&submission.commitment, blob.commitment.hash());
    assert_ne!(submission.commitment.to_vec(), data);
}

#[test]
fn accepted_submission_is_named_by_height_and_commitment() {
    let submission = client().submission(b"blob".to_vec()).unwrap();
    let response = CelestiaClient::dispatched(&submission, Ok(0x1234)).unwrap();
    assert_eq!(
        response.blob_id,
        encode_blob_id(0x1234, &submission.commitment)
    );
    assert!(response.blob_id.starts_with("0000000000001234"));
    assert_eq!(
        parse_blob_id(&response.blob_id),
        Ok((submission.commitment, 0x1234))
    );
}

#[test]
fn failed_submission_is_retriable() {
    let submission = client().submission(b"blob".to_vec()).unwrap();
    let err = CelestiaClient::dispatched(&submission, Err("timed out".to_string())).unwrap_err();
    assert_eq!(err.error, ErrorCause::Submit("timed out".to_string()));
    assert!(err.is_retriable());
}

#[test]
fn retrieval_is_read_from_the_blob_id() {
    let blob_id = encode_blob_id(42, &[0x5a; 32]);
    let retrieval = client().retrieval(&blob_id).unwrap();
    assert_eq!(retrieval.block_height, 42);
    assert_eq!(retrieval.commitment, [0x5a; 32]);
    assert_eq!(retrieval.namespace, via_namespace());
}

#[test]
fn malformed_blob_id_is_fatal_before_any_retrieval() {
    let client = client();
    let err = client.retrieval("not hex").unwrap_err();
    assert_eq!(
        err.error,
        ErrorCause::InvalidHex(hex::decode("not hex").unwrap_err().to_string())
    );
    assert!(!err.is_retriable());
    let err = client.retrieval("deadbeef").unwrap_err();
    assert_eq!(err.error, ErrorCause::BlockHeight);
    assert!(!err.is_retriable());
    let err = client.retrieval(&"ab".repeat(39)).unwrap_err();
    assert_eq!(err.error, ErrorCause::CommitmentBytes);
    assert!(!err.is_retriable());
}

#[test]
fn retrieved_bytes_are_the_inclusion_data() {
    assert_eq!(
        CelestiaClient::retrieved(Ok(vec![1, 2, 3])),
        Ok(Some(InclusionData {
            data: vec![1, 2, 3]
        }))
    );
}

#[test]
fn failed_retrieval_is_retriable() {
    let err = CelestiaClient::retrieved(Err("blob: not found".to_string())).unwrap_err();
    assert_eq!(err.error, ErrorCause::Retrieve("blob: not found".to_string()));
    assert!(err.is_retriable());
}

#[test]
fn ping_reports_an_unreachable_network_as_not_alive() {
    assert!(CelestiaClient::ping(Ok(())));
    assert!(!CelestiaClient::ping(Err("transport closed".to_string())));
}

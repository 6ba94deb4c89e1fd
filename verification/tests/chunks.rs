use via_core_ext::clients::da_clients::in_memory::InMemoryClient;
use via_core_ext::clients::da_clients::types::{
    deserialize_blob_ids, serialize_blob_ids, DAError, ErrorCause, InclusionData, ViaDaBlob,
};
use via_core_ext::clients::da_clients::DataAvailabilityClient;

fn fetch(client: &InMemoryClient, blob_id: &str) -> Result<Option<Vec<u8>>, DAError> {
    client
        .get_inclusion_data(blob_id)
        .map(|found| found.map(|inclusion: InclusionData| inclusion.data))
}

fn dispatch(client: &mut InMemoryClient, data: Vec<u8>) -> String {
    client.dispatch_blob(0, data).unwrap().blob_id
}

#[test]
fn envelope_bytes_are_count_then_length_then_payload() {
    let blob = ViaDaBlob::new(2, vec![1, 2, 3]);
    assert_eq!(
        blob.to_bytes(),
        vec![2, 0, 0, 0, 0, 0, 0, 0, 3, 0, 0, 0, 0, 0, 0, 0, 1, 2, 3]
    );
    let big = ViaDaBlob::new(0x0102_0304, Vec::new());
    assert_eq!(
        big.to_bytes(),
        vec![4, 3, 2, 1, 0, 0, 0, 0, 0, 0, 0, 0, 0, 0, 0, 0]
    );
}

#[test]
fn envelope_is_read_back_from_its_bytes() {
    let blob = ViaDaBlob::new(5, b"payload".to_vec());
    let read = ViaDaBlob::from_bytes(&blob.to_bytes()).unwrap();
    assert_eq!(read.chunks, 5);
    assert_eq!(read.data, b"payload".to_vec());
}

#[test]
fn envelope_ignores_what_follows_the_payload() {
    let mut bytes = ViaDaBlob::new(1, vec![9, 8]).to_bytes();
    bytes.extend_from_slice(&[0xaa, 0xbb]);
    let read = ViaDaBlob::from_bytes(&bytes).unwrap();
    assert_eq!(read.chunks, 1);
    assert_eq!(read.data, vec![9, 8]);
}

#[test]
fn short_or_truncated_bytes_are_no_envelope() {
    assert!(ViaDaBlob::from_bytes(&[]).is_none());
    assert!(ViaDaBlob::from_bytes(&[0u8; 15]).is_none());
    assert!(ViaDaBlob::from_bytes(b"hello world").is_none());
    // header announces three bytes, two follow
    let bytes = [1, 0, 0, 0, 0, 0, 0, 0, 3, 0, 0, 0, 0, 0, 0, 0, 1, 2];
    assert!(ViaDaBlob::from_bytes(&bytes).is_none());
    // sixteen bytes of header with an empty payload are an envelope
    let header = [1, 0, 0, 0, 0, 0, 0, 0, 0, 0, 0, 0, 0, 0, 0, 0];
    let read = ViaDaBlob::from_bytes(&header).unwrap();
    assert_eq!(read.chunks, 1);
    assert!(read.data.is_empty());
}

#[test]
fn blob_ids_are_written_with_big_endian_lengths() {
    let ids = vec!["0a0b".to_string(), "ff".to_string(), "".to_string()];
    assert_eq!(
        serialize_blob_ids(&ids).unwrap(),
        vec![0, 0, 0, 2, 0x0a, 0x0b, 0, 0, 0, 1, 0xff, 0, 0, 0, 0]
    );
    assert_eq!(serialize_blob_ids(&[]).unwrap(), Vec::<u8>::new());
}

#[test]
fn blob_ids_of_256_bytes_use_the_second_length_byte() {
    let id = "ab".repeat(258);
    let bytes = serialize_blob_ids(&[id.clone()]).unwrap();
    assert_eq!(&bytes[..4], &[0, 0, 1, 2]);
    assert_eq!(bytes.len(), 4 + 258);
    assert_eq!(deserialize_blob_ids(&bytes).unwrap(), vec![id]);
}

#[test]
fn blob_ids_that_are_no_hex_are_refused() {
    let err = serialize_blob_ids(&["0a".to_string(), "xyz".to_string()]).unwrap_err();
    assert_eq!(
        err.error,
        ErrorCause::InvalidHex(hex::decode("xyz").unwrap_err().to_string())
    );
    assert!(!err.is_retriable());
    let err = serialize_blob_ids(&["abc".to_string()]).unwrap_err();
    assert_eq!(
        err.error,
        ErrorCause::InvalidHex("Odd number of digits".to_string())
    );
    // the first fault in the list is the one reported
    let err = serialize_blob_ids(&["0g".to_string(), "abc".to_string()]).unwrap_err();
    assert_eq!(
        err.error,
        ErrorCause::InvalidHex("Invalid character 'g' at position 1".to_string())
    );
}

#[test]
fn blob_ids_are_read_back_in_lowercase() {
    let ids = vec!["0A0B".to_string(), "Ff".to_string()];
    let bytes = serialize_blob_ids(&ids).unwrap();
    assert_eq!(
        deserialize_blob_ids(&bytes).unwrap(),
        vec!["0a0b".to_string(), "ff".to_string()]
    );
    assert_eq!(deserialize_blob_ids(&[]).unwrap(), Vec::<String>::new());
}

#[test]
fn truncated_blob_id_lists_are_refused() {
    for data in [
        vec![0u8],
        vec![0, 0, 0],
        vec![0, 0, 0, 2, 0xaa],
        vec![0, 0, 0, 1, 0xaa, 0, 0],
        vec![0xff, 0xff, 0xff, 0xff],
    ] {
        let err = deserialize_blob_ids(&data).unwrap_err();
        assert_eq!(err.error, ErrorCause::BlobIds);
        assert!(!err.is_retriable());
    }
}

#[test]
fn pointer_blob_is_fetched_as_its_leaves_in_list_order() {
    let mut client = InMemoryClient::new(1024).unwrap();
    let leaves: Vec<Vec<u8>> = vec![b"first ".to_vec(), b"second ".to_vec(), b"third".to_vec()];
    let mut ids = Vec::new();
    for leaf in &leaves {
        ids.push(dispatch(&mut client, leaf.clone()));
    }
    let pointer = ViaDaBlob::new(ids.len(), serialize_blob_ids(&ids).unwrap());
    let pointer_id = dispatch(&mut client, pointer.to_bytes());

    assert_eq!(
        fetch(&client, &pointer_id),
        Ok(Some(b"first second third".to_vec()))
    );

    // the other order of the list gives the other order of the content
    ids.reverse();
    let reversed = ViaDaBlob::new(ids.len(), serialize_blob_ids(&ids).unwrap());
    let reversed_id = dispatch(&mut client, reversed.to_bytes());
    assert_eq!(
        fetch(&client, &reversed_id),
        Ok(Some(b"thirdsecond first ".to_vec()))
    );
}

#[test]
fn pointer_blob_may_list_a_leaf_twice() {
    let mut client = InMemoryClient::new(1024).unwrap();
    let id = dispatch(&mut client, b"ab".to_vec());
    let ids = vec![id.clone(), id];
    let pointer = ViaDaBlob::new(2, serialize_blob_ids(&ids).unwrap());
    let pointer_id = dispatch(&mut client, pointer.to_bytes());
    assert_eq!(fetch(&client, &pointer_id), Ok(Some(b"abab".to_vec())));
}

#[test]
fn envelope_of_one_chunk_is_fetched_as_its_payload() {
    let mut client = InMemoryClient::new(1024).unwrap();
    let leaf = ViaDaBlob::new(1, b"literal content".to_vec());
    let id = dispatch(&mut client, leaf.to_bytes());
    assert_eq!(fetch(&client, &id), Ok(Some(b"literal content".to_vec())));
}

#[test]
fn envelope_of_one_chunk_is_never_a_pointer() {
    let mut client = InMemoryClient::new(1024).unwrap();
    let leaf_id = dispatch(&mut client, b"leaf".to_vec());
    let list = serialize_blob_ids(&[leaf_id]).unwrap();
    let envelope = ViaDaBlob::new(1, list.clone());
    let id = dispatch(&mut client, envelope.to_bytes());
    assert_eq!(fetch(&client, &id), Ok(Some(list)));
}

#[test]
fn envelope_of_no_chunks_is_fetched_as_empty_content() {
    let mut client = InMemoryClient::new(1024).unwrap();
    let envelope = ViaDaBlob::new(0, Vec::new());
    let id = dispatch(&mut client, envelope.to_bytes());
    assert_eq!(fetch(&client, &id), Ok(Some(Vec::new())));
}

#[test]
fn blob_that_reads_as_an_envelope_is_unwrapped() {
    let mut client = InMemoryClient::new(1024).unwrap();
    let data = vec![1, 0, 0, 0, 0, 0, 0, 0, 0, 0, 0, 0, 0, 0, 0, 0];
    let id = dispatch(&mut client, data);
    assert_eq!(fetch(&client, &id), Ok(Some(Vec::new())));
}

#[test]
fn chunk_count_that_disagrees_with_the_list_is_fatal() {
    let mut client = InMemoryClient::new(1024).unwrap();
    let a = dispatch(&mut client, b"a".to_vec());
    let b = dispatch(&mut client, b"b".to_vec());
    let list = serialize_blob_ids(&[a, b]).unwrap();

    let pointer = ViaDaBlob::new(3, list.clone());
    let id = dispatch(&mut client, pointer.to_bytes());
    let err = fetch(&client, &id).unwrap_err();
    assert_eq!(
        err.error,
        ErrorCause::ChunkCount {
            listed: 2,
            declared: 3
        }
    );
    assert!(!err.is_retriable());

    let pointer = ViaDaBlob::new(0, list);
    let id = dispatch(&mut client, pointer.to_bytes());
    let err = fetch(&client, &id).unwrap_err();
    assert_eq!(
        err.error,
        ErrorCause::ChunkCount {
            listed: 2,
            declared: 0
        }
    );
    assert!(!err.is_retriable());
}

#[test]
fn pointer_to_a_missing_leaf_is_fatal() {
    let mut client = InMemoryClient::new(1024).unwrap();
    let present = dispatch(&mut client, b"present".to_vec());
    let absent = "00".repeat(40);
    let list = serialize_blob_ids(&[present, absent]).unwrap();
    let pointer = ViaDaBlob::new(2, list);
    let id = dispatch(&mut client, pointer.to_bytes());
    let err = fetch(&client, &id).unwrap_err();
    assert_eq!(err.error, ErrorCause::MissingChunk);
    assert!(!err.is_retriable());
}

#[test]
fn pointer_with_a_payload_that_is_no_list_is_fatal() {
    let mut client = InMemoryClient::new(1024).unwrap();
    let pointer = ViaDaBlob::new(2, vec![0, 0, 0, 9, 1, 2]);
    let id = dispatch(&mut client, pointer.to_bytes());
    let err = fetch(&client, &id).unwrap_err();
    assert_eq!(err.error, ErrorCause::BlobIds);
    assert!(!err.is_retriable());
}

#[test]
fn leaves_of_a_pointer_are_taken_raw() {
    // a leaf that is itself an envelope is not unwrapped a second time
    let mut client = InMemoryClient::new(1024).unwrap();
    let inner = ViaDaBlob::new(1, b"inner".to_vec()).to_bytes();
    let inner_id = dispatch(&mut client, inner.clone());
    let other_id = dispatch(&mut client, b"other".to_vec());
    let list = serialize_blob_ids(&[inner_id, other_id]).unwrap();
    let pointer_id = dispatch(&mut client, ViaDaBlob::new(2, list).to_bytes());
    let mut expected = inner;
    expected.extend_from_slice(b"other");
    assert_eq!(fetch(&client, &pointer_id), Ok(Some(expected)));
}

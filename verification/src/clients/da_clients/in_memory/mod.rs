//! The client that keeps the blobs in memory: a store from blob identifier to
//! raw bytes, filled by `dispatch_blob` and read by `get_inclusion_data`,
//! which puts a chunked blob together again.

use crate::clients::da_clients::base16;
use crate::clients::da_clients::byte_order::u64_be_bytes;
use crate::clients::da_clients::commitment::{commit, new_namespace_v0, share_commitment};
use crate::clients::da_clients::common::{
    blob_id_of, encode_blob_id, via_namespace, APP_VERSION, SHARE_VERSION, VIA_NAME_SPACE_BYTES,
};
use crate::clients::da_clients::types::{
    decoded_ids, deserialize_blob_ids, encoded_ids, envelope_bytes, envelope_of, id_list_bytes,
    id_list_of, lemma_envelope_round_trip, lemma_id_list_round_trip, texts, DAError, DAErrorView,
    DispatchResponse, ErrorCause, ErrorCauseView, InclusionData, ViaDaBlob,
};
use crate::clients::da_clients::DataAvailabilityClient;
use vstd::hash_map::StringHashMap;
use vstd::prelude::*;

verus! {

/// The identifier under which `data` is stored: its commitment under
/// `namespace` at block height 0, or `None` where no commitment can be
/// computed over `data`.
pub open spec fn content_id(namespace: Seq<u8>, data: Seq<u8>) -> Option<Seq<char>> {
    match share_commitment(namespace, data, SHARE_VERSION, APP_VERSION) {
        Ok(commitment) => Some(blob_id_of(0, commitment)),
        Err(_) => None,
    }
}

/// The store after `data` was dispatched to `blobs`, and what the dispatch
/// hands back: the identifier, under which `data` then stands, or the error,
/// with the store as it was.
pub open spec fn dispatched(
    namespace: Seq<u8>,
    blobs: Map<Seq<char>, Seq<u8>>,
    data: Seq<u8>,
) -> (Map<Seq<char>, Seq<u8>>, Result<Seq<char>, DAErrorView>) {
    match share_commitment(namespace, data, SHARE_VERSION, APP_VERSION) {
        Ok(commitment) => (
            blobs.insert(blob_id_of(0, commitment), data),
            Ok(blob_id_of(0, commitment)),
        ),
        Err(why) => (blobs, Err(DAErrorView::fatal(ErrorCauseView::Commitment(why)))),
    }
}

/// Whether `blobs` holds each of `ids`.
pub open spec fn all_stored(blobs: Map<Seq<char>, Seq<u8>>, ids: Seq<Seq<char>>) -> bool {
    forall|i: int| 0 <= i < ids.len() ==> blobs.contains_key(#[trigger] ids[i])
}

/// The raw bytes that `blobs` holds under each of `ids`, in the order of `ids`.
pub open spec fn stored(blobs: Map<Seq<char>, Seq<u8>>, ids: Seq<Seq<char>>) -> Seq<Seq<u8>> {
    Seq::new(ids.len(), |i: int| blobs[ids[i]])
}

/// What fetching `blob_id` from `blobs` gives.
///
/// A fatal error, where `blob_id` is no hexadecimal text: such an identifier
/// is malformed, and never merely unknown. Nothing, where `blob_id` is
/// hexadecimal and `blobs` does not hold it. The raw bytes, where they
/// are no envelope. The payload, where they are an envelope of one chunk.
/// Else the envelope is a pointer: its payload must be a list of as many
/// identifiers as it declares chunks, all of them held by `blobs`, and the
/// content is their raw bytes one after the other.
pub open spec fn reconstructed(blobs: Map<Seq<char>, Seq<u8>>, blob_id: Seq<char>) -> Result<
    Option<Seq<u8>>,
    DAErrorView,
> {
    if !base16::is_hex(blob_id) {
        Err(DAErrorView::fatal(ErrorCauseView::InvalidHex(base16::decode_fault(blob_id))))
    } else if !blobs.contains_key(blob_id) {
        Ok(None)
    } else {
        match envelope_of(blobs[blob_id]) {
            None => Ok(Some(blobs[blob_id])),
            Some((chunks, payload)) => if chunks == 1 {
                Ok(Some(payload))
            } else {
                match id_list_of(payload) {
                    None => Err(DAErrorView::fatal(ErrorCauseView::BlobIds)),
                    Some(entries) => if entries.len() != chunks {
                        Err(
                            DAErrorView::fatal(
                                ErrorCauseView::ChunkCount {
                                    listed: entries.len() as usize,
                                    declared: chunks,
                                },
                            ),
                        )
                    } else if !all_stored(blobs, encoded_ids(entries)) {
                        Err(DAErrorView::fatal(ErrorCauseView::MissingChunk))
                    } else {
                        Ok(Some(stored(blobs, encoded_ids(entries)).flatten()))
                    },
                }
            },
        }
    }
}

/// What a fetch handed back, with the data as a sequence of bytes.
pub open spec fn fetched(r: Result<Option<InclusionData>, DAError>) -> Result<
    Option<Seq<u8>>,
    DAErrorView,
> {
    match r {
        Ok(Some(inclusion)) => Ok(Some(inclusion.data@)),
        Ok(None) => Ok(None),
        Err(e) => Err(e@),
    }
}

/// What a dispatch handed back, with the identifier as a sequence of characters.
pub open spec fn responded(r: Result<DispatchResponse, DAError>) -> Result<
    Seq<char>,
    DAErrorView,
> {
    match r {
        Ok(response) => Ok(response.blob_id@),
        Err(e) => Err(e@),
    }
}

/// A data availability client that stores the blobs in memory.
pub struct InMemoryClient {
    storage: StringHashMap<Vec<u8>>,
    blob_size_limit: usize,
    namespace: Vec<u8>,
}

impl InMemoryClient {
    /// The namespace under which the client computes commitments.
    pub closed spec fn namespace(&self) -> Seq<u8> {
        self.namespace@
    }

    /// The store: the raw bytes under each identifier.
    pub closed spec fn blobs(&self) -> Map<Seq<char>, Seq<u8>> {
        Map::new(|id: Seq<char>| self.storage@.contains_key(id), |id: Seq<char>| self.storage@[id]@)
    }

    /// The size limit that the client was made with.
    pub closed spec fn limit(&self) -> usize {
        self.blob_size_limit
    }

    /// A client with an empty store, for the namespace of `VIA_NAME_SPACE_BYTES`.
    pub fn new(blob_size_limit: usize) -> (r: Result<Self, DAError>)
        ensures
            r matches Ok(client) && client.blobs() == Map::<Seq<char>, Seq<u8>>::empty()
                && client.limit() == blob_size_limit && client.namespace() == via_namespace(),
    {
        let namespace = match new_namespace_v0(VIA_NAME_SPACE_BYTES.as_slice()) {
            Ok(namespace) => namespace,
            Err(_) => {
                return Err(DAError::fatal(ErrorCause::Namespace));
            },
        };
        let client = Self { storage: StringHashMap::new(), blob_size_limit, namespace };
        assert(client.blobs() =~= Map::<Seq<char>, Seq<u8>>::empty());
        Ok(client)
    }
}

impl DataAvailabilityClient for InMemoryClient {
    open spec fn may_dispatch(
        &self,
        batch_number: u32,
        data: Seq<u8>,
        after: &Self,
        r: Result<DispatchResponse, DAError>,
    ) -> bool {
        &&& (after.blobs(), responded(r)) == dispatched(self.namespace(), self.blobs(), data)
        &&& responded(r) matches Ok(blob_id) ==> blob_id.len() == 80 && base16::is_hex(blob_id)
        &&& after.limit() == self.limit()
        &&& after.namespace() == self.namespace()
    }

    open spec fn may_fetch(
        &self,
        blob_id: Seq<char>,
        r: Result<Option<InclusionData>, DAError>,
    ) -> bool {
        fetched(r) == reconstructed(self.blobs(), blob_id)
    }

    open spec fn size_limit(&self) -> Option<usize> {
        Some(self.limit())
    }

    open spec fn may_answer(&self, alive: bool) -> bool {
        alive
    }

    fn dispatch_blob(&mut self, _batch_number: u32, data: Vec<u8>) -> (r: Result<
        DispatchResponse,
        DAError,
    >) {
        let commitment = match commit(
            self.namespace.as_slice(),
            data.as_slice(),
            SHARE_VERSION,
            APP_VERSION,
        ) {
            Ok(commitment) => commitment,
            Err(why) => {
                return Err(DAError::fatal(ErrorCause::Commitment(why)));
            },
        };
        // blob_id = [block_height (8 bytes) | commitment hash (32 bytes)]
        let blob_id = encode_blob_id(0, &commitment);
        proof {
            assert((u64_be_bytes(0) + commitment@).len() == 40);
            base16::lemma_decode_encode(u64_be_bytes(0) + commitment@);
        }
        self.storage.insert(blob_id.clone(), data);
        assert(self.blobs() =~= old(self).blobs().insert(blob_id@, data@));
        Ok(DispatchResponse { blob_id })
    }

    #[verifier::loop_isolation(false)]
    fn get_inclusion_data(&self, blob_id: &str) -> (r: Result<Option<InclusionData>, DAError>) {
        if let Err(why) = base16::decode(blob_id) {
            return Err(DAError::fatal(ErrorCause::InvalidHex(why)));
        }
        let raw = match self.storage.get(blob_id) {
            Some(raw) => raw,
            None => {
                return Ok(None);
            },
        };
        assert(self.blobs()[blob_id@] == raw@);
        let data = match ViaDaBlob::from_bytes(raw.as_slice()) {
            Some(blob) => {
                if blob.chunks == 1 {
                    blob.data
                } else {
                    let blob_ids = match deserialize_blob_ids(blob.data.as_slice()) {
                        Ok(blob_ids) => blob_ids,
                        Err(_) => {
                            return Err(DAError::fatal(ErrorCause::BlobIds));
                        },
                    };
                    let ghost entries = id_list_of(blob.data@).unwrap();
                    assert(texts(blob_ids@).len() == encoded_ids(entries).len());
                    if blob_ids.len() != blob.chunks {
                        return Err(
                            DAError::fatal(
                                ErrorCause::ChunkCount {
                                    listed: blob_ids.len(),
                                    declared: blob.chunks,
                                },
                            ),
                        );
                    }
                    let ghost ids = texts(blob_ids@);
                    let mut batch_blob: Vec<u8> = Vec::new();
                    let mut i: usize = 0;
                    while i < blob_ids.len()
                        invariant
                            i <= blob_ids.len(),
                            ids == texts(blob_ids@),
                            all_stored(self.blobs(), ids.take(i as int)),
                            batch_blob@ == stored(self.blobs(), ids.take(i as int)).flatten(),
                        decreases blob_ids.len() - i,
                    {
                        let leaf = match self.storage.get(blob_ids[i].as_str()) {
                            Some(leaf) => leaf,
                            None => {
                                assert(!self.blobs().contains_key(ids[i as int]));
                                return Err(DAError::fatal(ErrorCause::MissingChunk));
                            },
                        };
                        proof {
                            let before = stored(self.blobs(), ids.take(i as int));
                            assert(self.blobs()[ids[i as int]] == leaf@);
                            assert(stored(self.blobs(), ids.take(i + 1)) =~= before.push(leaf@));
                            before.lemma_flatten_push(leaf@);
                            assert forall|j: int| 0 <= j < i + 1 implies self.blobs().contains_key(
                                #[trigger] ids.take(i + 1)[j],
                            ) by {
                                if j < i {
                                    assert(ids.take(i as int)[j] == ids[j]);
                                }
                            }
                        }
                        batch_blob.extend_from_slice(leaf.as_slice());
                        i = i + 1;
                    }
                    assert(ids.take(i as int) =~= ids);
                    batch_blob
                }
            },
            None => raw.clone(),
        };
        Ok(Some(InclusionData { data }))
    }

    fn blob_size_limit(&self) -> (limit: Option<usize>) {
        Some(self.blob_size_limit)
    }

    fn ping(&self) -> (alive: bool) {
        true
    }
}

/// A blob that was dispatched is fetched back under the identifier that the
/// dispatch gave, unless its bytes read as an envelope. Bytes that read as an
/// envelope of one chunk are fetched as the payload of that envelope, which
/// is shorter than they are.
pub proof fn lemma_dispatch_then_fetch(
    namespace: Seq<u8>,
    blobs: Map<Seq<char>, Seq<u8>>,
    data: Seq<u8>,
)
    ensures
        dispatched(namespace, blobs, data).1 matches Ok(blob_id) ==> {
            let fetched = reconstructed(dispatched(namespace, blobs, data).0, blob_id);
            match envelope_of(data) {
                None => fetched == Ok::<Option<Seq<u8>>, DAErrorView>(Some(data)),
                Some((chunks, payload)) => chunks == 1 ==> fetched == Ok::<
                    Option<Seq<u8>>,
                    DAErrorView,
                >(Some(payload)) && payload.len() < data.len(),
            }
        },
{
    lemma_content_id_is_hex(namespace, data);
}

/// The identifier that a dispatch gives is hexadecimal text.
pub proof fn lemma_content_id_is_hex(namespace: Seq<u8>, data: Seq<u8>)
    ensures
        content_id(namespace, data) matches Some(blob_id) ==> base16::is_hex(blob_id),
{
    match share_commitment(namespace, data, SHARE_VERSION, APP_VERSION) {
        Ok(commitment) => {
            base16::lemma_decode_encode(u64_be_bytes(0) + commitment);
        },
        Err(_) => {},
    }
}

/// Dispatching the same bytes twice gives the same identifier twice, and the
/// second dispatch leaves the store as the first left it: the identifier
/// stays in it, with the same bytes under it.
pub proof fn lemma_dispatch_twice(
    namespace: Seq<u8>,
    blobs: Map<Seq<char>, Seq<u8>>,
    data: Seq<u8>,
)
    ensures
        ({
            let first = dispatched(namespace, blobs, data);
            let second = dispatched(namespace, first.0, data);
            &&& second.1 == first.1
            &&& second.0 == first.0
            &&& first.1 matches Ok(blob_id) ==> {
                &&& second.0.contains_key(blob_id)
                &&& second.0[blob_id] == data
                &&& reconstructed(second.0, blob_id) != Ok::<Option<Seq<u8>>, DAErrorView>(None)
            }
        }),
{
    let first = dispatched(namespace, blobs, data);
    let second = dispatched(namespace, first.0, data);
    lemma_content_id_is_hex(namespace, data);
    assert(second.0 =~= first.0);
}

/// A pointer blob is fetched as the leaves that it lists, one after the
/// other in the order of the list: where the store holds, under `pointer`,
/// the envelope of the list of `entries`, and holds each of them, and the
/// list has not exactly one entry, which would make the envelope a leaf.
pub proof fn lemma_pointer_reconstruction(
    blobs: Map<Seq<char>, Seq<u8>>,
    entries: Seq<Seq<u8>>,
    pointer: Seq<char>,
)
    requires
        entries.len() != 1,
        entries.len() <= usize::MAX,
        id_list_bytes(entries).len() <= usize::MAX,
        forall|i: int| 0 <= i < entries.len() ==> (#[trigger] entries[i]).len() < 0x1_0000_0000,
        all_stored(blobs, encoded_ids(entries)),
        base16::is_hex(pointer),
        blobs.contains_key(pointer),
        blobs[pointer] == envelope_bytes(entries.len() as usize, id_list_bytes(entries)),
    ensures
        reconstructed(blobs, pointer) == Ok::<Option<Seq<u8>>, DAErrorView>(
            Some(stored(blobs, encoded_ids(entries)).flatten()),
        ),
{
    lemma_envelope_round_trip(entries.len() as usize, id_list_bytes(entries));
    lemma_id_list_round_trip(entries);
}

/// The store after each of `leaves` was dispatched to `blobs`, in order.
pub open spec fn dispatched_all(
    namespace: Seq<u8>,
    blobs: Map<Seq<char>, Seq<u8>>,
    leaves: Seq<Seq<u8>>,
) -> Map<Seq<char>, Seq<u8>>
    decreases leaves.len(),
{
    if leaves.len() == 0 {
        blobs
    } else {
        dispatched(namespace, dispatched_all(namespace, blobs, leaves.drop_last()), leaves.last()).0
    }
}

/// Whether dispatching `leaves`, and then the blob `pointer`, gives `ids`
/// and then `pointer_id`, one identifier for one content: two leaves of
/// different bytes do not share an identifier, nor does a leaf share one
/// with the pointer blob. The commitment is made so that they do not, and
/// where it fails in that, a later blob takes the place of an earlier one.
pub open spec fn dispatched_apart(
    namespace: Seq<u8>,
    leaves: Seq<Seq<u8>>,
    ids: Seq<Seq<char>>,
    pointer: Seq<u8>,
    pointer_id: Seq<char>,
) -> bool {
    &&& ids.len() == leaves.len()
    &&& forall|i: int|
        0 <= i < leaves.len() ==> content_id(namespace, #[trigger] leaves[i]) == Some(ids[i])
    &&& content_id(namespace, pointer) == Some(pointer_id)
    &&& forall|i: int, j: int|
        0 <= i < leaves.len() && 0 <= j < leaves.len() && #[trigger] ids[i] == #[trigger] ids[j]
            ==> leaves[i] == leaves[j]
    &&& forall|i: int| 0 <= i < leaves.len() && #[trigger] ids[i] == pointer_id ==> leaves[i] == pointer
}

proof fn lemma_dispatched_all_holds(
    namespace: Seq<u8>,
    blobs: Map<Seq<char>, Seq<u8>>,
    leaves: Seq<Seq<u8>>,
    ids: Seq<Seq<char>>,
    pointer: Seq<u8>,
    pointer_id: Seq<char>,
    n: int,
)
    requires
        dispatched_apart(namespace, leaves, ids, pointer, pointer_id),
        0 <= n <= leaves.len(),
    ensures
        forall|i: int|
            0 <= i < n ==> dispatched_all(namespace, blobs, leaves.take(n)).contains_key(
                #[trigger] ids[i],
            ) && dispatched_all(namespace, blobs, leaves.take(n))[ids[i]] == leaves[i],
    decreases n,
{
    if n > 0 {
        let upto = leaves.take(n);
        lemma_dispatched_all_holds(namespace, blobs, leaves, ids, pointer, pointer_id, n - 1);
        assert(upto.drop_last() =~= leaves.take(n - 1));
        assert(upto.last() == leaves[n - 1]);
        let before = dispatched_all(namespace, blobs, leaves.take(n - 1));
        assert(dispatched_all(namespace, blobs, upto) == before.insert(ids[n - 1], leaves[n - 1]));
        assert forall|i: int| 0 <= i < n implies dispatched_all(
            namespace,
            blobs,
            upto,
        ).contains_key(#[trigger] ids[i]) && dispatched_all(namespace, blobs, upto)[ids[i]]
            == leaves[i] by {
            if i < n - 1 && ids[i] == ids[n - 1] {
                assert(leaves[i] == leaves[n - 1]);
            }
        }
    }
}

/// Chunks that were dispatched one by one, and then named in a pointer blob
/// that was dispatched too, are fetched back under the pointer's identifier
/// as one content: the chunks one after the other, in the order of the
/// list. `ids` are the identifiers that the dispatches of `leaves` gave,
/// each of 80 characters, and `pointer_id` the one that the dispatch of the
/// pointer blob gave; a list of exactly one identifier would make the
/// envelope a leaf.
pub proof fn lemma_chunked_round_trip(
    namespace: Seq<u8>,
    blobs: Map<Seq<char>, Seq<u8>>,
    leaves: Seq<Seq<u8>>,
    ids: Seq<Seq<char>>,
    pointer: Seq<u8>,
    pointer_id: Seq<char>,
)
    requires
        leaves.len() != 1,
        leaves.len() <= usize::MAX,
        forall|i: int| 0 <= i < ids.len() ==> (#[trigger] ids[i]).len() == 80,
        id_list_bytes(decoded_ids(ids)).len() <= usize::MAX,
        pointer == envelope_bytes(leaves.len() as usize, id_list_bytes(decoded_ids(ids))),
        dispatched_apart(namespace, leaves, ids, pointer, pointer_id),
    ensures
        reconstructed(
            dispatched(namespace, dispatched_all(namespace, blobs, leaves), pointer).0,
            pointer_id,
        ) == Ok::<Option<Seq<u8>>, DAErrorView>(Some(leaves.flatten())),
{
    let held = dispatched_all(namespace, blobs, leaves);
    let store = dispatched(namespace, held, pointer).0;
    let entries = decoded_ids(ids);
    lemma_dispatched_all_holds(
        namespace,
        blobs,
        leaves,
        ids,
        pointer,
        pointer_id,
        leaves.len() as int,
    );
    assert(leaves.take(leaves.len() as int) =~= leaves);
    lemma_content_id_is_hex(namespace, pointer);
    assert forall|i: int| 0 <= i < ids.len() implies #[trigger] encoded_ids(entries)[i]
        == ids[i] && entries[i].len() < 0x1_0000_0000 by {
        let commitment = share_commitment(namespace, leaves[i], SHARE_VERSION, APP_VERSION)->Ok_0;
        assert(content_id(namespace, leaves[i]) == Some(ids[i]));
        base16::lemma_decode_encode(u64_be_bytes(0) + commitment);
        assert(entries[i] == u64_be_bytes(0) + commitment);
        assert(ids[i].len() == 80);
    }
    assert(encoded_ids(entries) =~= ids);
    assert forall|i: int| 0 <= i < ids.len() implies store.contains_key(#[trigger] ids[i])
        && store[ids[i]] == leaves[i] by {
        assert(held.contains_key(ids[i]) && held[ids[i]] == leaves[i]);
    }
    assert(stored(store, ids) =~= leaves);
    lemma_pointer_reconstruction(store, entries, pointer_id);
}

/// A pointer blob that declares another number of chunks than it lists
/// identifiers is not fetched: the error is fatal.
pub proof fn lemma_chunk_count_mismatch(
    blobs: Map<Seq<char>, Seq<u8>>,
    pointer: Seq<char>,
    chunks: usize,
    payload: Seq<u8>,
    entries: Seq<Seq<u8>>,
)
    requires
        base16::is_hex(pointer),
        blobs.contains_key(pointer),
        envelope_of(blobs[pointer]) == Some((chunks, payload)),
        chunks != 1,
        id_list_of(payload) == Some(entries),
        entries.len() != chunks,
    ensures
        reconstructed(blobs, pointer) matches Err(e) && !e.is_retriable,
{
}

/// An empty store holds no blob: whatever hexadecimal text the identifier
/// is, fetching it gives nothing, and no error.
pub proof fn lemma_empty_store(blob_id: Seq<char>)
    requires
        base16::is_hex(blob_id),
    ensures
        reconstructed(Map::empty(), blob_id) == Ok::<Option<Seq<u8>>, DAErrorView>(None),
{
}

/// An identifier that is no hexadecimal text is never merely unknown:
/// whatever the store, fetching it is a fatal error.
pub proof fn lemma_malformed_identifier(blobs: Map<Seq<char>, Seq<u8>>, blob_id: Seq<char>)
    requires
        !base16::is_hex(blob_id),
    ensures
        reconstructed(blobs, blob_id) == Err::<Option<Seq<u8>>, DAErrorView>(
            DAErrorView::fatal(ErrorCauseView::InvalidHex(base16::decode_fault(blob_id))),
        ),
{
}

/// Whatever the store, the blob and the identifier: dispatching and fetching
/// fail with a fatal error or not at all.
pub proof fn lemma_errors_are_fatal(
    namespace: Seq<u8>,
    blobs: Map<Seq<char>, Seq<u8>>,
    data: Seq<u8>,
    blob_id: Seq<char>,
)
    ensures
        dispatched(namespace, blobs, data).1 matches Err(e) ==> !e.is_retriable,
        reconstructed(blobs, blob_id) matches Err(e) ==> !e.is_retriable,
{
}

} // verus!

//! What the data availability clients hand back: the error with its
//! classification, the dispatch response, the inclusion data, and the chunk
//! envelope with its list of blob identifiers.

use crate::clients::da_clients::base16;
use crate::clients::da_clients::byte_order::{
    lemma_u32_be_round_trip, lemma_u64_le_round_trip, push_u32_be, read_u32_be, u32_be_bytes,
    u32_be_value, u64_le_bytes, u64_le_value,
};
use crate::decimal::{decimal, to_decimal};
use vstd::prelude::*;
use vstd::string::StringExecFns;

verus! {

/// Why a client call failed.
#[derive(Debug, Clone, PartialEq, Eq)]
pub enum ErrorCause {
    /// A blob identifier is not hexadecimal text; the text is the decoder's.
    InvalidHex(String),
    /// A decoded blob identifier is too short to hold the block height.
    BlockHeight,
    /// A decoded blob identifier is too short to hold the commitment.
    CommitmentBytes,
    /// No commitment can be computed over the blob; the text says why.
    Commitment(String),
    /// The namespace under which blobs are published is not accepted.
    Namespace,
    /// A blob identifier is too long for an identifier list, where four
    /// bytes hold its length.
    BlobIdLength,
    /// The payload of a pointer blob is no list of blob identifiers.
    BlobIds,
    /// A pointer blob lists `listed` identifiers and declares `declared` chunks.
    ChunkCount { listed: usize, declared: usize },
    /// A pointer blob lists an identifier that the store does not hold.
    MissingChunk,
    /// The network did not take the blob; the text is the transport's.
    Submit(String),
    /// The network did not hand the blob out; the text is the transport's.
    Retrieve(String),
    /// The network could not be reached when the client was built; the text
    /// is the transport's.
    Connect(String),
}

impl ErrorCause {
    /// The cause in words.
    pub open spec fn text(self) -> Seq<char> {
        match self {
            ErrorCause::InvalidHex(detail) => detail@,
            ErrorCause::BlockHeight => "Failed to convert block height"@,
            ErrorCause::CommitmentBytes => "Failed to convert commitment"@,
            ErrorCause::Commitment(detail) => "Error to create commitment: "@ + detail@,
            ErrorCause::Namespace => "Invalid namespace"@,
            ErrorCause::BlobIdLength => "Blob id too long"@,
            ErrorCause::BlobIds => "Failed to deserialize blob ids"@,
            ErrorCause::ChunkCount { listed, declared } => "Mismatch, blob ids len ["@ + decimal(
                listed as nat,
            ) + "] != chunk size ["@ + decimal(declared as nat) + "]"@,
            ErrorCause::MissingChunk => "Failed to get blob"@,
            ErrorCause::Submit(detail) => "Error to submit blob: "@ + detail@,
            ErrorCause::Retrieve(detail) => "Error to get blob: "@ + detail@,
            ErrorCause::Connect(detail) => "Failed to create a client: "@ + detail@,
        }
    }

    /// The cause in words, as a string.
    pub fn describe(&self) -> (words: String)
        ensures
            words@ == self.text(),
    {
        match self {
            ErrorCause::InvalidHex(detail) => detail.clone(),
            ErrorCause::BlockHeight => String::from_str("Failed to convert block height"),
            ErrorCause::CommitmentBytes => String::from_str("Failed to convert commitment"),
            ErrorCause::Commitment(detail) => String::from_str(
                "Error to create commitment: ",
            ).concat(detail.as_str()),
            ErrorCause::Namespace => String::from_str("Invalid namespace"),
            ErrorCause::BlobIdLength => String::from_str("Blob id too long"),
            ErrorCause::BlobIds => String::from_str("Failed to deserialize blob ids"),
            ErrorCause::ChunkCount { listed, declared } => String::from_str(
                "Mismatch, blob ids len [",
            ).concat(to_decimal(*listed).as_str()).concat("] != chunk size [").concat(
                to_decimal(*declared).as_str(),
            ).concat("]"),
            ErrorCause::MissingChunk => String::from_str("Failed to get blob"),
            ErrorCause::Submit(detail) => String::from_str("Error to submit blob: ").concat(
                detail.as_str(),
            ),
            ErrorCause::Retrieve(detail) => String::from_str("Error to get blob: ").concat(
                detail.as_str(),
            ),
            ErrorCause::Connect(detail) => String::from_str("Failed to create a client: ").concat(
                detail.as_str(),
            ),
        }
    }
}

/// A cause with its texts as sequences of characters.
pub enum ErrorCauseView {
    InvalidHex(Seq<char>),
    BlockHeight,
    CommitmentBytes,
    Commitment(Seq<char>),
    Namespace,
    BlobIdLength,
    BlobIds,
    ChunkCount { listed: usize, declared: usize },
    MissingChunk,
    Submit(Seq<char>),
    Retrieve(Seq<char>),
    Connect(Seq<char>),
}

impl View for ErrorCause {
    type V = ErrorCauseView;

    open spec fn view(&self) -> ErrorCauseView {
        match self {
            ErrorCause::InvalidHex(detail) => ErrorCauseView::InvalidHex(detail@),
            ErrorCause::BlockHeight => ErrorCauseView::BlockHeight,
            ErrorCause::CommitmentBytes => ErrorCauseView::CommitmentBytes,
            ErrorCause::Commitment(detail) => ErrorCauseView::Commitment(detail@),
            ErrorCause::Namespace => ErrorCauseView::Namespace,
            ErrorCause::BlobIdLength => ErrorCauseView::BlobIdLength,
            ErrorCause::BlobIds => ErrorCauseView::BlobIds,
            ErrorCause::ChunkCount { listed, declared } => ErrorCauseView::ChunkCount {
                listed: *listed,
                declared: *declared,
            },
            ErrorCause::MissingChunk => ErrorCauseView::MissingChunk,
            ErrorCause::Submit(detail) => ErrorCauseView::Submit(detail@),
            ErrorCause::Retrieve(detail) => ErrorCauseView::Retrieve(detail@),
            ErrorCause::Connect(detail) => ErrorCauseView::Connect(detail@),
        }
    }
}

/// An error with its texts as sequences of characters.
pub struct DAErrorView {
    pub error: ErrorCauseView,
    pub is_retriable: bool,
}

impl DAErrorView {
    /// An error that no retry will mend.
    pub open spec fn fatal(cause: ErrorCauseView) -> DAErrorView {
        DAErrorView { error: cause, is_retriable: false }
    }

    /// An error that a retry may mend.
    pub open spec fn retriable(cause: ErrorCauseView) -> DAErrorView {
        DAErrorView { error: cause, is_retriable: true }
    }
}

impl View for DAError {
    type V = DAErrorView;

    open spec fn view(&self) -> DAErrorView {
        DAErrorView { error: self.error@, is_retriable: self.is_retriable }
    }
}

/// `DAError` is the error type returned by the DA clients. A retriable error
/// is transient: the same call may succeed later. A fatal one will not.
#[derive(Debug, Clone, PartialEq, Eq)]
pub struct DAError {
    pub error: ErrorCause,
    pub is_retriable: bool,
}

impl DAError {
    /// An error that no retry will mend.
    pub open spec fn fatal_spec(cause: ErrorCause) -> DAError {
        DAError { error: cause, is_retriable: false }
    }

    /// An error that a retry may mend.
    pub open spec fn retriable_spec(cause: ErrorCause) -> DAError {
        DAError { error: cause, is_retriable: true }
    }

    #[verifier::when_used_as_spec(fatal_spec)]
    pub fn fatal(cause: ErrorCause) -> (e: DAError)
        ensures
            e == DAError::fatal_spec(cause),
    {
        DAError { error: cause, is_retriable: false }
    }

    #[verifier::when_used_as_spec(retriable_spec)]
    pub fn retriable(cause: ErrorCause) -> (e: DAError)
        ensures
            e == DAError::retriable_spec(cause),
    {
        DAError { error: cause, is_retriable: true }
    }

    pub fn is_retriable(&self) -> (r: bool)
        ensures
            r == self.is_retriable,
    {
        self.is_retriable
    }

    /// The line that names the error: its class, then its cause.
    pub open spec fn message_spec(self) -> Seq<char> {
        (if self.is_retriable {
            "retriable"@
        } else {
            "fatal"@
        }) + " data availability client error: "@ + self.error.text()
    }

    /// The line that names the error: its class, then its cause.
    pub fn message(&self) -> (line: String)
        ensures
            line@ == self.message_spec(),
    {
        let kind = if self.is_retriable {
            "retriable"
        } else {
            "fatal"
        };
        let cause = self.error.describe();
        String::from_str(kind).concat(" data availability client error: ").concat(cause.as_str())
    }
}

/// `DispatchResponse` is the response received from the DA layer after dispatching a blob.
#[derive(Debug, Clone)]
pub struct DispatchResponse {
    /// The blob_id is needed to fetch the inclusion data.
    pub blob_id: String,
}

impl From<String> for DispatchResponse {
    fn from(blob_id: String) -> (response: Self) {
        DispatchResponse { blob_id }
    }
}

impl vstd::std_specs::convert::FromSpecImpl<String> for DispatchResponse {
    open spec fn obeys_from_spec() -> bool {
        true
    }

    open spec fn from_spec(blob_id: String) -> Self {
        DispatchResponse { blob_id }
    }
}

/// `InclusionData` is the data needed to verify on L1 that a blob is included in the DA layer.
#[derive(Debug, Clone, PartialEq, Eq)]
pub struct InclusionData {
    /// The inclusion data serialized by the DA client. Serialization is done in a way that allows
    /// the deserialization of the data in Solidity contracts.
    pub data: Vec<u8>,
}

/// The chunk envelope: a blob that is either a leaf or a pointer. With
/// `chunks == 1` `data` is the content itself. Otherwise `data` is the list of
/// the identifiers of `chunks` leaf blobs, whose contents, one after the other,
/// are the content.
#[derive(Debug, Clone)]
pub struct ViaDaBlob {
    pub chunks: usize,
    pub data: Vec<u8>,
}

/// The bytes of an envelope: the chunk count and the payload's length, each
/// as eight little-endian bytes, then the payload.
pub open spec fn envelope_bytes(chunks: usize, payload: Seq<u8>) -> Seq<u8> {
    u64_le_bytes(chunks as u64) + u64_le_bytes(payload.len() as u64) + payload
}

/// The envelope that `bytes` start with, if they start with one: sixteen
/// bytes of header, a chunk count that fits the machine, and at least as many
/// bytes behind the header as the header announces. What follows the payload
/// is ignored.
pub open spec fn envelope_of(bytes: Seq<u8>) -> Option<(usize, Seq<u8>)> {
    if bytes.len() < 16 {
        None
    } else {
        let chunks = u64_le_value(bytes.subrange(0, 8));
        let len = u64_le_value(bytes.subrange(8, 16));
        if chunks > usize::MAX || len > bytes.len() - 16 {
            None
        } else {
            Some((chunks as usize, bytes.subrange(16, 16 + len)))
        }
    }
}

/// An envelope is read back from its bytes.
pub proof fn lemma_envelope_round_trip(chunks: usize, payload: Seq<u8>)
    requires
        payload.len() <= u64::MAX,
    ensures
        envelope_of(envelope_bytes(chunks, payload)) == Some((chunks, payload)),
{
    let bytes = envelope_bytes(chunks, payload);
    lemma_u64_le_round_trip(chunks as u64);
    lemma_u64_le_round_trip(payload.len() as u64);
    assert(bytes.subrange(0, 8) =~= u64_le_bytes(chunks as u64));
    assert(bytes.subrange(8, 16) =~= u64_le_bytes(payload.len() as u64));
    assert(bytes.subrange(16, 16 + payload.len() as int) =~= payload);
}

/// Calls `bincode::serialize` on the pair of the chunk count and the payload.
/// With the settings of that function (fixed-width integers, little-endian,
/// no size limit) a `usize` is written as a `u64` and a byte vector as its
/// length, a `u64`, followed by its bytes; a pair is its two parts, one
/// after the other, as a struct of these two fields is. Writing into a
/// vector without a size limit does not fail.
#[verifier::external_body]
fn bincode_serialize(chunks: usize, data: &Vec<u8>) -> (bytes: Vec<u8>)
    ensures
        bytes@ == envelope_bytes(chunks, data@),
{
    ::bincode::serialize(&(chunks, data)).expect("Failed to serialize ViaDaBlob")
}

/// Calls `bincode::deserialize` for a pair of a chunk count and a payload.
/// It reads eight bytes as the count and fails if the count does not fit a
/// `usize`, reads eight bytes as the payload's length, then that many bytes
/// one by one, and fails where the input ends early. Bytes behind the
/// payload are allowed.
#[verifier::external_body]
fn bincode_deserialize(bytes: &[u8]) -> (r: Option<(usize, Vec<u8>)>)
    ensures
        match r {
            Some((chunks, data)) => envelope_of(bytes@) == Some((chunks, data@)),
            None => envelope_of(bytes@) is None,
        },
{
    ::bincode::deserialize::<(usize, Vec<u8>)>(bytes).ok()
}

impl ViaDaBlob {
    pub fn new(chunks: usize, data: Vec<u8>) -> (blob: Self)
        ensures
            blob.chunks == chunks,
            blob.data == data,
    {
        Self { chunks, data }
    }

    /// The envelope as bytes.
    pub fn to_bytes(&self) -> (bytes: Vec<u8>)
        ensures
            bytes@ == envelope_bytes(self.chunks, self.data@),
    {
        bincode_serialize(self.chunks, &self.data)
    }

    /// The envelope that `bytes` start with, or `None` if they start with none.
    pub fn from_bytes(bytes: &[u8]) -> (r: Option<Self>)
        ensures
            match r {
                Some(blob) => envelope_of(bytes@) == Some((blob.chunks, blob.data@)),
                None => envelope_of(bytes@) is None,
            },
    {
        match bincode_deserialize(bytes) {
            Some((chunks, data)) => Some(ViaDaBlob { chunks, data }),
            None => None,
        }
    }
}

/// One entry of an identifier list: the length of the identifier as four
/// big-endian bytes, then the identifier.
pub open spec fn id_entry(id: Seq<u8>) -> Seq<u8>
    recommends
        id.len() < 0x1_0000_0000,
{
    u32_be_bytes(id.len() as u32) + id
}

/// An identifier list as bytes: the entries in order.
pub open spec fn id_list_bytes(ids: Seq<Seq<u8>>) -> Seq<u8>
    decreases ids.len(),
{
    if ids.len() == 0 {
        Seq::empty()
    } else {
        id_entry(ids.first()) + id_list_bytes(ids.drop_first())
    }
}

/// The identifiers that `data` lists, or `None` where `data` is no list:
/// where fewer than four bytes are left for a length, or fewer bytes than a
/// length announces.
pub open spec fn id_list_of(data: Seq<u8>) -> Option<Seq<Seq<u8>>>
    decreases data.len(),
{
    if data.len() == 0 {
        Some(Seq::empty())
    } else if data.len() < 4 {
        None
    } else {
        let len = u32_be_value(data.subrange(0, 4)) as int;
        if data.len() - 4 < len {
            None
        } else {
            match id_list_of(data.subrange(4 + len, data.len() as int)) {
                Some(rest) => Some(seq![data.subrange(4, 4 + len)] + rest),
                None => None,
            }
        }
    }
}

/// The texts of `ids` as sequences of characters.
pub open spec fn texts(ids: Seq<String>) -> Seq<Seq<char>> {
    Seq::new(ids.len(), |i: int| ids[i]@)
}

/// Whether each of `ids` is hexadecimal text.
pub open spec fn all_hex(ids: Seq<Seq<char>>) -> bool {
    forall|i: int| 0 <= i < ids.len() ==> base16::is_hex(#[trigger] ids[i])
}

/// The bytes that each of `ids` stands for.
pub open spec fn decoded_ids(ids: Seq<Seq<char>>) -> Seq<Seq<u8>> {
    Seq::new(ids.len(), |i: int| base16::decoded(ids[i]))
}

/// The lowercase hexadecimal text of each of `ids`.
pub open spec fn encoded_ids(ids: Seq<Seq<u8>>) -> Seq<Seq<char>> {
    Seq::new(ids.len(), |i: int| base16::encoded(ids[i]))
}

/// The list of the identifiers `ids`, given as hexadecimal text, or the
/// fault of the first that cannot stand in a list: one that is no
/// hexadecimal text, or one whose length four bytes cannot hold.
pub open spec fn serialized_ids(ids: Seq<Seq<char>>) -> Result<Seq<u8>, DAErrorView>
    decreases ids.len(),
{
    if ids.len() == 0 {
        Ok(Seq::empty())
    } else if !base16::is_hex(ids.first()) {
        Err(DAErrorView::fatal(ErrorCauseView::InvalidHex(base16::decode_fault(ids.first()))))
    } else if base16::decoded(ids.first()).len() >= 0x1_0000_0000 {
        Err(DAErrorView::fatal(ErrorCauseView::BlobIdLength))
    } else {
        match serialized_ids(ids.drop_first()) {
            Ok(rest) => Ok(id_entry(base16::decoded(ids.first())) + rest),
            Err(e) => Err(e),
        }
    }
}

/// Writes the identifiers, given as hexadecimal text, as one list. Fails on
/// the first that is no hexadecimal text or is too long for the list.
pub fn serialize_blob_ids(hex_vec: &[String]) -> (r: Result<Vec<u8>, DAError>)
    ensures
        match r {
            Ok(bytes) => serialized_ids(texts(hex_vec@)) == Ok::<Seq<u8>, DAErrorView>(bytes@),
            Err(e) => serialized_ids(texts(hex_vec@)) == Err::<Seq<u8>, DAErrorView>(e@),
        },
{
    let mut result: Vec<u8> = Vec::new();
    let ghost all = texts(hex_vec@);
    let mut i: usize = 0;
    assert(all.skip(0) =~= all);
    assert(Seq::<u8>::empty() + serialized_ids(all)->Ok_0 =~= serialized_ids(all)->Ok_0);
    while i < hex_vec.len()
        invariant
            i <= hex_vec.len(),
            all == texts(hex_vec@),
            serialized_ids(all) == match serialized_ids(all.skip(i as int)) {
                Ok(rest) => Ok::<Seq<u8>, DAErrorView>(result@ + rest),
                Err(e) => Err(e),
            },
        decreases hex_vec.len() - i,
    {
        let ghost tail = all.skip(i as int);
        assert(tail.first() == hex_vec@[i as int]@);
        assert(tail.drop_first() =~= all.skip(i + 1));
        let bytes = match base16::decode(hex_vec[i].as_str()) {
            Ok(bytes) => bytes,
            Err(why) => {
                return Err(DAError::fatal(ErrorCause::InvalidHex(why)));
            },
        };
        if bytes.len() as u64 >= 0x1_0000_0000 {
            return Err(DAError::fatal(ErrorCause::BlobIdLength));
        }
        let len: u32 = bytes.len() as u32;
        let ghost before = result@;
        // Write 4-byte length prefix (big-endian)
        push_u32_be(&mut result, len);
        result.extend_from_slice(bytes.as_slice());
        proof {
            assert(result@ =~= before + id_entry(bytes@));
            assert(serialized_ids(tail) == match serialized_ids(all.skip(i + 1)) {
                Ok(rest) => Ok::<Seq<u8>, DAErrorView>(id_entry(bytes@) + rest),
                Err(e) => Err(e),
            });
            match serialized_ids(all.skip(i + 1)) {
                Ok(rest) => {
                    assert(before + (id_entry(bytes@) + rest) =~= result@ + rest);
                },
                Err(_) => {},
            }
        }
        i = i + 1;
    }
    assert(all.skip(i as int) =~= Seq::<Seq<char>>::empty());
    assert(result@ + Seq::<u8>::empty() =~= result@);
    Ok(result)
}

proof fn lemma_id_list_of_step(data: Seq<u8>, pos: int, len: int)
    requires
        0 <= pos,
        pos + 4 <= data.len(),
        len == u32_be_value(data.subrange(pos, pos + 4)),
    ensures
        pos + 4 + len > data.len() ==> id_list_of(data.skip(pos)) is None,
        pos + 4 + len <= data.len() ==> id_list_of(data.skip(pos)) == match id_list_of(
            data.skip(pos + 4 + len),
        ) {
            Some(rest) => Some(seq![data.subrange(pos + 4, pos + 4 + len)] + rest),
            None => None,
        },
{
    let tail = data.skip(pos);
    assert(tail.subrange(0, 4) =~= data.subrange(pos, pos + 4));
    if pos + 4 + len <= data.len() {
        assert(tail.subrange(4 + len, tail.len() as int) =~= data.skip(pos + 4 + len));
        assert(tail.subrange(4, 4 + len) =~= data.subrange(pos + 4, pos + 4 + len));
    }
}

/// Reads a list of identifiers and gives each as lowercase hexadecimal text.
/// Fails where `data` is no list.
pub fn deserialize_blob_ids(data: &[u8]) -> (r: Result<Vec<String>, DAError>)
    ensures
        match r {
            Ok(ids) => id_list_of(data@) matches Some(entries) && texts(ids@) == encoded_ids(
                entries,
            ),
            Err(e) => id_list_of(data@) is None && e == DAError::fatal(ErrorCause::BlobIds),
        },
{
    let mut pos: usize = 0;
    let mut result: Vec<String> = Vec::new();
    let ghost mut done: Seq<Seq<u8>> = Seq::empty();
    assert(data@.skip(0) =~= data@);
    while pos < data.len()
        invariant
            pos <= data.len(),
            texts(result@) == encoded_ids(done),
            id_list_of(data@) == match id_list_of(data@.skip(pos as int)) {
                Some(rest) => Some(done + rest),
                None => None,
            },
        decreases data.len() - pos,
    {
        if data.len() - pos < 4 {
            return Err(DAError::fatal(ErrorCause::BlobIds));
        }
        let len = read_u32_be(data, pos) as usize;
        proof {
            lemma_id_list_of_step(data@, pos as int, len as int);
        }
        if data.len() - pos - 4 < len {
            return Err(DAError::fatal(ErrorCause::BlobIds));
        }
        let chunk = vstd::slice::slice_subrange(data, pos + 4, pos + 4 + len);
        let text = base16::encode(chunk);
        proof {
            let entry = data@.subrange(pos + 4, pos + 4 + len);
            assert(texts(result@).len() == encoded_ids(done).len());
            assert forall|j: int| 0 <= j < result@.len() + 1 implies texts(
                result@.push(text),
            )[j] == encoded_ids(done.push(entry))[j] by {
                if j < result@.len() {
                    assert(texts(result@)[j] == encoded_ids(done)[j]);
                }
            }
            assert(texts(result@.push(text)) =~= encoded_ids(done.push(entry)));
            match id_list_of(data@.skip(pos + 4 + len)) {
                Some(rest) => {
                    assert(done + (seq![entry] + rest) =~= done.push(entry) + rest);
                },
                None => {},
            }
            done = done.push(entry);
        }
        result.push(text);
        pos = pos + 4 + len;
    }
    assert(data@.skip(pos as int) =~= Seq::<u8>::empty());
    assert(done + Seq::<Seq<u8>>::empty() =~= done);
    Ok(result)
}

/// An identifier list that was written is read back, as long as four bytes
/// hold the length of each identifier.
pub proof fn lemma_id_list_round_trip(ids: Seq<Seq<u8>>)
    requires
        forall|i: int| 0 <= i < ids.len() ==> (#[trigger] ids[i]).len() < 0x1_0000_0000,
    ensures
        id_list_of(id_list_bytes(ids)) == Some(ids),
    decreases ids.len(),
{
    if ids.len() == 0 {
        assert(ids =~= Seq::<Seq<u8>>::empty());
    } else {
        let first = ids.first();
        let rest = ids.drop_first();
        let data = id_list_bytes(ids);
        assert forall|i: int| 0 <= i < rest.len() implies (#[trigger] rest[i]).len()
            < 0x1_0000_0000 by {
            assert(rest[i] == ids[i + 1]);
        }
        lemma_id_list_round_trip(rest);
        lemma_u32_be_round_trip(first.len() as u32);
        assert(data.subrange(0, 4) =~= u32_be_bytes(first.len() as u32));
        assert(data.subrange(4, 4 + first.len() as int) =~= first);
        assert(data.subrange(4 + first.len() as int, data.len() as int) =~= id_list_bytes(rest));
        assert(seq![first] + rest =~= ids);
    }
}

/// A list that was written holds the bytes of each identifier, in order,
/// and is read back as these: whatever `serialize_blob_ids` accepts,
/// `deserialize_blob_ids` gives back, in lowercase.
pub proof fn lemma_serialized_ids_round_trip(ids: Seq<Seq<char>>)
    ensures
        serialized_ids(ids) matches Ok(bytes) ==> {
            &&& all_hex(ids)
            &&& bytes == id_list_bytes(decoded_ids(ids))
            &&& id_list_of(bytes) == Some(decoded_ids(ids))
        },
    decreases ids.len(),
{
    if ids.len() > 0 && serialized_ids(ids) is Ok {
        let rest = ids.drop_first();
        lemma_serialized_ids_round_trip(rest);
        assert forall|i: int| 0 <= i < ids.len() implies base16::is_hex(#[trigger] ids[i]) by {
            if i > 0 {
                assert(ids[i] == rest[i - 1]);
            }
        }
        assert(decoded_ids(ids).drop_first() =~= decoded_ids(rest));
        assert(decoded_ids(ids).first() == base16::decoded(ids.first()));
        let first = base16::decoded(ids.first());
        let data = id_list_bytes(decoded_ids(ids));
        lemma_u32_be_round_trip(first.len() as u32);
        assert(data.subrange(0, 4) =~= u32_be_bytes(first.len() as u32));
        assert(data.subrange(4, 4 + first.len() as int) =~= first);
        assert(data.subrange(4 + first.len() as int, data.len() as int) =~= id_list_bytes(
            decoded_ids(rest),
        ));
        assert(seq![first] + decoded_ids(rest) =~= decoded_ids(ids));
    } else if ids.len() == 0 {
        assert(decoded_ids(ids) =~= Seq::<Seq<u8>>::empty());
    }
}

} // verus!

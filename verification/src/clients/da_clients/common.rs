//! What the clients share: the namespace and the versions that blobs are
//! published with, and the blob identifier, a block height and a commitment
//! as one hexadecimal text.

use crate::clients::da_clients::base16;
use crate::clients::da_clients::byte_order::{
    lemma_u64_be_round_trip, push_u64_be, read_u64_be, u64_be_bytes, u64_be_value,
};
use crate::clients::da_clients::commitment::namespace_v0;
use crate::clients::da_clients::types::{DAError, DAErrorView, ErrorCause, ErrorCauseView};
use vstd::prelude::*;

verus! {

/// The id of the namespace under which blobs are published: `VIA`, then zeros.
pub const VIA_NAME_SPACE_BYTES: [u8; 8] = [0x56, 0x49, 0x41, 0, 0, 0, 0, 0];

/// The namespace of every blob: version 0, with `VIA_NAME_SPACE_BYTES` as its id.
pub open spec fn via_namespace() -> Seq<u8> {
    namespace_v0(VIA_NAME_SPACE_BYTES@).unwrap()
}

/// The share version of every blob: the first format, without a signer.
pub const SHARE_VERSION: u8 = 0;

/// The application version that commitments are computed for.
pub const APP_VERSION: u64 = 5;

/// The identifier of the blob with commitment `commitment` at `block_height`:
/// the height as eight big-endian bytes, then the commitment, in lowercase
/// hexadecimal.
pub open spec fn blob_id_of(block_height: u64, commitment: Seq<u8>) -> Seq<char> {
    base16::encoded(u64_be_bytes(block_height) + commitment)
}

/// What an identifier holds: `Ok` with the commitment and the block height,
/// or the error for text that is no identifier. Bytes behind the fortieth are
/// ignored.
pub open spec fn parsed_blob_id(blob_id: Seq<char>) -> Result<(Seq<u8>, u64), DAErrorView> {
    if !base16::is_hex(blob_id) {
        Err(DAErrorView::fatal(ErrorCauseView::InvalidHex(base16::decode_fault(blob_id))))
    } else {
        let bytes = base16::decoded(blob_id);
        if bytes.len() < 8 {
            Err(DAErrorView::fatal(ErrorCauseView::BlockHeight))
        } else if bytes.len() < 40 {
            Err(DAErrorView::fatal(ErrorCauseView::CommitmentBytes))
        } else {
            Ok((bytes.subrange(8, 40), u64_be_value(bytes.subrange(0, 8))))
        }
    }
}

/// Writes the identifier of a blob.
pub fn encode_blob_id(block_height: u64, commitment: &[u8; 32]) -> (blob_id: String)
    ensures
        blob_id@ == blob_id_of(block_height, commitment@),
{
    // [8]byte block height ++ [32]byte commitment
    let mut blob_id_bytes: Vec<u8> = Vec::with_capacity(8 + 32);
    push_u64_be(&mut blob_id_bytes, block_height);
    blob_id_bytes.extend_from_slice(commitment.as_slice());
    assert(blob_id_bytes@ =~= u64_be_bytes(block_height) + commitment@);
    base16::encode(blob_id_bytes.as_slice())
}

/// Reads an identifier: the commitment and the block height.
pub fn parse_blob_id(blob_id: &str) -> (r: Result<([u8; 32], u64), DAError>)
    ensures
        match r {
            Ok((commitment, block_height)) => parsed_blob_id(blob_id@) == Ok::<
                (Seq<u8>, u64),
                DAErrorView,
            >((commitment@, block_height)),
            Err(e) => parsed_blob_id(blob_id@) == Err::<(Seq<u8>, u64), DAErrorView>(e@),
        },
{
    // [8]byte block height ++ [32]byte commitment
    let blob_id_bytes = match base16::decode(blob_id) {
        Ok(bytes) => bytes,
        Err(why) => {
            return Err(DAError::fatal(ErrorCause::InvalidHex(why)));
        },
    };
    if blob_id_bytes.len() < 8 {
        return Err(DAError::fatal(ErrorCause::BlockHeight));
    }
    let block_height = read_u64_be(blob_id_bytes.as_slice(), 0);
    if blob_id_bytes.len() < 40 {
        return Err(DAError::fatal(ErrorCause::CommitmentBytes));
    }
    let mut commitment: [u8; 32] = [0u8; 32];
    let mut i: usize = 0;
    while i < 32
        invariant
            i <= 32,
            blob_id_bytes.len() >= 40,
            forall|j: int| 0 <= j < i ==> commitment@[j] == blob_id_bytes@[8 + j],
        decreases 32 - i,
    {
        commitment[i] = blob_id_bytes[8 + i];
        i = i + 1;
    }
    assert(commitment@ =~= blob_id_bytes@.subrange(8, 40));
    Ok((commitment, block_height))
}

/// An identifier that was written is read back: the commitment and the block
/// height are those it was written from.
pub proof fn lemma_blob_id_round_trip(block_height: u64, commitment: Seq<u8>)
    requires
        commitment.len() == 32,
    ensures
        parsed_blob_id(blob_id_of(block_height, commitment)) == Ok::<(Seq<u8>, u64), DAErrorView>(
            (commitment, block_height),
        ),
{
    let bytes = u64_be_bytes(block_height) + commitment;
    base16::lemma_decode_encode(bytes);
    lemma_u64_be_round_trip(block_height);
    assert(bytes.subrange(0, 8) =~= u64_be_bytes(block_height));
    assert(bytes.subrange(8, 40) =~= commitment);
}

} // verus!

//! The namespace under which blobs are published and the share commitment
//! over a blob, both computed by the celestia-types crate.

use vstd::prelude::*;

verus! {

/// The length of a namespace: one byte of version, then 28 bytes of id.
pub const NAMESPACE_SIZE: usize = 29;

/// The length of a commitment.
pub const COMMITMENT_SIZE: usize = 32;

/// `n` zero bytes.
pub open spec fn zeros(n: nat) -> Seq<u8> {
    Seq::new(n, |i: int| 0u8)
}

/// The version 0 namespace of `id`: 29 bytes that end in `id`, all before it
/// zero. An id of at most 10 bytes is taken as it is, one of 28 bytes only if
/// its first 18 bytes are zero, and no other.
pub open spec fn namespace_v0(id: Seq<u8>) -> Option<Seq<u8>> {
    if id.len() <= 10 || (id.len() == 28 && id.take(18) == zeros(18)) {
        Some(zeros((NAMESPACE_SIZE - id.len()) as nat) + id)
    } else {
        None
    }
}

/// The share commitment over `data` published under `namespace`, for the
/// given share version and application version, without a signer: what
/// `Commitment::from_blob` of celestia-types computes, or, where it refuses
/// its arguments, the words that its error prints.
pub uninterp spec fn share_commitment(
    namespace: Seq<u8>,
    data: Seq<u8>,
    share_version: u8,
    app_version: u64,
) -> Result<Seq<u8>, Seq<char>>;

/// The error of celestia-types.
#[verifier::external_type_specification]
#[verifier::external_body]
pub struct ExCelestiaError(::celestia_types::Error);

/// Calls `Namespace::new_v0` of celestia-types and takes the namespace's
/// bytes. It accepts an id of at most 10 bytes, or one of 28 bytes whose
/// first 18 are zero, and copies the id to the end of 29 zero bytes.
#[verifier::external_body]
pub(crate) fn new_namespace_v0(id: &[u8]) -> (r: Result<Vec<u8>, ::celestia_types::Error>)
    ensures
        match r {
            Ok(namespace) => namespace_v0(id@) == Some(namespace@),
            Err(_) => namespace_v0(id@) is None,
        },
{
    ::celestia_types::nmt::Namespace::new_v0(id).map(|namespace| namespace.as_bytes().to_vec())
}

/// Calls `Commitment::from_blob` of celestia-types, without a signer, and
/// takes the commitment's hash. The namespace is rebuilt from its bytes and
/// the application version from its number; where either is refused, so is
/// the call. An error is handed on as the words that it prints.
#[verifier::external_body]
pub(crate) fn commit(namespace: &[u8], data: &[u8], share_version: u8, app_version: u64) -> (r:
    Result<[u8; 32], String>)
    ensures
        match r {
            Ok(hash) => share_commitment(namespace@, data@, share_version, app_version) == Ok::<
                Seq<u8>,
                Seq<char>,
            >(hash@),
            Err(why) => share_commitment(namespace@, data@, share_version, app_version) == Err::<
                Seq<u8>,
                Seq<char>,
            >(why@),
        },
{
    ::celestia_types::nmt::Namespace::from_raw(namespace).and_then(
        |namespace|
            ::celestia_types::AppVersion::from_u64(app_version).ok_or(
                ::celestia_types::Error::UnsupportedAppVersion(app_version),
            ).map(|version| (namespace, version)),
    ).and_then(
        |(namespace, version)|
            ::celestia_types::Commitment::from_blob(namespace, data, share_version, None, version),
    ).map(|commitment| *commitment.hash()).map_err(|error| error.to_string())
}

} // verus!

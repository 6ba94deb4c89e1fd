//! The client that stores the pubdata in Celestia DA: what it decides before
//! and after each exchange with the network. The exchanges themselves are the
//! caller's: the client says what to ask for, and is told how it went.

use crate::clients::da_clients::byte_order::u64_be_bytes;
use crate::clients::da_clients::commitment::{commit, new_namespace_v0, share_commitment};
use crate::clients::da_clients::common::{
    blob_id_of, encode_blob_id, parse_blob_id, parsed_blob_id, via_namespace, APP_VERSION,
    SHARE_VERSION, VIA_NAME_SPACE_BYTES,
};
use crate::clients::da_clients::types::{
    DAError, DAErrorView, DispatchResponse, ErrorCause, ErrorCauseView, InclusionData,
};
use vstd::prelude::*;

verus! {

/// A blob that is ready to be submitted: what the network is asked to take.
#[derive(Debug, Clone)]
pub struct Submission {
    pub namespace: Vec<u8>,
    pub data: Vec<u8>,
    pub share_version: u8,
    pub app_version: u64,
    pub commitment: [u8; 32],
}

/// Where a blob stands in the network: what the network is asked to hand out.
#[derive(Debug, Clone)]
pub struct Retrieval {
    pub block_height: u64,
    pub namespace: Vec<u8>,
    pub commitment: [u8; 32],
}

/// An implementation of the data availability client that stores the pubdata in Celestia DA.
#[derive(Debug, Clone)]
pub struct CelestiaClient {
    light_node_url: String,
    blob_size_limit: usize,
    namespace: Vec<u8>,
    app_version: u64,
}

impl CelestiaClient {
    /// The address of the node that the client talks to.
    pub closed spec fn node_url(&self) -> Seq<char> {
        self.light_node_url@
    }

    /// The size limit that the client was made with.
    pub closed spec fn limit(&self) -> usize {
        self.blob_size_limit
    }

    /// The namespace under which the client publishes.
    pub closed spec fn namespace(&self) -> Seq<u8> {
        self.namespace@
    }

    /// The application version that the client computes commitments for.
    pub closed spec fn version(&self) -> u64 {
        self.app_version
    }

    /// The client for the node at `node_url`, once the node was reached:
    /// `reached` tells whether the connection stands and the node answered,
    /// or holds the transport's words for why not. An unreachable node gives
    /// no client.
    pub fn new(node_url: String, blob_size_limit: usize, reached: Result<(), String>) -> (r: Result<
        Self,
        DAError,
    >)
        ensures
            match r {
                Ok(client) => reached is Ok && client.node_url() == node_url@ && client.limit()
                    == blob_size_limit && client.namespace() == via_namespace()
                    && client.version() == APP_VERSION,
                Err(e) => reached matches Err(why) && e == DAError::fatal(ErrorCause::Connect(why)),
            },
    {
        if let Err(why) = reached {
            return Err(DAError::fatal(ErrorCause::Connect(why)));
        }
        let namespace = match new_namespace_v0(VIA_NAME_SPACE_BYTES.as_slice()) {
            Ok(namespace) => namespace,
            Err(_) => {
                return Err(DAError::fatal(ErrorCause::Namespace));
            },
        };
        Ok(Self { light_node_url: node_url, blob_size_limit, namespace, app_version: APP_VERSION })
    }

    /// The address of the node that the client talks to.
    pub fn light_node_url(&self) -> (url: &str)
        ensures
            url@ == self.node_url(),
    {
        self.light_node_url.as_str()
    }

    /// Returns the maximum size of the blob (in bytes) that can be dispatched.
    pub fn blob_size_limit(&self) -> (limit: Option<usize>)
        ensures
            limit == Some(self.limit()),
    {
        Some(self.blob_size_limit)
    }

    /// The first half of a dispatch: the blob with its commitment, ready to
    /// be submitted, or the error where no commitment can be computed.
    pub fn submission(&self, data: Vec<u8>) -> (r: Result<Submission, DAError>)
        ensures
            match r {
                Ok(submission) => share_commitment(
                    self.namespace(),
                    data@,
                    SHARE_VERSION,
                    self.version(),
                ) == Ok::<Seq<u8>, Seq<char>>(submission.commitment@) && submission.namespace@
                    == self.namespace()
                    && submission.data == data && submission.share_version == SHARE_VERSION
                    && submission.app_version == self.version(),
                Err(e) => share_commitment(self.namespace(), data@, SHARE_VERSION, self.version())
                    matches Err(why) && e@ == DAErrorView::fatal(ErrorCauseView::Commitment(why)),
            },
    {
        let commitment = match commit(
            self.namespace.as_slice(),
            data.as_slice(),
            SHARE_VERSION,
            self.app_version,
        ) {
            Ok(commitment) => commitment,
            Err(why) => {
                return Err(DAError::fatal(ErrorCause::Commitment(why)));
            },
        };
        Ok(
            Submission {
                namespace: self.namespace.clone(),
                data,
                share_version: SHARE_VERSION,
                app_version: self.app_version,
                commitment,
            },
        )
    }

    /// The second half of a dispatch: the response for a blob that the
    /// network took at `accepted`, or the retriable error where it did not.
    pub fn dispatched(submission: &Submission, accepted: Result<u64, String>) -> (r: Result<
        DispatchResponse,
        DAError,
    >)
        ensures
            match r {
                Ok(response) => accepted matches Ok(block_height) && response.blob_id@
                    == blob_id_of(block_height, submission.commitment@)
                    && response.blob_id@.len() == 80,
                Err(e) => accepted matches Err(why) && e == DAError::retriable(
                    ErrorCause::Submit(why),
                ),
            },
    {
        match accepted {
            // blob_id = [block_height (8 bytes) | commitment hash (32 bytes)]
            Ok(block_height) => {
                assert((u64_be_bytes(block_height) + submission.commitment@).len() == 40);
                Ok(
                    DispatchResponse {
                        blob_id: encode_blob_id(block_height, &submission.commitment),
                    },
                )
            },
            Err(why) => Err(DAError::retriable(ErrorCause::Submit(why))),
        }
    }

    /// The first half of a fetch: where the blob named `blob_id` stands, or
    /// the error for text that is no identifier.
    pub fn retrieval(&self, blob_id: &str) -> (r: Result<Retrieval, DAError>)
        ensures
            match r {
                Ok(retrieval) => parsed_blob_id(blob_id@) == Ok::<(Seq<u8>, u64), DAErrorView>(
                    (retrieval.commitment@, retrieval.block_height),
                ) && retrieval.namespace@ == self.namespace(),
                Err(e) => parsed_blob_id(blob_id@) == Err::<(Seq<u8>, u64), DAErrorView>(e@),
            },
    {
        match parse_blob_id(blob_id) {
            Ok((commitment, block_height)) => Ok(
                Retrieval { block_height, namespace: self.namespace.clone(), commitment },
            ),
            Err(e) => Err(e),
        }
    }

    /// The second half of a fetch: the inclusion data for the bytes that the
    /// network handed out, or the retriable error where it handed out none.
    pub fn retrieved(found: Result<Vec<u8>, String>) -> (r: Result<Option<InclusionData>, DAError>)
        ensures
            match r {
                Ok(Some(inclusion)) => found == Ok::<Vec<u8>, String>(inclusion.data),
                Ok(None) => false,
                Err(e) => found matches Err(why) && e == DAError::retriable(
                    ErrorCause::Retrieve(why),
                ),
            },
    {
        match found {
            Ok(data) => Ok(Some(InclusionData { data })),
            Err(why) => Err(DAError::retriable(ErrorCause::Retrieve(why))),
        }
    }

    /// The answer to a ping, given how the probe for the network's head
    /// went: an unreachable network is an answer, not an error.
    pub fn ping(probe: Result<(), String>) -> (alive: bool)
        ensures
            alive == (probe is Ok),
    {
        probe.is_ok()
    }
}

} // verus!

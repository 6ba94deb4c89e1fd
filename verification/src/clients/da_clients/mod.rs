pub mod base16;
pub mod byte_order;
pub mod celestia;
pub mod commitment;
pub mod common;
pub mod in_memory;
pub mod types;

use crate::config::{Config, ConfigError, DaBackend};
use types::{DAError, DispatchResponse, InclusionData};
use vstd::prelude::*;

verus! {

/// The client that a configuration asks for, with what it is made from.
#[derive(Debug, Clone)]
pub enum ClientPlan {
    /// The Celestia client for the node at `node_url`, which lets in who
    /// shows `auth_token`.
    Celestia { node_url: String, auth_token: String, blob_size_limit: usize },
    /// The client that keeps the blobs in memory.
    InMemory { blob_size_limit: usize },
}

/// The client that `config` asks for. The Celestia client needs the node url
/// and the auth token: where one is missing, the error names the first.
pub fn client_plan(config: Config) -> (r: Result<ClientPlan, ConfigError>)
    ensures
        match config.da_backend {
            DaBackend::InMemory => r == Ok::<ClientPlan, ConfigError>(
                ClientPlan::InMemory { blob_size_limit: config.da_blob_size_limit },
            ),
            DaBackend::Celestia => match (config.da_node_url, config.da_auth_token) {
                (Some(node_url), Some(auth_token)) => r == Ok::<ClientPlan, ConfigError>(
                    ClientPlan::Celestia {
                        node_url,
                        auth_token,
                        blob_size_limit: config.da_blob_size_limit,
                    },
                ),
                (None, _) => r == Err::<ClientPlan, ConfigError>(ConfigError::MissingNodeUrl),
                (Some(_), None) => r == Err::<ClientPlan, ConfigError>(
                    ConfigError::MissingAuthToken,
                ),
            },
        },
{
    match config.da_backend {
        DaBackend::Celestia => {
            let node_url = match config.da_node_url {
                Some(node_url) => node_url,
                None => {
                    return Err(ConfigError::MissingNodeUrl);
                },
            };
            let auth_token = match config.da_auth_token {
                Some(auth_token) => auth_token,
                None => {
                    return Err(ConfigError::MissingAuthToken);
                },
            };
            Ok(
                ClientPlan::Celestia {
                    node_url,
                    auth_token,
                    blob_size_limit: config.da_blob_size_limit,
                },
            )
        },
        DaBackend::InMemory => Ok(
            ClientPlan::InMemory { blob_size_limit: config.da_blob_size_limit },
        ),
    }
}

/// Trait that defines the interface for the data availability layer clients.
///
/// Each client says in its own words what its operations may do: the four
/// `may_*` and `*_limit` predicates are the client's promise, and the
/// operations are held to them.
pub trait DataAvailabilityClient: Sized {
    /// Whether dispatching `data` may turn the client `self` into `after`
    /// and hand back `r`.
    spec fn may_dispatch(
        &self,
        batch_number: u32,
        data: Seq<u8>,
        after: &Self,
        r: Result<DispatchResponse, DAError>,
    ) -> bool;

    /// Whether fetching `blob_id` may hand back `r`.
    spec fn may_fetch(&self, blob_id: Seq<char>, r: Result<Option<InclusionData>, DAError>) -> bool;

    /// The size limit that the client advertises.
    spec fn size_limit(&self) -> Option<usize>;

    /// Whether a liveness probe may answer `alive`.
    spec fn may_answer(&self, alive: bool) -> bool;

    /// Dispatches a blob to the data availability layer.
    fn dispatch_blob(&mut self, batch_number: u32, data: Vec<u8>) -> (r: Result<
        DispatchResponse,
        DAError,
    >)
        ensures
            old(self).may_dispatch(batch_number, data@, final(self), r),
    ;

    /// Fetches the inclusion data for a given blob_id. An identifier that
    /// is no hexadecimal text is malformed: whatever the client, it is
    /// answered with a fatal error, never with nothing.
    fn get_inclusion_data(&self, blob_id: &str) -> (r: Result<Option<InclusionData>, DAError>)
        ensures
            self.may_fetch(blob_id@, r),
            !base16::is_hex(blob_id@) ==> (r matches Err(e) && !e.is_retriable),
    ;

    /// Returns the maximum size of the blob (in bytes) that can be dispatched. None means no limit.
    fn blob_size_limit(&self) -> (limit: Option<usize>)
        ensures
            limit == self.size_limit(),
    ;

    /// Ping the DA layer.
    fn ping(&self) -> (alive: bool)
        ensures
            self.may_answer(alive),
    ;
}

} // verus!

use crate::clients::da_clients::types::{DAError, DispatchResponse, InclusionData};
use crate::clients::da_clients::DataAvailabilityClient;
use vstd::prelude::*;

verus! {

/// The service through which blobs are dispatched and fetched.
#[derive(Debug, Clone)]
pub struct DaSvc<C: DataAvailabilityClient> {
    da_client: C,
}

impl<C: DataAvailabilityClient> DaSvc<C> {
    /// The client that the service works with.
    pub closed spec fn client(&self) -> C {
        self.da_client
    }

    pub fn new(da_client: C) -> (svc: Self)
        ensures
            svc.client() == da_client,
    {
        Self { da_client }
    }

    /// Dispatches a blob to the data availability layer.
    pub fn dispatch_blob(&mut self, batch_number: u32, data: Vec<u8>) -> (r: Result<
        DispatchResponse,
        DAError,
    >)
        ensures
            old(self).client().may_dispatch(batch_number, data@, &final(self).client(), r),
    {
        self.da_client.dispatch_blob(batch_number, data)
    }

    /// Fetches the inclusion data for a given blob_id.
    pub fn get_inclusion_data(&self, blob_id: &str) -> (r: Result<Option<InclusionData>, DAError>)
        ensures
            self.client().may_fetch(blob_id@, r),
    {
        self.da_client.get_inclusion_data(blob_id)
    }
}

} // verus!

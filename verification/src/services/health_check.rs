use crate::clients::da_clients::DataAvailabilityClient;
use crate::types::health_check::{HealthCheckResponse, ServiceStatus};
use vstd::prelude::*;
use vstd::string::StringExecFns;

verus! {

/// The message of every report on the data availability layer.
pub open spec fn da_message() -> Seq<char> {
    "Data availability is healthy"@
}

/// The report on a data availability layer that answered a ping with `alive`.
pub fn da_status(alive: bool) -> (response: HealthCheckResponse)
    ensures
        response.da.status == alive,
        response.da.message@ == da_message(),
{
    let da = ServiceStatus {
        status: alive,
        message: String::from_str("Data availability is healthy"),
    };
    HealthCheckResponse { da }
}

/// The service that reports on the health of the gateway's parts.
#[derive(Debug, Clone)]
pub struct HealthCheckSvc<C: DataAvailabilityClient> {
    da_client: C,
}

impl<C: DataAvailabilityClient> HealthCheckSvc<C> {
    /// The client that the service asks.
    pub closed spec fn client(&self) -> C {
        self.da_client
    }

    pub fn new(da_client: C) -> (svc: Self)
        ensures
            svc.client() == da_client,
    {
        Self { da_client }
    }

    /// Pings the data availability layer and reports what it answered.
    pub fn health_check(&self) -> (response: HealthCheckResponse)
        ensures
            self.client().may_answer(response.da.status),
            response.da.message@ == da_message(),
    {
        da_status(self.da_client.ping())
    }
}

} // verus!

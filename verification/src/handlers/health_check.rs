use crate::clients::da_clients::DataAvailabilityClient;
use crate::handlers::Reply;
use crate::services::health_check::{da_message, HealthCheckSvc};
use crate::types::health_check::HealthCheckResponse;
use vstd::prelude::*;

verus! {

/// GET /health_check
pub fn health_check_handler<C: DataAvailabilityClient>(svc: &HealthCheckSvc<C>) -> (reply: Reply<
    HealthCheckResponse,
>)
    ensures
        reply matches Reply::Json(response) && svc.client().may_answer(response.da.status)
            && response.da.message@ == da_message(),
{
    Reply::Json(svc.health_check())
}

} // verus!

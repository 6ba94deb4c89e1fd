use vstd::prelude::*;

verus! {

#[derive(Debug, Clone)]
pub struct ServiceStatus {
    pub status: bool,
    pub message: String,
}

#[derive(Debug, Clone)]
pub struct HealthCheckResponse {
    pub da: ServiceStatus,
}

} // verus!

use vstd::prelude::*;

verus! {

#[derive(Debug, Clone)]
pub struct HealthResponse {
    pub status: String,
    pub server_url: String,
    pub ws_url: String,
    pub api_url: String,
    pub timestamp: String,
}

#[derive(Debug, Clone)]
pub struct ApiInfoResponse {
    pub message: String,
    pub endpoints: Vec<String>,
}

} // verus!

use vstd::prelude::*;
use std::collections::HashMap;

verus! {

#[derive(Debug, Clone)]
pub struct ErrorLog {
    pub id: String,
    pub error_type: String,
    pub message: String,
    pub is_resolved: bool,
    pub created_at: String,
}

#[derive(Debug, Clone)]
pub struct ServiceStatusData {
    pub status: String,
    pub timestamp: String,
    pub services: HashMap<String, ServiceStatus>,
    pub latency_ms: u64,
}

#[derive(Debug, Clone)]
pub struct ServiceStatus {
    pub status: String,
    pub latency_ms: u64,
    pub details: Option<String>,
    pub error: Option<String>,
    pub rooms: Option<u32>,
}

#[derive(Debug, Clone)]
pub struct MetricsQuery {
    pub hours: Option<u32>,
}

#[derive(Debug, Clone)]
pub struct ErrorLogsQuery {
    pub unresolved_only: Option<bool>,
}

} // verus!

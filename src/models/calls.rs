use vstd::prelude::*;

verus! {

#[derive(Debug, Clone)]
pub struct OutboundCallRequest {
    pub trunk_id: String,
    pub to_number: String,
    pub room_name: Option<String>,
    pub participant_identity: Option<String>,
}

#[derive(Debug, Clone)]
pub struct CallLogsQuery {
    pub limit: Option<usize>,
}

#[derive(Debug, Clone)]
pub struct CallLogResponse {
    pub id: String,
    pub call_id: String,
    pub from_number: String,
    pub to_number: String,
    pub direction: String,
    pub started_at: String,
    pub ended_at: Option<String>,
    pub duration_seconds: Option<i64>,
    pub status: String,
    pub trunk_id: Option<String>,
    pub room_name: Option<String>,
    pub participant_identity: Option<String>,
}

} // verus!

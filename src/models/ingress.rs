use vstd::prelude::*;

verus! {

#[derive(Debug, Clone)]
pub struct CreateIngressRequest {
    pub name: String,
    pub room_name: Option<String>,
    pub participant_identity: Option<String>,
    pub participant_name: Option<String>,
    pub input_type: Option<i32>,
    pub ingress_type: Option<String>,
}

#[derive(Debug, Clone)]
pub struct CreateUrlIngressRequest {
    pub name: String,
    pub url: String,
    pub room_name: String,
    pub participant_identity: String,
    pub participant_name: String,
    pub audio_enabled: bool,
    pub video_enabled: bool,
}

#[derive(Debug, Clone)]
pub struct IngressResponse {
    pub ingress_id: String,
    pub name: String,
    pub input_type: i32,
    pub ingress_type: String,
    pub status: String,
    pub room_name: String,
    pub stream_key: String,
    pub url: String,
    pub participant_identity: String,
    pub participant_name: String,
    pub reusable: bool,
    pub state: Option<IngressStateResponse>,
}

#[derive(Debug, Clone)]
pub struct IngressStateResponse {
    pub status: String,
    pub error: String,
    pub room_id: String,
    pub started_at: i64,
    pub ended_at: i64,
    pub resource_id: String,
    pub tracks: Vec<String>,
}

#[derive(Debug, Clone)]
pub struct ListIngressResponse {
    pub items: Vec<IngressResponse>,
}

} // verus!

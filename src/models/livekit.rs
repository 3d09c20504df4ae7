use vstd::prelude::*;

verus! {

#[derive(Debug, Clone)]
pub struct CreateApiKeyRequest {
    pub name: String,
}

#[derive(Debug, Clone)]
pub struct ApiKeyResponse {
    pub id: String,
    pub name: String,
    pub key: String,
    pub key_prefix: String,
    pub secret_key: Option<String>,
    pub created_at: String,
    pub is_active: bool,
}

#[derive(Debug, Clone)]
pub struct ListRoomsResponse {
    pub rooms: Vec<RoomResponse>,
}

#[derive(Debug, Clone)]
pub struct CreateRoomRequest {
    pub name: String,
    pub empty_timeout: Option<u32>,
    pub max_participants: Option<u32>,
    pub metadata: Option<String>,
}

#[derive(Debug, Clone)]
pub struct RoomResponse {
    pub name: String,
    pub sid: String,
    pub empty_timeout: u32,
    pub max_participants: u32,
    pub creation_time: i64,
    pub num_participants: u32,
    pub active_recording: bool,
}

#[derive(Debug, Clone)]
pub struct CodecInfo {
    pub mime: String,
}

#[derive(Debug, Clone)]
pub struct ParticipantResponse {
    pub sid: String,
    pub identity: String,
    pub name: Option<String>,
    pub state: String,
    pub joined_at: u64,
}

#[derive(Debug, Clone)]
pub struct TrackInfo {
    pub sid: String,
    pub name: String,
    pub kind: String,
}

#[derive(Debug, Clone)]
pub struct LiveKitStatsResponse {
    pub active_rooms: i32,
    pub total_participants: i32,
    pub status: String,
}

} // verus!

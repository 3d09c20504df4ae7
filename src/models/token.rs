use vstd::prelude::*;

verus! {

#[derive(Debug, Clone)]
pub struct TokenRequest {
    pub room_name: String,
    pub identity: Option<String>,
    pub can_publish: Option<bool>,
    pub can_subscribe: Option<bool>,
}

#[derive(Debug, Clone)]
pub struct TokenResponse {
    pub token: String,
    pub ws_url: String,
    pub room: String,
    pub identity: String,
}

#[derive(Debug, Clone)]
pub struct TokenQuery {
    pub identity: Option<String>,
    pub room: Option<String>,
}

} // verus!

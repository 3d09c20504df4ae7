use vstd::prelude::*;

verus! {

#[derive(Debug, Clone)]
pub struct WebhookEventsQuery {
    pub limit: Option<usize>,
}

#[derive(Debug, Clone)]
pub struct RetryWebhookResponse {
    pub ok: bool,
    pub deliveries_queued: u32,
}

#[derive(Debug, Clone)]
pub struct EventDeliveriesResponse {
    pub event_id: String,
    pub deliveries: Vec<DeliveryAttempt>,
}

#[derive(Debug, Clone)]
pub struct DeliveryAttempt {
    pub id: String,
    pub event_id: String,
    pub url: String,
    pub status_code: Option<i32>,
    pub response_body: Option<String>,
    pub error_message: Option<String>,
    pub attempted_at: String,
    pub success: bool,
}

} // verus!

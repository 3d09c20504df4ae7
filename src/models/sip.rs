use vstd::prelude::*;

verus! {

#[derive(Debug, Clone)]
pub struct CreateSipTrunkRequest {
    pub name: Option<String>,
    pub metadata: Option<String>,
    pub inbound_addresses: Option<Vec<String>>,
    pub inbound_numbers_regex: Option<Vec<String>>,
    pub numbers: Option<Vec<String>>,
    pub inbound_username: Option<String>,
    pub inbound_password: Option<String>,
    pub outbound_address: Option<String>,
    pub sip_server: Option<String>,
    pub outbound_username: Option<String>,
    pub username: Option<String>,
    pub outbound_password: Option<String>,
    pub password: Option<String>,
}

#[derive(Debug, Clone)]
pub struct SipTrunkResponse {
    pub id: String,
    pub sip_trunk_id: String,
    pub name: Option<String>,
    pub metadata: Option<String>,
    pub inbound_addresses: Vec<String>,
    pub inbound_numbers_regex: Vec<String>,
    pub outbound_address: Option<String>,
    pub sip_server: Option<String>,
    pub username: Option<String>,
    pub created_at: Option<String>,
}

#[derive(Debug, Clone)]
pub struct ListSipTrunkResponse {
    pub items: Vec<SipTrunkResponse>,
}

#[derive(Debug, Clone)]
pub struct SipDispatchRuleResponse {
    pub id: String,
    pub sip_dispatch_rule_id: String,
    pub name: Option<String>,
    pub metadata: Option<String>,
    pub rule: Option<SipDispatchRule>,
    pub trunk_ids: Vec<String>,
    pub hide_phone_number: bool,
    pub rule_type: Option<String>,
    pub agent_id: Option<String>,
    pub trunk_id: Option<String>,
}

#[derive(Debug, Clone)]
pub struct SipDispatchRule {
    pub dispatch_rule: Option<DispatchRuleType>,
}

#[derive(Debug, Clone)]
pub enum DispatchRuleType {
    Individual(IndividualRule),
    Recursive(RecursiveRule),
}

#[derive(Debug, Clone)]
pub struct IndividualRule {
    pub room_name_prefix: String,
    pub pin: Option<String>,
}

#[derive(Debug, Clone)]
pub struct RecursiveRule {
    pub room_name: String,
    pub pin: Option<String>,
}

#[derive(Debug, Clone)]
pub struct ListSipDispatchRuleResponse {
    pub items: Vec<SipDispatchRuleResponse>,
}

#[derive(Debug, Clone)]
pub struct CreateSipCallRequest {
    pub trunk_id: String,
    pub to_number: String,
    pub from_number: String,
    pub room_name: String,
}

#[derive(Debug, Clone)]
pub struct SipCallResponse {
    pub call_id: String,
    pub trunk_id: String,
    pub to_number: String,
    pub from_number: String,
    pub room_name: String,
    pub status: String,
}

} // verus!

use vstd::prelude::*;

verus! {

#[derive(Debug, Clone)]
pub struct MuteRequest {
    pub muted: bool,
    pub track_sid: Option<String>,
}

} // verus!

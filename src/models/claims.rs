use vstd::prelude::*;

verus! {

#[derive(Debug, Clone)]
pub struct Claims {
    pub sub: String,
    pub exp: usize,
    pub is_admin: bool,
    pub email: String,
    pub name: String,
}

} // verus!

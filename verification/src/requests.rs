use vstd::prelude::*;

verus! {

/// Plain request records of the HTTP-style command surface: what the
/// surrounding routing layer hands over once it has decoded a request body.
/// The principal travels in its textual form and is resolved outside the
/// library.
pub struct PublishCheckupJson {
    pub principal: String,
    pub checkup_id: String,
}

/// Request to add reward points to a user.
pub struct RewardUserJson {
    pub principal: String,
    pub points: u64,
}

/// Request naming a user, for profile and history reads.
pub struct GetUserJson {
    pub principal: String,
}

} // verus!

use vstd::prelude::*;

verus! {

/// Body of a successful registration response.
pub struct RegisterResponsePayload {
    pub user_id: String,
}

} // verus!

use vstd::prelude::*;

verus! {

/// Asks the server for a user id under the given name.
#[derive(Clone, Debug)]
pub struct CreateUserIdRequest {
    pub name: String,
}

} // verus!

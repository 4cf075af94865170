use vstd::prelude::*;

verus! {

/// An account record: two caller-supplied text fields and two fields
/// fixed at creation.
pub struct User {
    pub active: bool,
    pub username: String,
    pub email: String,
    pub sign_in_count: u64,
}

/// Builds a user record from an email and a username. The record starts
/// active, with a sign-in count of one, and carries both inputs unchanged.
pub fn build_user(email: String, username: String) -> (user: User)
    ensures
        user.active == true,
        user.username == username,
        user.email == email,
        user.sign_in_count == 1,
{
    User {
        active: true,
        username,
        email,
        sign_in_count: 1,
    }
}

} // verus!

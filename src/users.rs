use vstd::prelude::*;

verus! {

/// An account.
pub struct User {
    pub username: String,
    pub email: String,
    pub sign_in_count: u64,
    pub active: bool,
}

/// A new, active account that has signed in once.
pub fn generate_user(username: String, email: String) -> (u: User)
    ensures
        u.username == username,
        u.email == email,
        u.sign_in_count == 1,
        u.active,
{
    User { username, email, sign_in_count: 1, active: true }
}

} // verus!

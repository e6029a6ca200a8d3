use vstd::prelude::*;

verus! {

/// An account record.
pub struct User {
    pub active: bool,
    pub username: String,
    pub email: String,
    pub sign_in_count: u64,
}

/// Build a fresh user record: active, with the given address and name, and a
/// single sign-in on the counter.
pub fn build_user(email: String, username: String) -> (u: User)
    ensures
        u.active,
        u.username == username,
        u.email == email,
        u.sign_in_count == 1,
{
    User { email, username, active: true, sign_in_count: 1 }
}

} // verus!

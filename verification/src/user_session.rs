//! The session of a user on a box.

use vstd::prelude::*;

verus! {

/// A session, and the namespace that it lives in.
#[derive(Clone, Debug, PartialEq, Eq)]
pub struct UserSessionRef<Role, User> {
    pub metadata: UserSessionMetadata<Role, User>,
    pub namespace: String,
}

/// Whose session it is, in what role, and on which box.
#[derive(Clone, Debug, PartialEq, Eq)]
pub struct UserSessionMetadata<Role, User> {
    pub box_name: Option<String>,
    pub role: Role,
    pub user: User,
    pub user_name: String,
}

} // verus!

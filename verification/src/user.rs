//! The entity model: plain data records for user accounts and profiles.

use vstd::prelude::*;

verus! {

/// The (public) id of the User.
///
/// A distinct nominal type over the raw integer, so that a user id is not
/// accidentally mixed up with other kinds of ids.
#[derive(Debug, Clone, Copy, PartialEq, Eq, Structural)]
pub struct UserId(pub i64);

impl UserId {
    pub fn as_value(&self) -> (r: i64)
        ensures
            r == self.0,
    {
        self.0
    }
}

impl Default for UserId {
    /// The default value is the zero identifier.
    fn default() -> (r: Self)
        ensures
            r.0 == 0,
    {
        UserId(0)
    }
}

impl From<i64> for UserId {
    fn from(id: i64) -> (r: Self)
        ensures
            r.0 == id,
    {
        UserId(id)
    }
}

impl vstd::std_specs::convert::FromSpecImpl<i64> for UserId {
    open spec fn obeys_from_spec() -> bool {
        true
    }

    open spec fn from_spec(id: i64) -> Self {
        UserId(id)
    }
}

/// The main representation of the User.
/// It contains most of the details (except for password).
#[derive(Debug)]
pub struct User {
    pub id: i64,
    pub email: String,
    pub username: String,
    pub bio: String,
    pub image: Option<String>,
}

/// All user attributes that are persisted in the accounts table.
pub struct UserEntry {
    pub user: User,
    pub password: String,
    pub salt: String,
}

impl From<UserEntry> for User {
    /// Discards the credential fields.
    fn from(entry: UserEntry) -> (r: User)
        ensures
            r == entry.user,
    {
        entry.user
    }
}

impl vstd::std_specs::convert::FromSpecImpl<UserEntry> for User {
    open spec fn obeys_from_spec() -> bool {
        true
    }

    open spec fn from_spec(entry: UserEntry) -> Self {
        entry.user
    }
}

/// A common representation of a `User`, used in multiple use cases.
#[derive(Clone, Debug)]
pub struct UserProfile {
    pub user_id: i64,
    pub username: String,
    pub bio: String,
    pub image: Option<String>,
    pub following: bool,
}

impl UserProfile {
    /// A placeholder view: empty username and bio, no image, not following.
    pub fn new_basic(user_id: i64) -> (r: Self)
        ensures
            r.user_id == user_id,
            r.username@ == Seq::<char>::empty(),
            r.bio@ == Seq::<char>::empty(),
            r.image is None,
            r.following == false,
    {
        Self {
            user_id,
            username: String::new(),
            bio: String::new(),
            image: None,
            following: false,
        }
    }
}

/// The public, follower-relative view of a user handed to the caller by the
/// profile lookup. `following` holds the followed user ids when the
/// secondary followings lookup succeeded, and is absent when it failed.
#[derive(Debug)]
pub struct UserProfileDTO {
    pub username: String,
    pub bio: String,
    pub image: Option<String>,
    pub following: Option<Vec<UserId>>,
}

} // verus!

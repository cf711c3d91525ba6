//! The repository over the accounts and followings tables.
//!
//! The repository is verified against an in-memory model of the two
//! tables: a sequence of account rows with unique ids, emails and
//! usernames (the schema's constraints), and a sequence of directed
//! following edges. Each operation's contract states exactly which rows
//! are read or written, which select list was used (and hence which
//! columns default during row mapping), and which tagged error comes back
//! on each failing input. An asynchronous SQL adapter can reuse the pure
//! pieces — row mapping, field merging, error translation and the
//! followings attachment — around its own statements.

use vstd::prelude::*;

use crate::errors::{AppError, AppUseCase, DbError};
use crate::row::DbRow;
use crate::user::{User, UserEntry, UserId, UserProfileDTO};

verus! {

/// One persisted row of the accounts table, fully materialized.
pub struct AccountRow {
    pub id: i64,
    pub email: String,
    pub username: String,
    pub password: String,
    pub salt: String,
    pub bio: String,
    pub image: Option<String>,
}

/// One directed following edge: `user_id` follows `followed_user_id`.
#[derive(Clone, Copy)]
pub struct FollowRow {
    pub user_id: i64,
    pub followed_user_id: i64,
}

/// Some row already uses this email.
pub open spec fn taken_email(rows: Seq<AccountRow>, email: Seq<char>) -> bool {
    exists|i: int| 0 <= i < rows.len() && (#[trigger] rows[i]).email@ == email
}

/// Some row already uses this username.
pub open spec fn taken_username(rows: Seq<AccountRow>, username: Seq<char>) -> bool {
    exists|i: int| 0 <= i < rows.len() && (#[trigger] rows[i]).username@ == username
}

/// Some row has this primary key.
pub open spec fn has_id(rows: Seq<AccountRow>, id: i64) -> bool {
    exists|i: int| 0 <= i < rows.len() && (#[trigger] rows[i]).id == id
}

/// Some row other than the one with primary key `id` uses this email.
pub open spec fn email_taken_by_other(rows: Seq<AccountRow>, email: Seq<char>, id: i64) -> bool {
    exists|i: int| 0 <= i < rows.len() && (#[trigger] rows[i]).email@ == email && rows[i].id != id
}

/// The schema's constraints, plus the id generator's progress: every id is
/// positive and below the next generated one, and ids, emails and
/// usernames are pairwise distinct.
pub open spec fn rows_wf(rows: Seq<AccountRow>, next_id: i64) -> bool {
    &&& 0 < next_id
    &&& forall|i: int| 0 <= i < rows.len() ==> 0 < (#[trigger] rows[i]).id < next_id
    &&& forall|i: int, j: int|
        0 <= i < rows.len() && 0 <= j < rows.len() && i != j ==> (#[trigger] rows[i]).id != (
        #[trigger] rows[j]).id
    &&& forall|i: int, j: int|
        0 <= i < rows.len() && 0 <= j < rows.len() && i != j ==> (#[trigger] rows[i]).email@ != (
        #[trigger] rows[j]).email@
    &&& forall|i: int, j: int|
        0 <= i < rows.len() && 0 <= j < rows.len() && i != j ==> (#[trigger] rows[i]).username@
            != (#[trigger] rows[j]).username@
}

/// The entry read off a row by the select list that includes the id
/// column (the by-email path).
pub open spec fn entry_with_id(row: AccountRow) -> UserEntry {
    UserEntry {
        user: User {
            id: row.id,
            email: row.email,
            username: row.username,
            bio: row.bio,
            image: row.image,
        },
        password: row.password,
        salt: row.salt,
    }
}

/// The entry read off a row by the select list that omits the id column
/// (the by-id path): row mapping defaults the id field to zero.
pub open spec fn entry_without_id(row: AccountRow) -> UserEntry {
    UserEntry {
        user: User {
            id: 0,
            email: row.email,
            username: row.username,
            bio: row.bio,
            image: row.image,
        },
        password: row.password,
        salt: row.salt,
    }
}

/// The followed user ids selected for one follower, in table order.
pub open spec fn followed_of(edges: Seq<FollowRow>, user_id: i64) -> Seq<UserId>
    decreases edges.len(),
{
    if edges.len() == 0 {
        Seq::empty()
    } else {
        let init = followed_of(edges.drop_last(), user_id);
        if edges.last().user_id == user_id {
            init.push(UserId(edges.last().followed_user_id))
        } else {
            init
        }
    }
}

/// An entry with each provided field applied over the existing value:
/// email and bio fall back to the existing value when absent; for image,
/// only "provided some value" replaces, absence keeps the existing value.
pub open spec fn merged_entry(
    e: UserEntry,
    email: Option<String>,
    bio: Option<String>,
    image: Option<String>,
) -> UserEntry {
    UserEntry {
        user: User {
            id: e.user.id,
            email: email.unwrap_or(e.user.email),
            username: e.user.username,
            bio: bio.unwrap_or(e.user.bio),
            image: if image is Some {
                image
            } else {
                e.user.image
            },
        },
        password: e.password,
        salt: e.salt,
    }
}

/// The row written back by the update statement: email, bio and image are
/// set from the merged entry, every other column keeps its stored value.
pub open spec fn updated_row(row: AccountRow, e: UserEntry) -> AccountRow {
    AccountRow {
        id: row.id,
        email: e.user.email,
        username: row.username,
        password: row.password,
        salt: row.salt,
        bio: e.user.bio,
        image: e.user.image,
    }
}

/// Copies an optional image value.
fn clone_image(img: &Option<String>) -> (r: Option<String>)
    ensures
        r == *img,
{
    match img {
        Some(s) => Some(s.clone()),
        None => None,
    }
}

/// Applies each provided field of an update request over an existing
/// entry; absent fields keep their existing value.
pub fn merge_entry(
    entry: UserEntry,
    email: Option<String>,
    bio: Option<String>,
    image: Option<String>,
) -> (r: UserEntry)
    ensures
        r == merged_entry(entry, email, bio, image),
{
    let mut e = entry;
    match email {
        Some(v) => {
            e.user.email = v;
        },
        None => {},
    }
    match bio {
        Some(v) => {
            e.user.bio = v;
        },
        None => {},
    }
    match image {
        Some(v) => {
            e.user.image = Some(v);
        },
        None => {},
    }
    e
}

/// Applies the outcome of the secondary followings lookup to a profile: on
/// success the followed ids are attached, on failure the indicator is
/// simply left absent — that failure is not fatal to the profile lookup.
pub fn attach_followings(dto: UserProfileDTO, followings: Result<Vec<UserId>, AppError>) -> (r:
    UserProfileDTO)
    ensures
        r.username == dto.username,
        r.bio == dto.bio,
        r.image == dto.image,
        r.following == (match followings {
            Ok(v) => Some(v),
            Err(_) => None::<Vec<UserId>>,
        }),
{
    let mut dto = dto;
    dto.following = match followings {
        Ok(v) => Some(v),
        Err(_) => None,
    };
    dto
}

/// The repository over the accounts and followings tables.
pub struct UserRepo {
    pub accounts: Vec<AccountRow>,
    pub followings: Vec<FollowRow>,
    pub next_id: i64,
}

impl UserRepo {
    /// The schema constraints hold of the held rows.
    pub open spec fn wf(self) -> bool {
        rows_wf(self.accounts@, self.next_id)
    }

    /// A repository over empty tables; generated ids start at one.
    pub fn new() -> (r: Self)
        ensures
            r.wf(),
            r.accounts@.len() == 0,
            r.followings@.len() == 0,
            r.next_id == 1,
    {
        Self { accounts: Vec::new(), followings: Vec::new(), next_id: 1 }
    }

    fn find_index_by_email(&self, email: &String) -> (r: Option<usize>)
        ensures
            match r {
                Some(i) => i < self.accounts@.len() && self.accounts@[i as int].email@ == email@,
                None => !taken_email(self.accounts@, email@),
            },
    {
        let n = self.accounts.len();
        let mut i: usize = 0;
        while i < n
            invariant
                n == self.accounts@.len(),
                i <= n,
                forall|j: int| 0 <= j < i ==> (#[trigger] self.accounts@[j]).email@ != email@,
            decreases n - i,
        {
            if self.accounts[i].email == *email {
                return Some(i);
            }
            i += 1;
        }
        None
    }

    fn find_index_by_username(&self, username: &String) -> (r: Option<usize>)
        ensures
            match r {
                Some(i) => i < self.accounts@.len() && self.accounts@[i as int].username@
                    == username@,
                None => !taken_username(self.accounts@, username@),
            },
    {
        let n = self.accounts.len();
        let mut i: usize = 0;
        while i < n
            invariant
                n == self.accounts@.len(),
                i <= n,
                forall|j: int| 0 <= j < i ==> (#[trigger] self.accounts@[j]).username@ != username@,
            decreases n - i,
        {
            if self.accounts[i].username == *username {
                return Some(i);
            }
            i += 1;
        }
        None
    }

    fn find_index_by_id(&self, id: i64) -> (r: Option<usize>)
        ensures
            match r {
                Some(i) => i < self.accounts@.len() && self.accounts@[i as int].id == id,
                None => !has_id(self.accounts@, id),
            },
    {
        let n = self.accounts.len();
        let mut i: usize = 0;
        while i < n
            invariant
                n == self.accounts@.len(),
                i <= n,
                forall|j: int| 0 <= j < i ==> (#[trigger] self.accounts@[j]).id != id,
            decreases n - i,
        {
            if self.accounts[i].id == id {
                return Some(i);
            }
            i += 1;
        }
        None
    }

    fn find_email_conflict(&self, email: &String, id: i64) -> (r: Option<usize>)
        ensures
            match r {
                Some(i) => i < self.accounts@.len() && self.accounts@[i as int].email@ == email@
                    && self.accounts@[i as int].id != id,
                None => !email_taken_by_other(self.accounts@, email@, id),
            },
    {
        let n = self.accounts.len();
        let mut i: usize = 0;
        while i < n
            invariant
                n == self.accounts@.len(),
                i <= n,
                forall|j: int|
                    0 <= j < i ==> !((#[trigger] self.accounts@[j]).email@ == email@
                        && self.accounts@[j].id != id),
            decreases n - i,
        {
            if self.accounts[i].email == *email && self.accounts[i].id != id {
                return Some(i);
            }
            i += 1;
        }
        None
    }

    /// Reads a stored row into the shape produced by the select list that
    /// includes the id column.
    fn fetch_row_with_id(&self, i: usize) -> (r: DbRow)
        requires
            i < self.accounts@.len(),
        ensures
            r.id == Some(self.accounts@[i as int].id),
            r.email == Some(self.accounts@[i as int].email),
            r.username == Some(self.accounts@[i as int].username),
            r.password == Some(self.accounts@[i as int].password),
            r.salt == Some(self.accounts@[i as int].salt),
            r.bio == Some(self.accounts@[i as int].bio),
            r.image == Some(self.accounts@[i as int].image),
    {
        let row = &self.accounts[i];
        DbRow {
            id: Some(row.id),
            email: Some(row.email.clone()),
            username: Some(row.username.clone()),
            password: Some(row.password.clone()),
            salt: Some(row.salt.clone()),
            bio: Some(row.bio.clone()),
            image: Some(clone_image(&row.image)),
        }
    }

    /// Inserts one account row with the given email, username, password
    /// and salt and returns the generated id.
    ///
    /// Any storage failure — a duplicate email or username, or an
    /// exhausted id space — is tagged with the registration use case.
    pub fn save(&mut self, user: &User, pwd: String, salt: String) -> (r: Result<i64, AppError>)
        requires
            old(self).wf(),
        ensures
            final(self).wf(),
            final(self).followings@ == old(self).followings@,
            match r {
                Ok(id) => {
                    &&& !taken_email(old(self).accounts@, user.email@)
                    &&& !taken_username(old(self).accounts@, user.username@)
                    &&& old(self).next_id < i64::MAX
                    &&& id == old(self).next_id
                    &&& 0 < id
                    &&& final(self).next_id == id + 1
                    &&& final(self).accounts@.len() == old(self).accounts@.len() + 1
                    &&& final(self).accounts@.subrange(0, old(self).accounts@.len() as int) == old(
                        self,
                    ).accounts@
                    &&& ({
                        let row = final(self).accounts@.last();
                        &&& row.id == id
                        &&& row.email == user.email
                        &&& row.username == user.username
                        &&& row.password == pwd
                        &&& row.salt == salt
                        &&& row.bio@ == Seq::<char>::empty()
                        &&& row.image is None
                    })
                },
                Err(e) => {
                    &&& *final(self) == *old(self)
                    &&& (taken_email(old(self).accounts@, user.email@) || taken_username(
                        old(self).accounts@,
                        user.username@,
                    ) || old(self).next_id == i64::MAX)
                    &&& e == AppError::Storage(
                        if taken_email(old(self).accounts@, user.email@) || taken_username(
                            old(self).accounts@,
                            user.username@,
                        ) {
                            DbError::UniqueViolation
                        } else {
                            DbError::Other
                        },
                        AppUseCase::UserRegister,
                    )
                },
            },
    {
        match self.find_index_by_email(&user.email) {
            Some(_) => {
                return Err(AppError::from_db(DbError::UniqueViolation, AppUseCase::UserRegister));
            },
            None => {},
        }
        match self.find_index_by_username(&user.username) {
            Some(_) => {
                return Err(AppError::from_db(DbError::UniqueViolation, AppUseCase::UserRegister));
            },
            None => {},
        }
        if self.next_id == i64::MAX {
            return Err(AppError::from_db(DbError::Other, AppUseCase::UserRegister));
        }
        let id = self.next_id;
        let row = AccountRow {
            id,
            email: user.email.clone(),
            username: user.username.clone(),
            password: pwd,
            salt,
            bio: String::new(),
            image: None,
        };
        let ghost grow = row;
        let ghost rows0 = self.accounts@;
        self.accounts.push(row);
        self.next_id = id + 1;
        proof {
            assert(self.accounts@ == rows0.push(grow));
            assert(self.accounts@.subrange(0, rows0.len() as int) =~= rows0);
            assert forall|i: int, j: int|
                0 <= i < self.accounts@.len() && 0 <= j < self.accounts@.len() && i
                    != j implies (#[trigger] self.accounts@[i]).id != (
            #[trigger] self.accounts@[j]).id by {
                if i < rows0.len() && j < rows0.len() {
                } else if i < rows0.len() {
                    assert(self.accounts@[j] == grow);
                    assert(rows0[i].id < id);
                } else {
                    assert(self.accounts@[i] == grow);
                    assert(rows0[j].id < id);
                }
            }
            assert forall|i: int, j: int|
                0 <= i < self.accounts@.len() && 0 <= j < self.accounts@.len() && i
                    != j implies (#[trigger] self.accounts@[i]).email@ != (
            #[trigger] self.accounts@[j]).email@ by {
                if i < rows0.len() && j < rows0.len() {
                } else if i < rows0.len() {
                    assert(self.accounts@[j] == grow);
                    assert(!taken_email(rows0, user.email@));
                    assert(rows0[i].email@ != user.email@);
                } else {
                    assert(self.accounts@[i] == grow);
                    assert(rows0[j].email@ != user.email@);
                }
            }
            assert forall|i: int, j: int|
                0 <= i < self.accounts@.len() && 0 <= j < self.accounts@.len() && i
                    != j implies (#[trigger] self.accounts@[i]).username@ != (
            #[trigger] self.accounts@[j]).username@ by {
                if i < rows0.len() && j < rows0.len() {
                } else if i < rows0.len() {
                    assert(self.accounts@[j] == grow);
                    assert(rows0[i].username@ != user.username@);
                } else {
                    assert(self.accounts@[i] == grow);
                    assert(rows0[j].username@ != user.username@);
                }
            }
        }
        Ok(id)
    }

    /// Selects id, email, username, password, salt, bio and image by exact
    /// email match; the returned entry carries the stored id.
    ///
    /// Not-found is tagged with the caller-supplied use case, since this
    /// lookup is reused across login, registration conflict checks, etc.
    pub fn get_by_email(&self, email: &String, usecase: AppUseCase) -> (r: Result<
        UserEntry,
        AppError,
    >)
        ensures
            match r {
                Ok(e) => exists|i: int|
                    0 <= i < self.accounts@.len() && (#[trigger] self.accounts@[i]).email@
                        == email@ && e == entry_with_id(self.accounts@[i]),
                Err(err) => !taken_email(self.accounts@, email@) && err == AppError::Storage(
                    DbError::RowNotFound,
                    usecase,
                ),
            },
    {
        let idx = match self.find_index_by_email(email) {
            Some(i) => i,
            None => {
                return Err(AppError::from_db(DbError::RowNotFound, usecase));
            },
        };
        let dbrow = self.fetch_row_with_id(idx);
        match UserEntry::from_row(dbrow) {
            Ok(e) => Ok(e),
            Err(_) => Err(AppError::from_db(DbError::Other, usecase)),
        }
    }

    /// Selects email, username, password, salt, bio and image by primary
    /// key. The select list omits the id column, so row mapping defaults
    /// the returned entry's id field to zero.
    ///
    /// Not-found is tagged with the caller-supplied use case.
    pub fn get_by_id(&self, id: &UserId, usecase: AppUseCase) -> (r: Result<UserEntry, AppError>)
        ensures
            match r {
                Ok(e) => exists|i: int|
                    0 <= i < self.accounts@.len() && (#[trigger] self.accounts@[i]).id == id.0 && e
                        == entry_without_id(self.accounts@[i]),
                Err(err) => !has_id(self.accounts@, id.0) && err == AppError::Storage(
                    DbError::RowNotFound,
                    usecase,
                ),
            },
    {
        let idx = match self.find_index_by_id(id.as_value()) {
            Some(i) => i,
            None => {
                return Err(AppError::from_db(DbError::RowNotFound, usecase));
            },
        };
        let row = &self.accounts[idx];
        let dbrow = DbRow {
            id: None,
            email: Some(row.email.clone()),
            username: Some(row.username.clone()),
            password: Some(row.password.clone()),
            salt: Some(row.salt.clone()),
            bio: Some(row.bio.clone()),
            image: Some(clone_image(&row.image)),
        };
        match UserEntry::from_row(dbrow) {
            Ok(e) => Ok(e),
            Err(_) => Err(AppError::from_db(DbError::Other, usecase)),
        }
    }

    /// Selects the followed user ids for one follower, in table order.
    /// On the model this secondary lookup always succeeds.
    pub(crate) fn get_followings(&self, user_id: i64) -> (r: Result<Vec<UserId>, AppError>)
        ensures
            r matches Ok(v) && v@ == followed_of(self.followings@, user_id),
    {
        let mut result: Vec<UserId> = Vec::new();
        let n = self.followings.len();
        let mut i: usize = 0;
        proof {
            assert(self.followings@.subrange(0, 0) =~= Seq::<FollowRow>::empty());
        }
        while i < n
            invariant
                n == self.followings@.len(),
                i <= n,
                result@ == followed_of(self.followings@.subrange(0, i as int), user_id),
            decreases n - i,
        {
            let edge = self.followings[i];
            if edge.user_id == user_id {
                result.push(UserId(edge.followed_user_id));
            }
            i += 1;
            proof {
                let pre = self.followings@.subrange(0, (i - 1) as int);
                let cur = self.followings@.subrange(0, i as int);
                assert(cur.drop_last() =~= pre);
                assert(cur.last() == self.followings@[i - 1]);
            }
        }
        proof {
            assert(self.followings@.subrange(0, n as int) =~= self.followings@);
        }
        Ok(result)
    }

    /// Selects id, bio and image by username, then enriches the profile
    /// with the followings lookup for the resolved id: the profile's
    /// `following` field holds the followed ids when that secondary
    /// lookup succeeded and is absent otherwise; only a failure of the
    /// primary lookup fails the whole operation, tagged with the
    /// caller-supplied use case.
    pub fn get_profile_by_username(&self, username: &String, usecase: AppUseCase) -> (r: Result<
        UserProfileDTO,
        AppError,
    >)
        ensures
            match r {
                Ok(dto) => exists|i: int|
                    0 <= i < self.accounts@.len() && (#[trigger] self.accounts@[i]).username@
                        == username@ && dto.username == *username && dto.bio
                        == self.accounts@[i].bio && dto.image == self.accounts@[i].image && (
                    dto.following matches Some(v) && v@ == followed_of(
                        self.followings@,
                        self.accounts@[i].id,
                    )),
                Err(err) => !taken_username(self.accounts@, username@) && err == AppError::Storage(
                    DbError::RowNotFound,
                    usecase,
                ),
            },
    {
        let idx = match self.find_index_by_username(username) {
            Some(i) => i,
            None => {
                return Err(AppError::from_db(DbError::RowNotFound, usecase));
            },
        };
        let row = &self.accounts[idx];
        let user_id = row.id;
        let dto = UserProfileDTO {
            username: username.clone(),
            bio: row.bio.clone(),
            image: clone_image(&row.image),
            following: None,
        };
        let followings = self.get_followings(user_id);
        Ok(attach_followings(dto, followings))
    }

    /// Records one directed following relation in the model's followings
    /// table. (The statements that write this table belong to the social
    /// features outside this layer; the model still has to be able to hold
    /// the rows they produce.)
    pub fn add_following(&mut self, user_id: i64, followed_user_id: i64)
        requires
            old(self).wf(),
        ensures
            final(self).wf(),
            final(self).accounts@ == old(self).accounts@,
            final(self).next_id == old(self).next_id,
            final(self).followings@ == old(self).followings@.push(
                FollowRow { user_id, followed_user_id },
            ),
    {
        self.followings.push(FollowRow { user_id, followed_user_id });
    }

    /// Fetches the current entry by primary key (tagged internally with
    /// the update use case), applies each provided field over the existing
    /// value, writes email, bio and image back to the matching row, and
    /// returns the updated in-memory entry — whose id field is zero, since
    /// the fetch's select list omits the id column.
    ///
    /// With email, bio and image all absent it fails immediately with the
    /// invalid-input error, touching no storage. A failed fetch, or an
    /// update statement that would violate the email uniqueness
    /// constraint, is tagged with the update use case and leaves the
    /// tables unchanged.
    pub fn update_by_id(
        &mut self,
        id: UserId,
        email: Option<String>,
        bio: Option<String>,
        image: Option<String>,
    ) -> (r: Result<UserEntry, AppError>)
        requires
            old(self).wf(),
        ensures
            final(self).wf(),
            final(self).followings@ == old(self).followings@,
            final(self).next_id == old(self).next_id,
            match r {
                Ok(e) => {
                    &&& (email is Some || bio is Some || image is Some)
                    &&& !(match email {
                        Some(em) => email_taken_by_other(old(self).accounts@, em@, id.0),
                        None => false,
                    })
                    &&& exists|i: int|
                        0 <= i < old(self).accounts@.len() && (
                        #[trigger] old(self).accounts@[i]).id == id.0 && e == merged_entry(
                            entry_without_id(old(self).accounts@[i]),
                            email,
                            bio,
                            image,
                        ) && final(self).accounts@ =~= old(self).accounts@.update(
                            i,
                            updated_row(old(self).accounts@[i], e),
                        )
                },
                Err(err) => *final(self) == *old(self) && (if email is None && bio is None
                    && image is None {
                    err == AppError::InvalidInput
                } else if !has_id(old(self).accounts@, id.0) {
                    err == AppError::Storage(DbError::RowNotFound, AppUseCase::UpdateUser)
                } else {
                    &&& err == AppError::Storage(DbError::UniqueViolation, AppUseCase::UpdateUser)
                    &&& email matches Some(em) && email_taken_by_other(
                        old(self).accounts@,
                        em@,
                        id.0,
                    )
                }),
            },
    {
        if email.is_none() && bio.is_none() && image.is_none() {
            return Err(AppError::InvalidInput);
        }
        let entry = match self.get_by_id(&id, AppUseCase::UpdateUser) {
            Ok(e) => e,
            Err(err) => {
                return Err(err);
            },
        };
        let ghost email0 = email;
        let merged = merge_entry(entry, email, bio, image);
        match self.find_email_conflict(&merged.user.email, id.as_value()) {
            Some(_) => {
                proof {
                    // The merged email conflicts with another row. When no
                    // new email was provided, the merged email is the
                    // row's own, which uniqueness lets no other row carry.
                    let i0 = choose|i: int|
                        0 <= i < self.accounts@.len() && (#[trigger] self.accounts@[i]).id == id.0;
                    if email0 is None {
                        let j = choose|j: int|
                            0 <= j < self.accounts@.len() && (#[trigger] self.accounts@[j]).email@
                                == merged.user.email@ && self.accounts@[j].id != id.0;
                        assert(self.accounts@[j].email@ == self.accounts@[i0].email@);
                        assert(false);
                    }
                }
                return Err(AppError::from_db(DbError::UniqueViolation, AppUseCase::UpdateUser));
            },
            None => {},
        }
        let idx = match self.find_index_by_id(id.as_value()) {
            Some(i) => i,
            None => {
                return Err(AppError::from_db(DbError::RowNotFound, AppUseCase::UpdateUser));
            },
        };
        let ghost rows0 = self.accounts@;
        let ghost gmerged = merged;
        let old_row = self.accounts.remove(idx);
        let new_row = AccountRow {
            id: old_row.id,
            email: merged.user.email.clone(),
            username: old_row.username,
            password: old_row.password,
            salt: old_row.salt,
            bio: merged.user.bio.clone(),
            image: clone_image(&merged.user.image),
        };
        let ghost gnew = new_row;
        self.accounts.insert(idx, new_row);
        proof {
            // The entry fetched by id came off the row at `idx`: ids are
            // unique, so the fetch's witness is that same index.
            let i0 = choose|i: int|
                0 <= i < rows0.len() && (#[trigger] rows0[i]).id == id.0 && entry
                    == entry_without_id(rows0[i]);
            assert(i0 == idx);
            assert(gnew == updated_row(rows0[idx as int], gmerged));
            assert(self.accounts@ =~= rows0.update(idx as int, gnew));
            assert forall|i: int, j: int|
                0 <= i < self.accounts@.len() && 0 <= j < self.accounts@.len() && i
                    != j implies (#[trigger] self.accounts@[i]).email@ != (
            #[trigger] self.accounts@[j]).email@ by {
                if i == idx {
                    assert(self.accounts@[j] == rows0[j]);
                    assert(!(rows0[j].email@ == gnew.email@ && rows0[j].id != id.0));
                    assert(rows0[j].id != rows0[idx as int].id);
                } else if j == idx {
                    assert(self.accounts@[i] == rows0[i]);
                    assert(!(rows0[i].email@ == gnew.email@ && rows0[i].id != id.0));
                    assert(rows0[i].id != rows0[idx as int].id);
                } else {
                    assert(self.accounts@[i] == rows0[i]);
                    assert(self.accounts@[j] == rows0[j]);
                }
            }
            assert forall|i: int, j: int|
                0 <= i < self.accounts@.len() && 0 <= j < self.accounts@.len() && i
                    != j implies (#[trigger] self.accounts@[i]).id != (
            #[trigger] self.accounts@[j]).id by {
                assert(self.accounts@[i] == if i == idx {
                    gnew
                } else {
                    rows0[i]
                });
                assert(self.accounts@[j] == if j == idx {
                    gnew
                } else {
                    rows0[j]
                });
            }
            assert forall|i: int, j: int|
                0 <= i < self.accounts@.len() && 0 <= j < self.accounts@.len() && i
                    != j implies (#[trigger] self.accounts@[i]).username@ != (
            #[trigger] self.accounts@[j]).username@ by {
                assert(self.accounts@[i] == if i == idx {
                    gnew
                } else {
                    rows0[i]
                });
                assert(self.accounts@[j] == if j == idx {
                    gnew
                } else {
                    rows0[j]
                });
            }
            assert forall|i: int|
                0 <= i < self.accounts@.len() implies 0 < (#[trigger] self.accounts@[i]).id
                < self.next_id by {
                assert(self.accounts@[i] == if i == idx {
                    gnew
                } else {
                    rows0[i]
                });
            }
        }
        Ok(merged)
    }
}

} // verus!

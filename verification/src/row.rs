//! Row-to-struct mapping.
//!
//! A fetched storage row is handed to this layer as a [`DbRow`]: one
//! optional slot per column of the accounts table, where an absent slot
//! means the statement's select list did not include that column. Each
//! mapping function states exactly which columns are mandatory and which
//! default silently when absent; the two entity shapes differ on purpose,
//! and the per-operation select lists rely on that difference.

use vstd::prelude::*;

use crate::errors::DbError;
use crate::user::{User, UserEntry};

verus! {

/// One fetched row of the accounts table, as plain values.
///
/// The outer `Option` of each field says whether the column was part of
/// the select list at all; for `image`, the inner `Option` is the value
/// itself, which is nullable in the schema.
pub struct DbRow {
    pub id: Option<i64>,
    pub email: Option<String>,
    pub username: Option<String>,
    pub password: Option<String>,
    pub salt: Option<String>,
    pub bio: Option<String>,
    pub image: Option<Option<String>>,
}

/// Whether a row carries every column that mapping into a `User` demands.
pub open spec fn user_columns_present(row: DbRow) -> bool {
    &&& row.id is Some
    &&& row.email is Some
    &&& row.username is Some
    &&& row.bio is Some
    &&& row.image is Some
}

/// The `User` read off a complete row.
pub open spec fn user_of_row(row: DbRow) -> User {
    User {
        id: row.id.unwrap(),
        email: row.email.unwrap(),
        username: row.username.unwrap(),
        bio: row.bio.unwrap(),
        image: row.image.unwrap(),
    }
}

/// Whether a row carries every column that mapping into a `UserEntry`
/// demands. `id` and `image` are deliberately not among them.
pub open spec fn entry_columns_present(row: DbRow) -> bool {
    &&& row.email is Some
    &&& row.username is Some
    &&& row.password is Some
    &&& row.salt is Some
    &&& row.bio is Some
}

/// The `UserEntry` read off a row: `id` defaults to zero and `image` to
/// absent when their columns were not selected.
pub open spec fn entry_of_row(row: DbRow) -> UserEntry {
    UserEntry {
        user: User {
            id: row.id.unwrap_or(0),
            email: row.email.unwrap(),
            username: row.username.unwrap(),
            bio: row.bio.unwrap(),
            image: row.image.unwrap_or(None),
        },
        password: row.password.unwrap(),
        salt: row.salt.unwrap(),
    }
}

impl User {
    /// Maps a row into a `User`: id, email, username, bio and image are
    /// all required columns; any absence is a hard mapping failure.
    pub fn from_row(row: DbRow) -> (r: Result<User, DbError>)
        ensures
            match r {
                Ok(u) => user_columns_present(row) && u == user_of_row(row),
                Err(e) => !user_columns_present(row) && e == DbError::MissingColumn,
            },
    {
        match (row.id, row.email, row.username, row.bio, row.image) {
            (Some(id), Some(email), Some(username), Some(bio), Some(image)) => Ok(
                User { id, email, username, bio, image },
            ),
            _ => Err(DbError::MissingColumn),
        }
    }
}

impl UserEntry {
    /// Maps a row into a `UserEntry`: email, username, password, salt and
    /// bio are required; id and image are read permissively and default to
    /// zero / absent when their columns were not selected.
    pub fn from_row(row: DbRow) -> (r: Result<UserEntry, DbError>)
        ensures
            match r {
                Ok(e) => entry_columns_present(row) && e == entry_of_row(row),
                Err(e) => !entry_columns_present(row) && e == DbError::MissingColumn,
            },
    {
        match (row.email, row.username, row.password, row.salt, row.bio) {
            (Some(email), Some(username), Some(password), Some(salt), Some(bio)) => {
                let id: i64 = match row.id {
                    Some(v) => v,
                    None => 0,
                };
                let image: Option<String> = match row.image {
                    Some(v) => v,
                    None => None,
                };
                Ok(UserEntry { user: User { id, email, username, bio, image }, password, salt })
            },
            _ => Err(DbError::MissingColumn),
        }
    }
}

} // verus!

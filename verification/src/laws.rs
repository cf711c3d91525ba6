//! Laws relating the repository's operations to each other.

use vstd::prelude::*;

use crate::repo::{
    entry_with_id, entry_without_id, has_id, rows_wf, taken_email, taken_username, AccountRow,
};

verus! {

/// Law: saving a fresh account and then looking it up.
///
/// Appending a row whose id is the freshly generated one (as `save` does)
/// to a well-formed table in which neither its email nor its username is
/// taken keeps the table well-formed, yields a positive id, and leaves
/// that id and that email identifying exactly the appended row. A
/// subsequent lookup by that id or by that email therefore returns the
/// entry read off the appended row — its email, username, password and
/// salt are the inserted values (the by-id path defaults the entry's id
/// field to zero; the by-email path carries the generated id).
pub proof fn lemma_save_then_get(rows: Seq<AccountRow>, row: AccountRow, next_id: i64)
    requires
        rows_wf(rows, next_id),
        next_id < i64::MAX,
        row.id == next_id,
        !taken_email(rows, row.email@),
        !taken_username(rows, row.username@),
    ensures
        rows_wf(rows.push(row), (next_id + 1) as i64),
        0 < row.id,
        has_id(rows.push(row), row.id),
        taken_email(rows.push(row), row.email@),
        forall|i: int|
            0 <= i < rows.push(row).len() && (#[trigger] rows.push(row)[i]).id == row.id
                ==> rows.push(row)[i] == row,
        forall|i: int|
            0 <= i < rows.push(row).len() && (#[trigger] rows.push(row)[i]).email@ == row.email@
                ==> rows.push(row)[i] == row,
        entry_without_id(row).user.email == row.email,
        entry_without_id(row).user.username == row.username,
        entry_without_id(row).password == row.password,
        entry_without_id(row).salt == row.salt,
        entry_with_id(row).user.id == row.id,
        entry_with_id(row).user.email == row.email,
        entry_with_id(row).user.username == row.username,
        entry_with_id(row).password == row.password,
        entry_with_id(row).salt == row.salt,
{
    let rows2 = rows.push(row);
    assert(rows2[rows.len() as int] == row);
    assert forall|i: int|
        0 <= i < rows2.len() && (#[trigger] rows2[i]).id == row.id implies rows2[i] == row by {
        if i < rows.len() {
            assert(rows[i].id < next_id);
        }
    }
    assert forall|i: int|
        0 <= i < rows2.len() && (#[trigger] rows2[i]).email@ == row.email@ implies rows2[i]
        == row by {
        if i < rows.len() {
            assert(!(exists|j: int|
                0 <= j < rows.len() && (#[trigger] rows[j]).email@ == row.email@));
        }
    }
    assert forall|i: int, j: int|
        0 <= i < rows2.len() && 0 <= j < rows2.len() && i != j implies (#[trigger] rows2[i]).id
        != (#[trigger] rows2[j]).id by {
        if i < rows.len() && j < rows.len() {
        } else if i < rows.len() {
            assert(rows2[j] == row);
            assert(rows[i].id < next_id);
        } else {
            assert(rows2[i] == row);
            assert(rows[j].id < next_id);
        }
    }
    assert forall|i: int, j: int|
        0 <= i < rows2.len() && 0 <= j < rows2.len() && i != j implies (#[trigger] rows2[i]).email@
        != (#[trigger] rows2[j]).email@ by {
        if i < rows.len() && j < rows.len() {
        } else if i < rows.len() {
            assert(rows2[j] == row);
            assert(rows[i].email@ != row.email@);
        } else {
            assert(rows2[i] == row);
            assert(rows[j].email@ != row.email@);
        }
    }
    assert forall|i: int, j: int|
        0 <= i < rows2.len() && 0 <= j < rows2.len() && i
            != j implies (#[trigger] rows2[i]).username@ != (#[trigger] rows2[j]).username@ by {
        if i < rows.len() && j < rows.len() {
        } else if i < rows.len() {
            assert(rows2[j] == row);
            assert(rows[i].username@ != row.username@);
        } else {
            assert(rows2[i] == row);
            assert(rows[j].username@ != row.username@);
        }
    }
}

} // verus!

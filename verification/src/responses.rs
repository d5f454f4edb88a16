//! The HTTP statuses the service answers with once the database has replied.
use vstd::prelude::*;

verus! {

/// `204 No Content`: the request was carried out and there is nothing to send back.
pub const NO_CONTENT: u16 = 204;

/// `200 OK`.
pub const OK: u16 = 200;

/// `404 Not Found`.
pub const NOT_FOUND: u16 = 404;

/// The answer to a deletion (of books, of a library, of a member): done when a row
/// was removed, not found otherwise.
pub fn removal_status(rows_affected: u64) -> (r: u16)
    ensures
        r == (if rows_affected > 0 { NO_CONTENT } else { NOT_FOUND }),
{
    if rows_affected > 0 {
        NO_CONTENT
    } else {
        NOT_FOUND
    }
}

/// The answer to a profile update: `204` when the request changes nothing (no
/// statement ran), else `200` when the user's row was updated, `404` when it was not
/// found.
pub fn profile_update_status(changed_anything: bool, rows_affected: u64) -> (r: u16)
    ensures
        r == (if !changed_anything {
            NO_CONTENT
        } else if rows_affected > 0 {
            OK
        } else {
            NOT_FOUND
        }),
{
    if !changed_anything {
        NO_CONTENT
    } else if rows_affected > 0 {
        OK
    } else {
        NOT_FOUND
    }
}

/// Whether a replacement of a book found it: its row was updated. Otherwise the
/// request is answered `404` and nothing else is written.
pub fn replacement_found(rows_affected: u64) -> (r: bool)
    ensures
        r == (rows_affected > 0),
{
    rows_affected > 0
}

/// Whether a partial update of a book goes ahead: the lookup of its id found it.
/// Otherwise the request is answered `404` and nothing is written.
pub fn patch_target_found(existing: Option<u128>) -> (r: bool)
    ensures
        r == existing is Some,
{
    existing.is_some()
}

} // verus!

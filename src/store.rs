//! Outcomes of the storage layer, turned into the error taxonomy: missing
//! rows, stale versions and constraint violations.
use crate::error::{ObjectKind, TrackerError};
use crate::value::{FieldValue, FieldValues, Value};
use vstd::prelude::*;

verus! {

/// The kinds of database failure that the mapping of constraint errors
/// tells apart.
#[derive(Debug, Clone, Copy, PartialEq, Eq, Structural)]
pub enum DbErrorKind {
    UniqueViolation,
    ForeignKeyViolation,
    NotNullViolation,
    CheckViolation,
    Other,
}

/// A failure of the storage layer: for a database error its kind and the
/// constraint it names, and in every case its message.
#[derive(Debug, Clone, PartialEq)]
pub struct StorageError {
    pub kind: Option<DbErrorKind>,
    pub constraint: Option<String>,
    pub message: String,
}

/// `err` is a database error of kind `kind` on the constraint `name`.
pub open spec fn violates(err: StorageError, kind: DbErrorKind, name: Seq<char>) -> bool {
    &&& err.kind == Some(kind)
    &&& err.constraint matches Some(c) && c@ == name
}

/// `keys` is the single key `name` with value `value`.
pub open spec fn single_key(keys: FieldValues, name: Seq<char>, value: Value) -> bool {
    keys.0@.len() == 1 && keys.0@[0].name@ == name && keys.0@[0].value == Some(value)
}

/// `f` is the field `name` with the text `text`.
pub open spec fn is_text_field(f: FieldValue, name: Seq<char>, text: Seq<char>) -> bool {
    &&& f.name@ == name
    &&& f.value matches Some(v) && crate::value::is_text(v, text)
}

/// `f` is the field `name` with the identifier `id`.
pub open spec fn is_id_field(f: FieldValue, name: Seq<char>, id: u128) -> bool {
    f.name@ == name && f.value == Some(Value::Uuid(id))
}

/// The key `column = id` of a row.
pub fn id_key(column: &str, id: u128) -> (r: FieldValues)
    ensures
        single_key(r, column@, Value::Uuid(id)),
{
    FieldValues::single(FieldValue::new(column, Value::Uuid(id)))
}

/// Whether `err` is a database error of kind `kind` on the constraint `name`.
pub fn is_violation(err: &StorageError, kind: DbErrorKind, name: &str) -> (r: bool)
    ensures
        r == violates(*err, kind, name@),
{
    match (&err.kind, &err.constraint) {
        (Some(k), Some(c)) => *k == kind && *c == String::from_str(name),
        _ => false,
    }
}

/// A storage failure that no mapping recognises passes through as an
/// internal error with its message.
pub fn passthrough(err: StorageError) -> (r: TrackerError)
    ensures
        r matches TrackerError::SqlError(m) && m@ == err.message@,
{
    TrackerError::SqlError(err.message)
}

/// The result of a lookup by `column = id`: the row, or a not-found error
/// naming that key.
pub fn found_or_not_found<T>(row: Option<T>, object: ObjectKind, column: &str, id: u128) -> (r:
    Result<T, TrackerError>)
    ensures
        match row {
            Some(t) => r == Ok::<T, TrackerError>(t),
            None => r matches Err(TrackerError::NotFound(o, k)) && o == object && single_key(
                k,
                column@,
                Value::Uuid(id),
            ),
        },
{
    match row {
        Some(t) => Ok(t),
        None => Err(TrackerError::not_found(object, id_key(column, id))),
    }
}

/// `e` reports that the row `column = id` of `object` was changed by another
/// transaction.
pub open spec fn is_conflict(e: TrackerError, object: ObjectKind, column: Seq<char>, id: u128) -> bool {
    e matches TrackerError::ConcurrentUpdate(o, k) && o == object && single_key(k, column, Value::Uuid(id))
}

/// What an update that changed `rows_updated` rows yields: success when a
/// row was changed, else a conflict on the row's key.
pub open spec fn update_outcome_is(
    object: ObjectKind,
    column: Seq<char>,
    id: u128,
    rows_updated: u64,
    r: Result<(), TrackerError>,
) -> bool {
    match r {
        Ok(_) => rows_updated != 0,
        Err(e) => rows_updated == 0 && is_conflict(e, object, column, id),
    }
}

/// The result of an update that matched rows by id and by the version it was
/// based on: no row updated means that another transaction changed the row
/// first.
pub fn update_outcome(object: ObjectKind, column: &str, id: u128, rows_updated: u64) -> (r: Result<
    (),
    TrackerError,
>)
    ensures
        update_outcome_is(object, column@, id, rows_updated, r),
{
    if rows_updated == 0 {
        Err(TrackerError::concurrent_update(object, id_key(column, id)))
    } else {
        Ok(())
    }
}

/// The number of rows that `UPDATE .. WHERE id = .. AND version = ..` changes
/// when the row holds `stored_version` and the update was based on
/// `submitted_version`.
pub open spec fn rows_matching_version(stored_version: i32, submitted_version: i32) -> u64 {
    if stored_version == submitted_version {
        1
    } else {
        0
    }
}

/// An update based on a version other than the stored one is never a silent
/// success: its outcome is a concurrent-update error on the row's key.
pub proof fn lemma_stale_update_conflicts(
    object: ObjectKind,
    column: Seq<char>,
    id: u128,
    stored_version: i32,
    submitted_version: i32,
    r: Result<(), TrackerError>,
)
    requires
        stored_version != submitted_version,
        update_outcome_is(
            object,
            column,
            id,
            rows_matching_version(stored_version, submitted_version),
            r,
        ),
    ensures
        r matches Err(e) && is_conflict(e, object, column, id),
{
}

} // verus!

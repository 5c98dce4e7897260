use vstd::prelude::*;
use crate::model::{TodoError, TodoRec};

verus! {

/// An underlying failure reported by the record store (connectivity, a
/// constraint, a timeout); its detail is not passed on to callers.
#[derive(Clone, Copy, Debug, PartialEq, Eq, Structural)]
pub struct StoreFailure;

/// Maps a store result that has no "no matching row" case.
pub fn from_store<T>(r: Result<T, StoreFailure>) -> (out: Result<T, TodoError>)
    ensures
        match r {
            Ok(v) => out == Ok::<T, TodoError>(v),
            Err(_) => out == Err::<T, TodoError>(TodoError::StorageError),
        },
{
    match r {
        Ok(v) => Ok(v),
        Err(_) => Err(TodoError::StorageError),
    }
}

/// Maps the result of a lookup of one row: no row is `NotFound`.
pub fn from_row_lookup(r: Result<Option<TodoRec>, StoreFailure>) -> (out: Result<TodoRec, TodoError>)
    ensures
        match r {
            Ok(Some(t)) => out == Ok::<TodoRec, TodoError>(t),
            Ok(None) => out == Err::<TodoRec, TodoError>(TodoError::NotFound),
            Err(_) => out == Err::<TodoRec, TodoError>(TodoError::StorageError),
        },
{
    match r {
        Ok(Some(t)) => Ok(t),
        Ok(None) => Err(TodoError::NotFound),
        Err(_) => Err(TodoError::StorageError),
    }
}

/// Maps the number of rows a delete affected: none is `NotFound`.
pub fn from_rows_affected(r: Result<u64, StoreFailure>) -> (out: Result<(), TodoError>)
    ensures
        match r {
            Ok(n) => if n == 0 {
                out == Err::<(), TodoError>(TodoError::NotFound)
            } else {
                out == Ok::<(), TodoError>(())
            },
            Err(_) => out == Err::<(), TodoError>(TodoError::StorageError),
        },
{
    match r {
        Ok(n) => {
            if n == 0 {
                Err(TodoError::NotFound)
            } else {
                Ok(())
            }
        },
        Err(_) => Err(TodoError::StorageError),
    }
}

} // verus!

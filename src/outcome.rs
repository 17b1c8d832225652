use vstd::prelude::*;

verus! {

/// What the store reported when a statement did not succeed.
#[derive(Debug, PartialEq, Eq)]
pub enum StoreFailure {
    /// The statement expected a row and none matched.
    NoRows,
    /// Any other failure of the store, with its description.
    Other { message: String },
}

/// The errors of a repository operation.
#[derive(Debug, PartialEq, Eq)]
pub enum RepoError {
    /// No row matched the given key.
    NotFound,
    /// A product owns more than one inventory row.
    IntegrityViolation { product_id: i32, rows: usize },
    /// A lookup by name matched more than one product.
    AmbiguousName { rows: usize },
    /// The store failed; the write, if any, was rolled back.
    Store { message: String },
}

/// The repository error that a store failure stands for.
pub open spec fn repo_error_of(f: StoreFailure) -> RepoError {
    match f {
        StoreFailure::NoRows => RepoError::NotFound,
        StoreFailure::Other { message } => RepoError::Store { message },
    }
}

impl StoreFailure {
    /// A missing row becomes `NotFound`; every other failure is kept as a store error.
    pub fn into_repo_error(self) -> (r: RepoError)
        ensures
            r == repo_error_of(self),
    {
        match self {
            StoreFailure::NoRows => RepoError::NotFound,
            StoreFailure::Other { message } => RepoError::Store { message },
        }
    }
}

/// The outcome of a lookup by key: a missing row is an absent value, not an error.
pub fn found_or_absent<T>(res: Result<T, StoreFailure>) -> (r: Result<Option<T>, RepoError>)
    ensures
        match res {
            Ok(v) => r == Ok::<Option<T>, RepoError>(Some(v)),
            Err(StoreFailure::NoRows) => r == Ok::<Option<T>, RepoError>(None),
            Err(StoreFailure::Other { message }) => r == Err::<Option<T>, RepoError>(
                RepoError::Store { message },
            ),
        },
{
    match res {
        Ok(v) => Ok(Some(v)),
        Err(StoreFailure::NoRows) => Ok(None),
        Err(StoreFailure::Other { message }) => Err(RepoError::Store { message }),
    }
}

/// The outcome of an update or delete restricted to one key that affected
/// `rows` rows: none means the key did not exist.
pub open spec fn affected_outcome(rows: nat) -> Result<(), RepoError> {
    if rows == 0 {
        Err(RepoError::NotFound)
    } else {
        Ok(())
    }
}

/// Decides the outcome of an update or delete restricted to one key from the
/// number of rows it affected.
pub fn require_affected(rows: usize) -> (r: Result<(), RepoError>)
    ensures
        r == affected_outcome(rows as nat),
{
    if rows == 0 {
        Err(RepoError::NotFound)
    } else {
        Ok(())
    }
}

} // verus!

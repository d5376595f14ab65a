use vstd::prelude::*;

verus! {

/// The soft and hard ceilings on open file descriptors of a process.
#[derive(Clone, Copy, Debug, PartialEq, Eq, Structural)]
pub struct FdLimit {
    pub soft: u64,
    pub hard: u64,
}

/// Why raising the open-file limit failed.
#[derive(Clone, Copy, Debug, PartialEq, Eq, Structural)]
pub enum LimitError {
    /// The current limits could not be read.
    QueryFailed,
    /// The platform refused the new limits.
    SetFailed,
}

/// The limits the process asks for: the soft ceiling raised to the hard one.
pub open spec fn raised_spec(cur: FdLimit) -> FdLimit {
    FdLimit { soft: cur.hard, hard: cur.hard }
}

/// The limits to request once `cur` has been read.
pub fn raised(cur: FdLimit) -> (r: FdLimit)
    ensures
        r == raised_spec(cur),
{
    FdLimit { soft: cur.hard, hard: cur.hard }
}

/// The change to apply, if any: none when the soft ceiling is already the hard one.
pub fn limit_change(cur: FdLimit) -> (r: Option<FdLimit>)
    ensures
        r is None <==> cur.soft == cur.hard,
        r is Some ==> r->0 == raised_spec(cur),
{
    if cur.soft == cur.hard {
        None
    } else {
        Some(raised(cur))
    }
}

/// Reads the outcome of querying the limits (`status` 0 means success) and
/// decides which change, if any, must be applied.
pub fn plan_raise(status: i32, cur: FdLimit) -> (r: Result<Option<FdLimit>, LimitError>)
    ensures
        status != 0 <==> r == Err::<Option<FdLimit>, LimitError>(LimitError::QueryFailed),
        status == 0 && cur.soft == cur.hard ==> r == Ok::<Option<FdLimit>, LimitError>(None),
        status == 0 && cur.soft != cur.hard ==> r == Ok::<Option<FdLimit>, LimitError>(
            Some(raised_spec(cur)),
        ),
{
    if status != 0 {
        Err(LimitError::QueryFailed)
    } else {
        Ok(limit_change(cur))
    }
}

/// Reads the outcome of applying new limits (`status` 0 means success).
pub fn check_set(status: i32) -> (r: Result<(), LimitError>)
    ensures
        r is Ok <==> status == 0,
        r is Err ==> r == Err::<(), LimitError>(LimitError::SetFailed),
{
    if status == 0 {
        Ok(())
    } else {
        Err(LimitError::SetFailed)
    }
}

/// Raising the limit is idempotent: once raised, the limits raise to themselves,
/// and a second raise asks for no change at all, so it cannot be refused.
pub proof fn lemma_raise_idempotent(cur: FdLimit)
    ensures
        raised_spec(raised_spec(cur)) == raised_spec(cur),
        raised_spec(cur).soft == raised_spec(cur).hard,
{
}

} // verus!

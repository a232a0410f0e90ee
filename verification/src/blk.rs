//! Decisions at the atomic block pool's interface boundary.
//!
//! The block pool itself — whole-block atomic reads and writes over a
//! backing file — is an external collaborator built on the durability
//! primitives; its calls live outside this library. What belongs here is the
//! interpretation of the status code its offline consistency checker
//! reports.

use vstd::prelude::*;

verus! {

/// What the offline consistency check of a closed block pool found.
#[derive(Clone, Copy, PartialEq, Eq, Structural, Debug)]
pub enum CheckOutcome {
    /// The pool is consistent.
    Consistent,
    /// The pool is inconsistent and needs recovery.
    Inconsistent,
    /// The check itself failed; the operating system reports why.
    OsError,
    /// The checker answered outside its interface contract.
    Unexpected,
}

/// Interprets the status code of the offline consistency checker: `1` means
/// the pool is consistent, `0` inconsistent, `-1` that the check failed with
/// an operating-system error; any other code breaks the checker's interface
/// contract.
pub fn check_status(r: i32) -> (o: CheckOutcome)
    ensures
        r == 1 ==> o == CheckOutcome::Consistent,
        r == 0 ==> o == CheckOutcome::Inconsistent,
        r == -1 ==> o == CheckOutcome::OsError,
        r != 1 && r != 0 && r != -1 ==> o == CheckOutcome::Unexpected,
{
    if r == 1 {
        CheckOutcome::Consistent
    } else if r == 0 {
        CheckOutcome::Inconsistent
    } else if r == -1 {
        CheckOutcome::OsError
    } else {
        CheckOutcome::Unexpected
    }
}

} // verus!

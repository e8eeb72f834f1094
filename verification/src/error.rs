//! The two ways an operation on a slot can fail.

use vstd::prelude::*;

verus! {

/// Returned by [`crate::LocalKey::try_with`] when the slot holds no value for
/// the caller: no scope is active. This is the one failure a caller may probe
/// for and recover from.
#[derive(Clone, Copy, PartialEq, Eq, Debug)]
pub struct AccessError {
    _private: (),
}

impl AccessError {
    pub(crate) fn not_set() -> (e: Self) {
        AccessError { _private: () }
    }

    /// What a failed read reports to a person.
    pub fn message(&self) -> (s: &'static str)
        ensures
            s@ == "task-local value not set"@,
    {
        "task-local value not set"
    }

    /// What a read that takes the value for granted reports when there is
    /// none. Such a read is a programming error, not a condition to handle.
    pub fn fatal_message(&self) -> (s: &'static str)
        ensures
            s@ == "cannot access a task-local storage value without setting it first"@,
    {
        "cannot access a task-local storage value without setting it first"
    }
}

/// Why a scope could not be entered.
#[derive(Clone, Copy, PartialEq, Eq, Structural, Debug)]
pub enum ScopeInnerErr {
    /// The slot is a shared one and another scope is inside it already.
    BorrowError,
}

impl ScopeInnerErr {
    /// What a rejected entry reports. Entering a busy shared slot is a
    /// programming error: the caller is expected to stop with this message.
    pub fn message(&self) -> (s: &'static str)
        ensures
            s@ == "cannot enter a task-local scope while the task-local storage is borrowed"@,
    {
        match self {
            ScopeInnerErr::BorrowError => {
                "cannot enter a task-local scope while the task-local storage is borrowed"
            },
        }
    }
}

} // verus!

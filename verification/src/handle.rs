//! The ownership protocol of opaque handles.
//!
//! The calling side holds an object of the other side through a handle.
//! A handle can be borrowed, moved and dropped. Borrowing gives the raw
//! pointer and leaves the handle as it is; moving gives the raw pointer
//! and ownership with it, after which the handle is spent; dropping runs
//! the destructor of the object, after which the handle is dead. A handle
//! that was neither moved nor dropped when the host reclaims it runs the
//! destructor then.

use vstd::prelude::*;

verus! {

/// What has become of a handle.
#[derive(Clone, Copy, Debug, PartialEq, Eq, Structural)]
pub enum HandleState {
    /// The handle owns its object.
    Live,
    /// Ownership was moved away.
    Moved,
    /// The destructor has run.
    Dropped,
}

/// One of the three operations on a handle.
#[derive(Clone, Copy, Debug, PartialEq, Eq, Structural)]
pub enum Operation {
    Borrow,
    Move,
    Drop,
}

/// Why an operation on a handle fails.
#[derive(Clone, Copy, Debug, PartialEq, Eq, Structural)]
pub enum HandleError {
    /// A dropped handle was borrowed or moved.
    UseAfterFree,
    /// A moved handle was borrowed.
    UseAfterMove,
    /// A moved handle was moved again.
    MoveTwice,
    /// A dropped handle was dropped again.
    DoubleFree,
    /// A moved handle was dropped.
    DropMoved,
}

impl HandleError {
    /// The message of the error.
    pub open spec fn spec_message(self) -> Seq<char> {
        match self {
            HandleError::UseAfterFree => "use after free"@,
            HandleError::UseAfterMove => "use after move"@,
            HandleError::MoveTwice => "can't move value twice"@,
            HandleError::DoubleFree => "double free"@,
            HandleError::DropMoved => "can't drop moved value"@,
        }
    }

    /// Returns the message of the error.
    pub fn message(&self) -> (text: &'static str)
        ensures
            text@ == self.spec_message(),
    {
        match self {
            HandleError::UseAfterFree => "use after free",
            HandleError::UseAfterMove => "use after move",
            HandleError::MoveTwice => "can't move value twice",
            HandleError::DoubleFree => "double free",
            HandleError::DropMoved => "can't drop moved value",
        }
    }
}

impl HandleState {
    /// Why an operation fails in a state, if it fails: every operation
    /// succeeds on a live handle and fails on any other.
    pub open spec fn refuses(self, op: Operation) -> Option<HandleError> {
        match (self, op) {
            (HandleState::Live, _) => None,
            (HandleState::Dropped, Operation::Borrow) => Some(HandleError::UseAfterFree),
            (HandleState::Dropped, Operation::Move) => Some(HandleError::UseAfterFree),
            (HandleState::Dropped, Operation::Drop) => Some(HandleError::DoubleFree),
            (HandleState::Moved, Operation::Borrow) => Some(HandleError::UseAfterMove),
            (HandleState::Moved, Operation::Move) => Some(HandleError::MoveTwice),
            (HandleState::Moved, Operation::Drop) => Some(HandleError::DropMoved),
        }
    }

    /// The state after an operation: a failed operation and a borrow
    /// change nothing.
    pub open spec fn after(self, op: Operation) -> HandleState {
        match (self, op) {
            (HandleState::Live, Operation::Move) => HandleState::Moved,
            (HandleState::Live, Operation::Drop) => HandleState::Dropped,
            _ => self,
        }
    }

    /// Whether an operation runs the destructor: dropping a live handle
    /// does.
    pub open spec fn destroys(self, op: Operation) -> bool {
        self == HandleState::Live && op == Operation::Drop
    }

    /// Whether reclaiming an unreachable handle runs the destructor: a
    /// live handle is still registered for it.
    pub open spec fn finalizes(self) -> bool {
        self == HandleState::Live
    }

    /// The state after the first `n` of the given operations.
    pub open spec fn after_all(self, ops: Seq<Operation>, n: nat) -> HandleState
        decreases n,
    {
        if n == 0 || n > ops.len() {
            self
        } else {
            self.after_all(ops, (n - 1) as nat).after(ops[n - 1])
        }
    }

    /// How often the first `n` of the given operations run the
    /// destructor.
    pub open spec fn destructions(self, ops: Seq<Operation>, n: nat) -> nat
        decreases n,
    {
        if n == 0 || n > ops.len() {
            0
        } else {
            let before = self.destructions(ops, (n - 1) as nat);
            if self.after_all(ops, (n - 1) as nat).destroys(ops[n - 1]) {
                before + 1
            } else {
                before
            }
        }
    }
}

/// A handle: the raw pointer of an object and what has become of it.
#[derive(Debug, PartialEq, Eq)]
pub struct Handle {
    ptr: usize,
    state: HandleState,
}

impl Handle {
    /// The raw pointer of the object.
    pub closed spec fn ptr(&self) -> usize {
        self.ptr
    }

    /// What has become of the handle.
    pub closed spec fn state(&self) -> HandleState {
        self.state
    }

    /// Wraps the raw pointer of an object that the caller owns.
    pub fn new(ptr: usize) -> (handle: Self)
        ensures
            handle.ptr() == ptr,
            handle.state() == HandleState::Live,
    {
        Handle { ptr, state: HandleState::Live }
    }

    /// Gives the raw pointer and leaves the handle as it is.
    pub fn borrow(&self) -> (res: Result<usize, HandleError>)
        ensures
            match self.state().refuses(Operation::Borrow) {
                Some(err) => res == Err::<usize, HandleError>(err),
                None => res == Ok::<usize, HandleError>(self.ptr()),
            },
    {
        match self.state {
            HandleState::Dropped => Err(HandleError::UseAfterFree),
            HandleState::Moved => Err(HandleError::UseAfterMove),
            HandleState::Live => Ok(self.ptr),
        }
    }

    /// Gives the raw pointer and the ownership of the object: the handle
    /// is spent.
    pub fn move_out(&mut self) -> (res: Result<usize, HandleError>)
        ensures
            final(self).ptr() == old(self).ptr(),
            final(self).state() == old(self).state().after(Operation::Move),
            match old(self).state().refuses(Operation::Move) {
                Some(err) => res == Err::<usize, HandleError>(err),
                None => res == Ok::<usize, HandleError>(old(self).ptr()),
            },
    {
        match self.state {
            HandleState::Dropped => Err(HandleError::UseAfterFree),
            HandleState::Moved => Err(HandleError::MoveTwice),
            HandleState::Live => {
                self.state = HandleState::Moved;
                Ok(self.ptr)
            },
        }
    }

    /// Ends the handle. On success the caller has to run the destructor
    /// on the raw pointer that is returned.
    pub fn drop(&mut self) -> (res: Result<usize, HandleError>)
        ensures
            final(self).ptr() == old(self).ptr(),
            final(self).state() == old(self).state().after(Operation::Drop),
            res is Ok == old(self).state().destroys(Operation::Drop),
            match old(self).state().refuses(Operation::Drop) {
                Some(err) => res == Err::<usize, HandleError>(err),
                None => res == Ok::<usize, HandleError>(old(self).ptr()),
            },
    {
        match self.state {
            HandleState::Dropped => Err(HandleError::DoubleFree),
            HandleState::Moved => Err(HandleError::DropMoved),
            HandleState::Live => {
                self.state = HandleState::Dropped;
                Ok(self.ptr)
            },
        }
    }

    /// Reclaims a handle that nothing can reach any more. Where a raw
    /// pointer is returned, the caller has to run the destructor on it.
    pub fn finalize(self) -> (res: Option<usize>)
        ensures
            res == (if self.state().finalizes() {
                Some(self.ptr())
            } else {
                None
            }),
    {
        match self.state {
            HandleState::Live => Some(self.ptr),
            _ => None,
        }
    }
}

/// After a move, borrowing, moving and dropping the handle fail, and
/// leave it moved.
pub proof fn moved_handle_is_spent(op: Operation)
    ensures
        HandleState::Live.after(Operation::Move).refuses(op) is Some,
        HandleState::Live.after(Operation::Move).after(op) == HandleState::Live.after(
            Operation::Move,
        ),
{
}

/// After a drop, every operation on the handle fails, and leaves it
/// dropped.
pub proof fn dropped_handle_is_dead(op: Operation)
    ensures
        HandleState::Live.after(Operation::Drop).refuses(op) is Some,
        HandleState::Live.after(Operation::Drop).after(op) == HandleState::Live.after(
            Operation::Drop,
        ),
{
}

/// Once an operation has failed on a handle, every operation fails on it:
/// a handle is never live again.
pub proof fn failure_is_final(state: HandleState, first: Operation, second: Operation)
    requires
        state.refuses(first) is Some,
    ensures
        state.after(first).refuses(second) is Some,
{
}

/// Whatever is done to a handle, its destructor runs at most once before
/// it is reclaimed, and the handle is live as long as it has not run and
/// ownership was not moved away.
pub proof fn lemma_destructions(ops: Seq<Operation>, n: nat)
    requires
        n <= ops.len(),
    ensures
        ({
            let state = HandleState::Live.after_all(ops, n);
            let count = HandleState::Live.destructions(ops, n);
            &&& state == HandleState::Dropped <==> count == 1
            &&& state != HandleState::Dropped <==> count == 0
        }),
    decreases n,
{
    if n > 0 {
        lemma_destructions(ops, (n - 1) as nat);
    }
}

/// The destructor of an object runs exactly once over the life of its
/// handle, unless ownership was moved away: for every list of operations,
/// failed ones included, after which the handle is reclaimed, the
/// operations and the reclamation together run the destructor once where
/// the handle was not moved, and never where it was. In particular a
/// handle that was never dropped runs it when it is reclaimed.
pub proof fn destructor_runs_once(ops: Seq<Operation>)
    ensures
        ({
            let state = HandleState::Live.after_all(ops, ops.len());
            let reclaimed: nat = if state.finalizes() {
                1
            } else {
                0
            };
            HandleState::Live.destructions(ops, ops.len()) + reclaimed == (if state
                == HandleState::Moved {
                0nat
            } else {
                1nat
            })
        }),
{
    lemma_destructions(ops, ops.len());
}

} // verus!

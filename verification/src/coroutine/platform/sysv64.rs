//! The saved execution state under the 64-bit System V calling convention.
//!
//! A transfer of control keeps `rbx`, `rbp` and `r12` to `r15` on the stack
//! of the side that goes to sleep, above the stack pointer that it records.
//! A fresh coroutine is entered by a jump, so its first stack pointer names
//! the word that holds the payload; the entry code takes that word off the
//! stack and then makes its call.

use vstd::prelude::*;
use crate::coroutine::platform::{aligned, StackSpace, Store};

verus! {

/// Bytes in a machine word.
pub const WORD: usize = 8;

/// Bytes in the stack of a coroutine, whatever it goes on to do.
pub const DEFAULT_STACK_SIZE: usize = 1024 * 1024 * 8;

/// Registers that a transfer of control keeps for the side that sleeps.
pub const SAVED_REGISTERS: usize = 6;

/// Bytes below the payload word that are set aside for the kept registers.
pub const RESERVED: usize = WORD * SAVED_REGISTERS;

/// Bytes that a stack needs between its start and its top to be primed: the
/// payload word and the room for the kept registers below it.
pub const MIN_STACK_SIZE: usize = RESERVED + WORD;

/// The stack pointer at the call that the entry code makes, given the stack
/// pointer that a fresh coroutine is entered with: the payload word has been
/// taken off.
pub open spec fn entry_call_sp(resume_rsp: int) -> int {
    resume_rsp + 8
}

/// The execution state that a fresh coroutine starts from, and the stack
/// that it lives on. Once the coroutine has run, where it goes on is known
/// to the code that performs the transfers; the stack stays with this value
/// until it is released.
#[derive(Debug, PartialEq, Eq)]
pub struct Context {
    resume_addr: usize,
    resume_rsp: usize,
    stack_space: StackSpace,
}

impl Context {
    /// The address of the instruction to start at.
    pub closed spec fn addr(self) -> int {
        self.resume_addr as int
    }

    /// The stack pointer to start with.
    pub closed spec fn sp(self) -> int {
        self.resume_rsp as int
    }

    /// The stack region that this state lives on.
    pub closed spec fn stack(self) -> StackSpace {
        self.stack_space
    }

    /// What priming establishes: the stack pointer names the word just below
    /// the top of the stack, which is the end of the region rounded down to
    /// the stack alignment, room for every kept register lies below that word inside
    /// the region, and the entry code makes its call on an aligned stack
    /// pointer that has not left the region, so that the address to return
    /// to, which the call puts below it, lies inside the region.
    pub open spec fn primed(self) -> bool {
        &&& self.stack().wf()
        &&& self.sp() == self.stack().stack_top() - WORD
        &&& self.sp() % (WORD as int) == 0
        &&& self.stack().holds(self.sp(), WORD as int)
        &&& self.stack().holds(self.sp() - RESERVED, RESERVED as int)
        &&& aligned(entry_call_sp(self.sp()))
        &&& entry_call_sp(self.sp()) <= self.stack().end()
        &&& self.stack().holds(entry_call_sp(self.sp()) - WORD, WORD as int)
    }

    /// Lays out the fresh stack `stack_space` so that the first transfer into
    /// it starts the entry code at `entry` with the word `payload` on top of
    /// the stack. The word is not written here: the second component says
    /// where it belongs. The top of the stack is taken on the stack
    /// alignment, whatever the size of the region. Below the word, room for
    /// every kept register is set aside; a stack too small for that is
    /// handed back.
    pub fn new(stack_space: StackSpace, entry: usize, payload: usize) -> (primed: Result<
        (Context, Store),
        StackSpace,
    >)
        ensures
            primed.is_ok() <==> stack_space.room() >= MIN_STACK_SIZE,
            primed.is_err() ==> primed.unwrap_err() == stack_space,
            primed.is_ok() ==> primed.unwrap().0.stack() == stack_space,
            primed.is_ok() ==> primed.unwrap().0.addr() == entry,
            primed.is_ok() ==> primed.unwrap().0.primed(),
            primed.is_ok() ==> primed.unwrap().1.address == primed.unwrap().0.sp(),
            primed.is_ok() ==> primed.unwrap().1.value == payload,
    {
        let top: usize = stack_space.top();
        if top - stack_space.address() < MIN_STACK_SIZE {
            return Err(stack_space);
        }
        let stack_top: usize = top - WORD;
        let context = Context { resume_addr: entry, resume_rsp: stack_top, stack_space };
        Ok((context, Store { address: stack_top, value: payload }))
    }

    /// The address of the instruction to start at.
    pub fn resume_addr(&self) -> (address: usize)
        ensures
            address == self.addr(),
    {
        self.resume_addr
    }

    /// The stack pointer to start with.
    pub fn resume_rsp(&self) -> (pointer: usize)
        ensures
            pointer == self.sp(),
    {
        self.resume_rsp
    }

    /// The stack region that this state lives on.
    pub fn stack_space(&self) -> (space: &StackSpace)
        ensures
            *space == self.stack(),
    {
        &self.stack_space
    }

    /// Gives up the saved state and hands out its stack region, for the
    /// caller to return to the allocator. The state is gone with the call, so
    /// a region leaves its state once and nothing can go on in it afterwards.
    pub fn release(self) -> (space: StackSpace)
        ensures
            space == self.stack(),
    {
        self.stack_space
    }
}

} // verus!

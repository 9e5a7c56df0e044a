//! What every calling convention shares: the description of a stack region,
//! the request for one transfer of control, and the record of who is running.

use vstd::prelude::*;

pub mod i686;
pub mod sysv64;
pub mod win64;

verus! {

/// Alignment, in bytes, of a stack region and of the stack pointer at a call.
pub const STACK_ALIGN: usize = 16;

/// The value that travels through a transfer into a coroutine.
pub const RESUMED: usize = 0;

/// The value that travels through a transfer when a coroutine suspends itself.
pub const YIELDED: usize = 0;

/// The value that travels through the last transfer out of a coroutine.
pub const FINISHED: usize = 1;

/// Whether `address` is a multiple of the stack alignment.
pub open spec fn aligned(address: int) -> bool {
    address % (STACK_ALIGN as int) == 0
}

/// The largest number of bytes that an allocator can be asked for on the
/// stack alignment: rounded up to the alignment, the size of a block must not
/// exceed `isize::MAX`.
pub open spec fn max_region_size() -> int {
    isize::MAX - (STACK_ALIGN - 1)
}

/// Whether a block of `size` bytes at `address` is one that an allocator
/// can have handed out on the stack alignment: the block exists, is no
/// larger than an allocator can hand out, starts on the stack alignment, and
/// ends within the address space.
pub open spec fn region_valid(address: int, size: int) -> bool {
    &&& address > 0
    &&& 0 < size <= max_region_size()
    &&& aligned(address)
    &&& address + size <= usize::MAX
}

/// A block of memory that one coroutine runs on, from `address` up to
/// `address + size`. The stack grows downward from the highest address of
/// the block that lies on the stack alignment. The value stands for the
/// block itself: there is no second copy of it.
#[derive(Debug, PartialEq, Eq)]
pub struct StackSpace {
    address: usize,
    size: usize,
}

impl StackSpace {
    /// The lowest address of the region.
    pub closed spec fn base(self) -> int {
        self.address as int
    }

    /// The number of bytes in the region.
    pub closed spec fn len(self) -> int {
        self.size as int
    }

    /// The address just above the region.
    pub open spec fn end(self) -> int {
        self.base() + self.len()
    }

    /// The address where the stack starts: the end of the region, rounded
    /// down to the stack alignment.
    pub open spec fn stack_top(self) -> int {
        self.end() - self.end() % (STACK_ALIGN as int)
    }

    /// The bytes between the start of the region and the start of the stack:
    /// the size of the region, rounded down to the stack alignment.
    pub open spec fn room(self) -> int {
        self.stack_top() - self.base()
    }

    /// Whether the `width` bytes at `address` lie inside the region.
    pub open spec fn holds(self, address: int, width: int) -> bool {
        self.base() <= address && address + width <= self.end()
    }

    /// The invariant of every stack region.
    pub open spec fn wf(self) -> bool {
        region_valid(self.base(), self.len())
    }

    #[verifier::type_invariant]
    spec fn inv(self) -> bool {
        self.wf()
    }

    /// Describes the block of `size` bytes that an allocator handed out at
    /// `address`, when asked for that many bytes on the stack alignment.
    /// Nothing is described when the allocator failed (a null address) or
    /// when the address is not what such an allocator hands out: off the
    /// alignment, or so high that the block would leave the address space.
    ///
    /// No allocator can be asked for more than `max_region_size()` bytes, so
    /// no larger size is taken.
    pub fn new(address: usize, size: usize) -> (space: Option<StackSpace>)
        requires
            size <= isize::MAX - (STACK_ALIGN - 1),
        ensures
            space.is_some() <==> address > 0 && aligned(address as int) && 0 < size && address
                + size <= usize::MAX,
            space.is_some() ==> space.unwrap().base() == address,
            space.is_some() ==> space.unwrap().len() == size,
            space.is_some() ==> space.unwrap().wf(),
    {
        if address == 0 || size == 0 {
            return None;
        }
        if address % STACK_ALIGN != 0 {
            return None;
        }
        if size > usize::MAX - address {
            return None;
        }
        Some(StackSpace { address, size })
    }

    /// The lowest address of the region.
    pub fn address(&self) -> (address: usize)
        ensures
            address == self.base(),
            self.wf(),
    {
        proof {
            use_type_invariant(self);
        }
        self.address
    }

    /// The number of bytes in the region.
    pub fn size(&self) -> (size: usize)
        ensures
            size == self.len(),
            self.wf(),
    {
        proof {
            use_type_invariant(self);
        }
        self.size
    }

    /// The address where the stack starts: the end of the region, rounded
    /// down to the stack alignment. It lies on the alignment, and between
    /// the start of the region and its end.
    pub fn top(&self) -> (top: usize)
        ensures
            top == self.stack_top(),
            aligned(top as int),
            self.base() <= top <= self.end(),
            self.end() - top < STACK_ALIGN,
            self.wf(),
    {
        proof {
            use_type_invariant(self);
        }
        let end: usize = self.address + self.size;
        end - end % STACK_ALIGN
    }
}

/// One word that has to be written into a fresh stack before its coroutine
/// first runs.
#[derive(Clone, Copy, Debug, PartialEq, Eq)]
pub struct Store {
    pub address: usize,
    pub value: usize,
}

/// Which way a transfer of control goes.
#[derive(Clone, Copy, Debug, PartialEq, Eq)]
pub enum Direction {
    /// From the resumer into a coroutine.
    Enter,
    /// From the running coroutine back to its resumer.
    Leave,
}

/// A request for exactly one transfer of control, carrying one word to the
/// side that wakes up.
#[derive(Clone, Copy, Debug, PartialEq, Eq)]
pub struct Switch {
    pub direction: Direction,
    pub value: usize,
}

/// The record of who is running: the resumer, or the one coroutine that it
/// has entered and that has not come back yet, by the name that the
/// coroutine was made with.
#[derive(Debug)]
pub struct Control {
    current: Option<usize>,
}

impl Control {
    /// The name of the coroutine that has been entered and has not come back
    /// yet, if there is one.
    pub closed spec fn current(self) -> Option<usize> {
        self.current
    }

    /// Whether a coroutine has been entered and has not come back yet.
    pub open spec fn in_flight(self) -> bool {
        self.current().is_some()
    }

    /// The record at the start: the resumer is running.
    pub fn new() -> (control: Control)
        ensures
            control.current().is_none(),
    {
        Control { current: None }
    }

    /// Whether a coroutine has been entered and has not come back yet.
    pub fn is_in_flight(&self) -> (r: bool)
        ensures
            r == self.in_flight(),
    {
        self.current.is_some()
    }

    /// The name of the coroutine that has been entered and has not come back
    /// yet, if there is one.
    pub fn running(&self) -> (name: Option<usize>)
        ensures
            name == self.current(),
    {
        self.current
    }

    /// Records that the transfer out of the running coroutine has arrived at
    /// the resumer.
    pub(crate) fn land(&mut self)
        ensures
            final(self).current().is_none(),
    {
        self.current = None;
    }
}

/// Asks for the transfer from the resumer into the coroutine named `coro`,
/// with `val` as the word that the coroutine wakes up with, and records that
/// this coroutine is now running. Only the resumer may ask: a coroutine
/// cannot resume another.
pub fn resume_coroutine(control: &mut Control, coro: usize, val: usize) -> (switch: Switch)
    requires
        !old(control).in_flight(),
    ensures
        final(control).current() == Some(coro),
        switch == (Switch { direction: Direction::Enter, value: val }),
{
    control.current = Some(coro);
    Switch { direction: Direction::Enter, value: val }
}

/// Asks for the transfer from the running coroutine back to its resumer, with
/// `ret` as the word that the resumer wakes up with. Only a running coroutine
/// may ask. The record changes when the resumer has woken up, not before.
pub fn return_from_coroutine(control: &Control, ret: usize) -> (switch: Switch)
    requires
        control.in_flight(),
    ensures
        switch == (Switch { direction: Direction::Leave, value: ret }),
{
    Switch { direction: Direction::Leave, value: ret }
}

} // verus!

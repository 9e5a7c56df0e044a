//! The coroutine handle and the scheduler.
//!
//! A handle is the bookkeeping around one saved execution state: whether its
//! payload has started and whether it has returned. The handle decides when a
//! transfer of control may happen and takes note of how it ended; it never
//! looks into the saved state, which belongs to the code that performs the
//! transfer.

use vstd::prelude::*;
use crate::coroutine::platform::{
    resume_coroutine, return_from_coroutine, Control, Direction, Switch, RESUMED, YIELDED,
};
use crate::coroutine::run::{first_pending, lemma_first_pending, next_pending, scan_start};

pub mod platform;
pub mod run;

verus! {

/// Where a coroutine stands in its life.
#[derive(Clone, Copy, Debug, PartialEq, Eq, Structural)]
pub enum State {
    /// The payload has not started.
    Created,
    /// The payload has started and has not returned: its frames live on the
    /// coroutine's stack.
    Suspended,
    /// The payload has returned. Nothing will run on the stack again.
    Finished,
}

/// The state that a coroutine is left in by a transfer back to its resumer
/// that carried the word `sentinel`.
pub open spec fn state_after(sentinel: usize) -> State {
    if sentinel == 0 {
        State::Suspended
    } else {
        State::Finished
    }
}

/// What a handle is: a name, a saved execution state and a place in life.
pub struct Handle<C> {
    pub name: usize,
    pub saved: C,
    pub state: State,
}

/// The handle after a resumption of it has started. A finished handle stays
/// as it is. Any other is now in the middle of its payload; its name and its
/// saved state are not touched.
pub open spec fn resuming<C>(handle: Handle<C>) -> Handle<C> {
    if handle.state == State::Finished {
        handle
    } else {
        Handle { name: handle.name, saved: handle.saved, state: State::Suspended }
    }
}

/// The handle after the resumption of it has ended with the word `sentinel`.
/// Its name and its saved state are not touched.
pub open spec fn settled<C>(handle: Handle<C>, sentinel: usize) -> Handle<C> {
    Handle { name: handle.name, saved: handle.saved, state: state_after(sentinel) }
}

/// A coroutine: a saved execution state of type `C`, its place in life, and
/// the name by which the record of who is running knows it.
pub struct Coroutine<C> {
    name: usize,
    context: C,
    state: State,
}

impl<C> View for Coroutine<C> {
    type V = Handle<C>;

    closed spec fn view(&self) -> Handle<C> {
        Handle { name: self.name, saved: self.context, state: self.state }
    }
}

impl<C> Coroutine<C> {
    /// Whether the payload has returned.
    pub open spec fn finished(self) -> bool {
        self@.state == State::Finished
    }

    /// A coroutine whose payload has not started, on the primed state
    /// `context`. The record of who is running will know it as `name`, so
    /// coroutines that are alive together get names of their own: the
    /// address of the stack serves, or the position in a collection.
    pub fn new(context: C, name: usize) -> (coroutine: Self)
        ensures
            coroutine@ == (Handle { name, saved: context, state: State::Created }),
    {
        Coroutine { name, context, state: State::Created }
    }

    /// The name by which the record of who is running knows this coroutine.
    pub fn name(&self) -> (name: usize)
        ensures
            name == self@.name,
    {
        self.name
    }

    /// Whether the payload has returned.
    pub fn is_finished(&self) -> (finished: bool)
        ensures
            finished == self.finished(),
    {
        self.state == State::Finished
    }

    /// Where the coroutine stands in its life.
    pub fn state(&self) -> (state: State)
        ensures
            state == self@.state,
    {
        self.state
    }

    /// The saved execution state.
    pub fn context(&self) -> (context: &C)
        ensures
            *context == self@.saved,
    {
        &self.context
    }

    /// The saved execution state, for the code that performs a transfer.
    /// Whatever is done to it, the coroutine's place in life stays.
    pub fn context_mut(&mut self) -> (context: &mut C)
        ensures
            *context == old(self)@.saved,
            final(self)@ == (Handle {
                name: old(self)@.name,
                saved: *final(context),
                state: old(self)@.state,
            }),
    {
        &mut self.context
    }

    /// Starts one resumption. For a finished coroutine this does nothing and
    /// asks for nothing. For any other it asks for exactly one transfer into
    /// the coroutine and records that this coroutine is running; when
    /// control is back, `settle` takes the word that came with it.
    ///
    /// Only the resumer may start a resumption of a coroutine that can still
    /// run.
    pub fn resume(&mut self, control: &mut Control) -> (switch: Option<Switch>)
        requires
            old(self).finished() || !old(control).in_flight(),
        ensures
            final(self)@ == resuming(old(self)@),
            switch == entering(old(self)@.state),
            old(self).finished() ==> *final(self) == *old(self),
            old(self).finished() ==> *final(control) == *old(control),
            !old(self).finished() ==> final(control).current() == Some(old(self)@.name),
    {
        if self.is_finished() {
            return None;
        }
        self.state = State::Suspended;
        Some(resume_coroutine(control, self.name, RESUMED))
    }

    /// Ends the resumption that `resume` started on this coroutine: control
    /// is back at the resumer, and `sentinel` is the word that came with it.
    /// Zero says that the coroutine suspended itself; any other word says
    /// that its payload has returned. Only the coroutine that the record
    /// names as running can be settled.
    pub fn settle(&mut self, control: &mut Control, sentinel: usize)
        requires
            old(control).current() == Some(old(self)@.name),
            old(self)@.state == State::Suspended,
        ensures
            final(self)@ == settled(old(self)@, sentinel),
            !final(control).in_flight(),
    {
        self.state = if sentinel == 0 {
            State::Suspended
        } else {
            State::Finished
        };
        control.land();
    }

    /// Discards the handle and hands out its saved execution state, so that
    /// the stack it lives on can be released. The handle is gone with the
    /// call: nothing can resume the coroutine afterwards.
    pub fn retire(self) -> (context: C)
        ensures
            context == self@.saved,
    {
        self.context
    }
}

/// The transfer that the start of a resumption asks for, by the place in life
/// of the coroutine: none for a finished one, else one into the coroutine.
pub open spec fn entering(state: State) -> Option<Switch> {
    if state == State::Finished {
        None
    } else {
        Some(Switch { direction: Direction::Enter, value: RESUMED })
    }
}

/// Finished is final, and resuming a finished coroutine is idle however
/// often it is done: the handle stays as it is and never asks for a transfer
/// again.
pub proof fn lemma_finished_is_final<C>(handle: Handle<C>, times: nat)
    requires
        handle.state == State::Finished,
    ensures
        resumed_times(handle, times) == handle,
        entering(resumed_times(handle, times).state).is_none(),
    decreases times,
{
    if times > 0 {
        lemma_finished_is_final(handle, (times - 1) as nat);
    }
}

/// The handle after `times` resumptions have started on it in a row.
pub open spec fn resumed_times<C>(handle: Handle<C>, times: nat) -> Handle<C>
    decreases times,
{
    if times == 0 {
        handle
    } else {
        resuming(resumed_times(handle, (times - 1) as nat))
    }
}

/// What a coroutine left behind when it suspended itself is what it finds
/// when it is next resumed: between the end of one resumption and the start
/// of the next, the handle keeps the saved execution state as it is, and the
/// next resumption asks for a transfer into it.
pub proof fn lemma_suspended_round_trip<C>(handle: Handle<C>)
    ensures
        settled(handle, YIELDED).state == State::Suspended,
        resuming(settled(handle, YIELDED)).saved == handle.saved,
        resuming(settled(handle, YIELDED)).state == State::Suspended,
        entering(settled(handle, YIELDED).state) == Some(
            Switch { direction: Direction::Enter, value: RESUMED },
        ),
{
}

/// A coroutine finishes exactly when a word other than zero comes back from
/// it.
pub proof fn lemma_settled_finished<C>(handle: Handle<C>, sentinel: usize)
    ensures
        settled(handle, sentinel).state == State::Finished <==> sentinel != 0,
        settled(handle, sentinel).state == State::Suspended <==> sentinel == 0,
        settled(handle, sentinel).saved == handle.saved,
{
}

/// Asks for the transfer by which the running coroutine suspends itself. Only
/// a running coroutine may ask; the coroutine goes on after this request when
/// it is next resumed.
pub fn yield_now(control: &Control) -> (switch: Switch)
    requires
        control.in_flight(),
    ensures
        switch == (Switch { direction: Direction::Leave, value: YIELDED }),
{
    return_from_coroutine(control, YIELDED)
}

/// The finished flags of a collection of coroutines.
pub open spec fn flags<C>(coros: Seq<Coroutine<C>>) -> Seq<bool> {
    Seq::new(coros.len(), |i: int| coros[i].finished())
}

/// A position as the scheduler's model counts it.
pub open spec fn position(next: Option<usize>) -> Option<int> {
    match next {
        Some(i) => Some(i as int),
        None => None,
    }
}

/// One decision of the round-robin scheduler: which coroutine to resume
/// next, when the current pass over `coros` has come to position `from`.
/// The answer is the first unfinished coroutine at or after `from`; when the
/// pass ends without one, the first unfinished coroutine of the next pass;
/// and nothing when every coroutine has finished, which ends the run.
///
/// A run starts with `from` at zero, resumes the coroutine that is named,
/// and asks again with `from` one past it.
pub fn schedule<C>(coros: &[Coroutine<C>], from: usize) -> (next: Option<usize>)
    ensures
        position(next) == next_pending(flags(coros@), from as int),
{
    let n: usize = coros.len();
    let start: usize = if from < n {
        from
    } else {
        n
    };
    let mut i: usize = start;
    while i < n
        invariant
            start <= i <= n,
            n == coros@.len(),
            start == scan_start(n as int, from as int),
            forall|j: int| start <= j < i ==> flags(coros@)[j],
        decreases n - i,
    {
        if !coros[i].is_finished() {
            proof {
                assert(!flags(coros@)[i as int]);
                lemma_first_pending(flags(coros@), start as int, n as int);
            }
            return Some(i);
        }
        i += 1;
    }
    proof {
        lemma_first_pending(flags(coros@), start as int, n as int);
    }
    let mut i: usize = 0;
    while i < start
        invariant
            i <= start <= n,
            n == coros@.len(),
            start == scan_start(n as int, from as int),
            first_pending(flags(coros@), start as int, n as int).is_none(),
            forall|j: int| 0 <= j < i ==> flags(coros@)[j],
        decreases start - i,
    {
        if !coros[i].is_finished() {
            proof {
                assert(!flags(coros@)[i as int]);
                lemma_first_pending(flags(coros@), 0, start as int);
            }
            return Some(i);
        }
        i += 1;
    }
    proof {
        lemma_first_pending(flags(coros@), 0, start as int);
    }
    None
}

} // verus!

//! The vocabulary of the generator engine: drive outcomes, protocol
//! errors, and the suspension primitive that the engine wraps.

use vstd::prelude::*;

use crate::detail::waker::GeneratorWaker;

verus! {

/// The observable outcome of driving a generator until it settles:
/// either it suspended at a yield point and handed out a value, or it
/// ran to completion and produced its return value.
#[derive(Clone, Copy, Debug, PartialEq, Eq)]
pub enum GeneratorState<Y, R> {
    /// The generator suspended at a yield point with this value.
    Yielded(Y),
    /// The generator finished with this return value. Terminal: a
    /// completed generator must not be driven again.
    Complete(R),
}

/// The outcome of driving the underlying suspension primitive one step:
/// it either suspended (for a yield, or for genuine outer asynchronous
/// waiting) or completed with its final value.
#[derive(Clone, Copy, Debug, PartialEq, Eq)]
pub enum Poll<T> {
    /// The computation suspended without completing.
    Pending,
    /// The computation completed with this value.
    Ready(T),
}

/// A violation of the generator protocol. Each variant marks a distinct
/// programming error; none is a recoverable runtime condition.
#[derive(Clone, Copy, Debug, PartialEq, Eq)]
pub enum GeneratorError {
    /// A token was registered for a generator execution that already has
    /// a registered token.
    AlreadyRegistered,
    /// A yield or argument read was issued against a scheduling context
    /// whose registered identity differs from the calling token's: the
    /// token belongs to a different generator than the one being driven.
    WrongGenerator,
    /// A suspended yield (or the initial-argument accessor) was resumed
    /// with no pending argument in the slot.
    NoArgument,
    /// The computation suspended without yielding a value while it was
    /// being driven by the strictly blocking operation.
    SuspendWithoutYield,
    /// A generator was driven again after it reported completion.
    AlreadyComplete,
}

/// The cooperative suspension primitive the engine wraps: a unit of
/// work that is driven forward stepwise and, on each drive, either
/// suspends (keeping its local state) or completes with a value of type
/// `R`. Yield values of type `Y` and resume arguments of type `A`
/// travel through the slot of the scheduling context it is driven with.
///
/// An implementation publishes its behaviour as a deterministic
/// transition model: `step_state`, `step_waker` and `step_result` say,
/// for a given state and incoming scheduling context, what the next
/// state, the outgoing context and the drive outcome are. The driver's
/// own contracts are stated over this model, so whatever is proved
/// about a generator holds for the exact sequence of yields and resume
/// arguments its body produces.
pub trait Coroutine<Y, A, R>: Sized {
    /// The invariant this computation maintains across drives.
    spec fn inv(&self) -> bool;

    /// The state this computation is left in by one drive with the
    /// scheduling context `cx`.
    spec fn step_state(&self, cx: GeneratorWaker<Y, A>) -> Self;

    /// The scheduling context left behind by one drive with `cx`.
    spec fn step_waker(&self, cx: GeneratorWaker<Y, A>) -> GeneratorWaker<Y, A>;

    /// The outcome of one drive with `cx`: suspended, completed, or a
    /// protocol violation.
    spec fn step_result(&self, cx: GeneratorWaker<Y, A>) -> Result<Poll<R>, GeneratorError>;

    /// Drives this computation one step with the scheduling context
    /// `cx`, exactly as the transition model says.
    fn poll(&mut self, cx: &mut GeneratorWaker<Y, A>) -> (r: Result<Poll<R>, GeneratorError>)
        requires
            old(self).inv(),
        ensures
            final(self).inv(),
            *final(self) == old(self).step_state(*old(cx)),
            *final(cx) == old(self).step_waker(*old(cx)),
            r == old(self).step_result(*old(cx)),
    ;
}

/// The trait of blocking generators: each resume drives the generator
/// until it yields or completes. Implementations publish their exact
/// behaviour as the deterministic model `resume_model`, and `resume`
/// is proved to follow it.
pub trait Generator<Y, A, R>: Sized {
    /// The invariant this generator maintains across resumes.
    spec fn wf(&self) -> bool;

    /// The state and report one resume with this argument produces.
    spec fn resume_model(&self, arg: A) -> (Self, Result<GeneratorState<Y, R>, GeneratorError>);

    /// Resumes execution of this generator: runs it from its last
    /// suspension point until it yields a value or completes, handing
    /// `arg` to the suspended yield (or, on the first resume, making
    /// it readable as the initial argument).
    fn resume(&mut self, arg: A) -> (r: Result<GeneratorState<Y, R>, GeneratorError>)
        requires
            old(self).wf(),
        ensures
            final(self).wf(),
            (*final(self), r) == old(self).resume_model(arg),
    ;
}

} // verus!

//! The generator driver: wraps a suspension-primitive computation,
//! installs a fresh scheduling context for every drive, and translates
//! the drive outcome into a yielded/completed report.

use vstd::prelude::*;

use crate::detail::token::TokenId;
use crate::detail::waker::GeneratorWaker;
use crate::detail::GeneratorArg;
use crate::protocol::Coroutine;
use crate::protocol::GeneratorError;
use crate::protocol::GeneratorState;
use crate::protocol::Poll;

verus! {

/// Drives a wrapped computation as a generator. A wrapper is a three
/// state machine: fresh (never driven), suspended mid-body, and
/// completed. Once the wrapped computation completes, the wrapper
/// refuses every further drive; a completed generator never silently
/// restarts.
pub struct GeneratorWrapper<C, Y, A, R> {
    /// The wrapped suspension-primitive computation.
    pub future: C,
    /// The identity registered by the computation's token, carried
    /// from drive to drive; invalid until the first drive registers.
    pub token: TokenId,
    /// Whether the computation has completed or failed; terminal.
    pub completed: bool,
    /// Pins down the yield, argument and return types.
    pub marker: core::marker::PhantomData<(Y, A, R)>,
}

impl<C, Y, A, R> GeneratorWrapper<C, Y, A, R> {
    /// Wraps a computation into a fresh, never-driven generator.
    pub fn new(future: C) -> (r: Self)
        ensures
            r.future == future,
            !r.token.spec_valid(),
            !r.completed,
    {
        GeneratorWrapper {
            future,
            token: TokenId::invalid(),
            completed: false,
            marker: core::marker::PhantomData,
        }
    }
}

impl<C, Y, A, R> GeneratorWrapper<C, Y, A, R> where C: Coroutine<Y, A, R> {
    /// What one blocking resume does. The driver installs the argument
    /// in a fresh slot, drives the computation once with no outer
    /// notifier, and reads the slot back: a suspension must have left a
    /// yielded value behind, or the computation suspended for a reason
    /// the blocking drive cannot serve. Completion, and every protocol
    /// violation, is terminal.
    pub open spec fn resume_spec(self, arg: A) -> (Self, Result<GeneratorState<
        Y,
        R,
    >, GeneratorError>) {
        if self.completed {
            (self, Err(GeneratorError::AlreadyComplete))
        } else {
            let cx0 = GeneratorWaker {
                has_waker: false,
                id: self.token,
                arg: GeneratorArg::Arg(arg),
            };
            let body = self.future.step_state(cx0);
            let cx1 = self.future.step_waker(cx0);
            match self.future.step_result(cx0) {
                Err(e) => (
                    GeneratorWrapper {
                        future: body,
                        token: cx1.id,
                        completed: true,
                        marker: self.marker,
                    },
                    Err(e),
                ),
                Ok(Poll::Ready(v)) => (
                    GeneratorWrapper {
                        future: body,
                        token: cx1.id,
                        completed: true,
                        marker: self.marker,
                    },
                    Ok(GeneratorState::Complete(v)),
                ),
                Ok(Poll::Pending) => match cx1.arg {
                    GeneratorArg::Yield(y) => (
                        GeneratorWrapper {
                            future: body,
                            token: cx1.id,
                            completed: false,
                            marker: self.marker,
                        },
                        Ok(GeneratorState::Yielded(y)),
                    ),
                    _ => (
                        GeneratorWrapper {
                            future: body,
                            token: cx1.id,
                            completed: true,
                            marker: self.marker,
                        },
                        Err(GeneratorError::SuspendWithoutYield),
                    ),
                },
            }
        }
    }

    /// Resumes the generator and runs it until it yields a value or
    /// completes. The blocking drive has no outer notifier, so a
    /// suspension that left no yielded value behind is a protocol
    /// violation and is reported as such.
    pub fn resume(&mut self, arg: A) -> (r: Result<GeneratorState<Y, R>, GeneratorError>)
        requires
            old(self).future.inv(),
        ensures
            final(self).future.inv(),
            (*final(self), r) == old(self).resume_spec(arg),
    {
        if self.completed {
            return Err(GeneratorError::AlreadyComplete);
        }
        let mut cx = GeneratorWaker::new(false, GeneratorArg::Arg(arg), self.token);
        let res = self.future.poll(&mut cx);
        let GeneratorWaker { has_waker: _, id, arg: mut slot } = cx;
        self.token = id;
        match res {
            Err(e) => {
                self.completed = true;
                Err(e)
            }
            Ok(Poll::Ready(v)) => {
                self.completed = true;
                Ok(GeneratorState::Complete(v))
            }
            Ok(Poll::Pending) => match slot.take_yield() {
                Some(y) => Ok(GeneratorState::Yielded(y)),
                None => {
                    self.completed = true;
                    Err(GeneratorError::SuspendWithoutYield)
                }
            },
        }
    }

    /// What one non-blocking resume does. The slot is owned by the
    /// caller and persists between polls; the drive runs with a real
    /// outer notifier installed, so a suspension that left no yielded
    /// value behind reports a pending outer wait instead of a protocol
    /// violation.
    pub open spec fn poll_resume_spec(self, slot: GeneratorArg<Y, A>) -> (Self, GeneratorArg<
        Y,
        A,
    >, Result<Poll<GeneratorState<Y, R>>, GeneratorError>) {
        if self.completed {
            (self, slot, Err(GeneratorError::AlreadyComplete))
        } else {
            let cx0 = GeneratorWaker { has_waker: true, id: self.token, arg: slot };
            let body = self.future.step_state(cx0);
            let cx1 = self.future.step_waker(cx0);
            match self.future.step_result(cx0) {
                Err(e) => (
                    GeneratorWrapper {
                        future: body,
                        token: cx1.id,
                        completed: true,
                        marker: self.marker,
                    },
                    cx1.arg,
                    Err(e),
                ),
                Ok(Poll::Ready(v)) => (
                    GeneratorWrapper {
                        future: body,
                        token: cx1.id,
                        completed: true,
                        marker: self.marker,
                    },
                    cx1.arg,
                    Ok(Poll::Ready(GeneratorState::Complete(v))),
                ),
                Ok(Poll::Pending) => match cx1.arg {
                    GeneratorArg::Yield(y) => (
                        GeneratorWrapper {
                            future: body,
                            token: cx1.id,
                            completed: false,
                            marker: self.marker,
                        },
                        GeneratorArg::Empty,
                        Ok(Poll::Ready(GeneratorState::Yielded(y))),
                    ),
                    _ => (
                        GeneratorWrapper {
                            future: body,
                            token: cx1.id,
                            completed: false,
                            marker: self.marker,
                        },
                        cx1.arg,
                        Ok(Poll::Pending),
                    ),
                },
            }
        }
    }

    /// Resumes the generator and runs it until the next suspension
    /// point: a yield, a completion, or a genuine outer asynchronous
    /// wait, which is reported as pending rather than as an error.
    /// The slot outlives the call so that an argument supplied on an
    /// earlier poll stays pending across outer waits.
    pub fn poll_resume(&mut self, slot: &mut GeneratorArg<Y, A>) -> (r: Result<Poll<
        GeneratorState<Y, R>,
    >, GeneratorError>)
        requires
            old(self).future.inv(),
        ensures
            final(self).future.inv(),
            (*final(self), *final(slot), r) == old(self).poll_resume_spec(*old(slot)),
    {
        if self.completed {
            return Err(GeneratorError::AlreadyComplete);
        }
        let mut incoming = GeneratorArg::Empty;
        core::mem::swap(slot, &mut incoming);
        let mut cx = GeneratorWaker::new(true, incoming, self.token);
        let res = self.future.poll(&mut cx);
        let GeneratorWaker { has_waker: _, id, arg: mut outgoing } = cx;
        self.token = id;
        match res {
            Err(e) => {
                self.completed = true;
                *slot = outgoing;
                Err(e)
            }
            Ok(Poll::Ready(v)) => {
                self.completed = true;
                *slot = outgoing;
                Ok(Poll::Ready(GeneratorState::Complete(v)))
            }
            Ok(Poll::Pending) => match outgoing.take_yield() {
                Some(y) => {
                    *slot = outgoing;
                    Ok(Poll::Ready(GeneratorState::Yielded(y)))
                }
                None => {
                    *slot = outgoing;
                    Ok(Poll::Pending)
                }
            },
        }
    }
}

} // verus!

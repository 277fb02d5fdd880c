//! The asynchronous generator façade: a generator whose body may also
//! suspend for genuine outer asynchronous work, driven by polling.

use vstd::prelude::*;

use crate::asynk::AsyncGenerator as AsyncGeneratorTrait;
use crate::asynk::Resume;
use crate::detail::wrapper::GeneratorWrapper;
use crate::detail::GeneratorArg;
use crate::protocol::Coroutine;
use crate::protocol::GeneratorError;
use crate::protocol::GeneratorState;
use crate::protocol::Poll;

verus! {

/// An asynchronous generator. Besides the driver it owns the slot,
/// which must persist between polls: an argument supplied on one poll
/// stays pending across outer waits until a yield consumes it.
pub struct AsyncGenerator<C, Y, A, R> {
    /// The driver around the wrapped computation.
    pub inner: GeneratorWrapper<C, Y, A, R>,
    /// The side-channel slot, kept across polls.
    pub arg: GeneratorArg<Y, A>,
}

impl<C, Y, A, R> AsyncGenerator<C, Y, A, R> {
    /// Wraps a computation into a fresh asynchronous generator.
    pub fn new(future: C) -> (r: Self)
        ensures
            r.inner.future == future,
            !r.inner.token.spec_valid(),
            !r.inner.completed,
            r.arg is Empty,
    {
        AsyncGenerator { inner: GeneratorWrapper::new(future), arg: GeneratorArg::Empty }
    }

    /// Begins a resume that hands `arg` to this generator on its first
    /// poll.
    pub fn resume(&mut self, arg: A) -> (r: Resume<A>)
        ensures
            r.arg == Some(arg),
    {
        Resume { arg: Some(arg) }
    }
}

impl<C, Y, A, R> AsyncGeneratorTrait<Y, A, R> for AsyncGenerator<C, Y, A, R> where
    C: Coroutine<Y, A, R>,
 {
    open spec fn wf(&self) -> bool {
        self.inner.future.inv()
    }

    open spec fn poll_resume_model(&self, arg: Option<A>) -> (Self, Result<Poll<
        GeneratorState<Y, R>,
    >, GeneratorError>) {
        let slot = match arg {
            Some(a) => GeneratorArg::Arg(a),
            None => self.arg,
        };
        let (wrapper, slot2, report) = self.inner.poll_resume_spec(slot);
        (AsyncGenerator { inner: wrapper, arg: slot2 }, report)
    }

    fn poll_resume(&mut self, arg: Option<A>) -> (r: Result<Poll<
        GeneratorState<Y, R>,
    >, GeneratorError>) {
        if let Some(a) = arg {
            self.arg = GeneratorArg::Arg(a);
        }
        self.inner.poll_resume(&mut self.arg)
    }
}

} // verus!

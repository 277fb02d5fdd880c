//! The synchronous generator façade: a generator whose only
//! suspensions are yields, driven by the blocking resume.

use vstd::prelude::*;

use crate::detail::wrapper::GeneratorWrapper;
use crate::protocol::Coroutine;
use crate::protocol::Generator;
use crate::protocol::GeneratorError;
use crate::protocol::GeneratorState;

verus! {

/// A synchronous generator: wraps a computation whose only suspensions
/// are generator yields, and drives it with the blocking resume. Any
/// other suspension is reported as a protocol violation.
pub struct SyncGenerator<C, Y, A, R>(pub GeneratorWrapper<C, Y, A, R>);

impl<C, Y, A, R> SyncGenerator<C, Y, A, R> {
    /// Wraps a computation into a fresh synchronous generator.
    pub fn new(future: C) -> (r: Self)
        ensures
            r.0.future == future,
            !r.0.token.spec_valid(),
            !r.0.completed,
    {
        SyncGenerator(GeneratorWrapper::new(future))
    }
}

impl<C, Y, A, R> Generator<Y, A, R> for SyncGenerator<C, Y, A, R> where C: Coroutine<Y, A, R> {
    open spec fn wf(&self) -> bool {
        self.0.future.inv()
    }

    open spec fn resume_model(&self, arg: A) -> (Self, Result<GeneratorState<
        Y,
        R,
    >, GeneratorError>) {
        let (wrapper, report) = self.0.resume_spec(arg);
        (SyncGenerator(wrapper), report)
    }

    fn resume(&mut self, arg: A) -> (r: Result<GeneratorState<Y, R>, GeneratorError>) {
        self.0.resume(arg)
    }
}

} // verus!

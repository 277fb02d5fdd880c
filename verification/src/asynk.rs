//! The trait of asynchronous generators: generators whose bodies may
//! also suspend for genuine outer asynchronous work, so driving them is
//! a non-blocking poll.

use vstd::prelude::*;

use crate::protocol::GeneratorError;
use crate::protocol::GeneratorState;
use crate::protocol::Poll;

verus! {

/// The trait implemented by asynchronous generators. Unlike
/// [`crate::Generator`], a drive may report a pending outer wait
/// instead of a yield or a completion.
///
/// The argument is optional: between two yield points at least one
/// poll must supply it, and only the latest argument supplied since
/// the last yield point is kept.
pub trait AsyncGenerator<Y, A, R>: Sized {
    /// The invariant this generator maintains across polls.
    spec fn wf(&self) -> bool;

    /// The state and report one poll with this optional argument
    /// produces.
    spec fn poll_resume_model(&self, arg: Option<A>) -> (Self, Result<Poll<
        GeneratorState<Y, R>,
    >, GeneratorError>);

    /// Resumes execution of this generator until its next suspension
    /// point: a yield, a completion, or a genuine outer wait, which is
    /// reported as pending.
    fn poll_resume(&mut self, arg: Option<A>) -> (r: Result<Poll<
        GeneratorState<Y, R>,
    >, GeneratorError>)
        requires
            old(self).wf(),
        ensures
            final(self).wf(),
            (*final(self), r) == old(self).poll_resume_model(arg),
    ;

    /// Begins a resume that hands `arg` to the generator on its first
    /// poll: the easier-to-use variant of [`Self::poll_resume`] that
    /// settles the proper time to pass the argument in.
    fn resume(&mut self, arg: A) -> (r: Resume<A>)
        ensures
            r.arg == Some(arg),
    {
        Resume { arg: Some(arg) }
    }
}

/// An in-flight resume of an asynchronous generator: it remembers the
/// argument until its first poll hands it to the generator, and polls
/// after that supply none. Dropping it early loses nothing but the
/// pending argument.
pub struct Resume<A> {
    /// The argument still to be handed to the generator.
    pub arg: Option<A>,
}

impl<A> Resume<A> {
    /// Polls the underlying generator, handing it the remembered
    /// argument on the first call.
    pub fn poll<G, Y, R>(&mut self, gen: &mut G) -> (r: Result<Poll<
        GeneratorState<Y, R>,
    >, GeneratorError>) where G: AsyncGenerator<Y, A, R>
        requires
            old(gen).wf(),
        ensures
            final(gen).wf(),
            ({
                let (g2, res) = old(gen).poll_resume_model(old(self).arg);
                *final(gen) == g2 && r == res
            }),
            final(self).arg is None,
    {
        let arg = self.arg.take();
        gen.poll_resume(arg)
    }
}

} // verus!

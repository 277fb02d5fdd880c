//! Consuming an asynchronous generator as an asynchronous sequence.

use vstd::prelude::*;

use crate::asynk::AsyncGenerator;
use crate::protocol::GeneratorError;
use crate::protocol::GeneratorState;
use crate::protocol::Poll;

verus! {

/// Pulling an asynchronous sequence out of any asynchronous generator
/// whose argument is the unit value.
pub trait AsyncGeneratorExt<Y, R>: AsyncGenerator<Y, (), R> {
    /// Consumes this generator as an asynchronous sequence.
    fn stream(self) -> (r: GeneratorStream<Self>)
        ensures
            r.0 == self,
    {
        GeneratorStream(self)
    }
}

impl<Y, R, G: AsyncGenerator<Y, (), R>> AsyncGeneratorExt<Y, R> for G {

}

/// Wrapper around an asynchronous generator that hands its yields out
/// one by one: each poll resumes the generator with the unit argument
/// and maps a yield to an element, the completion to the end of the
/// sequence, and a genuine outer wait to pending.
pub struct GeneratorStream<G>(pub G);

impl<G> GeneratorStream<G> {
    /// Wraps a generator.
    pub fn new(gen: G) -> (r: Self)
        ensures
            r.0 == gen,
    {
        GeneratorStream(gen)
    }

    /// Returns the wrapped generator.
    pub fn into_inner(self) -> (r: G)
        ensures
            r == self.0,
    {
        self.0
    }

    /// Polls for the next element: a yielded value, `None` once the
    /// generator has completed, or pending while the body waits for
    /// outer work.
    pub fn poll_next<Y>(&mut self) -> (r: Result<Poll<Option<Y>>, GeneratorError>) where
        G: AsyncGenerator<Y, (), ()>,

        requires
            old(self).0.wf(),
        ensures
            final(self).0.wf(),
            ({
                let (g2, report) = old(self).0.poll_resume_model(Some(()));
                &&& final(self).0 == g2
                &&& r == match report {
                    Ok(Poll::Pending) => Ok::<Poll<Option<Y>>, GeneratorError>(Poll::Pending),
                    Ok(Poll::Ready(GeneratorState::Yielded(y))) => Ok::<
                        Poll<Option<Y>>,
                        GeneratorError,
                    >(Poll::Ready(Some(y))),
                    Ok(Poll::Ready(GeneratorState::Complete(u))) => Ok::<
                        Poll<Option<Y>>,
                        GeneratorError,
                    >(Poll::Ready(None)),
                    Err(e) => Err::<Poll<Option<Y>>, GeneratorError>(e),
                }
            }),
    {
        match self.0.poll_resume(Some(())) {
            Ok(Poll::Pending) => Ok(Poll::Pending),
            Ok(Poll::Ready(GeneratorState::Yielded(y))) => Ok(Poll::Ready(Some(y))),
            Ok(Poll::Ready(GeneratorState::Complete(_))) => Ok(Poll::Ready(None)),
            Err(e) => Err(e),
        }
    }
}

/// Wrapper around a generator that yields values and completes with a
/// success-or-failure result. Yielded values surface as successes; a
/// failure completion surfaces as one final failure element before the
/// sequence ends cleanly; further polls report the end.
pub struct GeneratorTryStream<G> {
    /// The wrapped generator.
    pub gen: G,
    /// Whether the completion has already been delivered.
    pub done: bool,
}

impl<G> GeneratorTryStream<G> {
    /// Creates a stream from an existing generator.
    pub fn new(gen: G) -> (r: Self)
        ensures
            r.gen == gen,
            !r.done,
    {
        GeneratorTryStream { gen, done: false }
    }

    /// Converts this stream back into the generator.
    pub fn into_inner(self) -> (r: G)
        ensures
            r == self.gen,
    {
        self.gen
    }

    /// Polls for the next element: a yielded value as a success, the
    /// failure completion as one final failure element, pending while
    /// the body waits for outer work, and the end of the sequence
    /// after the completion has been delivered.
    pub fn poll_next<Y, E>(&mut self) -> (r: Result<Poll<
        Option<Result<Y, E>>,
    >, GeneratorError>) where G: AsyncGenerator<Y, (), Result<(), E>>
        requires
            old(self).gen.wf(),
        ensures
            final(self).gen.wf(),
            old(self).done ==> *final(self) == *old(self) && r == Ok::<
                Poll<Option<Result<Y, E>>>,
                GeneratorError,
            >(Poll::Ready(None)),
            !old(self).done ==> ({
                let (g2, report) = old(self).gen.poll_resume_model(Some(()));
                &&& final(self).gen == g2
                &&& match report {
                    Ok(Poll::Pending) => !final(self).done && r == Ok::<
                        Poll<Option<Result<Y, E>>>,
                        GeneratorError,
                    >(Poll::Pending),
                    Ok(Poll::Ready(GeneratorState::Yielded(y))) => !final(self).done && r == Ok::<
                        Poll<Option<Result<Y, E>>>,
                        GeneratorError,
                    >(Poll::Ready(Some(Ok(y)))),
                    Ok(Poll::Ready(GeneratorState::Complete(result))) => final(self).done && r
                        == Ok::<Poll<Option<Result<Y, E>>>, GeneratorError>(
                        Poll::Ready(
                            match result {
                                Ok(u) => None,
                                Err(e) => Some(Err(e)),
                            },
                        ),
                    ),
                    Err(e) => !final(self).done && r == Err::<
                        Poll<Option<Result<Y, E>>>,
                        GeneratorError,
                    >(e),
                }
            }),
    {
        if self.done {
            return Ok(Poll::Ready(None));
        }
        match self.gen.poll_resume(Some(())) {
            Ok(Poll::Pending) => Ok(Poll::Pending),
            Ok(Poll::Ready(GeneratorState::Yielded(item))) => Ok(Poll::Ready(Some(Ok(item)))),
            Ok(Poll::Ready(GeneratorState::Complete(result))) => {
                self.done = true;
                match result {
                    Ok(()) => Ok(Poll::Ready(None)),
                    Err(e) => Ok(Poll::Ready(Some(Err(e)))),
                }
            }
            Err(e) => Err(e),
        }
    }
}

} // verus!

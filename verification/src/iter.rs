//! Consuming a synchronous generator as a forward sequence.

use vstd::prelude::*;

use crate::protocol::Generator;
use crate::protocol::GeneratorError;
use crate::protocol::GeneratorState;

verus! {

/// Pulling a sequence out of any generator whose argument is the unit
/// value.
pub trait GeneratorExt<Y, R>: Generator<Y, (), R> {
    /// Consumes this generator as a forward sequence.
    fn iter(self) -> (r: GeneratorIter<Self>)
        ensures
            r.0 == self,
    {
        GeneratorIter(self)
    }
}

impl<Y, R, G: Generator<Y, (), R>> GeneratorExt<Y, R> for G {

}

/// Wrapper around a generator that hands its yields out one by one:
/// each pull resumes the generator with the unit argument and maps a
/// yield to an element and the completion to the end of the sequence.
/// The sequence is not restartable: pulling again after the end
/// reports the completed-generator violation.
pub struct GeneratorIter<G>(pub G);

impl<G> GeneratorIter<G> {
    /// Wraps a generator.
    pub fn new(gen: G) -> (r: Self)
        ensures
            r.0 == gen,
    {
        GeneratorIter(gen)
    }

    /// Returns the wrapped generator.
    pub fn into_inner(self) -> (r: G)
        ensures
            r == self.0,
    {
        self.0
    }

    /// Pulls the next element: a yielded value, or `None` once the
    /// generator has completed.
    pub fn next<Y>(&mut self) -> (r: Result<Option<Y>, GeneratorError>) where
        G: Generator<Y, (), ()>,

        requires
            old(self).0.wf(),
        ensures
            final(self).0.wf(),
            ({
                let (g2, report) = old(self).0.resume_model(());
                &&& final(self).0 == g2
                &&& r == match report {
                    Ok(GeneratorState::Yielded(y)) => Ok::<Option<Y>, GeneratorError>(Some(y)),
                    Ok(GeneratorState::Complete(u)) => Ok::<Option<Y>, GeneratorError>(None),
                    Err(e) => Err::<Option<Y>, GeneratorError>(e),
                }
            }),
    {
        match self.0.resume(()) {
            Ok(GeneratorState::Yielded(y)) => Ok(Some(y)),
            Ok(GeneratorState::Complete(_)) => Ok(None),
            Err(e) => Err(e),
        }
    }
}

} // verus!

//! The public generator token: the handle handed to a generator body,
//! wrapping a registered raw token.

use vstd::prelude::*;

use crate::detail::token::RawGeneratorToken;
use crate::detail::token::YieldFuture;
use crate::detail::waker::GeneratorWaker;
use crate::protocol::GeneratorError;

verus! {

/// A generator token ties the generator body to the execution driving
/// it: it is what allows the body to yield values out and to read its
/// initial argument.
pub struct GeneratorToken<Y, A> {
    /// The underlying raw token.
    pub raw: RawGeneratorToken<Y, A>,
}

impl<Y, A> Clone for GeneratorToken<Y, A> {
    fn clone(&self) -> (r: Self)
        ensures
            r == *self,
    {
        GeneratorToken { raw: self.raw }
    }
}

impl<Y, A> Copy for GeneratorToken<Y, A> {}

impl<Y, A> GeneratorToken<Y, A> {
    /// Wraps a raw token.
    pub fn new(raw: RawGeneratorToken<Y, A>) -> (r: Self)
        ensures
            r.raw == raw,
    {
        GeneratorToken { raw }
    }

    /// Creates a `GeneratorToken` by registering the raw token with
    /// the generator execution the scheduling context belongs to.
    pub fn register(raw: RawGeneratorToken<Y, A>, cx: &mut GeneratorWaker<Y, A>) -> (r: Result<
        Self,
        GeneratorError,
    >)
        ensures
            ({
                let (cx2, res) = raw.register_spec(*old(cx));
                &&& *final(cx) == cx2
                &&& match res {
                    Ok(u) => r == Ok::<Self, GeneratorError>(GeneratorToken { raw }),
                    Err(e) => r == Err::<Self, GeneratorError>(e),
                }
            }),
    {
        match raw.register(cx) {
            Ok(()) => Ok(GeneratorToken { raw }),
            Err(e) => Err(e),
        }
    }

    /// Starts a yield of `value` from this generator: the returned
    /// in-flight yield hands the value to the caller on its first
    /// drive and returns the resume argument on its second.
    pub fn do_yield(&self, value: Y) -> (r: YieldFuture<Y, A>)
        ensures
            r.value == Some(value),
            r.token == self.raw.id,
    {
        self.raw.yield_(value)
    }

    /// Reads the argument the generator was started with, without
    /// yielding first. Valid only while that argument is still
    /// pending: before the first yield, and at most once.
    pub fn argument(&self, cx: &mut GeneratorWaker<Y, A>) -> (r: Result<A, GeneratorError>)
        ensures
            ({
                let (cx2, res) = self.raw.argument_spec(*old(cx));
                *final(cx) == cx2 && r == res
            }),
    {
        self.raw.argument(cx)
    }
}

} // verus!

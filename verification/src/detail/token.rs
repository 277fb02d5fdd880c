//! Resumption tokens: identity-bearing handles used inside a generator
//! body to perform a yield and to read the initial argument, validated
//! against the scheduling context of the generator being driven.

use vstd::prelude::*;

use crate::detail::waker::GeneratorWaker;
use crate::detail::GeneratorArg;
use crate::protocol::GeneratorError;
use crate::protocol::Poll;

verus! {

/// The identity of a resumption token. Identities are issued by the
/// caller at token construction; zero is reserved to mean "no token
/// registered yet". A token's identity must be unique among the
/// generators that are alive at the same time, or cross-generator
/// misuse of a token cannot be told apart from correct use.
#[derive(Clone, Copy, Debug, PartialEq, Eq, Structural)]
pub struct TokenId(pub u64);

impl TokenId {
    /// True of every identity an actual token may carry.
    pub open spec fn spec_valid(self) -> bool {
        self.0 != 0
    }

    /// The reserved identity of a scheduling context with no registered
    /// token.
    pub fn invalid() -> (r: Self)
        ensures
            !r.spec_valid(),
    {
        TokenId(0)
    }

    /// Wraps a caller-issued identity value.
    pub fn new(value: u64) -> (r: Self)
        ensures
            r.0 == value,
    {
        TokenId(value)
    }

    /// Whether this identity belongs to an actual token.
    pub fn is_valid(self) -> (r: bool)
        ensures
            r == self.spec_valid(),
    {
        self.0 != 0
    }
}

/// Marker type used to ensure that a generator wrapper and the
/// generator token driving it share the same yield and argument types.
pub struct TokenMarker<Y, A>(pub core::marker::PhantomData<(Y, A)>);

impl<Y, A> TokenMarker<Y, A> {
    /// Creates the marker.
    pub fn new() -> Self {
        TokenMarker(core::marker::PhantomData)
    }
}

/// A resumption token: the handle a generator body uses to yield values
/// and to read its initial argument. Every use is validated against the
/// identity registered in the scheduling context, so that a token from
/// one generator fails loudly when used while another generator is
/// being driven.
pub struct RawGeneratorToken<Y, A> {
    /// This token's identity.
    pub id: TokenId,
    /// Pins down the yield and argument types the token traffics in.
    pub marker: core::marker::PhantomData<(Y, A)>,
}

impl<Y, A> Clone for RawGeneratorToken<Y, A> {
    fn clone(&self) -> (r: Self)
        ensures
            r == *self,
    {
        RawGeneratorToken { id: self.id, marker: core::marker::PhantomData }
    }
}

impl<Y, A> Copy for RawGeneratorToken<Y, A> {}

impl<Y, A> RawGeneratorToken<Y, A> {
    /// A token is well formed when it carries a valid identity.
    pub open spec fn wf(self) -> bool {
        self.id.spec_valid()
    }

    /// Creates a token with the given identity.
    pub fn new(id: TokenId) -> (r: Self)
        requires
            id.spec_valid(),
        ensures
            r.id == id,
            r.wf(),
    {
        RawGeneratorToken { id, marker: core::marker::PhantomData }
    }

    /// This token's identity.
    pub fn token_id(&self) -> (r: TokenId)
        ensures
            r == self.id,
    {
        self.id
    }

    /// Returns a marker that shares this token's yield and argument
    /// types.
    pub fn marker(&self) -> TokenMarker<Y, A> {
        TokenMarker::new()
    }

    /// What registration does to a scheduling context: it fails if and
    /// only if the context already has a registered token, and
    /// otherwise records this token's identity.
    pub open spec fn register_spec(self, cx: GeneratorWaker<Y, A>) -> (GeneratorWaker<
        Y,
        A,
    >, Result<(), GeneratorError>) {
        if cx.id.spec_valid() {
            (cx, Err(GeneratorError::AlreadyRegistered))
        } else {
            (GeneratorWaker { has_waker: cx.has_waker, id: self.id, arg: cx.arg }, Ok(()))
        }
    }

    /// Registers this token with the generator execution the scheduling
    /// context belongs to. Exactly one token may be registered per
    /// generator execution; a second registration is a programming
    /// error and is reported as such.
    pub fn register(&self, cx: &mut GeneratorWaker<Y, A>) -> (r: Result<(), GeneratorError>)
        ensures
            (*final(cx), r) == self.register_spec(*old(cx)),
    {
        cx.set_id(self.id)
    }

    /// Starts a yield of `value`: the returned suspension-primitive
    /// unit writes the value into the slot on its first drive and reads
    /// the resume argument back on its second.
    pub fn yield_(&self, value: Y) -> (r: YieldFuture<Y, A>)
        ensures
            r == (YieldFuture::<Y, A> {
                value: Some(value),
                token: self.id,
                marker: core::marker::PhantomData,
            }),
    {
        YieldFuture::new(value, self)
    }

    /// What an initial-argument read does to a scheduling context: it
    /// fails on an identity mismatch, and otherwise takes the pending
    /// resume argument out of the slot, failing if none is pending
    /// (the accessor was called twice, or a yield already consumed the
    /// argument).
    pub open spec fn argument_spec(self, cx: GeneratorWaker<Y, A>) -> (GeneratorWaker<
        Y,
        A,
    >, Result<A, GeneratorError>) {
        if cx.id != self.id {
            (cx, Err(GeneratorError::WrongGenerator))
        } else {
            match cx.arg {
                GeneratorArg::Arg(a) => (
                    GeneratorWaker { has_waker: cx.has_waker, id: cx.id, arg: GeneratorArg::Empty },
                    Ok(a),
                ),
                _ => (cx, Err(GeneratorError::NoArgument)),
            }
        }
    }

    /// Reads the initial resume argument without yielding first. Valid
    /// only while that argument is still pending: before the first
    /// yield, and at most once.
    pub fn argument(&self, cx: &mut GeneratorWaker<Y, A>) -> (r: Result<A, GeneratorError>)
        ensures
            ({
                let (cx2, res) = self.argument_spec(*old(cx));
                *final(cx) == cx2 && r == res
            }),
    {
        if !cx.id_matches(self.id) {
            Err(GeneratorError::WrongGenerator)
        } else {
            match cx.arg.take_arg() {
                Some(a) => Ok(a),
                None => Err(GeneratorError::NoArgument),
            }
        }
    }
}

/// One yield in flight: writes its value into the slot and suspends on
/// the first drive, and takes the resume argument out of the slot on
/// the second. The token identity it carries is checked against the
/// scheduling context on every drive.
pub struct YieldFuture<Y, A> {
    /// The value still to be yielded; consumed by the first drive.
    pub value: Option<Y>,
    /// The identity of the token this yield was started through.
    pub token: TokenId,
    /// Pins down the argument type read back from the slot.
    pub marker: core::marker::PhantomData<A>,
}

impl<Y: Copy, A: Copy> Clone for YieldFuture<Y, A> {
    fn clone(&self) -> (r: Self)
        ensures
            r == *self,
    {
        YieldFuture { value: self.value, token: self.token, marker: core::marker::PhantomData }
    }
}

impl<Y: Copy, A: Copy> Copy for YieldFuture<Y, A> {}

impl<Y, A> YieldFuture<Y, A> {
    /// Starts a yield of `value` through `token`.
    pub fn new(value: Y, token: &RawGeneratorToken<Y, A>) -> (r: Self)
        ensures
            r == (YieldFuture::<Y, A> {
                value: Some(value),
                token: token.id,
                marker: core::marker::PhantomData,
            }),
    {
        YieldFuture { value: Some(value), token: token.id, marker: core::marker::PhantomData }
    }

    /// What one drive of an in-flight yield does: it fails on an
    /// identity mismatch; otherwise the first drive moves the value
    /// into the slot and suspends, and the second takes the pending
    /// argument out of the slot, failing if none was supplied.
    pub open spec fn poll_spec(self, cx: GeneratorWaker<Y, A>) -> (Self, GeneratorWaker<
        Y,
        A,
    >, Result<Poll<A>, GeneratorError>) {
        if cx.id != self.token {
            (self, cx, Err(GeneratorError::WrongGenerator))
        } else {
            match self.value {
                Some(v) => (
                    YieldFuture { value: None, token: self.token, marker: self.marker },
                    GeneratorWaker {
                        has_waker: cx.has_waker,
                        id: cx.id,
                        arg: GeneratorArg::Yield(v),
                    },
                    Ok(Poll::Pending),
                ),
                None => match cx.arg {
                    GeneratorArg::Arg(a) => (
                        self,
                        GeneratorWaker {
                            has_waker: cx.has_waker,
                            id: cx.id,
                            arg: GeneratorArg::Empty,
                        },
                        Ok(Poll::Ready(a)),
                    ),
                    _ => (self, cx, Err(GeneratorError::NoArgument)),
                },
            }
        }
    }

    /// Drives this yield one step against the scheduling context of the
    /// generator currently being driven.
    pub fn poll(&mut self, cx: &mut GeneratorWaker<Y, A>) -> (r: Result<Poll<A>, GeneratorError>)
        ensures
            ({
                let (f2, cx2, res) = old(self).poll_spec(*old(cx));
                *final(self) == f2 && *final(cx) == cx2 && r == res
            }),
    {
        if !cx.id_matches(self.token) {
            return Err(GeneratorError::WrongGenerator);
        }
        match self.value.take() {
            Some(v) => {
                cx.arg = GeneratorArg::Yield(v);
                Ok(Poll::Pending)
            }
            None => match cx.arg.take_arg() {
                Some(a) => Ok(Poll::Ready(a)),
                None => Err(GeneratorError::NoArgument),
            },
        }
    }
}

} // verus!

//! Generators as a library: resumable computations that can suspend
//! mid-execution to hand a value to their caller and later resume from the
//! same point, optionally receiving a value back.
//!
//! The engine drives a cooperative suspension primitive (the [`Coroutine`]
//! trait): a unit of work that is driven forward stepwise and either
//! completes or suspends. A yielded value and a resume argument travel
//! through a side-channel slot ([`GeneratorArg`]) carried by a per-drive
//! scheduling context ([`GeneratorWaker`]), and an identity-bearing
//! resumption token validates that every yield belongs to the generator
//! that is actually being driven.
//!
//! Every violation of the protocol — registering two tokens, using a
//! token inside the wrong generator, resuming without an argument,
//! suspending without a yield under the blocking drive, or driving a
//! completed generator — is reported as a [`GeneratorError`] value, so
//! no verified function of this crate panics.

use vstd::prelude::*;

mod asynk;
mod bodies;
mod detail;
pub mod export;
mod iter;
pub mod laws;
mod protocol;
mod stream;
mod token;

pub use crate::asynk::AsyncGenerator;
pub use crate::asynk::Resume;
pub use crate::bodies::collect_list;
pub use crate::bodies::fresh_list_generator;
pub use crate::bodies::running_list_generator;
pub use crate::bodies::BodyPhase;
pub use crate::bodies::DelayBody;
pub use crate::bodies::DelayPhase;
pub use crate::bodies::EchoBody;
pub use crate::bodies::ListBody;
pub use crate::detail::token::RawGeneratorToken;
pub use crate::detail::token::TokenId;
pub use crate::detail::token::TokenMarker;
pub use crate::detail::token::YieldFuture;
pub use crate::detail::waker::GeneratorWaker;
pub use crate::detail::wrapper::GeneratorWrapper;
pub use crate::detail::GeneratorArg;
pub use crate::export::sync::SyncGenerator;
pub use crate::iter::GeneratorExt;
pub use crate::iter::GeneratorIter;
pub use crate::protocol::Coroutine;
pub use crate::protocol::Generator;
pub use crate::protocol::GeneratorError;
pub use crate::protocol::GeneratorState;
pub use crate::protocol::Poll;
pub use crate::stream::AsyncGeneratorExt;
pub use crate::stream::GeneratorStream;
pub use crate::stream::GeneratorTryStream;
pub use crate::token::GeneratorToken;

verus! {

/// Wraps a suspension-primitive computation into a synchronous
/// generator. The marker pins the computation's yield and argument
/// types to the token used inside its body.
pub fn gen_sync<C, Y, A, R>(marker: TokenMarker<Y, A>, future: C) -> (r: export::sync::SyncGenerator<
    C,
    Y,
    A,
    R,
>) where C: Coroutine<Y, A, R>
    ensures
        r.0.future == future,
        !r.0.token.spec_valid(),
        !r.0.completed,
{
    export::sync::SyncGenerator::new(future)
}

/// Wraps a suspension-primitive computation into an asynchronous
/// generator. The marker pins the computation's yield and argument
/// types to the token used inside its body.
pub fn gen_async<C, Y, A, R>(marker: TokenMarker<Y, A>, future: C) -> (r: export::asynk::AsyncGenerator<
    C,
    Y,
    A,
    R,
>) where C: Coroutine<Y, A, R>
    ensures
        r.inner.future == future,
        !r.inner.token.spec_valid(),
        !r.inner.completed,
        r.arg is Empty,
{
    export::asynk::AsyncGenerator::new(future)
}

/// Creates a raw resumption token carrying the caller-issued identity
/// `id`. Identities must be non-zero and unique among the generators
/// alive at the same time.
pub fn token<Y, A>(id: u64) -> (r: RawGeneratorToken<Y, A>)
    requires
        id != 0,
    ensures
        r.id.0 == id,
        r.wf(),
{
    RawGeneratorToken::new(TokenId::new(id))
}

/// Registers `token` with the generator execution the scheduling
/// context belongs to.
pub fn register<Y, A>(token: &RawGeneratorToken<Y, A>, cx: &mut GeneratorWaker<Y, A>) -> (r: Result<
    (),
    GeneratorError,
>)
    ensures
        (*final(cx), r) == token.register_spec(*old(cx)),
{
    token.register(cx)
}

/// Registers `token` and wraps it into the public body-facing token.
pub fn register_owned<Y, A>(token: RawGeneratorToken<Y, A>, cx: &mut GeneratorWaker<Y, A>) -> (r: Result<
    GeneratorToken<Y, A>,
    GeneratorError,
>)
    ensures
        ({
            let (cx2, res) = token.register_spec(*old(cx));
            &&& *final(cx) == cx2
            &&& match res {
                Ok(u) => r == Ok::<GeneratorToken<Y, A>, GeneratorError>(
                    GeneratorToken { raw: token },
                ),
                Err(e) => r == Err::<GeneratorToken<Y, A>, GeneratorError>(e),
            }
        }),
{
    GeneratorToken::register(token, cx)
}

} // verus!

//! The laws of the engine, stated over the spec models of the tokens,
//! the driver and the ready-made bodies, and proved once and for all.

use vstd::prelude::*;

use crate::asynk::AsyncGenerator as AsyncGeneratorTrait;
use crate::bodies::fresh_list_generator;
use crate::bodies::running_list_generator;
use crate::bodies::BodyPhase;
use crate::bodies::DelayBody;
use crate::bodies::DelayPhase;
use crate::bodies::EchoBody;
use crate::detail::token::RawGeneratorToken;
use crate::detail::token::TokenId;
use crate::detail::token::YieldFuture;
use crate::detail::waker::GeneratorWaker;
use crate::detail::wrapper::GeneratorWrapper;
use crate::detail::GeneratorArg;
use crate::export::asynk::AsyncGenerator;
use crate::export::sync::SyncGenerator;
use crate::protocol::Coroutine;
use crate::protocol::Generator;
use crate::protocol::GeneratorError;
use crate::protocol::GeneratorState;
use crate::protocol::Poll;

verus! {

/// The generator `g` after `k` resumes with the unit argument.
pub open spec fn after_resumes<Y, R, G: Generator<Y, (), R>>(g: G, k: nat) -> G
    decreases k,
{
    if k == 0 {
        g
    } else {
        after_resumes::<Y, R, G>(g, (k - 1) as nat).resume_model(()).0
    }
}

/// The report of the `k`-th resume (counting from one) of `g` with the
/// unit argument.
pub open spec fn nth_resume_report<Y, R, G: Generator<Y, (), R>>(g: G, k: nat) -> Result<
    GeneratorState<Y, R>,
    GeneratorError,
> {
    after_resumes::<Y, R, G>(g, (k - 1) as nat).resume_model(()).1
}

/// After `j` resumes (one through the number of items), a fresh list
/// generator stands suspended at its `j`-th yield, and that resume
/// reported the `j`-th item.
proof fn lemma_list_generator_state<Y: Copy, R>(
    token: RawGeneratorToken<Y, ()>,
    items: Vec<Y>,
    ret: R,
    j: nat,
)
    requires
        token.wf(),
        1 <= j <= items@.len(),
    ensures
        after_resumes(fresh_list_generator(token, items, ret), j) == running_list_generator(
            token,
            items,
            ret,
            j,
        ),
        nth_resume_report(fresh_list_generator(token, items, ret), j) == Ok::<
            GeneratorState<Y, R>,
            GeneratorError,
        >(GeneratorState::Yielded(items@[j - 1])),
    decreases j,
{
    if j == 1 {
        assert(after_resumes(fresh_list_generator(token, items, ret), 0) == fresh_list_generator(
            token,
            items,
            ret,
        ));
    } else {
        lemma_list_generator_state(token, items, ret, (j - 1) as nat);
    }
}

/// Law: iterating a fresh list generator to exhaustion yields exactly
/// the listed items, in order, and the resume after the last item
/// completes with the body's return value.
pub proof fn lemma_list_generator_yields_in_order<Y: Copy, R>(
    token: RawGeneratorToken<Y, ()>,
    items: Vec<Y>,
    ret: R,
)
    requires
        token.wf(),
    ensures
        forall|k: int|
            0 <= k < items@.len() ==> nth_resume_report(
                fresh_list_generator(token, items, ret),
                (k + 1) as nat,
            ) == Ok::<GeneratorState<Y, R>, GeneratorError>(GeneratorState::Yielded(items@[k])),
        nth_resume_report(fresh_list_generator(token, items, ret), (items@.len() + 1) as nat)
            == Ok::<GeneratorState<Y, R>, GeneratorError>(GeneratorState::Complete(ret)),
{
    assert forall|k: int| 0 <= k < items@.len() implies nth_resume_report(
        fresh_list_generator(token, items, ret),
        (k + 1) as nat,
    ) == Ok::<GeneratorState<Y, R>, GeneratorError>(GeneratorState::Yielded(items@[k])) by {
        lemma_list_generator_state(token, items, ret, (k + 1) as nat);
    }
    if items@.len() == 0 {
        assert(after_resumes(fresh_list_generator(token, items, ret), 0) == fresh_list_generator(
            token,
            items,
            ret,
        ));
    } else {
        lemma_list_generator_state(token, items, ret, items@.len());
    }
}

/// Law: the argument handed to a resume is exactly the value the
/// suspended yield expression returns — observable here because the
/// echoing body yields that value right back.
pub proof fn lemma_echo_round_trip<T: Copy>(g: SyncGenerator<EchoBody<T>, T, T, usize>, a: T)
    requires
        !g.0.completed,
        g.0.future.token.wf(),
        g.0.token == g.0.future.token.id,
        g.0.future.phase matches BodyPhase::Suspended(yf) && yf.value is None && yf.token
            == g.0.future.token.id,
        g.0.future.remaining >= 2,
        g.0.future.count < usize::MAX,
    ensures
        g.resume_model(a).1 == Ok::<GeneratorState<T, usize>, GeneratorError>(
            GeneratorState::Yielded(a),
        ),
{
}


/// The generator `g` after resuming once with each argument in
/// `args`, in order.
pub open spec fn after_echo_resumes<T: Copy>(
    g: SyncGenerator<EchoBody<T>, T, T, usize>,
    args: Seq<T>,
) -> SyncGenerator<EchoBody<T>, T, T, usize>
    decreases args.len(),
{
    if args.len() == 0 {
        g
    } else {
        after_echo_resumes(g, args.drop_last()).resume_model(args.last()).0
    }
}

/// A fresh synchronous generator over a fresh echoing body.
pub open spec fn fresh_echo_generator<T: Copy>(
    token: RawGeneratorToken<T, T>,
    rounds: usize,
) -> SyncGenerator<EchoBody<T>, T, T, usize> {
    SyncGenerator(
        GeneratorWrapper {
            future: EchoBody {
                token,
                remaining: rounds,
                count: 0usize,
                phase: BodyPhase::Created,
            },
            token: TokenId(0),
            completed: false,
            marker: core::marker::PhantomData,
        },
    )
}

/// The state an echoing generator stands in after `j` resumes: the
/// `j`-th round-trip's yield is suspended, `j - 1` round-trips are
/// counted and `j - 1` rounds are used up.
pub open spec fn running_echo_generator<T: Copy>(
    token: RawGeneratorToken<T, T>,
    rounds: usize,
    j: nat,
) -> SyncGenerator<EchoBody<T>, T, T, usize> {
    SyncGenerator(
        GeneratorWrapper {
            future: EchoBody {
                token,
                remaining: (rounds - (j - 1)) as usize,
                count: (j - 1) as usize,
                phase: BodyPhase::Suspended(
                    YieldFuture { value: None, token: token.id, marker: core::marker::PhantomData },
                ),
            },
            token: token.id,
            completed: false,
            marker: core::marker::PhantomData,
        },
    )
}

/// After `j` resumes (one through the number of rounds), a fresh
/// echoing generator stands suspended at its `j`-th yield, and that
/// resume reported the `j`-th argument, echoed back.
proof fn lemma_echo_generator_state<T: Copy>(
    token: RawGeneratorToken<T, T>,
    rounds: usize,
    args: Seq<T>,
    j: nat,
)
    requires
        token.wf(),
        1 <= j <= rounds,
        j <= args.len(),
    ensures
        after_echo_resumes(fresh_echo_generator(token, rounds), args.take(j as int))
            == running_echo_generator(token, rounds, j),
        after_echo_resumes(fresh_echo_generator(token, rounds), args.take(j - 1)).resume_model(
            args[j - 1],
        ).1 == Ok::<GeneratorState<T, usize>, GeneratorError>(GeneratorState::Yielded(args[j - 1])),
    decreases j,
{
    if j == 1 {
        assert(args.take(0) =~= Seq::<T>::empty());
        assert(args.take(1).drop_last() =~= Seq::<T>::empty());
        assert(args.take(1).last() == args[0]);
    } else {
        lemma_echo_generator_state(token, rounds, args, (j - 1) as nat);
        assert(args.take(j as int).drop_last() =~= args.take(j - 1));
        assert(args.take(j as int).last() == args[j - 1]);
    }
}

/// Law: feeding a fresh echoing generator one argument per resume, the
/// value handed to each resume is exactly the value that resume's
/// report yields back — the argument of resume `j` is observable at
/// yield `j`, and nowhere earlier — and the resume after the last
/// round completes with the number of round-trips performed.
pub proof fn lemma_echo_generator_round_trips<T: Copy>(
    token: RawGeneratorToken<T, T>,
    rounds: usize,
    args: Seq<T>,
)
    requires
        token.wf(),
        args.len() > rounds,
    ensures
        forall|j: int|
            0 <= j < rounds ==> after_echo_resumes(
                fresh_echo_generator(token, rounds),
                args.take(j),
            ).resume_model(args[j]).1 == Ok::<GeneratorState<T, usize>, GeneratorError>(
                GeneratorState::Yielded(args[j]),
            ),
        after_echo_resumes(fresh_echo_generator(token, rounds), args.take(rounds as int)).resume_model(
            args[rounds as int],
        ).1 == Ok::<GeneratorState<T, usize>, GeneratorError>(
            GeneratorState::Complete(rounds as usize),
        ),
{
    assert forall|j: int| 0 <= j < rounds implies after_echo_resumes(
        fresh_echo_generator(token, rounds),
        args.take(j),
    ).resume_model(args[j]).1 == Ok::<GeneratorState<T, usize>, GeneratorError>(
        GeneratorState::Yielded(args[j]),
    ) by {
        lemma_echo_generator_state(token, rounds, args, (j + 1) as nat);
    }
    if rounds == 0 {
        assert(args.take(0) =~= Seq::<T>::empty());
    } else {
        lemma_echo_generator_state(token, rounds, args, rounds as nat);
    }
}

/// Law: once a yield has occurred, the initial-argument accessor
/// fails: the yield's first drive replaces the pending argument with
/// the yielded value, and its second consumes the fresh argument, so
/// after either no argument is pending any more.
pub proof fn lemma_argument_after_yield_fails<Y, A>(
    yf: YieldFuture<Y, A>,
    cx: GeneratorWaker<Y, A>,
    token: RawGeneratorToken<Y, A>,
)
    requires
        yf.poll_spec(cx).2 is Ok,
        token.id == yf.poll_spec(cx).1.id,
    ensures
        token.argument_spec(yf.poll_spec(cx).1).1 == Err::<A, GeneratorError>(
            GeneratorError::NoArgument,
        ),
{
}

/// Law: registering a second token for one generator execution fails
/// and leaves the execution's context unchanged.
pub proof fn lemma_double_registration_fails<Y, A>(
    first: RawGeneratorToken<Y, A>,
    second: RawGeneratorToken<Y, A>,
    cx: GeneratorWaker<Y, A>,
)
    requires
        first.wf(),
        first.register_spec(cx).1 is Ok,
    ensures
        second.register_spec(first.register_spec(cx).0).1 == Err::<(), GeneratorError>(
            GeneratorError::AlreadyRegistered,
        ),
        second.register_spec(first.register_spec(cx).0).0 == first.register_spec(cx).0,
{
}

/// Law: a token invoked while a different generator is being driven —
/// the context's registered identity is not the token's — fails with
/// the identity mismatch and leaves the context untouched, whether it
/// reads the argument or drives a yield.
pub proof fn lemma_foreign_token_fails<Y, A>(
    token: RawGeneratorToken<Y, A>,
    yf: YieldFuture<Y, A>,
    cx: GeneratorWaker<Y, A>,
)
    requires
        cx.id != token.id,
        yf.token == token.id,
    ensures
        token.argument_spec(cx) == (cx, Err::<A, GeneratorError>(GeneratorError::WrongGenerator)),
        yf.poll_spec(cx) == (yf, cx, Err::<Poll<A>, GeneratorError>(GeneratorError::WrongGenerator)),
{
}

/// Law: a generator that has reported completion refuses every
/// further drive, blocking or polling, and its state does not change:
/// it never silently resumes from scratch.
pub proof fn lemma_completed_generator_refuses<C: Coroutine<Y, A, R>, Y, A, R>(
    g: GeneratorWrapper<C, Y, A, R>,
    arg: A,
    slot: GeneratorArg<Y, A>,
)
    requires
        g.completed,
    ensures
        g.resume_spec(arg) == (g, Err::<GeneratorState<Y, R>, GeneratorError>(
            GeneratorError::AlreadyComplete,
        )),
        g.poll_resume_spec(slot) == (g, slot, Err::<Poll<GeneratorState<Y, R>>, GeneratorError>(
            GeneratorError::AlreadyComplete,
        )),
{
}

/// A fresh asynchronous generator over a fresh waiting body.
pub open spec fn fresh_delay_generator<Y: Copy>(
    token: RawGeneratorToken<Y, ()>,
    items: Vec<Y>,
) -> AsyncGenerator<DelayBody<Y>, Y, (), ()> {
    AsyncGenerator {
        inner: GeneratorWrapper {
            future: DelayBody { token, items, idx: 0usize, phase: DelayPhase::Created },
            token: TokenId(0),
            completed: false,
            marker: core::marker::PhantomData,
        },
        arg: GeneratorArg::Empty,
    }
}


/// The asynchronous generator `g` after `k` polls, each supplying the
/// unit argument.
pub open spec fn after_polls<Y, R, G: AsyncGeneratorTrait<Y, (), R>>(g: G, k: nat) -> G
    decreases k,
{
    if k == 0 {
        g
    } else {
        after_polls::<Y, R, G>(g, (k - 1) as nat).poll_resume_model(Some(())).0
    }
}

/// The report of the `k`-th poll (counting from one) of `g`, each
/// poll supplying the unit argument.
pub open spec fn nth_poll_report<Y, R, G: AsyncGeneratorTrait<Y, (), R>>(g: G, k: nat) -> Result<
    Poll<GeneratorState<Y, R>>,
    GeneratorError,
> {
    after_polls::<Y, R, G>(g, (k - 1) as nat).poll_resume_model(Some(())).1
}

/// The state a waiting generator stands in while its `k`-th outer
/// wait is unresolved.
pub open spec fn waiting_delay_generator<Y: Copy>(
    token: RawGeneratorToken<Y, ()>,
    items: Vec<Y>,
    k: nat,
) -> AsyncGenerator<DelayBody<Y>, Y, (), ()> {
    AsyncGenerator {
        inner: GeneratorWrapper {
            future: DelayBody { token, items, idx: k as usize, phase: DelayPhase::Waiting },
            token: token.id,
            completed: false,
            marker: core::marker::PhantomData,
        },
        arg: if k == 0 {
            GeneratorArg::Arg(())
        } else {
            GeneratorArg::Empty
        },
    }
}

/// The state a waiting generator stands in while suspended at its
/// `k`-th yield.
pub open spec fn yielding_delay_generator<Y: Copy>(
    token: RawGeneratorToken<Y, ()>,
    items: Vec<Y>,
    k: nat,
) -> AsyncGenerator<DelayBody<Y>, Y, (), ()> {
    AsyncGenerator {
        inner: GeneratorWrapper {
            future: DelayBody {
                token,
                items,
                idx: k as usize,
                phase: DelayPhase::Suspended(
                    YieldFuture { value: None, token: token.id, marker: core::marker::PhantomData },
                ),
            },
            token: token.id,
            completed: false,
            marker: core::marker::PhantomData,
        },
        arg: GeneratorArg::Empty,
    }
}

/// The ladder of a waiting generator's run: odd polls find an
/// unresolved wait and report pending; even polls hand out the item
/// the resolved wait guarded.
proof fn lemma_delay_generator_state<Y: Copy>(
    token: RawGeneratorToken<Y, ()>,
    items: Vec<Y>,
    k: nat,
)
    requires
        token.wf(),
        k <= items@.len(),
    ensures
        after_polls(fresh_delay_generator(token, items), 2 * k + 1) == waiting_delay_generator(
            token,
            items,
            k,
        ),
        nth_poll_report(fresh_delay_generator(token, items), 2 * k + 1) == Ok::<
            Poll<GeneratorState<Y, ()>>,
            GeneratorError,
        >(Poll::Pending),
        k < items@.len() ==> after_polls(fresh_delay_generator(token, items), 2 * k + 2)
            == yielding_delay_generator(token, items, k) && nth_poll_report(
            fresh_delay_generator(token, items),
            2 * k + 2,
        ) == Ok::<Poll<GeneratorState<Y, ()>>, GeneratorError>(
            Poll::Ready(GeneratorState::Yielded(items@[k as int])),
        ),
    decreases k,
{
    if k == 0 {
        assert(after_polls(fresh_delay_generator(token, items), 0) == fresh_delay_generator(
            token,
            items,
        ));
    } else {
        lemma_delay_generator_state(token, items, (k - 1) as nat);
        assert(2 * k == 2 * ((k - 1) as nat) + 2);
        assert(after_polls(fresh_delay_generator(token, items), 2 * k) == yielding_delay_generator(
            token,
            items,
            (k - 1) as nat,
        ));
    }
}

/// Law: a generator that performs one outer wait before each yield
/// (and one before completing) reports pending on every poll that
/// meets an unresolved wait — the odd polls — hands out exactly the
/// listed items, in order, on the polls after each wait resolves —
/// the even polls — and completes on the poll after the final wait.
pub proof fn lemma_delay_generator_alternates<Y: Copy>(
    token: RawGeneratorToken<Y, ()>,
    items: Vec<Y>,
)
    requires
        token.wf(),
    ensures
        forall|n: nat|
            1 <= n <= 2 * items@.len() + 1 && n % 2 == 1 ==> #[trigger] nth_poll_report(
                fresh_delay_generator(token, items),
                n,
            ) == Ok::<Poll<GeneratorState<Y, ()>>, GeneratorError>(Poll::Pending),
        forall|n: nat|
            2 <= n <= 2 * items@.len() && n % 2 == 0 ==> #[trigger] nth_poll_report(
                fresh_delay_generator(token, items),
                n,
            ) == Ok::<Poll<GeneratorState<Y, ()>>, GeneratorError>(
                Poll::Ready(GeneratorState::Yielded(items@[n / 2 - 1])),
            ),
        nth_poll_report(fresh_delay_generator(token, items), 2 * items@.len() + 2) == Ok::<
            Poll<GeneratorState<Y, ()>>,
            GeneratorError,
        >(Poll::Ready(GeneratorState::Complete(()))),
{
    assert forall|n: nat|
        1 <= n <= 2 * items@.len() + 1 && n % 2 == 1 implies #[trigger] nth_poll_report(
        fresh_delay_generator(token, items),
        n,
    ) == Ok::<Poll<GeneratorState<Y, ()>>, GeneratorError>(Poll::Pending) by {
        let k = ((n - 1) / 2) as nat;
        assert(n == 2 * k + 1);
        lemma_delay_generator_state(token, items, k);
    }
    assert forall|n: nat|
        2 <= n <= 2 * items@.len() && n % 2 == 0 implies #[trigger] nth_poll_report(
        fresh_delay_generator(token, items),
        n,
    ) == Ok::<Poll<GeneratorState<Y, ()>>, GeneratorError>(
        Poll::Ready(GeneratorState::Yielded(items@[n / 2 - 1])),
    ) by {
        let k = ((n - 2) / 2) as nat;
        assert(n == 2 * k + 2);
        lemma_delay_generator_state(token, items, k);
    }
    lemma_delay_generator_state(token, items, items@.len());
}

/// Law: a body that performs an outer wait before each yield reports
/// pending while the wait is unresolved — never a spurious yield —
/// and hands out its first item on the poll after the wait resolves.
pub proof fn lemma_wait_reports_pending<Y: Copy>(token: RawGeneratorToken<Y, ()>, items: Vec<Y>)
    requires
        token.wf(),
    ensures
        fresh_delay_generator(token, items).poll_resume_model(Some(())).1 == Ok::<
            Poll<GeneratorState<Y, ()>>,
            GeneratorError,
        >(Poll::Pending),
        items@.len() > 0 ==> fresh_delay_generator(token, items).poll_resume_model(
            Some(()),
        ).0.poll_resume_model(Some(())).1 == Ok::<Poll<GeneratorState<Y, ()>>, GeneratorError>(
            Poll::Ready(GeneratorState::Yielded(items@[0])),
        ),
{
}

/// Law: driving a body that suspends for an outer wait with the
/// strictly blocking resume is a protocol violation: the suspension
/// left no yielded value behind.
pub proof fn lemma_blocking_drive_of_waiting_body_fails<Y: Copy>(
    token: RawGeneratorToken<Y, ()>,
    items: Vec<Y>,
)
    requires
        token.wf(),
    ensures
        ({
            let g = SyncGenerator(
                GeneratorWrapper::<DelayBody<Y>, Y, (), ()> {
                    future: DelayBody { token, items, idx: 0usize, phase: DelayPhase::Created },
                    token: TokenId(0),
                    completed: false,
                    marker: core::marker::PhantomData,
                },
            );
            g.resume_model(()).1 == Err::<GeneratorState<Y, ()>, GeneratorError>(
                GeneratorError::SuspendWithoutYield,
            )
        }),
{
}

} // verus!


//! Ready-made generator bodies: small verified computations written
//! against the token protocol, exactly as a rewritten generator body
//! would drive it. They make the engine usable end to end and are the
//! subjects of the laws proved about whole runs.

use vstd::prelude::*;

use crate::detail::token::RawGeneratorToken;
use crate::detail::token::TokenId;
use crate::detail::token::YieldFuture;
use crate::detail::waker::GeneratorWaker;
use crate::detail::wrapper::GeneratorWrapper;
use crate::export::sync::SyncGenerator;
use crate::protocol::Coroutine;
use crate::protocol::Generator;
use crate::protocol::GeneratorState;
use crate::protocol::GeneratorError;
use crate::protocol::Poll;

verus! {

/// Where a generator body stands between two drives: not yet started,
/// suspended inside an in-flight yield, or finished.
pub enum BodyPhase<Y, A> {
    /// The body has never been driven.
    Created,
    /// The body is suspended inside this in-flight yield.
    Suspended(YieldFuture<Y, A>),
    /// The body has completed or failed; terminal.
    Finished,
}

/// A generator body that yields each listed item in order, ignores the
/// resume arguments, and completes with a return value: the body a
/// plain `for`-loop-of-yields procedure rewrites to.
pub struct ListBody<Y, R> {
    /// The body's resumption token.
    pub token: RawGeneratorToken<Y, ()>,
    /// The items to yield.
    pub items: Vec<Y>,
    /// How many items have been yielded so far.
    pub idx: usize,
    /// The value to complete with; consumed by the completing drive.
    pub ret: Option<R>,
    /// Where the body stands between drives.
    pub phase: BodyPhase<Y, ()>,
}

impl<Y, R> ListBody<Y, R> {
    /// A fresh body that will yield `items` in order and complete with
    /// `ret`.
    pub fn new(token: RawGeneratorToken<Y, ()>, items: Vec<Y>, ret: R) -> (r: Self)
        ensures
            r == (ListBody {
                token,
                items,
                idx: 0usize,
                ret: Some(ret),
                phase: BodyPhase::<Y, ()>::Created,
            }),
    {
        ListBody { token, items, idx: 0, ret: Some(ret), phase: BodyPhase::Created }
    }
}

impl<Y: Copy, R> ListBody<Y, R> {
    /// What the body does once its current yield round-trip is over
    /// (or on its first drive, right after registering): start the
    /// yield of the next item, or complete with the return value.
    pub open spec fn emit_spec(self, cx: GeneratorWaker<Y, ()>) -> (Self, GeneratorWaker<
        Y,
        (),
    >, Result<Poll<R>, GeneratorError>) {
        if self.idx < self.items.len() {
            let yf0 = YieldFuture::<Y, ()> {
                value: Some(self.items@[self.idx as int]),
                token: self.token.id,
                marker: core::marker::PhantomData,
            };
            let (yf1, cx1, res) = yf0.poll_spec(cx);
            match res {
                Ok(Poll::Pending) => (
                    ListBody {
                        token: self.token,
                        items: self.items,
                        idx: self.idx,
                        ret: self.ret,
                        phase: BodyPhase::Suspended(yf1),
                    },
                    cx1,
                    Ok(Poll::Pending),
                ),
                Ok(Poll::Ready(a)) => (
                    ListBody {
                        token: self.token,
                        items: self.items,
                        idx: self.idx,
                        ret: self.ret,
                        phase: BodyPhase::Finished,
                    },
                    cx1,
                    Err(GeneratorError::NoArgument),
                ),
                Err(e) => (
                    ListBody {
                        token: self.token,
                        items: self.items,
                        idx: self.idx,
                        ret: self.ret,
                        phase: BodyPhase::Finished,
                    },
                    cx1,
                    Err(e),
                ),
            }
        } else {
            (
                ListBody {
                    token: self.token,
                    items: self.items,
                    idx: self.idx,
                    ret: None,
                    phase: BodyPhase::Finished,
                },
                cx,
                match self.ret {
                    Some(v) => Ok(Poll::Ready(v)),
                    None => Err(GeneratorError::AlreadyComplete),
                },
            )
        }
    }

    /// The body's full transition: register on the first drive, finish
    /// the in-flight yield on a later one, then yield the next item or
    /// complete.
    pub open spec fn step(self, cx: GeneratorWaker<Y, ()>) -> (Self, GeneratorWaker<
        Y,
        (),
    >, Result<Poll<R>, GeneratorError>) {
        match self.phase {
            BodyPhase::Created => {
                let (cx1, reg) = self.token.register_spec(cx);
                match reg {
                    Ok(u) => self.emit_spec(cx1),
                    Err(e) => (
                        ListBody {
                            token: self.token,
                            items: self.items,
                            idx: self.idx,
                            ret: self.ret,
                            phase: BodyPhase::Finished,
                        },
                        cx1,
                        Err(e),
                    ),
                }
            }
            BodyPhase::Suspended(yf0) => {
                let (yf1, cx1, res) = yf0.poll_spec(cx);
                match res {
                    Ok(Poll::Ready(a)) => {
                        let advanced = ListBody {
                            token: self.token,
                            items: self.items,
                            idx: if self.idx < self.items.len() {
                                (self.idx + 1) as usize
                            } else {
                                self.idx
                            },
                            ret: self.ret,
                            phase: self.phase,
                        };
                        advanced.emit_spec(cx1)
                    }
                    Ok(Poll::Pending) => (
                        ListBody {
                            token: self.token,
                            items: self.items,
                            idx: self.idx,
                            ret: self.ret,
                            phase: BodyPhase::Suspended(yf1),
                        },
                        cx1,
                        Ok(Poll::Pending),
                    ),
                    Err(e) => (
                        ListBody {
                            token: self.token,
                            items: self.items,
                            idx: self.idx,
                            ret: self.ret,
                            phase: BodyPhase::Finished,
                        },
                        cx1,
                        Err(e),
                    ),
                }
            }
            BodyPhase::Finished => (self, cx, Err(GeneratorError::AlreadyComplete)),
        }
    }

    /// Starts the yield of the next item, or completes with the return
    /// value; shared by the first drive and every later one.
    fn emit(&mut self, cx: &mut GeneratorWaker<Y, ()>) -> (r: Result<Poll<R>, GeneratorError>)
        ensures
            ({
                let (s2, cx2, res) = old(self).emit_spec(*old(cx));
                *final(self) == s2 && *final(cx) == cx2 && r == res
            }),
    {
        if self.idx < self.items.len() {
            let mut yf = self.token.yield_(self.items[self.idx]);
            match yf.poll(cx) {
                Ok(Poll::Pending) => {
                    self.phase = BodyPhase::Suspended(yf);
                    Ok(Poll::Pending)
                }
                Ok(Poll::Ready(_)) => {
                    self.phase = BodyPhase::Finished;
                    Err(GeneratorError::NoArgument)
                }
                Err(e) => {
                    self.phase = BodyPhase::Finished;
                    Err(e)
                }
            }
        } else {
            self.phase = BodyPhase::Finished;
            match self.ret.take() {
                Some(v) => Ok(Poll::Ready(v)),
                None => Err(GeneratorError::AlreadyComplete),
            }
        }
    }
}

/// A generator body that reads its initial argument, yields it back,
/// and then yields back every further resume argument, one round-trip
/// per resume, for a fixed number of yields; it completes with the
/// number of yields performed. What goes in is exactly what comes
/// out, which makes the argument round-trip observable.
pub struct EchoBody<T> {
    /// The body's resumption token.
    pub token: RawGeneratorToken<T, T>,
    /// How many yields are still to be performed.
    pub remaining: usize,
    /// How many yields have completed their round-trip.
    pub count: usize,
    /// Where the body stands between drives.
    pub phase: BodyPhase<T, T>,
}

impl<T> EchoBody<T> {
    /// A fresh body that will echo `rounds` arguments back and then
    /// complete with the count of yields performed.
    pub fn new(token: RawGeneratorToken<T, T>, rounds: usize) -> (r: Self)
        ensures
            r == (EchoBody {
                token,
                remaining: rounds,
                count: 0usize,
                phase: BodyPhase::<T, T>::Created,
            }),
    {
        EchoBody { token, remaining: rounds, count: 0, phase: BodyPhase::Created }
    }
}

impl<T: Copy> EchoBody<T> {
    /// What the body does with an argument in hand: yield it back, or
    /// complete with the round-trip count once all rounds are done.
    pub open spec fn emit_spec(self, cx: GeneratorWaker<T, T>, a: T) -> (Self, GeneratorWaker<
        T,
        T,
    >, Result<Poll<usize>, GeneratorError>) {
        if self.remaining > 0 {
            let yf0 = YieldFuture::<T, T> {
                value: Some(a),
                token: self.token.id,
                marker: core::marker::PhantomData,
            };
            let (yf1, cx1, res) = yf0.poll_spec(cx);
            match res {
                Ok(Poll::Pending) => (
                    EchoBody {
                        token: self.token,
                        remaining: self.remaining,
                        count: self.count,
                        phase: BodyPhase::Suspended(yf1),
                    },
                    cx1,
                    Ok(Poll::Pending),
                ),
                Ok(Poll::Ready(b)) => (
                    EchoBody {
                        token: self.token,
                        remaining: self.remaining,
                        count: self.count,
                        phase: BodyPhase::Finished,
                    },
                    cx1,
                    Err(GeneratorError::NoArgument),
                ),
                Err(e) => (
                    EchoBody {
                        token: self.token,
                        remaining: self.remaining,
                        count: self.count,
                        phase: BodyPhase::Finished,
                    },
                    cx1,
                    Err(e),
                ),
            }
        } else {
            (
                EchoBody {
                    token: self.token,
                    remaining: self.remaining,
                    count: self.count,
                    phase: BodyPhase::Finished,
                },
                cx,
                Ok(Poll::Ready(self.count)),
            )
        }
    }

    /// The body's full transition: register and read the initial
    /// argument on the first drive; on later drives finish the
    /// in-flight yield, count the round-trip, and echo the fresh
    /// argument back.
    pub open spec fn step(self, cx: GeneratorWaker<T, T>) -> (Self, GeneratorWaker<
        T,
        T,
    >, Result<Poll<usize>, GeneratorError>) {
        match self.phase {
            BodyPhase::Created => {
                let (cx1, reg) = self.token.register_spec(cx);
                match reg {
                    Ok(u) => {
                        let (cx2, read) = self.token.argument_spec(cx1);
                        match read {
                            Ok(a0) => self.emit_spec(cx2, a0),
                            Err(e) => (
                                EchoBody {
                                    token: self.token,
                                    remaining: self.remaining,
                                    count: self.count,
                                    phase: BodyPhase::Finished,
                                },
                                cx2,
                                Err(e),
                            ),
                        }
                    }
                    Err(e) => (
                        EchoBody {
                            token: self.token,
                            remaining: self.remaining,
                            count: self.count,
                            phase: BodyPhase::Finished,
                        },
                        cx1,
                        Err(e),
                    ),
                }
            }
            BodyPhase::Suspended(yf0) => {
                let (yf1, cx1, res) = yf0.poll_spec(cx);
                match res {
                    Ok(Poll::Ready(a)) => {
                        let advanced = EchoBody {
                            token: self.token,
                            remaining: if self.remaining > 0 {
                                (self.remaining - 1) as usize
                            } else {
                                self.remaining
                            },
                            count: if self.count < usize::MAX {
                                (self.count + 1) as usize
                            } else {
                                self.count
                            },
                            phase: self.phase,
                        };
                        advanced.emit_spec(cx1, a)
                    }
                    Ok(Poll::Pending) => (
                        EchoBody {
                            token: self.token,
                            remaining: self.remaining,
                            count: self.count,
                            phase: BodyPhase::Suspended(yf1),
                        },
                        cx1,
                        Ok(Poll::Pending),
                    ),
                    Err(e) => (
                        EchoBody {
                            token: self.token,
                            remaining: self.remaining,
                            count: self.count,
                            phase: BodyPhase::Finished,
                        },
                        cx1,
                        Err(e),
                    ),
                }
            }
            BodyPhase::Finished => (self, cx, Err(GeneratorError::AlreadyComplete)),
        }
    }

    /// Yields the argument back, or completes with the round-trip
    /// count once all rounds are done.
    fn emit(&mut self, cx: &mut GeneratorWaker<T, T>, a: T) -> (r: Result<
        Poll<usize>,
        GeneratorError,
    >)
        ensures
            ({
                let (s2, cx2, res) = old(self).emit_spec(*old(cx), a);
                *final(self) == s2 && *final(cx) == cx2 && r == res
            }),
    {
        if self.remaining > 0 {
            let mut yf = self.token.yield_(a);
            match yf.poll(cx) {
                Ok(Poll::Pending) => {
                    self.phase = BodyPhase::Suspended(yf);
                    Ok(Poll::Pending)
                }
                Ok(Poll::Ready(_)) => {
                    self.phase = BodyPhase::Finished;
                    Err(GeneratorError::NoArgument)
                }
                Err(e) => {
                    self.phase = BodyPhase::Finished;
                    Err(e)
                }
            }
        } else {
            self.phase = BodyPhase::Finished;
            Ok(Poll::Ready(self.count))
        }
    }
}

impl<T: Copy> Coroutine<T, T, usize> for EchoBody<T> {
    open spec fn inv(&self) -> bool {
        true
    }

    open spec fn step_state(&self, cx: GeneratorWaker<T, T>) -> Self {
        self.step(cx).0
    }

    open spec fn step_waker(&self, cx: GeneratorWaker<T, T>) -> GeneratorWaker<T, T> {
        self.step(cx).1
    }

    open spec fn step_result(&self, cx: GeneratorWaker<T, T>) -> Result<
        Poll<usize>,
        GeneratorError,
    > {
        self.step(cx).2
    }

    fn poll(&mut self, cx: &mut GeneratorWaker<T, T>) -> (r: Result<Poll<usize>, GeneratorError>) {
        match &self.phase {
            BodyPhase::Created => {
                match self.token.register(cx) {
                    Ok(()) => {
                        match self.token.argument(cx) {
                            Ok(a0) => self.emit(cx, a0),
                            Err(e) => {
                                self.phase = BodyPhase::Finished;
                                Err(e)
                            }
                        }
                    }
                    Err(e) => {
                        self.phase = BodyPhase::Finished;
                        Err(e)
                    }
                }
            }
            BodyPhase::Suspended(yf0) => {
                let mut yf = *yf0;
                match yf.poll(cx) {
                    Ok(Poll::Ready(a)) => {
                        if self.remaining > 0 {
                            self.remaining = self.remaining - 1;
                        }
                        if self.count < usize::MAX {
                            self.count = self.count + 1;
                        }
                        self.emit(cx, a)
                    }
                    Ok(Poll::Pending) => {
                        self.phase = BodyPhase::Suspended(yf);
                        Ok(Poll::Pending)
                    }
                    Err(e) => {
                        self.phase = BodyPhase::Finished;
                        Err(e)
                    }
                }
            }
            BodyPhase::Finished => Err(GeneratorError::AlreadyComplete),
        }
    }
}

impl<Y: Copy, R> Coroutine<Y, (), R> for ListBody<Y, R> {
    open spec fn inv(&self) -> bool {
        true
    }

    open spec fn step_state(&self, cx: GeneratorWaker<Y, ()>) -> Self {
        self.step(cx).0
    }

    open spec fn step_waker(&self, cx: GeneratorWaker<Y, ()>) -> GeneratorWaker<Y, ()> {
        self.step(cx).1
    }

    open spec fn step_result(&self, cx: GeneratorWaker<Y, ()>) -> Result<Poll<R>, GeneratorError> {
        self.step(cx).2
    }

    fn poll(&mut self, cx: &mut GeneratorWaker<Y, ()>) -> (r: Result<Poll<R>, GeneratorError>) {
        match self.phase {
            BodyPhase::Created => {
                match self.token.register(cx) {
                    Ok(()) => self.emit(cx),
                    Err(e) => {
                        self.phase = BodyPhase::Finished;
                        Err(e)
                    }
                }
            }
            BodyPhase::Suspended(yf0) => {
                let mut yf = yf0;
                match yf.poll(cx) {
                    Ok(Poll::Ready(_)) => {
                        if self.idx < self.items.len() {
                            self.idx = self.idx + 1;
                        }
                        self.emit(cx)
                    }
                    Ok(Poll::Pending) => {
                        self.phase = BodyPhase::Suspended(yf);
                        Ok(Poll::Pending)
                    }
                    Err(e) => {
                        self.phase = BodyPhase::Finished;
                        Err(e)
                    }
                }
            }
            BodyPhase::Finished => Err(GeneratorError::AlreadyComplete),
        }
    }
}

/// Where a waiting generator body stands between two drives: besides
/// the phases every body has, it may be inside an outer wait that the
/// next poll resolves.
pub enum DelayPhase<Y> {
    /// The body has never been driven.
    Created,
    /// The body is waiting for outer asynchronous work; the wait
    /// resolves on the next poll.
    Waiting,
    /// The body is suspended inside this in-flight yield.
    Suspended(YieldFuture<Y, ()>),
    /// The body has completed or failed; terminal.
    Finished,
}

/// A generator body that performs one outer asynchronous wait before
/// each yield (and one before completing): polled while the wait is
/// unresolved it suspends without yielding, so a non-blocking drive
/// reports pending, never a spurious yield.
pub struct DelayBody<Y> {
    /// The body's resumption token.
    pub token: RawGeneratorToken<Y, ()>,
    /// The items to yield, one outer wait before each.
    pub items: Vec<Y>,
    /// How many items have been yielded so far.
    pub idx: usize,
    /// Where the body stands between drives.
    pub phase: DelayPhase<Y>,
}

impl<Y> DelayBody<Y> {
    /// A fresh body that will wait once before each of its yields and
    /// once more before completing.
    pub fn new(token: RawGeneratorToken<Y, ()>, items: Vec<Y>) -> (r: Self)
        ensures
            r == (DelayBody { token, items, idx: 0usize, phase: DelayPhase::<Y>::Created }),
    {
        DelayBody { token, items, idx: 0, phase: DelayPhase::Created }
    }
}

impl<Y: Copy> DelayBody<Y> {
    /// The body's full transition: register and enter the first wait
    /// on the first drive; a poll in a wait starts the yield of the
    /// next item or completes; a poll at a yield finishes the
    /// round-trip and enters the next wait.
    pub open spec fn step(self, cx: GeneratorWaker<Y, ()>) -> (Self, GeneratorWaker<
        Y,
        (),
    >, Result<Poll<()>, GeneratorError>) {
        match self.phase {
            DelayPhase::Created => {
                let (cx1, reg) = self.token.register_spec(cx);
                match reg {
                    Ok(u) => (
                        DelayBody {
                            token: self.token,
                            items: self.items,
                            idx: self.idx,
                            phase: DelayPhase::Waiting,
                        },
                        cx1,
                        Ok(Poll::Pending),
                    ),
                    Err(e) => (
                        DelayBody {
                            token: self.token,
                            items: self.items,
                            idx: self.idx,
                            phase: DelayPhase::Finished,
                        },
                        cx1,
                        Err(e),
                    ),
                }
            }
            DelayPhase::Waiting => {
                if self.idx < self.items.len() {
                    let yf0 = YieldFuture::<Y, ()> {
                        value: Some(self.items@[self.idx as int]),
                        token: self.token.id,
                        marker: core::marker::PhantomData,
                    };
                    let (yf1, cx1, res) = yf0.poll_spec(cx);
                    match res {
                        Ok(Poll::Pending) => (
                            DelayBody {
                                token: self.token,
                                items: self.items,
                                idx: self.idx,
                                phase: DelayPhase::Suspended(yf1),
                            },
                            cx1,
                            Ok(Poll::Pending),
                        ),
                        Ok(Poll::Ready(a)) => (
                            DelayBody {
                                token: self.token,
                                items: self.items,
                                idx: self.idx,
                                phase: DelayPhase::Finished,
                            },
                            cx1,
                            Err(GeneratorError::NoArgument),
                        ),
                        Err(e) => (
                            DelayBody {
                                token: self.token,
                                items: self.items,
                                idx: self.idx,
                                phase: DelayPhase::Finished,
                            },
                            cx1,
                            Err(e),
                        ),
                    }
                } else {
                    (
                        DelayBody {
                            token: self.token,
                            items: self.items,
                            idx: self.idx,
                            phase: DelayPhase::Finished,
                        },
                        cx,
                        Ok(Poll::Ready(())),
                    )
                }
            }
            DelayPhase::Suspended(yf0) => {
                let (yf1, cx1, res) = yf0.poll_spec(cx);
                match res {
                    Ok(Poll::Ready(a)) => (
                        DelayBody {
                            token: self.token,
                            items: self.items,
                            idx: if self.idx < self.items.len() {
                                (self.idx + 1) as usize
                            } else {
                                self.idx
                            },
                            phase: DelayPhase::Waiting,
                        },
                        cx1,
                        Ok(Poll::Pending),
                    ),
                    Ok(Poll::Pending) => (
                        DelayBody {
                            token: self.token,
                            items: self.items,
                            idx: self.idx,
                            phase: DelayPhase::Suspended(yf1),
                        },
                        cx1,
                        Ok(Poll::Pending),
                    ),
                    Err(e) => (
                        DelayBody {
                            token: self.token,
                            items: self.items,
                            idx: self.idx,
                            phase: DelayPhase::Finished,
                        },
                        cx1,
                        Err(e),
                    ),
                }
            }
            DelayPhase::Finished => (self, cx, Err(GeneratorError::AlreadyComplete)),
        }
    }
}

impl<Y: Copy> Coroutine<Y, (), ()> for DelayBody<Y> {
    open spec fn inv(&self) -> bool {
        true
    }

    open spec fn step_state(&self, cx: GeneratorWaker<Y, ()>) -> Self {
        self.step(cx).0
    }

    open spec fn step_waker(&self, cx: GeneratorWaker<Y, ()>) -> GeneratorWaker<Y, ()> {
        self.step(cx).1
    }

    open spec fn step_result(&self, cx: GeneratorWaker<Y, ()>) -> Result<Poll<()>, GeneratorError> {
        self.step(cx).2
    }

    fn poll(&mut self, cx: &mut GeneratorWaker<Y, ()>) -> (r: Result<Poll<()>, GeneratorError>) {
        match &self.phase {
            DelayPhase::Created => {
                match self.token.register(cx) {
                    Ok(()) => {
                        self.phase = DelayPhase::Waiting;
                        Ok(Poll::Pending)
                    }
                    Err(e) => {
                        self.phase = DelayPhase::Finished;
                        Err(e)
                    }
                }
            }
            DelayPhase::Waiting => {
                if self.idx < self.items.len() {
                    let mut yf = self.token.yield_(self.items[self.idx]);
                    match yf.poll(cx) {
                        Ok(Poll::Pending) => {
                            self.phase = DelayPhase::Suspended(yf);
                            Ok(Poll::Pending)
                        }
                        Ok(Poll::Ready(_)) => {
                            self.phase = DelayPhase::Finished;
                            Err(GeneratorError::NoArgument)
                        }
                        Err(e) => {
                            self.phase = DelayPhase::Finished;
                            Err(e)
                        }
                    }
                } else {
                    self.phase = DelayPhase::Finished;
                    Ok(Poll::Ready(()))
                }
            }
            DelayPhase::Suspended(yf0) => {
                let mut yf = *yf0;
                match yf.poll(cx) {
                    Ok(Poll::Ready(_)) => {
                        if self.idx < self.items.len() {
                            self.idx = self.idx + 1;
                        }
                        self.phase = DelayPhase::Waiting;
                        Ok(Poll::Pending)
                    }
                    Ok(Poll::Pending) => {
                        self.phase = DelayPhase::Suspended(yf);
                        Ok(Poll::Pending)
                    }
                    Err(e) => {
                        self.phase = DelayPhase::Finished;
                        Err(e)
                    }
                }
            }
            DelayPhase::Finished => Err(GeneratorError::AlreadyComplete),
        }
    }
}

/// A fresh synchronous generator over a fresh list body.
pub open spec fn fresh_list_generator<Y: Copy, R>(
    token: RawGeneratorToken<Y, ()>,
    items: Vec<Y>,
    ret: R,
) -> SyncGenerator<ListBody<Y, R>, Y, (), R> {
    SyncGenerator(
        GeneratorWrapper {
            future: ListBody {
                token,
                items,
                idx: 0usize,
                ret: Some(ret),
                phase: BodyPhase::Created,
            },
            token: TokenId(0),
            completed: false,
            marker: core::marker::PhantomData,
        },
    )
}

/// The state a list generator stands in after `j` of its items have
/// been handed out: suspended at the `j`-th yield.
pub open spec fn running_list_generator<Y: Copy, R>(
    token: RawGeneratorToken<Y, ()>,
    items: Vec<Y>,
    ret: R,
    j: nat,
) -> SyncGenerator<ListBody<Y, R>, Y, (), R> {
    SyncGenerator(
        GeneratorWrapper {
            future: ListBody {
                token,
                items,
                idx: (j - 1) as usize,
                ret: Some(ret),
                phase: BodyPhase::Suspended(
                    YieldFuture { value: None, token: token.id, marker: core::marker::PhantomData },
                ),
            },
            token: token.id,
            completed: false,
            marker: core::marker::PhantomData,
        },
    )
}

/// Runs a fresh list generator to exhaustion: collects every yielded
/// item and returns them together with the completion value. The
/// collected items are exactly the body's list, in order.
pub fn collect_list<Y: Copy, R>(gen: SyncGenerator<ListBody<Y, R>, Y, (), R>) -> (r: (Vec<Y>, R))
    requires
        gen.0.future.token.wf(),
        !gen.0.token.spec_valid(),
        !gen.0.completed,
        gen.0.future.phase is Created,
        gen.0.future.idx == 0,
        gen.0.future.ret is Some,
    ensures
        r.0@ == gen.0.future.items@,
        Some(r.1) == gen.0.future.ret,
{
    let ghost start = gen;
    let ghost token = gen.0.future.token;
    let ghost items = gen.0.future.items;
    let ghost ret_value = gen.0.future.ret;
    let mut driver = gen;
    let mut out: Vec<Y> = Vec::new();
    loop
        invariant
            gen == start,
            token.wf(),
            out@.len() <= items@.len(),
            out@ == items@.subrange(0, out@.len() as int),
            driver == (if out@.len() == 0 {
                start
            } else {
                running_list_generator(token, items, ret_value->0, out@.len() as nat)
            }),
            start == fresh_list_generator(token, items, ret_value->0),
            ret_value is Some,
        decreases items@.len() - out@.len() + 1,
    {
        match driver.resume(()) {
            Ok(GeneratorState::Yielded(y)) => {
                out.push(y);
                proof {
                    assert(out@ == items@.subrange(0, out@.len() as int));
                }
            }
            Ok(GeneratorState::Complete(v)) => {
                proof {
                    assert(out@.len() == items@.len());
                    assert(items@.subrange(0, items@.len() as int) =~= items@);
                }
                return (out, v);
            }
            Err(e) => {
                return vstd::pervasive::unreached();
            }
        }
    }
}

} // verus!

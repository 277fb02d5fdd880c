use fauxgen::Coroutine;
use fauxgen::Generator;
use fauxgen::GeneratorExt;
use fauxgen::GeneratorError;
use fauxgen::GeneratorIter;
use fauxgen::GeneratorState;
use fauxgen::GeneratorWaker;
use fauxgen::ListBody;
use fauxgen::Poll;
use fauxgen::RawGeneratorToken;
use fauxgen::YieldFuture;

fn collect<G: fauxgen::Generator<i32, (), ()>>(gen: G) -> Vec<i32> {
    let mut iter = GeneratorIter::new(gen);
    let mut values = Vec::new();
    loop {
        match iter.next() {
            Ok(Some(value)) => values.push(value),
            Ok(None) => break,
            Err(e) => panic!("generator protocol violation: {:?}", e),
        }
    }
    values
}

#[test]
fn iter_basic() {
    let token = fauxgen::token::<i32, ()>(1);
    let gen = fauxgen::gen_sync(token.marker(), ListBody::new(token, vec![5, 77, 256], ()));
    let values = collect(gen);
    assert_eq!(values, [5, 77, 256]);
}

#[test]
fn iter_yield() {
    let token = fauxgen::token::<i32, ()>(1);
    let gen = fauxgen::gen_sync(token.marker(), ListBody::new(token, vec![5, 77, 256], ()));
    let values = collect(gen);
    assert_eq!(values, [5, 77, 256]);
}

struct InlineBody {
    token: RawGeneratorToken<i32, ()>,
    state: u8,
}

impl Coroutine<i32, (), ()> for InlineBody {
    // the model items of the trait are ghost code erased from every
    // runtime path; an unverified implementation stubs them out
    fn inv(&self) -> bool {
        panic!()
    }

    fn step_state(&self, _cx: GeneratorWaker<i32, ()>) -> Self {
        panic!()
    }

    fn step_waker(&self, _cx: GeneratorWaker<i32, ()>) -> GeneratorWaker<i32, ()> {
        panic!()
    }

    fn step_result(&self, _cx: GeneratorWaker<i32, ()>) -> Result<Poll<()>, GeneratorError> {
        panic!()
    }

    fn poll(&mut self, cx: &mut GeneratorWaker<i32, ()>) -> Result<Poll<()>, GeneratorError> {
        match self.state {
            0 => {
                self.token.register(cx)?;
                let mut yf = self.token.yield_(32);
                let _ = yf.poll(cx)?;
                self.state = 1;
                Ok(Poll::Pending)
            }
            1 => {
                let mut yf: YieldFuture<i32, ()> = YieldFuture {
                    value: None,
                    token: self.token.token_id(),
                    marker: std::marker::PhantomData,
                };
                let _ = yf.poll(cx)?;
                let mut next = self.token.yield_(5);
                let _ = next.poll(cx)?;
                self.state = 2;
                Ok(Poll::Pending)
            }
            2 => {
                let mut yf: YieldFuture<i32, ()> = YieldFuture {
                    value: None,
                    token: self.token.token_id(),
                    marker: std::marker::PhantomData,
                };
                let _ = yf.poll(cx)?;
                self.state = 3;
                Ok(Poll::Ready(()))
            }
            _ => Err(GeneratorError::AlreadyComplete),
        }
    }
}

#[test]
fn basic_sync() {
    let token = fauxgen::token::<i32, ()>(7);
    let gen = fauxgen::gen_sync(token.marker(), InlineBody { token, state: 0 });
    let values = collect(gen);
    assert_eq!(values, [32, 5]);
}

#[test]
fn list_generator_completes_with_return_value() {
    let token = fauxgen::token::<i32, ()>(3);
    let mut gen = fauxgen::gen_sync(token.marker(), ListBody::new(token, vec![1, 2, 3], "done"));
    assert_eq!(gen.resume(()), Ok(GeneratorState::Yielded(1)));
    assert_eq!(gen.resume(()), Ok(GeneratorState::Yielded(2)));
    assert_eq!(gen.resume(()), Ok(GeneratorState::Yielded(3)));
    assert_eq!(gen.resume(()), Ok(GeneratorState::Complete("done")));
}

#[test]
fn empty_list_generator_completes_at_once() {
    let token = fauxgen::token::<i32, ()>(4);
    let mut gen = fauxgen::gen_sync(token.marker(), ListBody::new(token, vec![], 9u64));
    assert_eq!(gen.resume(()), Ok(GeneratorState::Complete(9u64)));
}

#[test]
fn generator_iter_into_inner_returns_the_generator() {
    let token = fauxgen::token::<i32, ()>(5);
    let gen = fauxgen::gen_sync(token.marker(), ListBody::new(token, vec![8, 9], ()));
    let mut iter = GeneratorIter::new(gen);
    assert_eq!(iter.next(), Ok(Some(8)));
    let mut gen = iter.into_inner();
    assert_eq!(gen.resume(()), Ok(GeneratorState::Yielded(9)));
}

struct NestedBody {
    token: RawGeneratorToken<i32, ()>,
    inner: fauxgen::SyncGenerator<fauxgen::ListBody<i32, ()>, i32, (), ()>,
    state: u8,
}

impl Coroutine<i32, (), ()> for NestedBody {
    // the model items of the trait are ghost code erased from every
    // runtime path; an unverified implementation stubs them out
    fn inv(&self) -> bool {
        panic!()
    }

    fn step_state(&self, _cx: GeneratorWaker<i32, ()>) -> Self {
        panic!()
    }

    fn step_waker(&self, _cx: GeneratorWaker<i32, ()>) -> GeneratorWaker<i32, ()> {
        panic!()
    }

    fn step_result(&self, _cx: GeneratorWaker<i32, ()>) -> Result<Poll<()>, GeneratorError> {
        panic!()
    }

    fn poll(&mut self, cx: &mut GeneratorWaker<i32, ()>) -> Result<Poll<()>, GeneratorError> {
        if self.state == 0 {
            self.token.register(cx)?;
            self.state = 1;
        } else {
            let mut yf: YieldFuture<i32, ()> = YieldFuture {
                value: None,
                token: self.token.token_id(),
                marker: std::marker::PhantomData,
            };
            let _ = yf.poll(cx)?;
        }
        // drive the inner generator one step: it installs its own
        // fresh carrier per drive, so the outer context is untouched
        match self.inner.resume(())? {
            GeneratorState::Yielded(value) => {
                let mut yf = self.token.yield_(value * 2);
                let _ = yf.poll(cx)?;
                Ok(Poll::Pending)
            }
            GeneratorState::Complete(()) => Ok(Poll::Ready(())),
        }
    }
}

#[test]
fn nested_generator_drives_its_inner_generator() {
    let outer_token = fauxgen::token::<i32, ()>(1);
    // token identities are unique among the generators alive together
    let inner_token = fauxgen::token::<i32, ()>(2);
    let inner =
        fauxgen::gen_sync(inner_token.marker(), ListBody::new(inner_token, vec![1, 2, 3], ()));
    let gen =
        fauxgen::gen_sync(outer_token.marker(), NestedBody { token: outer_token, inner, state: 0 });
    assert_eq!(collect(gen), [2, 4, 6]);
}

#[test]
fn collect_list_returns_items_and_completion_value() {
    let token = fauxgen::token::<i32, ()>(1);
    let gen = fauxgen::gen_sync(token.marker(), ListBody::new(token, vec![5, 77, 256], "end"));
    let (items, ret) = fauxgen::collect_list(gen);
    assert_eq!(items, [5, 77, 256]);
    assert_eq!(ret, "end");
}

#[test]
fn iter_extension_wraps_the_generator() {
    let token = fauxgen::token::<i32, ()>(6);
    let gen = fauxgen::gen_sync(token.marker(), ListBody::new(token, vec![3, 4], ()));
    let mut iter = gen.iter();
    assert_eq!(iter.next(), Ok(Some(3)));
    assert_eq!(iter.next(), Ok(Some(4)));
    assert_eq!(iter.next(), Ok(None));
}

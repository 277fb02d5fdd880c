use fauxgen::Coroutine;
use fauxgen::DelayBody;
use fauxgen::Generator;
use fauxgen::GeneratorArg;
use fauxgen::GeneratorError;
use fauxgen::GeneratorState;
use fauxgen::GeneratorWaker;
use fauxgen::ListBody;
use fauxgen::Poll;
use fauxgen::RawGeneratorToken;
use fauxgen::TokenId;
use fauxgen::YieldFuture;

#[test]
fn double_registration_fails() {
    let first = fauxgen::token::<u32, u32>(1);
    let second = fauxgen::token::<u32, u32>(2);
    let mut cx = GeneratorWaker::new(false, GeneratorArg::Empty, TokenId::invalid());
    assert_eq!(fauxgen::register(&first, &mut cx), Ok(()));
    assert_eq!(fauxgen::register(&second, &mut cx), Err(GeneratorError::AlreadyRegistered));
    assert_eq!(first.register(&mut cx), Err(GeneratorError::AlreadyRegistered));
}

#[test]
fn foreign_token_fails_with_identity_mismatch() {
    let own = fauxgen::token::<u32, u32>(1);
    let foreign = fauxgen::token::<u32, u32>(2);
    let mut cx = GeneratorWaker::new(false, GeneratorArg::Arg(11u32), TokenId::invalid());
    assert_eq!(own.register(&mut cx), Ok(()));
    assert_eq!(foreign.argument(&mut cx), Err(GeneratorError::WrongGenerator));
    let mut yf = foreign.yield_(5u32);
    assert_eq!(yf.poll(&mut cx), Err(GeneratorError::WrongGenerator));
    // the context is untouched: the matching token can still read it
    assert_eq!(own.argument(&mut cx), Ok(11u32));
}

struct LeakyBody {
    own: RawGeneratorToken<u32, ()>,
    foreign: RawGeneratorToken<u32, ()>,
}

impl Coroutine<u32, (), ()> for LeakyBody {
    // the model items of the trait are ghost code erased from every
    // runtime path; an unverified implementation stubs them out
    fn inv(&self) -> bool {
        panic!()
    }

    fn step_state(&self, _cx: GeneratorWaker<u32, ()>) -> Self {
        panic!()
    }

    fn step_waker(&self, _cx: GeneratorWaker<u32, ()>) -> GeneratorWaker<u32, ()> {
        panic!()
    }

    fn step_result(&self, _cx: GeneratorWaker<u32, ()>) -> Result<Poll<()>, GeneratorError> {
        panic!()
    }

    fn poll(&mut self, cx: &mut GeneratorWaker<u32, ()>) -> Result<Poll<()>, GeneratorError> {
        self.own.register(cx)?;
        let mut yf = self.foreign.yield_(5);
        let _ = yf.poll(cx)?;
        Ok(Poll::Ready(()))
    }
}

#[test]
fn token_of_other_generator_fails_through_the_driver() {
    let outer = fauxgen::token::<u32, ()>(1);
    let inner = fauxgen::token::<u32, ()>(2);
    let mut gen = fauxgen::gen_sync(inner.marker(), LeakyBody { own: inner, foreign: outer });
    assert_eq!(gen.resume(()), Err(GeneratorError::WrongGenerator));
}

#[test]
fn argument_after_yield_fails() {
    let token = fauxgen::token::<u32, u32>(4);
    let mut cx = GeneratorWaker::new(false, GeneratorArg::Arg(1u32), TokenId::new(4));
    let mut yf: YieldFuture<u32, u32> = YieldFuture {
        value: None,
        token: token.token_id(),
        marker: std::marker::PhantomData,
    };
    assert_eq!(yf.poll(&mut cx), Ok(Poll::Ready(1u32)));
    assert_eq!(token.argument(&mut cx), Err(GeneratorError::NoArgument));
}

#[test]
fn argument_twice_fails() {
    let token = fauxgen::token::<u32, u32>(4);
    let mut cx = GeneratorWaker::new(false, GeneratorArg::Arg(8u32), TokenId::new(4));
    assert_eq!(token.argument(&mut cx), Ok(8u32));
    assert_eq!(token.argument(&mut cx), Err(GeneratorError::NoArgument));
}

#[test]
fn resuming_a_yield_without_argument_fails() {
    let token = fauxgen::token::<u32, u32>(3);
    let mut cx = GeneratorWaker::new(false, GeneratorArg::Empty, TokenId::new(3));
    let mut yf: YieldFuture<u32, u32> = YieldFuture {
        value: None,
        token: token.token_id(),
        marker: std::marker::PhantomData,
    };
    assert_eq!(yf.poll(&mut cx), Err(GeneratorError::NoArgument));
}

#[test]
fn completed_generator_refuses_to_be_driven() {
    let token = fauxgen::token::<i32, ()>(6);
    let mut gen = fauxgen::gen_sync(token.marker(), ListBody::new(token, vec![1], "r"));
    assert_eq!(gen.resume(()), Ok(GeneratorState::Yielded(1)));
    assert_eq!(gen.resume(()), Ok(GeneratorState::Complete("r")));
    assert_eq!(gen.resume(()), Err(GeneratorError::AlreadyComplete));
    assert_eq!(gen.resume(()), Err(GeneratorError::AlreadyComplete));
}

#[test]
fn blocking_drive_of_waiting_body_fails() {
    let token = fauxgen::token::<u32, ()>(9);
    let mut gen = fauxgen::gen_sync(token.marker(), DelayBody::new(token, vec![1u32]));
    assert_eq!(gen.resume(()), Err(GeneratorError::SuspendWithoutYield));
}

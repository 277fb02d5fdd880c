use fauxgen::AsyncGenerator;
use fauxgen::AsyncGeneratorExt;
use fauxgen::GeneratorArg;
use fauxgen::GeneratorError;
use fauxgen::GeneratorState;
use fauxgen::GeneratorWaker;
use fauxgen::TokenId;
use fauxgen::DelayBody;
use fauxgen::EchoBody;
use fauxgen::GeneratorStream;
use fauxgen::GeneratorTryStream;
use fauxgen::ListBody;
use fauxgen::Poll;

#[test]
fn polling_before_the_wait_resolves_reports_pending() {
    let token = fauxgen::token::<u32, ()>(1);
    let mut gen = fauxgen::gen_async(token.marker(), DelayBody::new(token, vec![10u32, 20]));
    // one real outer wait before each yield: the poll that enters the
    // wait reports pending, never a spurious yield
    assert_eq!(gen.poll_resume(Some(())), Ok(Poll::Pending));
    assert_eq!(gen.poll_resume(Some(())), Ok(Poll::Ready(GeneratorState::Yielded(10))));
    assert_eq!(gen.poll_resume(Some(())), Ok(Poll::Pending));
    assert_eq!(gen.poll_resume(Some(())), Ok(Poll::Ready(GeneratorState::Yielded(20))));
    assert_eq!(gen.poll_resume(Some(())), Ok(Poll::Pending));
    assert_eq!(gen.poll_resume(Some(())), Ok(Poll::Ready(GeneratorState::Complete(()))));
}

#[test]
fn argument_stays_pending_across_waits() {
    let token = fauxgen::token::<u32, ()>(2);
    let mut gen = fauxgen::gen_async(token.marker(), DelayBody::new(token, vec![888u32]));
    // the argument is supplied once; the wait polls do not lose it
    assert_eq!(gen.poll_resume(Some(())), Ok(Poll::Pending));
    assert_eq!(gen.poll_resume(None), Ok(Poll::Ready(GeneratorState::Yielded(888))));
    assert_eq!(gen.poll_resume(Some(())), Ok(Poll::Pending));
    assert_eq!(gen.poll_resume(None), Ok(Poll::Ready(GeneratorState::Complete(()))));
}

#[test]
fn resume_future_hands_the_argument_to_the_first_poll() {
    let token = fauxgen::token::<u32, u32>(3);
    let mut gen = fauxgen::gen_async(token.marker(), EchoBody::new(token, 1));
    let mut resume = gen.resume(42);
    assert_eq!(resume.arg, Some(42));
    assert_eq!(resume.poll(&mut gen), Ok(Poll::Ready(GeneratorState::Yielded(42))));
    assert_eq!(resume.arg, None);
    let mut resume = gen.resume(7);
    assert_eq!(resume.poll(&mut gen), Ok(Poll::Ready(GeneratorState::Complete(1))));
}

#[test]
fn stream_maps_yields_to_elements() {
    let token = fauxgen::token::<u32, ()>(4);
    let gen = fauxgen::gen_async(token.marker(), DelayBody::new(token, vec![888u32]));
    let mut stream = GeneratorStream::new(gen);
    assert_eq!(stream.poll_next(), Ok(Poll::Pending));
    assert_eq!(stream.poll_next(), Ok(Poll::Ready(Some(888))));
    assert_eq!(stream.poll_next(), Ok(Poll::Pending));
    assert_eq!(stream.poll_next(), Ok(Poll::Ready(None)));
}

#[test]
fn stream_into_inner_returns_the_generator() {
    let token = fauxgen::token::<u32, ()>(5);
    let gen = fauxgen::gen_async(token.marker(), DelayBody::new(token, vec![1u32]));
    let mut stream = GeneratorStream::new(gen);
    assert_eq!(stream.poll_next(), Ok(Poll::Pending));
    let mut gen = stream.into_inner();
    assert_eq!(gen.poll_resume(Some(())), Ok(Poll::Ready(GeneratorState::Yielded(1))));
}

#[test]
fn try_stream_surfaces_the_failure_as_a_final_element() {
    let token = fauxgen::token::<i32, ()>(6);
    let body = ListBody::new(token, vec![44, 88], Err::<(), &str>("ran out of numbers"));
    let gen = fauxgen::gen_async(token.marker(), body);
    let mut stream = GeneratorTryStream::new(gen);
    assert_eq!(stream.poll_next(), Ok(Poll::Ready(Some(Ok(44)))));
    assert_eq!(stream.poll_next(), Ok(Poll::Ready(Some(Ok(88)))));
    assert_eq!(stream.poll_next(), Ok(Poll::Ready(Some(Err("ran out of numbers")))));
    assert_eq!(stream.poll_next(), Ok(Poll::Ready(None)));
    assert_eq!(stream.poll_next(), Ok(Poll::Ready(None)));
}

#[test]
fn try_stream_of_a_successful_generator_just_ends() {
    let token = fauxgen::token::<i32, ()>(7);
    let body = ListBody::new(token, vec![1], Ok::<(), &str>(()));
    let gen = fauxgen::gen_async(token.marker(), body);
    let mut stream = GeneratorTryStream::new(gen);
    assert_eq!(stream.poll_next(), Ok(Poll::Ready(Some(Ok(1)))));
    assert_eq!(stream.poll_next(), Ok(Poll::Ready(None)));
    assert_eq!(stream.poll_next(), Ok(Poll::Ready(None)));
    let stream_gen = stream.into_inner();
    let _ = stream_gen;
}

#[test]
fn register_owned_wraps_the_token() {
    let raw = fauxgen::token::<u32, u32>(8);
    let mut cx = GeneratorWaker::new(false, GeneratorArg::Arg(3u32), TokenId::invalid());
    let token = fauxgen::register_owned(raw, &mut cx).unwrap();
    assert_eq!(token.argument(&mut cx), Ok(3u32));
    // a second registration for the same execution fails
    let other = fauxgen::token::<u32, u32>(9);
    assert_eq!(
        fauxgen::register_owned(other, &mut cx).err(),
        Some(GeneratorError::AlreadyRegistered)
    );
    // the owned token can start a yield
    let mut yf = token.do_yield(5);
    assert_eq!(yf.poll(&mut cx), Ok(Poll::Pending));
}

#[test]
fn poll_without_argument_fails_at_the_next_yield() {
    let token = fauxgen::token::<u32, u32>(10);
    let mut gen = fauxgen::gen_async(token.marker(), EchoBody::new(token, 2));
    assert_eq!(gen.poll_resume(Some(5)), Ok(Poll::Ready(GeneratorState::Yielded(5))));
    // between two yield points at least one poll must supply the
    // argument; none did, so the resumed yield finds none pending
    assert_eq!(gen.poll_resume(None), Err(fauxgen::GeneratorError::NoArgument));
}

#[test]
fn stream_extension_wraps_the_generator() {
    let token = fauxgen::token::<u32, ()>(11);
    let gen = fauxgen::gen_async(token.marker(), DelayBody::new(token, vec![4u32]));
    let mut stream = gen.stream();
    assert_eq!(stream.poll_next(), Ok(Poll::Pending));
    assert_eq!(stream.poll_next(), Ok(Poll::Ready(Some(4))));
}

use fauxgen::Coroutine;
use fauxgen::EchoBody;
use fauxgen::Generator;
use fauxgen::GeneratorArg;
use fauxgen::GeneratorError;
use fauxgen::GeneratorState;
use fauxgen::GeneratorWaker;
use fauxgen::Poll;
use fauxgen::RawGeneratorToken;
use fauxgen::YieldFuture;

#[test]
fn echo_generator_round_trips_each_argument() {
    let token = fauxgen::token::<u32, u32>(1);
    let mut gen = fauxgen::gen_sync(token.marker(), EchoBody::new(token, 3));
    // the first resume's argument is read as the initial argument and
    // yielded back; each later argument is returned by the suspended
    // yield and echoed right back out
    assert_eq!(gen.resume(7), Ok(GeneratorState::Yielded(7)));
    assert_eq!(gen.resume(9), Ok(GeneratorState::Yielded(9)));
    assert_eq!(gen.resume(11), Ok(GeneratorState::Yielded(11)));
    assert_eq!(gen.resume(13), Ok(GeneratorState::Complete(3)));
}

#[test]
fn echo_generator_with_no_rounds_counts_zero() {
    let token = fauxgen::token::<u32, u32>(2);
    let mut gen = fauxgen::gen_sync(token.marker(), EchoBody::new(token, 0));
    assert_eq!(gen.resume(5), Ok(GeneratorState::Complete(0)));
}

/// The formatting body: reads its initial argument, and while the
/// value is under a hundred, yields its decimal text and reads the
/// next value from the resume argument, counting the round-trips.
struct FormatBody {
    token: RawGeneratorToken<String, u32>,
    count: u64,
    state: u8,
}

impl Coroutine<String, u32, u64> for FormatBody {
    // the model items of the trait are ghost code erased from every
    // runtime path; an unverified implementation stubs them out
    fn inv(&self) -> bool {
        panic!()
    }

    fn step_state(&self, _cx: GeneratorWaker<String, u32>) -> Self {
        panic!()
    }

    fn step_waker(&self, _cx: GeneratorWaker<String, u32>) -> GeneratorWaker<String, u32> {
        panic!()
    }

    fn step_result(&self, _cx: GeneratorWaker<String, u32>) -> Result<Poll<u64>, GeneratorError> {
        panic!()
    }

    fn poll(&mut self, cx: &mut GeneratorWaker<String, u32>) -> Result<Poll<u64>, GeneratorError> {
        match self.state {
            0 => {
                self.token.register(cx)?;
                let value = self.token.argument(cx)?;
                if value < 100 {
                    let mut yf = self.token.yield_(value.to_string());
                    let _ = yf.poll(cx)?;
                    self.state = 1;
                    Ok(Poll::Pending)
                } else {
                    self.state = 2;
                    Ok(Poll::Ready(self.count))
                }
            }
            1 => {
                let mut yf: YieldFuture<String, u32> = YieldFuture {
                    value: None,
                    token: self.token.token_id(),
                    marker: std::marker::PhantomData,
                };
                match yf.poll(cx)? {
                    Poll::Ready(value) => {
                        self.count += 1;
                        if value < 100 {
                            let mut next = self.token.yield_(value.to_string());
                            let _ = next.poll(cx)?;
                            Ok(Poll::Pending)
                        } else {
                            self.state = 2;
                            Ok(Poll::Ready(self.count))
                        }
                    }
                    Poll::Pending => unreachable!(),
                }
            }
            _ => Err(GeneratorError::AlreadyComplete),
        }
    }
}

#[test]
fn format_generator_prints_the_previous_value() {
    let token = fauxgen::token::<String, u32>(1);
    let mut gen = fauxgen::gen_sync(token.marker(), FormatBody { token, count: 0, state: 0 });

    // the initial argument is zero; each yielded text is the decimal
    // form of the previously supplied value, and the loop stops at the
    // first value of at least a hundred
    let mut texts = Vec::new();
    let mut completed = None;
    let mut previous = 0u32;
    assert_eq!(gen.resume(0), Ok(GeneratorState::Yielded("0".to_string())));
    texts.push("0".to_string());
    for value in [5u32, 10, 25, 125, 87, 31] {
        match gen.resume(value) {
            Ok(GeneratorState::Yielded(text)) => {
                assert_eq!(text, value.to_string());
                texts.push(text);
            }
            Ok(GeneratorState::Complete(count)) => {
                assert!(previous >= 100 || value >= 100);
                completed = Some(count);
                break;
            }
            Err(e) => panic!("generator protocol violation: {:?}", e),
        }
        previous = value;
    }
    assert_eq!(texts, ["0", "5", "10", "25"]);
    // four round-trips completed before the first value of at least a
    // hundred stopped the loop
    assert_eq!(completed, Some(4));
}

#[test]
fn slot_take_yield_and_take_arg() {
    let mut slot: GeneratorArg<u32, &str> = GeneratorArg::Yield(5);
    assert_eq!(slot.take_arg(), None);
    assert_eq!(slot.take_yield(), Some(5));
    assert_eq!(slot.take_yield(), None);

    let mut slot: GeneratorArg<u32, &str> = GeneratorArg::Arg("in");
    assert_eq!(slot.take_yield(), None);
    assert_eq!(slot.take_arg(), Some("in"));
    assert_eq!(slot.take_arg(), None);
}

#[test]
fn token_ids_compare_by_value() {
    let id = fauxgen::TokenId::new(5);
    assert!(id.is_valid());
    assert!(!fauxgen::TokenId::invalid().is_valid());
    assert_eq!(id, fauxgen::TokenId::new(5));
    let token = fauxgen::token::<u32, ()>(5);
    assert_eq!(token.token_id(), id);
    let wrapped = fauxgen::GeneratorToken::new(token);
    assert_eq!(wrapped.raw.token_id(), id);
}

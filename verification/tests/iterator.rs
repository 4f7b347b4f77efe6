use genawaiter::engine::{Co, Computation, Fin, Poll, Slot};
use genawaiter::ops::GeneratorState;
use genawaiter::stack::{item, Gen, Shelf};
use genawaiter::testing::Replay;

/// Yields 10, then 20, then returns.
struct Produce {
    stage: u8,
}

fn produce() -> Produce {
    Produce { stage: 0 }
}

impl Computation<Slot<i32, ()>> for Produce {
    type Output = Fin<()>;

    fn poll(&mut self, co: Co<'_, Slot<i32, ()>>) -> Poll<Fin<()>> {
        let mut co = co;
        match self.stage {
            0 => {
                self.stage = 1;
                let _ = co.yield_(10);
                Poll::Pending
            }
            1 => match co.barrier().poll() {
                Poll::Pending => Poll::Pending,
                Poll::Ready(()) => {
                    self.stage = 2;
                    let _ = co.yield_(20);
                    Poll::Pending
                }
            },
            _ => match co.barrier().poll() {
                Poll::Pending => Poll::Pending,
                Poll::Ready(()) => Poll::Ready(co.return_(())),
            },
        }
    }
}

#[test]
fn let_gen_using_into_iter() {
    let mut shelf = Shelf::new();
    let gen = Gen::new(&mut shelf, produce());

    let mut iter = gen.into_iter();
    let mut items = Vec::new();
    while let Some(x) = iter.next() {
        items.push(x);
    }
    assert_eq!(items, [10, 20]);
}

#[test]
fn let_gen_using_for_loop() {
    let mut shelf = Shelf::new();
    let gen = Gen::new(&mut shelf, produce());

    let mut sum = 0;
    let mut iter = gen.into_iter();
    while let Some(x) = iter.next() {
        sum += x;
    }
    assert_eq!(sum, 30);
}

#[test]
fn shelf_generator_into_iter() {
    let mut shelf = Shelf::new();
    let gen = Gen::new(&mut shelf, produce());

    let mut iter = gen.into_iter();
    let mut items = Vec::new();
    while let Some(x) = iter.next() {
        items.push(x);
    }
    assert_eq!(items, [10, 20]);
}

#[test]
fn shelf_generator_for_loop() {
    let mut shelf = Shelf::new();
    let gen = Gen::new(&mut shelf, produce());

    let mut sum = 0;
    let mut iter = gen.into_iter();
    while let Some(x) = iter.next() {
        sum += x;
    }
    assert_eq!(sum, 30);
}

#[test]
fn iterator_signals_exhaustion_after_the_last_value() {
    let mut shelf = Shelf::new();
    let mut iter = Gen::new(&mut shelf, produce()).into_iter();
    assert_eq!(iter.next(), Some(10));
    assert_eq!(iter.next(), Some(20));
    assert_eq!(iter.next(), None);
}

#[test]
fn borrowed_iterator_leaves_the_generator_where_it_stopped() {
    let mut shelf = Shelf::new();
    let mut gen = Gen::new(&mut shelf, produce());
    {
        let mut iter = gen.iter_mut();
        assert_eq!(iter.next(), Some(10));
    }
    assert_eq!(gen.resume(), GeneratorState::Yielded(20));
    assert_eq!(gen.resume(), GeneratorState::Complete(()));
}

#[test]
fn stack_generator_opens_the_terminal_value() {
    let mut shelf = Shelf::new();
    let mut gen = Gen::new(&mut shelf, Replay::new(vec![1]));
    assert_eq!(gen.resume_with("x"), GeneratorState::Yielded(1));
    assert_eq!(gen.resume_with("y"), GeneratorState::Complete(Some("y")));
}

#[test]
fn item_maps_a_step_to_an_item() {
    assert_eq!(item(GeneratorState::Yielded(3)), Some(3));
    assert_eq!(item(GeneratorState::<i32, ()>::Complete(())), None);
}

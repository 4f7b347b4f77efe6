use genawaiter::engine::{Co, Computation, Poll, Slot};
use genawaiter::ops::GeneratorState;
use genawaiter::rc::{Gen, GenBoxed};
use std::cell::RefCell;

/// Yields the odd numbers below ten, then returns.
struct OddNumbersLessThanTen {
    next: i32,
}

fn odd_numbers_less_than_ten() -> OddNumbersLessThanTen {
    OddNumbersLessThanTen { next: 1 }
}

impl Computation<Slot<i32, ()>> for OddNumbersLessThanTen {
    type Output = ();

    fn poll(&mut self, co: Co<'_, Slot<i32, ()>>) -> Poll<()> {
        let mut co = co;
        if self.next > 1 {
            if let Poll::Pending = co.barrier().poll() {
                return Poll::Pending;
            }
        }
        if self.next < 10 {
            let n = self.next;
            self.next += 2;
            let _ = co.yield_(n);
            Poll::Pending
        } else {
            Poll::Ready(())
        }
    }
}

#[test]
fn can_be_stored_in_static() {
    let cel: RefCell<GenBoxed<i32, (), OddNumbersLessThanTen>> =
        RefCell::new(Gen::new_boxed(odd_numbers_less_than_ten()));

    let mut guard = cel.borrow_mut();
    assert_eq!(guard.resume(), GeneratorState::Yielded(1));
    assert_eq!(guard.resume(), GeneratorState::Yielded(3));
}

#[test]
fn boxed_generator_runs_to_completion() {
    let mut gen = Gen::new_boxed(odd_numbers_less_than_ten());
    let mut seen = Vec::new();
    loop {
        match gen.resume() {
            GeneratorState::Yielded(n) => seen.push(n),
            GeneratorState::Complete(()) => break,
        }
    }
    assert_eq!(seen, [1, 3, 5, 7, 9]);
}

//! What holds of the handoff between a driver and a computation over any
//! number of steps.

use crate::engine::{
    awaited, cleared, resumed, steps_synchronously, surfaced, surfaces, Airlock, Computation,
    Next, Poll,
};
use crate::ops::GeneratorState;
use vstd::prelude::*;

verus! {

/// True of a computation that, resumed with `args` one after the other,
/// yields `values` in turn and then returns `output`. The last of `args`
/// is the one with which it runs to its end.
pub open spec fn scripted<A: Airlock, F: Computation<A>>(
    computation: F,
    values: Seq<A::Yield>,
    output: F::Output,
    args: Seq<A::Resume>,
) -> bool
    decreases values.len(),
{
    let slot = Next::<A::Yield, A::Resume>::Resume(args[0]);
    &&& args.len() == values.len() + 1
    &&& computation.admits(slot)
    &&& if values.len() == 0 {
        computation.outcome(slot) == Poll::Ready(output)
    } else {
        &&& computation.outcome(slot) is Pending
        &&& computation.slot_after(slot) == Next::<A::Yield, A::Resume>::Yield(values[0])
        &&& scripted(computation.successor(slot), values.skip(1), output, args.skip(1))
    }
}

/// What the synchronous driver returns, step by step, when it resumes
/// `computation` with each of `args` in turn.
pub open spec fn sync_trace<A: Airlock, F: Computation<A>>(
    computation: F,
    args: Seq<A::Resume>,
) -> Seq<GeneratorState<A::Yield, F::Output>>
    decreases args.len(),
{
    if args.len() == 0 {
        Seq::empty()
    } else {
        let slot = Next::<A::Yield, A::Resume>::Resume(args[0]);
        seq![surfaced(computation.outcome(slot), computation.slot_after(slot))] + sync_trace(
            computation.successor(slot),
            args.skip(1),
        )
    }
}

/// The trace of a computation that yields `values` and then returns
/// `output`.
pub open spec fn script_trace<Y, O>(values: Seq<Y>, output: O) -> Seq<GeneratorState<Y, O>> {
    values.map_values(|value: Y| GeneratorState::<Y, O>::Yielded(value)).push(
        GeneratorState::Complete(output),
    )
}

/// A computation that yields `values` in turn and then returns `output`
/// can be stepped synchronously once more than it has values, and the
/// steps return exactly the values, in the order in which they were
/// yielded, and then the output.
pub proof fn values_surface_in_order<A: Airlock, F: Computation<A>>(
    computation: F,
    values: Seq<A::Yield>,
    output: F::Output,
    args: Seq<A::Resume>,
)
    requires
        scripted(computation, values, output, args),
    ensures
        sync_trace(computation, args) == script_trace(values, output),
        sync_trace(computation, args).len() == values.len() + 1,
        forall|step: int|
            0 <= step < values.len() ==> sync_trace(computation, args)[step]
                == GeneratorState::<A::Yield, F::Output>::Yielded(values[step]),
        sync_trace(computation, args)[values.len() as int] == GeneratorState::<
            A::Yield,
            F::Output,
        >::Complete(output),
    decreases values.len(),
{
    let slot = Next::<A::Yield, A::Resume>::Resume(args[0]);
    if values.len() == 0 {
        assert(args.skip(1).len() == 0);
        assert(sync_trace(computation.successor(slot), args.skip(1)) =~= Seq::empty());
        assert(sync_trace(computation, args) =~= script_trace(values, output));
    } else {
        values_surface_in_order(computation.successor(slot), values.skip(1), output, args.skip(1));
        let rest = sync_trace(computation.successor(slot), args.skip(1));
        assert(rest == script_trace(values.skip(1), output));
        assert(sync_trace(computation, args) =~= script_trace(values, output)) by {
            assert forall|step: int| 0 <= step < values.len() + 1 implies sync_trace(
                computation,
                args,
            )[step] == script_trace(values, output)[step] by {
                if step > 0 {
                    assert(sync_trace(computation, args)[step] == rest[step - 1]);
                }
            }
        }
    }
}

/// Every step of a computation that yields and then returns is one that
/// the synchronous driver accepts: the computation admits the step, and it
/// suspends only where it has yielded.
pub proof fn scripted_steps_are_synchronous<A: Airlock, F: Computation<A>>(
    computation: F,
    values: Seq<A::Yield>,
    output: F::Output,
    args: Seq<A::Resume>,
)
    requires
        scripted(computation, values, output, args),
    ensures
        computation.admits(Next::Resume(args[0])),
        steps_synchronously(computation, Next::Resume(args[0])),
        values.len() > 0 ==> scripted(
            computation.successor(Next::Resume(args[0])),
            values.skip(1),
            output,
            args.skip(1),
        ),
{
}

/// One round of the handoff: the computation yields `value` and waits, the
/// driver takes the value and answers with `arg`, and the computation
/// takes the answer. The result is what the driver was handed, what the
/// computation was handed, and the slot after the round.
pub open spec fn round<Y, R>(value: Y, arg: R) -> (GeneratorState<Y, ()>, Poll<R>, Next<Y, R>) {
    let waiting = Next::<Y, R>::Yield(value);
    let handed_out = surfaced(Poll::<()>::Pending, waiting);
    let answered = Next::<Y, R>::Resume(arg);
    (handed_out, resumed(answered), awaited(answered))
}

/// The resume value that the driver supplies after a yield is the value
/// that the computation gets at the suspension point of that yield. Until
/// the driver has answered, the computation stays suspended and the
/// yielded value stays in the slot; after the round the slot is empty, and
/// the next round can begin.
pub proof fn resume_round_trip<Y, R>(value: Y, arg: R)
    ensures
        resumed(Next::<Y, R>::Yield(value)) is Pending,
        awaited(Next::<Y, R>::Yield(value)) == Next::<Y, R>::Yield(value),
        cleared::<Y, R, ()>(Poll::Pending) is Empty,
        round(value, arg) == (
            GeneratorState::<Y, ()>::Yielded(value),
            Poll::Ready(arg),
            Next::<Y, R>::Empty,
        ),
        round(value, arg).2.accepts_yield(),
{
}

/// What the two sides are handed over a number of rounds, one for each of
/// `values`: the driver's values first, the computation's second.
pub open spec fn rounds<Y, R>(values: Seq<Y>, args: Seq<R>) -> (
    Seq<GeneratorState<Y, ()>>,
    Seq<Poll<R>>,
)
    decreases values.len(),
{
    if values.len() == 0 || args.len() != values.len() {
        (Seq::empty(), Seq::empty())
    } else {
        let first = round(values[0], args[0]);
        let rest = rounds(values.skip(1), args.skip(1));
        (seq![first.0] + rest.0, seq![first.1] + rest.1)
    }
}

/// Over any number of rounds the driver is handed exactly the values that
/// the computation yielded, and the computation exactly the resume values
/// that the driver supplied, each in the order in which it was given.
pub proof fn handoffs_keep_order<Y, R>(values: Seq<Y>, args: Seq<R>)
    requires
        args.len() == values.len(),
    ensures
        rounds(values, args).0 == values.map_values(
            |value: Y| GeneratorState::<Y, ()>::Yielded(value),
        ),
        rounds(values, args).1 == args.map_values(|arg: R| Poll::Ready(arg)),
    decreases values.len(),
{
    if values.len() > 0 {
        handoffs_keep_order(values.skip(1), args.skip(1));
    }
    assert(rounds(values, args).0 =~= values.map_values(
        |value: Y| GeneratorState::<Y, ()>::Yielded(value),
    ));
    assert(rounds(values, args).1 =~= args.map_values(|arg: R| Poll::Ready(arg)));
}

/// Once a value has been yielded, the slot takes no second one before the
/// driver has stepped in: the slot that a yield leaves is one on which no
/// yield is admitted.
pub proof fn pending_yield_refuses_another<Y, R>(value: Y)
    ensures
        !Next::<Y, R>::Yield(value).accepts_yield(),
{
}

/// Once a driver has reported the computation's end, the slot is closed
/// and no yield is admitted on it.
pub proof fn completed_slot_refuses_yield<Y, R, O>(output: O)
    ensures
        cleared::<Y, R, O>(Poll::Ready(output)) is Completed,
        !cleared::<Y, R, O>(Poll::Ready(output)).accepts_yield(),
        !Next::<Y, R>::Completed.accepts_yield(),
{
}

/// A computation that suspends without having yielded, because it waits
/// for a resume value or for anything else, is not one that the
/// synchronous driver steps, and what such a step leaves is not something
/// that the synchronous driver hands over.
pub proof fn waiting_without_yield_is_not_synchronous<A: Airlock, F: Computation<A>>(
    computation: F,
    slot: Next<A::Yield, A::Resume>,
)
    requires
        computation.outcome(slot) is Pending,
        !(computation.slot_after(slot) is Yield),
    ensures
        !steps_synchronously(computation, slot),
        !surfaces(computation.outcome(slot), computation.slot_after(slot)),
{
}

/// A suspended step that has left a resume value in the slot, unread, is
/// not one that the synchronous driver hands over.
pub proof fn unread_resume_does_not_surface<Y, R, O>(arg: R)
    ensures
        !surfaces(Poll::<O>::Pending, Next::<Y, R>::Resume(arg)),
        !surfaces(Poll::<O>::Pending, Next::<Y, R>::Empty),
{
}

} // verus!

//! Operations, from their start to their end.
//!
//! An operation alternates between decisions and things that only the outside can do: run a
//! clock, see whether a table is free, make a guard, call into MLX. Its state says which of these
//! is next; what came of it is the event that leads to the next state.

use vstd::prelude::*;

use crate::error::{Location, LocationView};
use crate::guard::{fails, settle_failure, settle_success, succeeds, Guard, Settled, SUCCESS};
use crate::instrument::{plan_op, return_op, start_op, Instruments, InstrumentsView, OpPlan};

verus! {

/// What is next in an operation.
pub enum OpState<T, G> {
    /// Start the clock.
    StartClock(OpPlan),
    /// See whether the table of callsites is free.
    LockBreakdown(OpPlan),
    /// Make sure that MLX hands its errors to this thread.
    InstallHandler(OpPlan),
    /// Make a guard around a new result.
    MakeGuard(OpPlan),
    /// Call into MLX.
    MakeCall(OpPlan, G),
    /// Read the clock.
    ReadClock(OpPlan, G, i32),
    /// See whether the table of times is free.
    LockTiming(OpPlan, G, i32, u128),
    /// Take the message that MLX left behind.
    TakeError(G),
    /// Nothing: the operation has ended.
    Done(Settled<T>),
}

/// What came of it.
pub enum OpEvent<G, R> {
    /// The clock is running.
    ClockStarted,
    /// The table of callsites is free, or not.
    BreakdownLocked(bool),
    /// MLX hands its errors to this thread.
    HandlerInstalled,
    /// The guard.
    GuardMade(G),
    /// What the call has written, and its status.
    Returned(R, i32),
    /// The nanoseconds since the clock was started.
    ClockRead(u128),
    /// The table of times is free, or not.
    TimingLocked(bool),
    /// The message. There is none where MLX left none behind.
    ErrorTaken(Option<String>),
}

/// Where an operation begins that finds the switches as `plan` says.
pub open spec fn begins<T, G>(plan: OpPlan, state: OpState<T, G>) -> bool {
    if plan.timed {
        state == OpState::<T, G>::StartClock(plan)
    } else if plan.instrument {
        state == OpState::<T, G>::LockBreakdown(plan)
    } else {
        state == OpState::<T, G>::InstallHandler(plan)
    }
}

/// Where an operation goes on once nothing is left to be recorded: to its end where it
/// succeeded, to the message where it did not.
pub open spec fn concludes<T, G: Guard<T>>(
    guard: G,
    status: i32,
    here: LocationView,
    state: OpState<T, G>,
) -> bool {
    if status == SUCCESS {
        state matches OpState::Done(settled) && succeeds::<T, G>(guard.raw(), here, settled)
    } else {
        state == OpState::<T, G>::TakeError(guard)
    }
}

/// `event` is one that `state` waits for, and one that the operation can go on from: a tally has
/// room where it is to be written, and a call that failed left a message behind.
pub open spec fn awaits<T, G: Guard<T>>(
    state: OpState<T, G>,
    event: OpEvent<G, G::Raw>,
    instruments: InstrumentsView,
    at: LocationView,
) -> bool {
    match (state, event) {
        (OpState::StartClock(_), OpEvent::ClockStarted) => true,
        (OpState::LockBreakdown(plan), OpEvent::BreakdownLocked(acquired)) => plan.instrument
            && acquired ==> instruments.has_count_room(at),
        (OpState::InstallHandler(_), OpEvent::HandlerInstalled) => true,
        (OpState::MakeGuard(_), OpEvent::GuardMade(_)) => true,
        (OpState::MakeCall(_, _), OpEvent::Returned(_, _)) => true,
        (OpState::ReadClock(_, _, _), OpEvent::ClockRead(_)) => true,
        (
            OpState::LockTiming(plan, _, _, elapsed_ns),
            OpEvent::TimingLocked(acquired),
        ) => plan.timed && acquired ==> instruments.has_time_room(at, elapsed_ns),
        (OpState::TakeError(_), OpEvent::ErrorTaken(what)) => what is Some,
        _ => false,
    }
}

/// The instruments after `event` came in `state`.
pub open spec fn recorded<T, G: Guard<T>>(
    instruments: InstrumentsView,
    state: OpState<T, G>,
    event: OpEvent<G, G::Raw>,
    at: LocationView,
) -> InstrumentsView {
    match (state, event) {
        (
            OpState::LockBreakdown(plan),
            OpEvent::BreakdownLocked(acquired),
        ) => instruments.started(plan, at, acquired),
        (
            OpState::LockTiming(plan, _, _, elapsed_ns),
            OpEvent::TimingLocked(acquired),
        ) => instruments.returned(plan, at, elapsed_ns, acquired),
        _ => instruments,
    }
}

/// `next` is the state after `event` came in `state`.
pub open spec fn follows<T, G: Guard<T>>(
    state: OpState<T, G>,
    event: OpEvent<G, G::Raw>,
    at: LocationView,
    here: LocationView,
    next: OpState<T, G>,
) -> bool {
    match (state, event) {
        (OpState::StartClock(plan), OpEvent::ClockStarted) => next
            == OpState::<T, G>::LockBreakdown(plan),
        (OpState::LockBreakdown(plan), OpEvent::BreakdownLocked(_)) => next
            == OpState::<T, G>::InstallHandler(plan),
        (OpState::InstallHandler(plan), OpEvent::HandlerInstalled) => next
            == OpState::<T, G>::MakeGuard(plan),
        (OpState::MakeGuard(plan), OpEvent::GuardMade(guard)) => next == OpState::<
            T,
            G,
        >::MakeCall(plan, guard),
        (OpState::MakeCall(plan, guard), OpEvent::Returned(raw, status)) => exists|filled: G|
            {
                &&& #[trigger] filled.raw() == raw
                &&& filled.ready() == guard.ready()
                &&& filled.fresh() == guard.fresh()
                &&& if plan.timed {
                    next == OpState::<T, G>::ReadClock(plan, filled, status)
                } else {
                    concludes(filled, status, here, next)
                }
            },
        (OpState::ReadClock(plan, guard, status), OpEvent::ClockRead(elapsed_ns)) => next
            == OpState::<T, G>::LockTiming(plan, guard, status, elapsed_ns),
        (OpState::LockTiming(_, guard, status, _), OpEvent::TimingLocked(_)) => concludes(
            guard,
            status,
            here,
            next,
        ),
        (OpState::TakeError(guard), OpEvent::ErrorTaken(Some(what))) => next matches OpState::Done(
            settled,
        ) && fails(guard, what@, at, settled),
        _ => false,
    }
}

/// Begins an operation.
pub fn begin_op<T, G: Guard<T>>(instruments: &Instruments) -> (state: OpState<T, G>)
    ensures
        begins(instruments@.plan(), state),
{
    let plan: OpPlan = plan_op(instruments);
    if plan.timed {
        OpState::StartClock(plan)
    } else if plan.instrument {
        OpState::LockBreakdown(plan)
    } else {
        OpState::InstallHandler(plan)
    }
}

fn conclude<T, G: Guard<T>>(guard: G, status: i32, here: &Location) -> (state: OpState<T, G>)
    ensures
        concludes(guard, status, here@, state),
{
    if status == SUCCESS {
        OpState::Done(settle_success(guard, here))
    } else {
        OpState::TakeError(guard)
    }
}

/// Takes an operation at `at` from one state to the next. `here` is the place that an error of
/// the conversion points to.
pub fn try_from_op<T, G: Guard<T>>(
    instruments: &mut Instruments,
    state: OpState<T, G>,
    event: OpEvent<G, G::Raw>,
    at: &Location,
    here: &Location,
) -> (next: OpState<T, G>)
    requires
        old(instruments).wf(),
        awaits(state, event, old(instruments)@, at@),
    ensures
        final(instruments).wf(),
        final(instruments)@ == recorded(old(instruments)@, state, event, at@),
        follows(state, event, at@, here@, next),
{
    match (state, event) {
        (OpState::StartClock(plan), OpEvent::ClockStarted) => OpState::LockBreakdown(plan),
        (OpState::LockBreakdown(plan), OpEvent::BreakdownLocked(acquired)) => {
            start_op(instruments, plan, at, acquired);
            OpState::InstallHandler(plan)
        },
        (OpState::InstallHandler(plan), OpEvent::HandlerInstalled) => OpState::MakeGuard(plan),
        (OpState::MakeGuard(plan), OpEvent::GuardMade(guard)) => OpState::MakeCall(plan, guard),
        (OpState::MakeCall(plan, mut guard), OpEvent::Returned(raw, status)) => {
            guard.fill(raw);
            if plan.timed {
                OpState::ReadClock(plan, guard, status)
            } else {
                conclude(guard, status, here)
            }
        },
        (
            OpState::ReadClock(plan, guard, status),
            OpEvent::ClockRead(elapsed_ns),
        ) => OpState::LockTiming(plan, guard, status, elapsed_ns),
        (
            OpState::LockTiming(plan, guard, status, elapsed_ns),
            OpEvent::TimingLocked(acquired),
        ) => {
            return_op(instruments, plan, at, elapsed_ns, acquired);
            conclude(guard, status, here)
        },
        (OpState::TakeError(guard), OpEvent::ErrorTaken(Some(what))) => OpState::Done(
            settle_failure(guard, what, at),
        ),
        (state, _) => state,
    }
}

/// An operation together with the call that it makes.
pub struct Op<C, T, G> {
    /// The call that is to be made where the state is `MakeCall`.
    pub call: C,
    /// What is next.
    pub state: OpState<T, G>,
}

impl<C, T, G: Guard<T>> Op<C, T, G> {
    /// Begins an operation that makes `call`.
    pub fn begin(instruments: &Instruments, call: C) -> (op: Self)
        ensures
            op.call == call,
            begins(instruments@.plan(), op.state),
    {
        Op { call, state: begin_op(instruments) }
    }

    /// Takes the operation, called at `at`, from one state to the next. The call stays the same.
    pub fn step(
        self,
        instruments: &mut Instruments,
        event: OpEvent<G, G::Raw>,
        at: &Location,
        here: &Location,
    ) -> (next: Self)
        requires
            old(instruments).wf(),
            awaits(self.state, event, old(instruments)@, at@),
        ensures
            next.call == self.call,
            final(instruments).wf(),
            final(instruments)@ == recorded(old(instruments)@, self.state, event, at@),
            follows(self.state, event, at@, here@, next.state),
    {
        Op { call: self.call, state: try_from_op(instruments, self.state, event, at, here) }
    }
}

} // verus!

//! Operations, step by step: what each answer leads to, and how a run ends.

use vstd::prelude::*;

use crate::error::{Location, LocationView};
use crate::guard::{Guard, Settled};
use crate::handles::Handle;
use crate::instrument::{Instruments, InstrumentsView};
use crate::laws::instruments::{happens, Happening};
use crate::laws::operations::OpRun;
use crate::op::{
    awaits, begin_op, begins, concludes, follows, recorded, try_from_op, Op, OpEvent, OpState,
};

verus! {

impl<T, G: Guard<T>> OpRun<T, G> {
    /// The run is one of an operation with a new guard. It need not have ended.
    pub open spec fn goes_on(self) -> bool {
        &&& self.states.len() == self.events.len() + 1
        &&& self.before.len() == self.events.len()
        &&& self.after.len() == self.events.len()
        &&& begins(self.begun.plan(), self.states[0])
        &&& forall|i: int| 0 <= i < self.events.len() ==> #[trigger] self.steps(i)
    }

    /// How the operation ended.
    pub open spec fn end(self) -> Settled<T> {
        self.states.last()->Done_0
    }

    /// The operation found the switch on.
    pub open spec fn counted(self) -> bool {
        self.begun.instrument_enabled
    }

    /// The operation found both switches on.
    pub open spec fn clocked(self) -> bool {
        self.begun.instrument_enabled && self.begun.op_timing_enabled
    }

    /// The step at which the operation is counted.
    pub open spec fn count_step(self) -> int {
        if self.clocked() {
            1
        } else {
            0
        }
    }

    /// The step at which the call comes back.
    pub open spec fn return_step(self) -> int {
        if self.clocked() {
            4
        } else if self.counted() {
            3
        } else {
            2
        }
    }

    /// The state after all that is to be recorded has been.
    pub open spec fn conclusion_step(self) -> int {
        if self.clocked() {
            7
        } else {
            self.return_step() + 1
        }
    }

    /// What the call has written.
    pub open spec fn raw(self) -> G::Raw {
        self.events[self.return_step()]->Returned_0
    }

    /// The status that the call returned.
    pub open spec fn status(self) -> i32 {
        self.events[self.return_step()]->Returned_1
    }

    /// The message that MLX left behind.
    pub open spec fn message(self) -> Seq<char> {
        self.events[self.conclusion_step()]->ErrorTaken_0->0@
    }
}

/// `result` is an error with the message `what`, and it points to `at`.
pub open spec fn failed_at<T>(
    result: Result<T, crate::error::Exception>,
    what: Seq<char>,
    at: LocationView,
) -> bool {
    &&& result matches Err(e)
    &&& e.what@ == what
    &&& e.location.file@ == at.file
    &&& e.location.line == at.line
    &&& e.location.column == at.column
}

/// An operation begins as the switches say and goes on as its state says, whichever function runs it.
pub proof fn operations_are_run_by_their_steps<C, T, G: Guard<T>>(
    begun_with: &Instruments,
    begun: OpState<T, G>,
    call: C,
    op: Op<C, T, G>,
    instruments: &mut Instruments,
    state: OpState<T, G>,
    event: OpEvent<G, G::Raw>,
    at: &Location,
    here: &Location,
    next: OpState<T, G>,
)
    requires
        call_ensures(begin_op::<T, G>, (begun_with,), begun),
        call_ensures(Op::<C, T, G>::begin, (begun_with, call), op),
        call_ensures(try_from_op::<T, G>, (instruments, state, event, at, here), next),
    ensures
        begins(begun_with@.plan(), begun),
        op.call == call,
        begins(begun_with@.plan(), op.state),
        final(instruments)@ == recorded(old(instruments)@, state, event, at@),
        follows(state, event, at@, here@, next),
{
}

/// A step of an operation keeps its call and is a step of its state.
pub proof fn operations_keep_their_call<C, T, G: Guard<T>>(
    op: Op<C, T, G>,
    instruments: &mut Instruments,
    event: OpEvent<G, G::Raw>,
    at: &Location,
    here: &Location,
    next: Op<C, T, G>,
)
    requires
        call_ensures(Op::<C, T, G>::step, (op, instruments, event, at, here), next),
    ensures
        next.call == op.call,
        final(instruments)@ == recorded(old(instruments)@, op.state, event, at@),
        follows(op.state, event, at@, here@, next.state),
{
}

/// An operation never waits for something that cannot come. Whatever the outside answers to a
/// state is taken: any guard, whatever the call wrote and returned, any time, any message. The
/// exceptions are a tally that is full, and a call that failed and left no message.
pub proof fn every_answer_is_taken<T, G: Guard<T>>(
    state: OpState<T, G>,
    v: InstrumentsView,
    at: LocationView,
    guard: G,
    raw: G::Raw,
    status: i32,
    elapsed_ns: u128,
    what: String,
    acquired: bool,
)
    ensures
        match state {
            OpState::StartClock(_) => awaits(state, OpEvent::ClockStarted, v, at),
            OpState::LockBreakdown(_) => (acquired ==> v.has_count_room(at)) ==> awaits(
                state,
                OpEvent::BreakdownLocked(acquired),
                v,
                at,
            ),
            OpState::InstallHandler(_) => awaits(state, OpEvent::HandlerInstalled, v, at),
            OpState::MakeGuard(_) => awaits(state, OpEvent::GuardMade(guard), v, at),
            OpState::MakeCall(_, _) => awaits(state, OpEvent::Returned(raw, status), v, at),
            OpState::ReadClock(_, _, _) => awaits(state, OpEvent::ClockRead(elapsed_ns), v, at),
            OpState::LockTiming(_, _, _, took_ns) => (acquired ==> v.has_time_room(at, took_ns))
                ==> awaits(state, OpEvent::TimingLocked(acquired), v, at),
            OpState::TakeError(_) => awaits(state, OpEvent::ErrorTaken(Some(what)), v, at),
            OpState::Done(_) => true,
        },
{
}

/// The states of an operation follow one schedule. The clock is started first where both switches
/// were on, the operation is counted next where the switch was on, and then come the handler, the
/// guard and the one call. After the call the time is read and recorded where the clock runs. A
/// status of zero ends the operation there; after any other the message is taken, and that ends
/// it.
pub proof fn operation_keeps_its_schedule<T, G: Guard<T>>(run: OpRun<T, G>)
    requires
        run.goes_on(),
    ensures
        run.clocked() ==> run.states[0] is StartClock,
        run.counted() && run.events.len() >= run.count_step() ==> run.states[run.count_step()]
            is LockBreakdown,
        run.events.len() >= run.return_step() - 2 ==> run.states[run.return_step() - 2]
            is InstallHandler,
        run.events.len() >= run.return_step() - 1 ==> run.states[run.return_step() - 1]
            is MakeGuard,
        run.events.len() >= run.return_step() ==> run.states[run.return_step()] is MakeCall,
        run.events.len() > run.return_step() ==> run.events[run.return_step()] is Returned,
        run.clocked() && run.events.len() >= 5 ==> run.states[5] is ReadClock,
        run.clocked() && run.events.len() >= 6 ==> run.states[6] is LockTiming,
        run.events.len() >= run.conclusion_step() ==> {
            let concluded = run.states[run.conclusion_step()];
            &&& run.status() == 0 ==> concluded is Done && run.events.len()
                == run.conclusion_step()
            &&& run.status() != 0 ==> concluded is TakeError
        },
        run.events.len() > run.conclusion_step() ==> {
            &&& run.events[run.conclusion_step()] matches OpEvent::ErrorTaken(Some(_))
            &&& run.states[run.conclusion_step() + 1] is Done
            &&& run.events.len() == run.conclusion_step() + 1
        },
{
    if run.events.len() > run.return_step() {
        let filled = schedule(run);
    } else {
        early_schedule(run);
    }
}

proof fn early_schedule<T, G: Guard<T>>(run: OpRun<T, G>)
    requires
        run.goes_on(),
    ensures
        ({
            let plan = run.begun.plan();
            let n = run.events.len();
            let back = run.return_step();
            &&& plan.instrument == run.counted()
            &&& plan.timed == run.clocked()
            &&& run.clocked() ==> run.states[0] == OpState::<T, G>::StartClock(plan)
            &&& run.counted() && n >= run.count_step() ==> run.states[run.count_step()]
                == OpState::<T, G>::LockBreakdown(plan)
            &&& n >= back - 2 ==> run.states[back - 2] == OpState::<T, G>::InstallHandler(plan)
            &&& n >= back - 1 ==> run.states[back - 1] == OpState::<T, G>::MakeGuard(plan)
            &&& n >= back ==> (run.events[back - 1] matches OpEvent::GuardMade(guard)
                && run.states[back] == OpState::<T, G>::MakeCall(plan, guard) && guard.fresh())
        }),
{
    let n = run.events.len();
    let back = run.return_step();
    if run.clocked() && n > 0 {
        assert(run.steps(0));
    }
    if run.counted() && n > run.count_step() {
        assert(run.steps(run.count_step()));
    }
    if n > back - 2 {
        assert(run.steps(back - 2));
    }
    if n > back - 1 {
        assert(run.steps(back - 1));
    }
}

/// The whole schedule of a run whose call came back, and the guard with what the call has written.
proof fn schedule<T, G: Guard<T>>(run: OpRun<T, G>) -> (filled: G)
    requires
        run.goes_on(),
        run.events.len() > run.return_step(),
    ensures
        ({
            let plan = run.begun.plan();
            let n = run.events.len();
            let back = run.return_step();
            let done = run.conclusion_step();
            &&& plan.instrument == run.counted()
            &&& plan.timed == run.clocked()
            &&& run.clocked() ==> run.states[0] == OpState::<T, G>::StartClock(plan)
            &&& run.counted() ==> run.states[run.count_step()] == OpState::<T, G>::LockBreakdown(
                plan,
            )
            &&& run.states[back - 2] == OpState::<T, G>::InstallHandler(plan)
            &&& run.states[back - 1] == OpState::<T, G>::MakeGuard(plan)
            &&& run.states[back] is MakeCall
            &&& run.events[back] is Returned
            &&& filled.raw() == run.raw()
            &&& filled.fresh()
            &&& run.clocked() ==> run.states[5] == OpState::<T, G>::ReadClock(
                plan,
                filled,
                run.status(),
            )
            &&& run.clocked() && n > 5 ==> (run.events[5] matches OpEvent::ClockRead(elapsed_ns)
                && run.states[6] == OpState::<T, G>::LockTiming(
                plan,
                filled,
                run.status(),
                elapsed_ns,
            ))
            &&& n >= done ==> {
                &&& concludes(filled, run.status(), run.here, run.states[done])
                &&& run.status() == 0 ==> run.states[done] is Done && n == done
                &&& run.status() != 0 ==> run.states[done] == OpState::<T, G>::TakeError(filled)
            }
            &&& n > done ==> {
                &&& run.status() != 0
                &&& run.events[done] matches OpEvent::ErrorTaken(Some(_))
                &&& run.states[done + 1] is Done
                &&& follows(
                    OpState::<T, G>::TakeError(filled),
                    run.events[done],
                    run.at,
                    run.here,
                    run.states[done + 1],
                )
                &&& n == done + 1
            }
        }),
{
    let plan = run.begun.plan();
    let n = run.events.len();
    let back = run.return_step();
    let done = run.conclusion_step();
    early_schedule(run);
    let guard = run.events[back - 1]->GuardMade_0;
    assert(run.steps(back));
    let filled = choose|filled: G|
        {
            &&& #[trigger] filled.raw() == run.raw()
            &&& filled.ready() == guard.ready()
            &&& filled.fresh() == guard.fresh()
            &&& if plan.timed {
                run.states[back + 1] == OpState::<T, G>::ReadClock(plan, filled, run.status())
            } else {
                concludes(filled, run.status(), run.here, run.states[back + 1])
            }
        };
    assert(filled.raw() == run.raw() && filled.fresh());
    if run.clocked() && n > 5 {
        assert(run.steps(5));
    }
    if run.clocked() && n > 6 {
        assert(run.steps(6));
    }
    if n > done {
        assert(run.steps(done));
        if n > done + 1 {
            assert(run.steps(done + 1));
        }
    }
    filled
}

/// An operation makes one call. Where that succeeds, the caller gets what the call has written,
/// with all its handles, and nothing is freed. Where it fails, the caller gets the message that
/// MLX left behind and the place of the operation, and all handles that the call has written are
/// freed. So no handle is lost, and none is freed that someone owns. This holds whatever happens
/// to the instruments meanwhile.
pub proof fn operation_ends_as_its_call_did<T, G: Guard<T>>(run: OpRun<T, G>)
    requires
        run.wf(),
    ensures
        run.events[run.return_step()] is Returned,
        run.status() == 0 ==> {
            &&& run.events.len() == run.conclusion_step()
            &&& G::yields(run.raw(), run.here, run.end().result)
            &&& run.end().freed@ == Seq::<Handle>::empty()
            &&& run.end().result matches Ok(guarded) ==> G::owned(guarded) == G::handles(run.raw())
        },
        run.status() != 0 ==> {
            &&& run.events.len() == run.conclusion_step() + 1
            &&& run.events.last() matches OpEvent::ErrorTaken(Some(_))
            &&& failed_at(run.end().result, run.message(), run.at)
            &&& run.end().freed@ == G::handles(run.raw())
        },
        forall|i: int|
            0 <= i < run.events.len() && (#[trigger] run.events[i]) is Returned ==> i
                == run.return_step(),
{
    early_schedule(run);
    let filled = schedule(run);
    if run.status() == 0 {
        if let Ok(guarded) = run.end().result {
            G::hands_on_all(run.raw(), run.here, guarded);
        }
    } else {
        filled.fresh_frees_all();
    }
    assert forall|i: int| 0 <= i < run.events.len() && (
    #[trigger] run.events[i]) is Returned implies i == run.return_step() by {
        assert(run.steps(i));
        assert(run.states[i] is MakeCall);
    }
}

/// What an operation does to the instruments. Where it found the switch on, it starts once, at its
/// own callsite; where it found the clock on as well, it comes back once, at its own callsite,
/// with the time that was read. Nothing else of it touches the instruments.
pub proof fn operation_records_as_switched<T, G: Guard<T>>(run: OpRun<T, G>)
    requires
        run.wf(),
    ensures
        forall|i: int|
            0 <= i < run.events.len() ==> (#[trigger] run.after[i]) == (match run.happening(i) {
                Some(h) => happens(run.before[i], h),
                None => run.before[i],
            }),
        forall|i: int|
            0 <= i < run.events.len() ==> (#[trigger] run.happening(i) is Some <==> (run.counted()
                && i == run.count_step()) || (run.clocked() && i == 6)),
        run.counted() ==> run.events.len() > run.count_step() && (run.happening(
            run.count_step(),
        ) matches Some(Happening::Started { at, acquired }) && at == run.at
            && run.events[run.count_step()] == OpEvent::<G, G::Raw>::BreakdownLocked(acquired)),
        run.clocked() ==> run.events.len() > 6 && (run.happening(6) matches Some(
            Happening::Returned { at, elapsed_ns, acquired },
        ) && at == run.at && run.events[5] == OpEvent::<G, G::Raw>::ClockRead(elapsed_ns)
            && run.events[6] == OpEvent::<G, G::Raw>::TimingLocked(acquired)),
{
    early_schedule(run);
    let filled = schedule(run);
    assert forall|i: int| 0 <= i < run.events.len() implies (#[trigger] run.after[i]) == (
    match run.happening(i) {
        Some(h) => happens(run.before[i], h),
        None => run.before[i],
    }) by {
        assert(run.steps(i));
    }
    if run.counted() {
        assert(run.steps(run.count_step()));
    }
    if run.clocked() {
        assert(run.steps(6));
    }
    assert forall|i: int| 0 <= i < run.events.len() implies (#[trigger] run.happening(i) is Some
        <==> (run.counted() && i == run.count_step()) || (run.clocked() && i == 6)) by {
        assert(run.steps(i));
        let back = run.return_step();
        assert(i == 0 || i == run.count_step() || i == back - 2 || i == back - 1 || i == back || i
            == back + 1 || i == back + 2 || i == run.conclusion_step());
    }
}

} // verus!

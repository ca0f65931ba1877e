//! Operations, and the handles that pass through them.

use vstd::prelude::*;

use crate::error::LocationView;
use crate::guard::{op_failure, Guard, SUCCESS};
use crate::handles::{Array, Handle, MlxVectorArray};
use crate::instrument::{InstrumentsView, OpPlan};
use crate::laws::instruments::{happens, Happening};
use crate::metal::lumen::FusedGuards;
use crate::op::{awaits, begins, concludes, follows, recorded, OpEvent, OpState};
use crate::vector::{
    array_handles, extraction_of, pair_extraction_of, VectorCall, VectorExtractionView,
    VectorPairExtractionView,
};

verus! {

/// A run of an operation, from its beginning to its end. Between two of its steps anything may
/// happen to the instruments: other operations, nested in its call or side by side with it, or a
/// switch.
pub struct OpRun<T, G: Guard<T>> {
    /// Where the operation was called.
    pub at: LocationView,
    /// Where an error of the conversion points to.
    pub here: LocationView,
    /// The instruments where the operation began.
    pub begun: InstrumentsView,
    /// The states, from the first to the last.
    pub states: Seq<OpState<T, G>>,
    /// The events that led from one state to the next.
    pub events: Seq<OpEvent<G, G::Raw>>,
    /// The instruments right before each event was taken.
    pub before: Seq<InstrumentsView>,
    /// The instruments right after each event was taken.
    pub after: Seq<InstrumentsView>,
}

impl<T, G: Guard<T>> OpRun<T, G> {
    /// What the operation found the switches to be.
    pub open spec fn plan(self) -> OpPlan {
        self.begun.plan()
    }

    /// An event leads from one state to the next.
    pub open spec fn steps(self, i: int) -> bool {
        &&& awaits(self.states[i], self.events[i], self.before[i], self.at)
        &&& self.after[i] == recorded(self.before[i], self.states[i], self.events[i], self.at)
        &&& follows(self.states[i], self.events[i], self.at, self.here, self.states[i + 1])
        &&& self.events[i] matches OpEvent::GuardMade(guard) ==> guard.fresh()
    }

    /// The run is one of an operation with a new guard.
    pub open spec fn wf(self) -> bool {
        &&& self.states.len() == self.events.len() + 1
        &&& self.before.len() == self.events.len()
        &&& self.after.len() == self.events.len()
        &&& begins(self.plan(), self.states[0])
        &&& forall|i: int| 0 <= i < self.events.len() ==> #[trigger] self.steps(i)
        &&& self.states.last() is Done
    }

    /// What the instruments see of a step.
    pub open spec fn happening(self, i: int) -> Option<Happening> {
        match (self.states[i], self.events[i]) {
            (OpState::LockBreakdown(plan), OpEvent::BreakdownLocked(acquired)) => {
                if plan.instrument {
                    Some(Happening::Started { at: self.at, acquired })
                } else {
                    None
                }
            },
            (
                OpState::LockTiming(plan, _, _, elapsed_ns),
                OpEvent::TimingLocked(acquired),
            ) => {
                if plan.timed {
                    Some(Happening::Returned { at: self.at, elapsed_ns, acquired })
                } else {
                    None
                }
            },
            _ => None,
        }
    }
}

/// Where an operation is counted that was started under `plan`.
pub open spec fn start_index(plan: OpPlan) -> int {
    if plan.timed {
        1
    } else {
        0
    }
}

/// Where the call comes back in an operation that was started under `plan`.
pub open spec fn return_index(plan: OpPlan) -> int {
    2 + (if plan.instrument {
        1int
    } else {
        0
    }) + (if plan.timed {
        1int
    } else {
        0
    })
}

/// How many events an operation takes that was started under `plan` and returned `status`.
pub open spec fn event_count(plan: OpPlan, status: i32) -> int {
    return_index(plan) + 1 + (if plan.timed {
        2int
    } else {
        0
    }) + (if status == SUCCESS {
        0int
    } else {
        1
    })
}

/// Where the states of a run stand, from the first to the last.
proof fn states_of<T, G: Guard<T>>(run: OpRun<T, G>) -> (filled: G)
    requires
        run.wf(),
    ensures
        ({
            let plan = run.plan();
            let back = return_index(plan);
            let done = if plan.timed {
                back + 3
            } else {
                back + 1
            };
            &&& back < run.events.len()
            &&& run.events[back] matches OpEvent::Returned(raw, status)
            &&& run.events.len() == event_count(plan, status)
            &&& filled.raw() == raw
            &&& filled.fresh()
            &&& concludes(filled, status, run.here, run.states[done])
            &&& plan.timed ==> run.states[0] == OpState::<T, G>::StartClock(plan)
            &&& plan.instrument ==> run.states[start_index(plan)] == OpState::<
                T,
                G,
            >::LockBreakdown(plan)
            &&& run.states[back - 2] == OpState::<T, G>::InstallHandler(plan)
            &&& run.states[back - 1] == OpState::<T, G>::MakeGuard(plan)
            &&& run.states[back] is MakeCall
            &&& plan.timed ==> run.states[back + 1] is ReadClock && (run.events[back
                + 1] matches OpEvent::ClockRead(elapsed_ns) && run.states[back + 2] == OpState::<
                T,
                G,
            >::LockTiming(plan, filled, status, elapsed_ns))
        }),
{
    let plan = run.plan();
    let back = return_index(plan);
    if plan.timed {
        assert(run.steps(0));
    }
    if plan.instrument {
        assert(run.steps(start_index(plan)));
    }
    assert(run.states[back - 2] == OpState::<T, G>::InstallHandler(plan));
    assert(run.steps(back - 2));
    assert(run.steps(back - 1));
    let guard = run.events[back - 1]->GuardMade_0;
    assert(run.states[back] == OpState::<T, G>::MakeCall(plan, guard));
    assert(run.steps(back));
    let raw = run.events[back]->Returned_0;
    let status = run.events[back]->Returned_1;
    let filled = choose|filled: G|
        {
            &&& #[trigger] filled.raw() == raw
            &&& filled.ready() == guard.ready()
            &&& filled.fresh() == guard.fresh()
            &&& if plan.timed {
                run.states[back + 1] == OpState::<T, G>::ReadClock(plan, filled, status)
            } else {
                concludes(filled, status, run.here, run.states[back + 1])
            }
        };
    assert(filled.raw() == raw && filled.fresh());
    let done = if plan.timed {
        assert(run.steps(back + 1));
        assert(run.steps(back + 2));
        back + 3
    } else {
        back + 1
    };
    assert(concludes(filled, status, run.here, run.states[done]));
    if status == SUCCESS {
        if done < run.events.len() {
            assert(run.steps(done));
        }
    } else {
        assert(run.steps(done));
        if done + 1 < run.events.len() {
            assert(run.steps(done + 1));
        }
    }
    filled
}

/// An operation makes one call. Where that succeeds, the caller gets what the call has written,
/// with all its handles, and nothing is freed. Where it fails, the caller gets the message that
/// MLX left behind and the place of the operation, and all handles that the call has written are
/// freed. So no handle is lost, and none is freed that someone owns. This holds whatever happens
/// to the instruments meanwhile.
pub proof fn operation_ends_well<T, G: Guard<T>>(run: OpRun<T, G>)
    requires
        run.wf(),
    ensures
        ({
            &&& run.events[return_index(run.plan())] matches OpEvent::Returned(raw, status)
            &&& run.events.len() == event_count(run.plan(), status)
            &&& run.states.last() matches OpState::Done(settled)
            &&& status == SUCCESS ==> {
                &&& G::yields(raw, run.here, settled.result)
                &&& settled.freed@ == Seq::<Handle>::empty()
                &&& settled.result matches Ok(guarded) ==> G::owned(guarded) == G::handles(raw)
            }
            &&& status != SUCCESS ==> {
                &&& run.events.last() matches OpEvent::ErrorTaken(Some(what))
                &&& settled.result matches Err(e) && e@ == op_failure(what@, run.at)
                &&& settled.freed@ == G::handles(raw)
            }
        }),
        forall|i: int|
            0 <= i < run.events.len() && (#[trigger] run.events[i]) is Returned ==> i
                == return_index(run.plan()),
{
    let plan = run.plan();
    let back = return_index(plan);
    let filled = states_of(run);
    let raw = run.events[back]->Returned_0;
    let status = run.events[back]->Returned_1;
    let done = if plan.timed {
        back + 3
    } else {
        back + 1
    };
    if status == SUCCESS {
        let settled = run.states[done]->Done_0;
        if let Ok(guarded) = settled.result {
            G::hands_on_all(raw, run.here, guarded);
        }
    } else {
        filled.fresh_frees_all();
        assert(run.steps(done));
    }
    assert forall|i: int| 0 <= i < run.events.len() && (
    #[trigger] run.events[i]) is Returned implies i == back by {
        assert(run.steps(i));
        assert(run.states[i] is MakeCall);
    }
}

/// What an operation does to the instruments. Where it found the switch on, it starts once, at its
/// own callsite; where it found the clock on as well, it comes back once, at its own callsite,
/// with the time that was read. Nothing else of it touches the instruments.
pub proof fn operation_happens_once<T, G: Guard<T>>(run: OpRun<T, G>)
    requires
        run.wf(),
    ensures
        forall|i: int|
            0 <= i < run.events.len() ==> (#[trigger] run.after[i]) == (match run.happening(i) {
                Some(h) => happens(run.before[i], h),
                None => run.before[i],
            }),
        forall|i: int|
            0 <= i < run.events.len() ==> (#[trigger] run.happening(i) is Some <==> (
            run.plan().instrument && i == start_index(run.plan())) || (run.plan().timed && i
                == return_index(run.plan()) + 2)),
        run.plan().instrument ==> (run.happening(
            start_index(run.plan()),
        ) matches Some(Happening::Started { at, .. }) && at == run.at),
        run.plan().timed ==> (run.happening(
            return_index(run.plan()) + 2,
        ) matches Some(Happening::Returned { at, elapsed_ns, .. }) && at == run.at
            && run.events[return_index(run.plan()) + 1] == OpEvent::<G, G::Raw>::ClockRead(
            elapsed_ns,
        )),
{
    let plan = run.plan();
    let back = return_index(plan);
    let filled = states_of(run);
    assert forall|i: int| 0 <= i < run.events.len() implies (#[trigger] run.after[i]) == (
    match run.happening(i) {
        Some(h) => happens(run.before[i], h),
        None => run.before[i],
    }) by {
        assert(run.steps(i));
    }
    if plan.instrument {
        assert(run.steps(start_index(plan)));
    }
    if plan.timed {
        assert(run.steps(back + 2));
    }
    assert forall|i: int| 0 <= i < run.events.len() implies (#[trigger] run.happening(i) is Some
        <==> (plan.instrument && i == start_index(plan)) || (plan.timed && i == back + 2)) by {
        assert(run.steps(i));
        let done = if plan.timed {
            back + 3
        } else {
            back + 1
        };
        assert(i == 0 || i == start_index(plan) || i == back - 2 || i == back - 1 || i == back || i
            == back + 1 || i == back + 2 || i == done);
    }
}

/// An operation that found the switch off leaves no trace.
pub proof fn switched_off_leaves_no_trace<T, G: Guard<T>>(run: OpRun<T, G>)
    requires
        run.wf(),
        !run.begun.instrument_enabled,
    ensures
        forall|i: int| 0 <= i < run.events.len() ==> (#[trigger] run.after[i]) == run.before[i],
{
    operation_happens_once(run);
    assert forall|i: int| 0 <= i < run.events.len() implies (
    #[trigger] run.after[i]) == run.before[i] by {
        assert(run.happening(i) is None);
    }
}

/// An operation that found the switch on is counted once, whatever its result is and whichever way
/// it ends. The counter starts over where it would not fit.
pub proof fn operation_is_counted_once<T, G: Guard<T>>(run: OpRun<T, G>)
    requires
        run.wf(),
        run.begun.instrument_enabled,
    ensures
        start_index(run.plan()) < run.events.len(),
        forall|i: int|
            0 <= i < run.events.len() ==> (#[trigger] run.after[i]).op_counter == (if i
                != start_index(run.plan()) {
                run.before[i].op_counter as int
            } else if run.before[i].op_counter == usize::MAX {
                0
            } else {
                run.before[i].op_counter + 1
            }),
{
    let filled = states_of(run);
    operation_happens_once(run);
    assert forall|i: int| 0 <= i < run.events.len() implies (#[trigger] run.after[i]).op_counter
        == (if i != start_index(run.plan()) {
        run.before[i].op_counter as int
    } else if run.before[i].op_counter == usize::MAX {
        0
    } else {
        run.before[i].op_counter + 1
    }) by {
        assert(run.happening(i) is Some || run.happening(i) is None);
        if run.plan().timed && i == return_index(run.plan()) + 2 {
            assert(run.happening(i) matches Some(Happening::Returned { .. }));
        }
    }
}

/// An operation that runs a fused kernel gives its caller both arrays, or frees both, the standard
/// deviations first.
pub proof fn fused_operation_ends_well(run: OpRun<(Array, Array), FusedGuards>)
    requires
        run.wf(),
    ensures
        ({
            &&& run.events[return_index(run.plan())] matches OpEvent::Returned(raw, status)
            &&& run.states.last() matches OpState::Done(settled)
            &&& match settled.result {
                Ok(pair) => {
                    &&& status == SUCCESS
                    &&& pair.0.c_array == raw.0
                    &&& pair.1.c_array == raw.1
                    &&& settled.freed@ == Seq::<Handle>::empty()
                },
                Err(_) => {
                    &&& status != SUCCESS
                    &&& settled.freed@ == seq![Handle::Array(raw.1), Handle::Array(raw.0)]
                },
            }
        }),
{
    operation_ends_well(run);
}

/// An extraction after elements came, one after the other.
pub open spec fn after_elements(
    extraction: VectorExtractionView,
    elements: Seq<Array>,
) -> VectorExtractionView
    decreases elements.len(),
{
    if elements.len() == 0 {
        extraction
    } else {
        let earlier = after_elements(extraction, elements.drop_last());
        VectorExtractionView { arrays: earlier.arrays.push(elements.last()), ..earlier }
    }
}

/// The extraction of a vector of this size, before the first element came.
pub open spec fn sized_extraction(c_vec: MlxVectorArray, size: usize) -> VectorExtractionView {
    VectorExtractionView { size: Some(size), ..extraction_of(c_vec) }
}

/// An extraction asks for the size of the vector, then for each element once and in its order,
/// and then for nothing. What came is kept in its order, and the extraction is answerable for it
/// and for the vector.
pub proof fn extraction_gathers_the_elements(
    c_vec: MlxVectorArray,
    size: usize,
    elements: Seq<Array>,
)
    requires
        elements.len() <= size,
    ensures
        extraction_of(c_vec).next() == Some(VectorCall::Size(c_vec)),
        ({
            let extraction = after_elements(sized_extraction(c_vec, size), elements);
            &&& extraction.wf()
            &&& extraction == (VectorExtractionView { c_vec, size: Some(size), arrays: elements })
            &&& elements.len() < size ==> extraction.next() == Some(
                VectorCall::Get(c_vec, elements.len() as usize),
            )
            &&& elements.len() == size ==> extraction.next() is None
            &&& extraction.held() == array_handles(elements) + seq![Handle::VectorArray(c_vec)]
        }),
    decreases elements.len(),
{
    if elements.len() > 0 {
        extraction_gathers_the_elements(c_vec, size, elements.drop_last());
        assert(elements.drop_last().push(elements.last()) =~= elements);
    } else {
        assert(elements =~= Seq::<Array>::empty());
    }
}

/// Once all elements of the first vector came, those of the second are extracted in the same way.
/// In the end the extraction is answerable for all elements of both, and for the second vector;
/// the first has been freed in between.
pub proof fn pair_extraction_gathers_both(
    first: MlxVectorArray,
    second: MlxVectorArray,
    first_elements: Seq<Array>,
    second_elements: Seq<Array>,
)
    requires
        first_elements.len() <= usize::MAX,
        second_elements.len() <= usize::MAX,
    ensures
        ({
            let begun = pair_extraction_of(first, second);
            let halfway = VectorPairExtractionView {
                current: after_elements(
                    sized_extraction(first, first_elements.len() as usize),
                    first_elements,
                ),
                ..begun
            };
            let complete = VectorPairExtractionView {
                first: Some(halfway.current.arrays),
                current: after_elements(
                    sized_extraction(second, second_elements.len() as usize),
                    second_elements,
                ),
                second: halfway.second,
            };
            &&& begun.wf()
            &&& begun.held() == seq![Handle::VectorArray(first), Handle::VectorArray(second)]
            &&& halfway.wf()
            &&& halfway.current.next() is None
            &&& halfway.held() == array_handles(first_elements) + begun.held()
            &&& complete.wf()
            &&& complete.current.next() is None
            &&& complete.held() == array_handles(first_elements) + array_handles(second_elements)
                + seq![Handle::VectorArray(second)]
        }),
{
    extraction_gathers_the_elements(first, first_elements.len() as usize, first_elements);
    extraction_gathers_the_elements(second, second_elements.len() as usize, second_elements);
    let begun = pair_extraction_of(first, second);
    assert(begun.held() =~= seq![Handle::VectorArray(first), Handle::VectorArray(second)]);
    assert(array_handles(first_elements) + seq![Handle::VectorArray(first)] + seq![
        Handle::VectorArray(second),
    ] =~= array_handles(first_elements) + begun.held());
    assert(array_handles(first_elements) + (array_handles(second_elements) + seq![
        Handle::VectorArray(second),
    ]) =~= array_handles(first_elements) + array_handles(second_elements) + seq![
        Handle::VectorArray(second),
    ]);
}

} // verus!

//! Counting and timing of MLX operations.
//!
//! Every operation passes the same two points: it starts, and its call into MLX comes back. At
//! each of them the instruments may record something, depending on which switches are on. With
//! the switches off an operation leaves no trace.

use vstd::prelude::*;

use crate::error::{Location, LocationView};
use crate::table::{descending, lists, CallsiteTable, Weighted};
use crate::text::{decimal, push_decimal};

verus! {

/// The instruments of a process.
pub struct Instruments {
    instrument_enabled: bool,
    op_counter: usize,
    op_breakdown: Option<CallsiteTable<usize>>,
    op_timing_enabled: bool,
    op_timing: Option<CallsiteTable<(usize, u128)>>,
}

/// The instruments, with their tables as maps from callsite to tally.
pub struct InstrumentsView {
    /// The switch of all instruments.
    pub instrument_enabled: bool,
    /// The operations that started while the switch was on.
    pub op_counter: usize,
    /// The operations started per callsite, while that is being collected.
    pub op_breakdown: Option<Map<Seq<char>, usize>>,
    /// The switch of the clock.
    pub op_timing_enabled: bool,
    /// The calls timed per callsite and their nanoseconds, while that is being collected.
    pub op_timing: Option<Map<Seq<char>, (usize, u128)>>,
}

impl View for Instruments {
    type V = InstrumentsView;

    closed spec fn view(&self) -> InstrumentsView {
        InstrumentsView {
            instrument_enabled: self.instrument_enabled,
            op_counter: self.op_counter,
            op_breakdown: match self.op_breakdown {
                Some(table) => Some(table@),
                None => None,
            },
            op_timing_enabled: self.op_timing_enabled,
            op_timing: match self.op_timing {
                Some(table) => Some(table@),
                None => None,
            },
        }
    }
}

/// The key of a callsite: `file:line`.
pub open spec fn callsite(at: LocationView) -> Seq<char> {
    at.file + seq![':'] + decimal(at.line as nat)
}

/// How often `key` was tallied.
pub open spec fn count_of(counts: Map<Seq<char>, usize>, key: Seq<char>) -> usize {
    if counts.contains_key(key) {
        counts[key]
    } else {
        0
    }
}

/// How often `key` was timed, and how long that took in all.
pub open spec fn time_of(times: Map<Seq<char>, (usize, u128)>, key: Seq<char>) -> (usize, u128) {
    if times.contains_key(key) {
        times[key]
    } else {
        (0, 0)
    }
}

impl InstrumentsView {
    /// One more operation can be tallied at `at`.
    pub open spec fn has_count_room(self, at: LocationView) -> bool {
        self.op_breakdown matches Some(counts) ==> count_of(counts, callsite(at)) < usize::MAX
    }

    /// One more call that took `elapsed_ns` can be tallied at `at`.
    pub open spec fn has_time_room(self, at: LocationView, elapsed_ns: u128) -> bool {
        self.op_timing matches Some(times) ==> {
            &&& time_of(times, callsite(at)).0 < usize::MAX
            &&& time_of(times, callsite(at)).1 + elapsed_ns <= u128::MAX
        }
    }

    /// After an operation at `at` was tallied. `acquired` says whether the table was free to be
    /// written; where it was not, the tally is lost.
    pub open spec fn counted(self, at: LocationView, acquired: bool) -> InstrumentsView {
        match self.op_breakdown {
            Some(counts) if acquired => InstrumentsView {
                op_breakdown: Some(
                    counts.insert(callsite(at), (count_of(counts, callsite(at)) + 1) as usize),
                ),
                ..self
            },
            _ => self,
        }
    }

    /// After a call at `at` was timed. `acquired` says whether the table was free to be written;
    /// where it was not, the tally is lost.
    pub open spec fn timed(
        self,
        at: LocationView,
        elapsed_ns: u128,
        acquired: bool,
    ) -> InstrumentsView {
        match self.op_timing {
            Some(times) if acquired => InstrumentsView {
                op_timing: Some(
                    times.insert(
                        callsite(at),
                        (
                            (time_of(times, callsite(at)).0 + 1) as usize,
                            (time_of(times, callsite(at)).1 + elapsed_ns) as u128,
                        ),
                    ),
                ),
                ..self
            },
            _ => self,
        }
    }

    /// What an operation that starts now is to do.
    pub open spec fn plan(self) -> OpPlan {
        OpPlan {
            instrument: self.instrument_enabled,
            timed: self.instrument_enabled && self.op_timing_enabled,
        }
    }

    /// After an operation at `at` started under `plan`.
    pub open spec fn started(
        self,
        plan: OpPlan,
        at: LocationView,
        acquired: bool,
    ) -> InstrumentsView {
        if plan.instrument {
            InstrumentsView {
                op_counter: if self.op_counter == usize::MAX {
                    0
                } else {
                    (self.op_counter + 1) as usize
                },
                ..self
            }.counted(at, acquired)
        } else {
            self
        }
    }

    /// After the call of an operation at `at`, started under `plan`, came back.
    pub open spec fn returned(
        self,
        plan: OpPlan,
        at: LocationView,
        elapsed_ns: u128,
        acquired: bool,
    ) -> InstrumentsView {
        if plan.timed {
            self.timed(at, elapsed_ns, acquired)
        } else {
            self
        }
    }

    /// After `reset_op_counter`.
    pub open spec fn counter_reset(self) -> InstrumentsView {
        InstrumentsView { instrument_enabled: true, op_counter: 0, ..self }
    }

    /// After `enable_op_breakdown`.
    pub open spec fn breakdown_enabled(self) -> InstrumentsView {
        InstrumentsView { instrument_enabled: true, op_breakdown: Some(Map::empty()), ..self }
    }

    /// After `take_op_breakdown`.
    pub open spec fn breakdown_taken(self) -> InstrumentsView {
        InstrumentsView { op_breakdown: None, ..self }
    }

    /// After `enable_op_timing`.
    pub open spec fn timing_enabled(self) -> InstrumentsView {
        InstrumentsView {
            instrument_enabled: true,
            op_timing_enabled: true,
            op_timing: Some(Map::empty()),
            ..self
        }
    }

    /// After `take_op_timing`.
    pub open spec fn timing_taken(self) -> InstrumentsView {
        InstrumentsView { op_timing_enabled: false, op_timing: None, ..self }
    }
}

/// What an operation is to do besides its call: both switches, as they stood when it started.
#[derive(Clone, Copy, Debug)]
pub struct OpPlan {
    /// The operation is counted, and its callsite recorded.
    pub instrument: bool,
    /// The clock runs during its call.
    pub timed: bool,
}

/// The key under which a callsite is tallied.
pub fn callsite_key(at: &Location) -> (key: String)
    ensures
        key@ == callsite(at@),
{
    let mut key: String = at.file.clone();
    proof {
        reveal_strlit(":");
    }
    key.append(":");
    push_decimal(&mut key, at.line as u64);
    assert(key@ =~= callsite(at@));
    key
}

impl Instruments {
    /// The tables hold one tally per callsite.
    pub closed spec fn wf(&self) -> bool {
        &&& self.op_breakdown matches Some(table) ==> table.wf()
        &&& self.op_timing matches Some(table) ==> table.wf()
    }

    /// All switches off, nothing counted, nothing being collected.
    pub fn new() -> (instruments: Instruments)
        ensures
            instruments.wf(),
            instruments@ == (InstrumentsView {
                instrument_enabled: false,
                op_counter: 0,
                op_breakdown: None,
                op_timing_enabled: false,
                op_timing: None,
            }),
    {
        Instruments {
            instrument_enabled: false,
            op_counter: 0,
            op_breakdown: None,
            op_timing_enabled: false,
            op_timing: None,
        }
    }

    fn count_at(&self, key: &String) -> (count: usize)
        requires
            self.wf(),
        ensures
            count == (match self@.op_breakdown {
                Some(counts) => count_of(counts, key@),
                None => 0,
            }),
    {
        match &self.op_breakdown {
            Some(table) => match table.get(key) {
                Some(count) => *count,
                None => 0,
            },
            None => 0,
        }
    }

    fn time_at(&self, key: &String) -> (time: (usize, u128))
        requires
            self.wf(),
        ensures
            time == (match self@.op_timing {
                Some(times) => time_of(times, key@),
                None => (0usize, 0u128),
            }),
    {
        match &self.op_timing {
            Some(table) => match table.get(key) {
                Some(time) => *time,
                None => (0, 0),
            },
            None => (0, 0),
        }
    }

    /// Whether one more operation can be tallied at `at`.
    pub fn has_count_room(&self, at: &Location) -> (room: bool)
        requires
            self.wf(),
        ensures
            room == self@.has_count_room(at@),
    {
        self.count_at(&callsite_key(at)) < usize::MAX
    }

    /// Whether one more call that took `elapsed_ns` can be tallied at `at`.
    pub fn has_time_room(&self, at: &Location, elapsed_ns: u128) -> (room: bool)
        requires
            self.wf(),
        ensures
            room == self@.has_time_room(at@, elapsed_ns),
    {
        let time: (usize, u128) = self.time_at(&callsite_key(at));
        time.0 < usize::MAX && elapsed_ns <= u128::MAX - time.1
    }
}

/// The operations counted since the last reset.
pub fn read_op_counter(instruments: &Instruments) -> (count: usize)
    ensures
        count == instruments@.op_counter,
{
    instruments.op_counter
}

/// Sets the counter to zero and returns what it stood at. Turns the switch on, so that the
/// operations from here on are counted.
pub fn reset_op_counter(instruments: &mut Instruments) -> (count: usize)
    requires
        old(instruments).wf(),
    ensures
        final(instruments).wf(),
        count == old(instruments)@.op_counter,
        final(instruments)@ == old(instruments)@.counter_reset(),
{
    let count: usize = instruments.op_counter;
    instruments.instrument_enabled = true;
    instruments.op_counter = 0;
    count
}

/// Starts to collect operations per callsite, from nothing, and turns the switch on.
pub fn enable_op_breakdown(instruments: &mut Instruments)
    requires
        old(instruments).wf(),
    ensures
        final(instruments).wf(),
        final(instruments)@ == old(instruments)@.breakdown_enabled(),
{
    instruments.op_breakdown = Some(CallsiteTable::new());
    instruments.instrument_enabled = true;
}

/// Stops to collect operations per callsite, and returns what was collected, from the most
/// frequent callsite down. Nothing comes back where nothing was being collected. The order of
/// callsites with the same count is left open.
pub fn take_op_breakdown(instruments: &mut Instruments) -> (listing: Vec<(String, usize)>)
    requires
        old(instruments).wf(),
    ensures
        final(instruments).wf(),
        final(instruments)@ == old(instruments)@.breakdown_taken(),
        match old(instruments)@.op_breakdown {
            Some(counts) => {
                &&& lists(listing@, counts)
                &&& descending(listing@)
                &&& forall|i: int, j: int|
                    0 <= i < j < listing@.len() ==> (#[trigger] listing@[i]).1 >= (
                    #[trigger] listing@[j]).1
            },
            None => listing@.len() == 0,
        },
{
    match instruments.op_breakdown.take() {
        Some(table) => table.into_descending(),
        None => Vec::new(),
    }
}

/// Tallies an operation at its callsite, where that is being collected and the table is free.
pub fn record_op_callsite(instruments: &mut Instruments, at: &Location, acquired: bool)
    requires
        old(instruments).wf(),
        acquired ==> old(instruments)@.has_count_room(at@),
    ensures
        final(instruments).wf(),
        final(instruments)@ == old(instruments)@.counted(at@, acquired),
{
    if acquired {
        let key: String = callsite_key(at);
        let count: usize = instruments.count_at(&key);
        match instruments.op_breakdown.take() {
            Some(mut table) => {
                table.set(key, count + 1);
                instruments.op_breakdown = Some(table);
            },
            None => {},
        }
    }
}

/// Starts to collect call times per callsite, from nothing, and turns both switches on.
pub fn enable_op_timing(instruments: &mut Instruments)
    requires
        old(instruments).wf(),
    ensures
        final(instruments).wf(),
        final(instruments)@ == old(instruments)@.timing_enabled(),
{
    instruments.op_timing = Some(CallsiteTable::new());
    instruments.op_timing_enabled = true;
    instruments.instrument_enabled = true;
}

/// An entry of the time table as callsite, calls and nanoseconds.
pub open spec fn time_entry(entry: (String, usize, u128)) -> (String, (usize, u128)) {
    (entry.0, (entry.1, entry.2))
}

/// Stops the clock, stops to collect call times, and returns what was collected as callsite,
/// calls and nanoseconds, from the longest time down. Nothing comes back where nothing was being
/// collected. The order of callsites with the same time is left open.
pub fn take_op_timing(instruments: &mut Instruments) -> (listing: Vec<(String, usize, u128)>)
    requires
        old(instruments).wf(),
    ensures
        final(instruments).wf(),
        final(instruments)@ == old(instruments)@.timing_taken(),
        match old(instruments)@.op_timing {
            Some(times) => {
                &&& lists(listing@.map_values(|e: (String, usize, u128)| time_entry(e)), times)
                &&& descending(listing@.map_values(|e: (String, usize, u128)| time_entry(e)))
                &&& forall|i: int, j: int|
                    0 <= i < j < listing@.len() ==> (#[trigger] listing@[i]).0@ != (
                    #[trigger] listing@[j]).0@ && listing@[i].2 >= listing@[j].2
                &&& forall|i: int|
                    0 <= i < listing@.len() ==> times.contains_key((#[trigger] listing@[i]).0@)
                        && times[listing@[i].0@] == (listing@[i].1, listing@[i].2)
                &&& forall|key: Seq<char>| #[trigger]
                    times.contains_key(key) ==> exists|i: int|
                        0 <= i < listing@.len() && (#[trigger] listing@[i]).0@ == key
            },
            None => listing@.len() == 0,
        },
{
    instruments.op_timing_enabled = false;
    match instruments.op_timing.take() {
        Some(table) => {
            let mut entries: Vec<(String, (usize, u128))> = table.into_descending();
            let mut listing: Vec<(String, usize, u128)> = Vec::new();
            let ghost all = entries@;
            while entries.len() > 0
                invariant
                    all =~= listing@.map_values(|e: (String, usize, u128)| time_entry(e))
                        + entries@,
                decreases entries.len(),
            {
                let entry: (String, (usize, u128)) = entries.remove(0);
                listing.push((entry.0, entry.1.0, entry.1.1));
            }
            proof {
                let times = old(instruments)@.op_timing->0;
                assert(all =~= listing@.map_values(|e: (String, usize, u128)| time_entry(e)));
                assert forall|i: int| 0 <= i < listing@.len() implies all[i] == (
                    (#[trigger] listing@[i]).0,
                    (listing@[i].1, listing@[i].2),
                ) by {}
                assert forall|i: int, j: int| 0 <= i < j < listing@.len() implies (
                #[trigger] listing@[i]).0@ != (#[trigger] listing@[j]).0@ && listing@[i].2
                    >= listing@[j].2 by {
                    assert(all[i].0@ != all[j].0@ && all[i].weight() >= all[j].weight());
                }
                assert forall|key: Seq<char>| #[trigger] times.contains_key(key) implies exists|
                    i: int,
                | 0 <= i < listing@.len() && (#[trigger] listing@[i]).0@ == key by {
                    let i = choose|i: int| 0 <= i < all.len() && (#[trigger] all[i]).0@ == key;
                    assert(listing@[i].0@ == key);
                }
            }
            listing
        },
        None => Vec::new(),
    }
}

/// Tallies the time of a call at its callsite, where that is being collected and the table is
/// free.
pub fn record_op_timing(
    instruments: &mut Instruments,
    at: &Location,
    elapsed_ns: u128,
    acquired: bool,
)
    requires
        old(instruments).wf(),
        acquired ==> old(instruments)@.has_time_room(at@, elapsed_ns),
    ensures
        final(instruments).wf(),
        final(instruments)@ == old(instruments)@.timed(at@, elapsed_ns, acquired),
{
    if acquired {
        let key: String = callsite_key(at);
        let time: (usize, u128) = instruments.time_at(&key);
        match instruments.op_timing.take() {
            Some(mut table) => {
                table.set(key, (time.0 + 1, time.1 + elapsed_ns));
                instruments.op_timing = Some(table);
            },
            None => {},
        }
    }
}

/// Reads the switches for an operation that is about to start.
pub fn plan_op(instruments: &Instruments) -> (plan: OpPlan)
    ensures
        plan == instruments@.plan(),
{
    OpPlan {
        instrument: instruments.instrument_enabled,
        timed: instruments.instrument_enabled && instruments.op_timing_enabled,
    }
}

/// Starts an operation at `at` under `plan`: counts it and records its callsite, where the plan
/// says so. The counter wraps around.
pub fn start_op(instruments: &mut Instruments, plan: OpPlan, at: &Location, acquired: bool)
    requires
        old(instruments).wf(),
        plan.instrument && acquired ==> old(instruments)@.has_count_room(at@),
    ensures
        final(instruments).wf(),
        final(instruments)@ == old(instruments)@.started(plan, at@, acquired),
{
    if plan.instrument {
        instruments.op_counter = instruments.op_counter.wrapping_add(1);
        record_op_callsite(instruments, at, acquired);
    }
}

/// Takes note that the call of an operation at `at` came back after `elapsed_ns`.
pub fn return_op(
    instruments: &mut Instruments,
    plan: OpPlan,
    at: &Location,
    elapsed_ns: u128,
    acquired: bool,
)
    requires
        old(instruments).wf(),
        plan.timed && acquired ==> old(instruments)@.has_time_room(
            at@,
            elapsed_ns,
        ),
    ensures
        final(instruments).wf(),
        final(instruments)@ == old(instruments)@.returned(plan, at@, elapsed_ns, acquired),
{
    if plan.timed {
        record_op_timing(instruments, at, elapsed_ns, acquired);
    }
}

} // verus!

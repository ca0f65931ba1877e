//! What each function does to the instruments, and what it gives back.

use vstd::prelude::*;

use crate::error::Location;
use crate::instrument::{
    enable_op_breakdown, enable_op_timing, plan_op, read_op_counter, record_op_callsite,
    record_op_timing, reset_op_counter, return_op, start_op, take_op_breakdown, take_op_timing,
    Instruments, InstrumentsView, OpPlan,
};
use crate::laws::instruments::{
    breakdown_counts_operations, counts_fit, happens, history, leaves_breakdown, leaves_timing,
    sample_at, taken_breakdown_adds_up, tally, tally_at, time_at, times_fit, timing_adds_up, total,
    weigh, Happening,
};
use crate::table::CallsiteTable;
use crate::text::decimal;

verus! {

/// The key of the callsite at `at`.
pub open spec fn key_of(at: &Location) -> Seq<char> {
    at.file@ + seq![':'] + decimal(at.line as nat)
}

/// `after` is `before`, but for what `key` maps to.
pub open spec fn differs_at<V>(
    before: Map<Seq<char>, V>,
    after: Map<Seq<char>, V>,
    key: Seq<char>,
) -> bool {
    &&& after.contains_key(key)
    &&& forall|other: Seq<char>|
        other != key ==> (#[trigger] after.contains_key(other) <==> before.contains_key(other))
    &&& forall|other: Seq<char>|
        other != key && before.contains_key(other) ==> #[trigger] after[other] == before[other]
}

/// New instruments are switched off, have counted nothing and collect nothing.
pub proof fn new_instruments_are_off(instruments: Instruments)
    requires
        call_ensures(Instruments::new, (), instruments),
    ensures
        !instruments@.instrument_enabled,
        !instruments@.op_timing_enabled,
        instruments@.op_counter == 0,
        instruments@.op_breakdown is None,
        instruments@.op_timing is None,
{
}

/// A reset gives what a read would have given, sets the counter to zero, turns the switch on, and
/// leaves the tables as they are.
pub proof fn reset_returns_what_was_counted(
    instruments: &mut Instruments,
    count: usize,
    read: usize,
)
    requires
        call_ensures(reset_op_counter, (instruments,), count),
        call_ensures(read_op_counter, (&*old(instruments),), read),
    ensures
        count == read,
        read == old(instruments)@.op_counter,
        final(instruments)@.op_counter == 0,
        final(instruments)@.instrument_enabled,
        final(instruments)@.op_breakdown == old(instruments)@.op_breakdown,
        final(instruments)@.op_timing_enabled == old(instruments)@.op_timing_enabled,
        final(instruments)@.op_timing == old(instruments)@.op_timing,
{
}

/// Enabling the breakdown starts it from nothing, turns the switch on, and leaves the rest.
pub proof fn enabled_breakdown_starts_from_nothing(instruments: &mut Instruments)
    requires
        call_ensures(enable_op_breakdown, (instruments,), ()),
    ensures
        final(instruments)@.op_breakdown matches Some(counts) && (forall|key: Seq<char>|
            !#[trigger] counts.contains_key(key)),
        final(instruments)@.instrument_enabled,
        final(instruments)@.op_counter == old(instruments)@.op_counter,
        final(instruments)@.op_timing_enabled == old(instruments)@.op_timing_enabled,
        final(instruments)@.op_timing == old(instruments)@.op_timing,
{
}

/// Enabling the timing starts it from nothing, turns both switches on, and leaves the rest.
pub proof fn enabled_timing_starts_from_nothing(instruments: &mut Instruments)
    requires
        call_ensures(enable_op_timing, (instruments,), ()),
    ensures
        final(instruments)@.op_timing matches Some(times) && (forall|key: Seq<char>|
            !#[trigger] times.contains_key(key)),
        final(instruments)@.instrument_enabled,
        final(instruments)@.op_timing_enabled,
        final(instruments)@.op_counter == old(instruments)@.op_counter,
        final(instruments)@.op_breakdown == old(instruments)@.op_breakdown,
{
}

/// What is taken of the breakdown is every callsite once, with its own count, and a callsite with
/// a higher count stands before one with a lower count. Only the table goes away.
pub proof fn taken_breakdown_lists_counts(
    instruments: &mut Instruments,
    listing: Vec<(String, usize)>,
)
    requires
        call_ensures(take_op_breakdown, (instruments,), listing),
    ensures
        old(instruments)@.op_breakdown matches Some(counts) ==> {
            &&& forall|i: int|
                0 <= i < listing@.len() ==> counts.contains_key((#[trigger] listing@[i]).0@)
                    && listing@[i].1 == counts[listing@[i].0@]
            &&& forall|key: Seq<char>| #[trigger]
                counts.contains_key(key) ==> exists|i: int|
                    0 <= i < listing@.len() && (#[trigger] listing@[i]).0@ == key
            &&& forall|i: int, j: int|
                0 <= i < j < listing@.len() ==> (#[trigger] listing@[i]).0@ != (
                #[trigger] listing@[j]).0@ && listing@[i].1 >= listing@[j].1
        },
        old(instruments)@.op_breakdown is None ==> listing@.len() == 0,
        final(instruments)@.op_breakdown is None,
        final(instruments)@.instrument_enabled == old(instruments)@.instrument_enabled,
        final(instruments)@.op_counter == old(instruments)@.op_counter,
        final(instruments)@.op_timing_enabled == old(instruments)@.op_timing_enabled,
        final(instruments)@.op_timing == old(instruments)@.op_timing,
{
}

/// What is taken of the timing is every callsite once, with its own number of calls and its own
/// nanoseconds, and a callsite with a longer time stands before one with a shorter time. The clock
/// stops, and only the table goes away.
pub proof fn taken_timing_lists_calls_and_times(
    instruments: &mut Instruments,
    listing: Vec<(String, usize, u128)>,
)
    requires
        call_ensures(take_op_timing, (instruments,), listing),
    ensures
        old(instruments)@.op_timing matches Some(times) ==> {
            &&& forall|i: int|
                0 <= i < listing@.len() ==> times.contains_key((#[trigger] listing@[i]).0@)
                    && listing@[i].1 == times[listing@[i].0@].0 && listing@[i].2
                    == times[listing@[i].0@].1
            &&& forall|key: Seq<char>| #[trigger]
                times.contains_key(key) ==> exists|i: int|
                    0 <= i < listing@.len() && (#[trigger] listing@[i]).0@ == key
            &&& forall|i: int, j: int|
                0 <= i < j < listing@.len() ==> (#[trigger] listing@[i]).0@ != (
                #[trigger] listing@[j]).0@ && listing@[i].2 >= listing@[j].2
        },
        old(instruments)@.op_timing is None ==> listing@.len() == 0,
        final(instruments)@.op_timing is None,
        !final(instruments)@.op_timing_enabled,
        final(instruments)@.instrument_enabled == old(instruments)@.instrument_enabled,
        final(instruments)@.op_counter == old(instruments)@.op_counter,
        final(instruments)@.op_breakdown == old(instruments)@.op_breakdown,
{
}

/// A tally adds one at its own callsite and nowhere else, where the table is collected and free.
pub open spec fn adds_one_at(
    before: InstrumentsView,
    after: InstrumentsView,
    at: &Location,
    acquired: bool,
) -> bool {
    &&& after.op_breakdown is Some <==> before.op_breakdown is Some
    &&& !acquired ==> after.op_breakdown == before.op_breakdown
    &&& before.op_breakdown matches Some(counts) ==> acquired ==> {
        let tallied = after.op_breakdown->0;
        &&& differs_at(counts, tallied, key_of(at))
        &&& counts.contains_key(key_of(at)) ==> tallied[key_of(at)] == counts[key_of(at)] + 1
        &&& !counts.contains_key(key_of(at)) ==> tallied[key_of(at)] == 1
    }
}

/// A sample adds one call and its time at its own callsite and nowhere else, where the table is
/// collected and free.
pub open spec fn adds_time_at(
    before: InstrumentsView,
    after: InstrumentsView,
    at: &Location,
    elapsed_ns: u128,
    acquired: bool,
) -> bool {
    &&& after.op_timing is Some <==> before.op_timing is Some
    &&& !acquired ==> after.op_timing == before.op_timing
    &&& before.op_timing matches Some(times) ==> acquired ==> {
        let timed = after.op_timing->0;
        &&& differs_at(times, timed, key_of(at))
        &&& times.contains_key(key_of(at)) ==> timed[key_of(at)].0 == times[key_of(at)].0 + 1
            && timed[key_of(at)].1 == times[key_of(at)].1 + elapsed_ns
        &&& !times.contains_key(key_of(at)) ==> timed[key_of(at)] == (1usize, elapsed_ns)
    }
}

/// The tally at `at` is not full.
pub open spec fn has_room_for_one(v: InstrumentsView, at: &Location) -> bool {
    v.op_breakdown matches Some(counts) ==> counts.contains_key(key_of(at))
        ==> counts[key_of(at)] < usize::MAX
}

/// The calls and the time at `at` are not full.
pub open spec fn has_room_for_time(v: InstrumentsView, at: &Location, elapsed_ns: u128) -> bool {
    v.op_timing matches Some(times) ==> times.contains_key(key_of(at)) ==> times[key_of(at)].0
        < usize::MAX && times[key_of(at)].1 + elapsed_ns <= u128::MAX
}

/// Room is denied only where a number would not fit.
pub proof fn rooms_end_where_numbers_end(
    instruments: &Instruments,
    at: &Location,
    elapsed_ns: u128,
    count_room: bool,
    time_room: bool,
)
    requires
        call_ensures(Instruments::has_count_room, (instruments, at), count_room),
        call_ensures(Instruments::has_time_room, (instruments, at, elapsed_ns), time_room),
    ensures
        count_room <==> has_room_for_one(instruments@, at),
        time_room <==> has_room_for_time(instruments@, at, elapsed_ns),
        count_room <==> instruments@.has_count_room(at@),
        time_room <==> instruments@.has_time_room(at@, elapsed_ns),
{
}

/// Recording a callsite adds one there, and touches nothing else.
pub proof fn recorded_callsite_gains_one(
    instruments: &mut Instruments,
    at: &Location,
    acquired: bool,
)
    requires
        call_ensures(record_op_callsite, (instruments, at, acquired), ()),
        acquired ==> has_room_for_one(old(instruments)@, at),
    ensures
        adds_one_at(old(instruments)@, final(instruments)@, at, acquired),
        final(instruments)@.op_counter == old(instruments)@.op_counter,
        final(instruments)@.instrument_enabled == old(instruments)@.instrument_enabled,
        final(instruments)@.op_timing_enabled == old(instruments)@.op_timing_enabled,
        final(instruments)@.op_timing == old(instruments)@.op_timing,
{
}

/// Recording a time adds one call and the time there, and touches nothing else.
pub proof fn recorded_time_is_added(
    instruments: &mut Instruments,
    at: &Location,
    elapsed_ns: u128,
    acquired: bool,
)
    requires
        call_ensures(record_op_timing, (instruments, at, elapsed_ns, acquired), ()),
        acquired ==> has_room_for_time(old(instruments)@, at, elapsed_ns),
    ensures
        adds_time_at(old(instruments)@, final(instruments)@, at, elapsed_ns, acquired),
        final(instruments)@.op_counter == old(instruments)@.op_counter,
        final(instruments)@.instrument_enabled == old(instruments)@.instrument_enabled,
        final(instruments)@.op_timing_enabled == old(instruments)@.op_timing_enabled,
        final(instruments)@.op_breakdown == old(instruments)@.op_breakdown,
{
}

/// An operation is planned as both switches stand.
pub proof fn plan_is_as_switched(instruments: &Instruments, plan: OpPlan)
    requires
        call_ensures(plan_op, (instruments,), plan),
    ensures
        plan.instrument <==> instruments@.instrument_enabled,
        plan.timed <==> instruments@.instrument_enabled && instruments@.op_timing_enabled,
{
}

/// The start of an operation that is to be counted adds one to the counter, which starts over
/// where it would not fit, and one at its callsite. Any other start touches nothing.
pub proof fn start_counts_one(
    instruments: &mut Instruments,
    plan: OpPlan,
    at: &Location,
    acquired: bool,
)
    requires
        call_ensures(start_op, (instruments, plan, at, acquired), ()),
        plan.instrument && acquired ==> has_room_for_one(old(instruments)@, at),
    ensures
        !plan.instrument ==> final(instruments)@ == old(instruments)@,
        plan.instrument ==> {
            &&& old(instruments)@.op_counter < usize::MAX ==> final(instruments)@.op_counter
                == old(instruments)@.op_counter + 1
            &&& old(instruments)@.op_counter == usize::MAX ==> final(instruments)@.op_counter == 0
            &&& adds_one_at(old(instruments)@, final(instruments)@, at, acquired)
            &&& final(instruments)@ == happens(
                old(instruments)@,
                Happening::Started { at: at@, acquired },
            )
        },
        final(instruments)@.instrument_enabled == old(instruments)@.instrument_enabled,
        final(instruments)@.op_timing_enabled == old(instruments)@.op_timing_enabled,
        final(instruments)@.op_timing == old(instruments)@.op_timing,
{
}

/// The return of a call that is to be timed adds one call and its time at its callsite. Any other
/// return touches nothing.
pub proof fn return_adds_its_time(
    instruments: &mut Instruments,
    plan: OpPlan,
    at: &Location,
    elapsed_ns: u128,
    acquired: bool,
)
    requires
        call_ensures(return_op, (instruments, plan, at, elapsed_ns, acquired), ()),
        plan.timed && acquired ==> has_room_for_time(old(instruments)@, at, elapsed_ns),
    ensures
        !plan.timed ==> final(instruments)@ == old(instruments)@,
        plan.timed ==> {
            &&& adds_time_at(old(instruments)@, final(instruments)@, at, elapsed_ns, acquired)
            &&& final(instruments)@ == happens(
                old(instruments)@,
                Happening::Returned { at: at@, elapsed_ns, acquired },
            )
        },
        final(instruments)@.op_counter == old(instruments)@.op_counter,
        final(instruments)@.instrument_enabled == old(instruments)@.instrument_enabled,
        final(instruments)@.op_timing_enabled == old(instruments)@.op_timing_enabled,
        final(instruments)@.op_breakdown == old(instruments)@.op_breakdown,
{
}

/// The switches, resets and takes are the steps of a history that bear their names.
pub proof fn switches_are_steps_of_a_history(
    reset: &mut Instruments,
    breakdown_on: &mut Instruments,
    breakdown_off: &mut Instruments,
    timing_on: &mut Instruments,
    timing_off: &mut Instruments,
    count: usize,
    counts: Vec<(String, usize)>,
    times: Vec<(String, usize, u128)>,
)
    requires
        call_ensures(reset_op_counter, (reset,), count),
        call_ensures(enable_op_breakdown, (breakdown_on,), ()),
        call_ensures(take_op_breakdown, (breakdown_off,), counts),
        call_ensures(enable_op_timing, (timing_on,), ()),
        call_ensures(take_op_timing, (timing_off,), times),
    ensures
        final(reset)@ == happens(old(reset)@, Happening::CounterReset),
        final(breakdown_on)@ == happens(old(breakdown_on)@, Happening::BreakdownEnabled),
        final(breakdown_off)@ == happens(old(breakdown_off)@, Happening::BreakdownTaken),
        final(timing_on)@ == happens(old(timing_on)@, Happening::TimingEnabled),
        final(timing_off)@ == happens(old(timing_off)@, Happening::TimingTaken),
{
}

/// A table gives back what was set last at a key, and what was there before at any other.
pub proof fn table_gives_back_what_was_set<V>(
    table: &mut CallsiteTable<V>,
    key: String,
    tally: V,
    asked: &String,
    answer: Option<&V>,
)
    requires
        call_ensures(CallsiteTable::<V>::set, (table, key, tally), ()),
        call_ensures(CallsiteTable::<V>::get, (&*final(table), asked), answer),
    ensures
        asked@ == key@ ==> (answer matches Some(v) && *v == tally),
        asked@ != key@ ==> (answer is Some <==> old(table)@.contains_key(asked@)),
        asked@ != key@ ==> (answer matches Some(v) ==> *v == old(table)@[asked@]),
{
}

/// A table of counts is listed from the highest count down.
pub proof fn counts_are_listed_from_the_highest(
    table: CallsiteTable<usize>,
    listing: Vec<(String, usize)>,
)
    requires
        call_ensures(CallsiteTable::<usize>::into_descending, (table,), listing),
    ensures
        forall|i: int, j: int|
            0 <= i < j < listing@.len() ==> (#[trigger] listing@[i]).0@ != (
            #[trigger] listing@[j]).0@ && listing@[i].1 >= listing@[j].1,
        forall|i: int|
            0 <= i < listing@.len() ==> table@.contains_key((#[trigger] listing@[i]).0@)
                && listing@[i].1 == table@[listing@[i].0@],
        forall|key: Seq<char>| #[trigger]
            table@.contains_key(key) ==> exists|i: int|
                0 <= i < listing@.len() && (#[trigger] listing@[i]).0@ == key,
{
}

/// A table of times is listed from the longest time down.
pub proof fn times_are_listed_from_the_longest(
    table: CallsiteTable<(usize, u128)>,
    listing: Vec<(String, (usize, u128))>,
)
    requires
        call_ensures(CallsiteTable::<(usize, u128)>::into_descending, (table,), listing),
    ensures
        forall|i: int, j: int|
            0 <= i < j < listing@.len() ==> (#[trigger] listing@[i]).0@ != (
            #[trigger] listing@[j]).0@ && listing@[i].1.1 >= listing@[j].1.1,
        forall|i: int|
            0 <= i < listing@.len() ==> table@.contains_key((#[trigger] listing@[i]).0@)
                && listing@[i].1 == table@[listing@[i].0@],
        forall|key: Seq<char>| #[trigger]
            table@.contains_key(key) ==> exists|i: int|
                0 <= i < listing@.len() && (#[trigger] listing@[i]).0@ == key,
{
}

/// What is taken after a history that was collected lists the number of operations that were
/// tallied at each of their callsites, and these numbers add up to all that were tallied.
pub proof fn taken_breakdown_tells_the_history(
    v: InstrumentsView,
    hs: Seq<Happening>,
    instruments: &mut Instruments,
    listing: Vec<(String, usize)>,
)
    requires
        leaves_breakdown(hs),
        counts_fit(Map::empty(), hs),
        old(instruments)@ == history(v.breakdown_enabled(), hs),
        call_ensures(take_op_breakdown, (instruments,), listing),
    ensures
        forall|i: int|
            0 <= i < listing@.len() ==> (#[trigger] listing@[i]).1 == weigh(
                hs,
                tally_at(listing@[i].0@),
            ),
        total(listing@) == weigh(hs, tally()),
{
    breakdown_counts_operations(v.breakdown_enabled(), hs);
    taken_breakdown_adds_up(v, hs, listing@);
}

/// What is taken after a history that was timed lists callsites, each with the number of calls
/// that were timed there and the sum of their nanoseconds. Every callsite of such a call is in it.
pub proof fn taken_timing_tells_the_history(
    v: InstrumentsView,
    hs: Seq<Happening>,
    instruments: &mut Instruments,
    listing: Vec<(String, usize, u128)>,
)
    requires
        leaves_timing(hs),
        times_fit(Map::empty(), hs),
        old(instruments)@ == history(v.timing_enabled(), hs),
        call_ensures(take_op_timing, (instruments,), listing),
    ensures
        forall|i: int|
            0 <= i < listing@.len() ==> (#[trigger] listing@[i]).1 == weigh(
                hs,
                sample_at(listing@[i].0@),
            ) && listing@[i].2 == weigh(hs, time_at(listing@[i].0@)),
        forall|key: Seq<char>| #[trigger]
            weigh(hs, sample_at(key)) > 0 ==> exists|j: int|
                0 <= j < listing@.len() && (#[trigger] listing@[j]).0@ == key,
{
    timing_adds_up(v.timing_enabled(), hs);
    let times = history(v.timing_enabled(), hs).op_timing->0;
    assert forall|i: int| 0 <= i < listing@.len() implies (#[trigger] listing@[i]).1 == weigh(
        hs,
        sample_at(listing@[i].0@),
    ) && listing@[i].2 == weigh(hs, time_at(listing@[i].0@)) by {
        assert(times.contains_key(listing@[i].0@));
    }
    assert forall|key: Seq<char>| #[trigger] weigh(hs, sample_at(key)) > 0 implies exists|j: int|
        0 <= j < listing@.len() && (#[trigger] listing@[j]).0@ == key by {
        assert(times.contains_key(key));
    }
}

} // verus!

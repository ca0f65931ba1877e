//! Counting and timing, over any history of the instruments.
//!
//! What happens to the instruments happens step by step: operations start, their calls come back,
//! tables are enabled and taken, the counter is reset. Operations may nest or run side by side, so
//! these steps may come in any order. The laws here hold of all of them.

use vstd::prelude::*;
use vstd::seq_lib::{to_multiset_contains, to_multiset_len, to_multiset_remove};

use crate::error::LocationView;
use crate::instrument::{callsite, count_of, time_of, InstrumentsView, OpPlan};
use crate::table::lists;
use crate::text::{decimal, digit};

verus! {

/// A decimal number consists of digits.
pub proof fn decimal_has_digits_only(n: nat)
    ensures
        decimal(n).len() > 0,
        forall|i: int| 0 <= i < decimal(n).len() ==> '0' <= #[trigger] decimal(n)[i] <= '9',
    decreases n,
{
    if n >= 10 {
        decimal_has_digits_only(n / 10);
    }
}

/// Different numbers have different decimals.
pub proof fn decimal_is_injective(m: nat, n: nat)
    requires
        decimal(m) == decimal(n),
    ensures
        m == n,
    decreases m,
{
    decimal_has_digits_only(m / 10);
    decimal_has_digits_only(n / 10);
    if m >= 10 && n >= 10 {
        assert(decimal(m).drop_last() =~= decimal(m / 10));
        assert(decimal(n).drop_last() =~= decimal(n / 10));
        assert(decimal(m).last() == digit(m % 10));
        assert(decimal(n).last() == digit(n % 10));
        decimal_is_injective(m / 10, n / 10);
    } else if m >= 10 {
        assert(decimal(m).len() == decimal(m / 10).len() + 1);
    } else if n >= 10 {
        assert(decimal(n).len() == decimal(n / 10).len() + 1);
    } else {
        assert(decimal(m)[0] == digit(m));
        assert(decimal(n)[0] == digit(n));
    }
}

/// Two places share a callsite only where file and line are the same.
pub proof fn callsites_tell_places_apart(a: LocationView, b: LocationView)
    requires
        callsite(a) == callsite(b),
    ensures
        a.file == b.file,
        a.line == b.line,
{
    let key = callsite(a);
    let da = decimal(a.line as nat);
    let db = decimal(b.line as nat);
    decimal_has_digits_only(a.line as nat);
    decimal_has_digits_only(b.line as nat);
    assert(callsite(a).len() == a.file.len() + 1 + da.len());
    assert(callsite(b).len() == b.file.len() + 1 + db.len());
    if a.file.len() < b.file.len() {
        let i = b.file.len() as int;
        assert(callsite(b)[i] == ':');
        assert(callsite(a)[i] == da[i - a.file.len() - 1]);
    } else if b.file.len() < a.file.len() {
        let i = a.file.len() as int;
        assert(callsite(a)[i] == ':');
        assert(callsite(b)[i] == db[i - b.file.len() - 1]);
    }
    let n = a.file.len() as int;
    assert(a.file =~= key.take(n));
    assert(b.file =~= callsite(b).take(n));
    assert(da =~= key.skip(n + 1));
    assert(db =~= callsite(b).skip(n + 1));
    decimal_is_injective(a.line as nat, b.line as nat);
}

/// What happens to the instruments in one step.
pub enum Happening {
    /// An operation at `at` starts and is counted. `acquired` says whether the table of callsites
    /// was free.
    Started { at: LocationView, acquired: bool },
    /// The call of a timed operation at `at` came back. `acquired` says whether the table of times
    /// was free.
    Returned { at: LocationView, elapsed_ns: u128, acquired: bool },
    /// `reset_op_counter`.
    CounterReset,
    /// `enable_op_breakdown`.
    BreakdownEnabled,
    /// `take_op_breakdown`.
    BreakdownTaken,
    /// `enable_op_timing`.
    TimingEnabled,
    /// `take_op_timing`.
    TimingTaken,
}

/// The instruments after one step.
pub open spec fn happens(v: InstrumentsView, h: Happening) -> InstrumentsView {
    match h {
        Happening::Started { at, acquired } => v.started(
            OpPlan { instrument: true, timed: false },
            at,
            acquired,
        ),
        Happening::Returned { at, elapsed_ns, acquired } => v.timed(at, elapsed_ns, acquired),
        Happening::CounterReset => v.counter_reset(),
        Happening::BreakdownEnabled => v.breakdown_enabled(),
        Happening::BreakdownTaken => v.breakdown_taken(),
        Happening::TimingEnabled => v.timing_enabled(),
        Happening::TimingTaken => v.timing_taken(),
    }
}

/// The instruments after one step after the other.
pub open spec fn history(v: InstrumentsView, hs: Seq<Happening>) -> InstrumentsView
    decreases hs.len(),
{
    if hs.len() == 0 {
        v
    } else {
        happens(history(v, hs.drop_last()), hs.last())
    }
}

/// What the steps of a history weigh together.
pub open spec fn weigh(hs: Seq<Happening>, weight: spec_fn(Happening) -> nat) -> nat
    decreases hs.len(),
{
    if hs.len() == 0 {
        0
    } else {
        weigh(hs.drop_last(), weight) + weight(hs.last())
    }
}

/// One for an operation that starts.
pub open spec fn start() -> spec_fn(Happening) -> nat {
    |h: Happening|
        if h is Started {
            1nat
        } else {
            0
        }
}

/// One for an operation that starts and is tallied at a callsite.
pub open spec fn tally() -> spec_fn(Happening) -> nat {
    |h: Happening|
        match h {
            Happening::Started { acquired: true, .. } => 1nat,
            _ => 0,
        }
}

/// One for an operation that starts and is tallied at `key`.
pub open spec fn tally_at(key: Seq<char>) -> spec_fn(Happening) -> nat {
    |h: Happening|
        match h {
            Happening::Started { at, acquired: true } if callsite(at) == key => 1nat,
            _ => 0,
        }
}

/// One for a call that is timed at `key`.
pub open spec fn sample_at(key: Seq<char>) -> spec_fn(Happening) -> nat {
    |h: Happening|
        match h {
            Happening::Returned { at, acquired: true, .. } if callsite(at) == key => 1nat,
            _ => 0,
        }
}

/// The nanoseconds of a call that is timed at `key`.
pub open spec fn time_at(key: Seq<char>) -> spec_fn(Happening) -> nat {
    |h: Happening|
        match h {
            Happening::Returned { at, elapsed_ns, acquired: true } if callsite(at) == key => {
                elapsed_ns as nat
            },
            _ => 0,
        }
}

/// The table of callsites is neither enabled nor taken.
pub open spec fn leaves_breakdown(hs: Seq<Happening>) -> bool {
    forall|i: int|
        0 <= i < hs.len() ==> !((#[trigger] hs[i]) is BreakdownEnabled)
            && !(hs[i] is BreakdownTaken)
}

/// The table of times is neither enabled nor taken.
pub open spec fn leaves_timing(hs: Seq<Happening>) -> bool {
    forall|i: int|
        0 <= i < hs.len() ==> !((#[trigger] hs[i]) is TimingEnabled) && !(hs[i] is TimingTaken)
}

/// Nothing but operations.
pub open spec fn operations_only(hs: Seq<Happening>) -> bool {
    forall|i: int| 0 <= i < hs.len() ==> (#[trigger] hs[i]) is Started || hs[i] is Returned
}

/// The tallies of a history fit, from `counts` on.
pub open spec fn counts_fit(counts: Map<Seq<char>, usize>, hs: Seq<Happening>) -> bool {
    forall|key: Seq<char>|
        count_of(counts, key) + #[trigger] weigh(hs, tally_at(key)) <= usize::MAX
}

/// The samples and times of a history fit, from `times` on.
pub open spec fn times_fit(times: Map<Seq<char>, (usize, u128)>, hs: Seq<Happening>) -> bool {
    forall|key: Seq<char>|
        #![trigger weigh(hs, sample_at(key))]
        #![trigger weigh(hs, time_at(key))]
        time_of(times, key).0 + weigh(hs, sample_at(key)) <= usize::MAX && time_of(times, key).1
            + weigh(hs, time_at(key)) <= u128::MAX
}

/// `after` holds, for every callsite, what `before` holds and what the history adds. A callsite is
/// in it where it was there before or was tallied.
pub open spec fn counts_add_up(
    before: Map<Seq<char>, usize>,
    hs: Seq<Happening>,
    after: Map<Seq<char>, usize>,
) -> bool {
    forall|key: Seq<char>|
        #![trigger after.contains_key(key)]
        #![trigger weigh(hs, tally_at(key))]
        count_of(after, key) == count_of(before, key) + weigh(hs, tally_at(key)) && (
        after.contains_key(key) <==> before.contains_key(key) || weigh(hs, tally_at(key)) > 0)
}

/// The same of samples and times.
pub open spec fn times_add_up(
    before: Map<Seq<char>, (usize, u128)>,
    hs: Seq<Happening>,
    after: Map<Seq<char>, (usize, u128)>,
) -> bool {
    forall|key: Seq<char>|
        #![trigger after.contains_key(key)]
        #![trigger weigh(hs, sample_at(key))]
        time_of(after, key).0 == time_of(before, key).0 + weigh(hs, sample_at(key)) && time_of(
            after,
            key,
        ).1 == time_of(before, key).1 + weigh(hs, time_at(key)) && (after.contains_key(key)
            <==> before.contains_key(key) || weigh(hs, sample_at(key)) > 0)
}

/// A history in two parts is the one part after the other.
pub proof fn history_goes_on(v: InstrumentsView, first: Seq<Happening>, second: Seq<Happening>)
    ensures
        history(v, first + second) == history(history(v, first), second),
    decreases second.len(),
{
    if second.len() == 0 {
        assert(first + second =~= first);
    } else {
        assert((first + second).drop_last() =~= first + second.drop_last());
        history_goes_on(v, first, second.drop_last());
    }
}

/// Operations touch no switch, and no table that is not being collected.
pub proof fn operations_keep_the_switches(v: InstrumentsView, hs: Seq<Happening>)
    requires
        operations_only(hs),
    ensures
        history(v, hs).instrument_enabled == v.instrument_enabled,
        history(v, hs).op_timing_enabled == v.op_timing_enabled,
        history(v, hs).op_breakdown is Some <==> v.op_breakdown is Some,
        history(v, hs).op_timing is Some <==> v.op_timing is Some,
    decreases hs.len(),
{
    if hs.len() > 0 {
        assert(operations_only(hs.drop_last())) by {
            assert forall|i: int| 0 <= i < hs.len() - 1 implies (
            #[trigger] hs.drop_last()[i]) is Started || hs.drop_last()[i] is Returned by {
                assert(hs[i] is Started || hs[i] is Returned);
            }
        }
        operations_keep_the_switches(v, hs.drop_last());
        assert(hs[hs.len() - 1] is Started || hs[hs.len() - 1] is Returned);
    }
}

/// Once the switch of all instruments is on, it stays on.
pub proof fn switch_stays_on(v: InstrumentsView, hs: Seq<Happening>)
    requires
        v.instrument_enabled,
    ensures
        history(v, hs).instrument_enabled,
    decreases hs.len(),
{
    if hs.len() > 0 {
        switch_stays_on(v, hs.drop_last());
    }
}

/// The clock runs only for operations that are counted.
pub proof fn timed_operations_are_counted(v: InstrumentsView)
    ensures
        v.plan().timed ==> v.plan().instrument,
{
}

/// Repeated resets are one reset.
pub proof fn reset_is_idempotent(v: InstrumentsView)
    ensures
        v.counter_reset().counter_reset() == v.counter_reset(),
{
}

/// Until the next reset, the counter says how many operations started since, whatever else
/// happens in between. It starts over where it would not fit.
pub proof fn counter_counts_operations(v: InstrumentsView, hs: Seq<Happening>)
    requires
        forall|i: int| 0 <= i < hs.len() ==> !((#[trigger] hs[i]) is CounterReset),
    ensures
        history(v, hs).op_counter == (v.op_counter + weigh(hs, start())) as nat % (usize::MAX
            + 1) as nat,
        history(v.counter_reset(), hs).op_counter == weigh(hs, start()) % (usize::MAX + 1) as nat,
    decreases hs.len(),
{
    let m = (usize::MAX + 1) as nat;
    if hs.len() > 0 {
        let before = hs.drop_last();
        assert forall|i: int| 0 <= i < before.len() implies !((
        #[trigger] before[i]) is CounterReset) by {
            assert(!(hs[i] is CounterReset));
        }
        assert(!(hs[hs.len() - 1] is CounterReset));
        counter_counts_operations(v, before);
        counts_on((v.op_counter + weigh(before, start())) as nat, m);
        counts_on(weigh(before, start()), m);
    } else {
        vstd::arithmetic::div_mod::lemma_small_mod(v.op_counter as nat, m);
        vstd::arithmetic::div_mod::lemma_small_mod(0, m);
    }
}

proof fn counts_on(n: nat, m: nat)
    requires
        m > 1,
    ensures
        (n + 1) % m == (if n % m == m - 1 {
            0
        } else {
            n % m + 1
        }) as nat,
{
    assert((n + 1) % m == (if n % m == m - 1 {
        0
    } else {
        n % m + 1
    }) as nat) by (nonlinear_arith)
        requires
            m > 1,
    ;
}

proof fn weight_grows(hs: Seq<Happening>, weight: spec_fn(Happening) -> nat)
    requires
        hs.len() > 0,
    ensures
        weigh(hs.drop_last(), weight) <= weigh(hs, weight),
{
}

proof fn breakdown_leaves_before(hs: Seq<Happening>)
    requires
        hs.len() > 0,
        leaves_breakdown(hs),
    ensures
        leaves_breakdown(hs.drop_last()),
        !(hs.last() is BreakdownEnabled),
        !(hs.last() is BreakdownTaken),
{
    let before = hs.drop_last();
    assert forall|i: int| 0 <= i < before.len() implies !((
    #[trigger] before[i]) is BreakdownEnabled) && !(before[i] is BreakdownTaken) by {
        assert(!(hs[i] is BreakdownEnabled));
    }
    assert(!(hs[hs.len() - 1] is BreakdownEnabled));
}

proof fn timing_leaves_before(hs: Seq<Happening>)
    requires
        hs.len() > 0,
        leaves_timing(hs),
    ensures
        leaves_timing(hs.drop_last()),
        !(hs.last() is TimingEnabled),
        !(hs.last() is TimingTaken),
{
    assert forall|i: int| 0 <= i < hs.len() - 1 implies !((
    #[trigger] hs.drop_last()[i]) is TimingEnabled) && !(hs.drop_last()[i] is TimingTaken) by {
        assert(!(hs[i] is TimingEnabled));
    }
    assert(!(hs[hs.len() - 1] is TimingEnabled));
}

/// While callsites are being collected, the table grows by one at the callsite of every operation
/// that starts and finds the table free, whatever else happens in between: operations that nest,
/// resets, or the table of times being enabled and taken.
pub proof fn breakdown_counts_operations(v: InstrumentsView, hs: Seq<Happening>)
    requires
        v.op_breakdown is Some,
        leaves_breakdown(hs),
        counts_fit(v.op_breakdown->0, hs),
    ensures
        history(v, hs).op_breakdown matches Some(counts) && counts_add_up(
            v.op_breakdown->0,
            hs,
            counts,
        ),
    decreases hs.len(),
{
    let start = v.op_breakdown->0;
    if hs.len() > 0 {
        let before = hs.drop_last();
        breakdown_leaves_before(hs);
        assert forall|key: Seq<char>|
            count_of(start, key) + #[trigger] weigh(before, tally_at(key)) <= usize::MAX by {
            weight_grows(hs, tally_at(key));
            assert(count_of(start, key) + weigh(hs, tally_at(key)) <= usize::MAX);
        }
        breakdown_counts_operations(v, before);
        let earlier = history(v, before).op_breakdown->0;
        let counts = history(v, hs).op_breakdown->0;
        assert forall|key: Seq<char>|
            #![trigger counts.contains_key(key)]
            #![trigger weigh(hs, tally_at(key))]
            count_of(counts, key) == count_of(start, key) + weigh(hs, tally_at(key)) && (
            counts.contains_key(key) <==> start.contains_key(key) || weigh(hs, tally_at(key))
                > 0) by {
            assert(count_of(earlier, key) == count_of(start, key) + weigh(before, tally_at(key)));
            assert(earlier.contains_key(key) <==> start.contains_key(key) || weigh(
                before,
                tally_at(key),
            ) > 0);
            assert(weigh(hs, tally_at(key)) == weigh(before, tally_at(key)) + tally_at(key)(
                hs.last(),
            ));
            assert(count_of(start, key) + weigh(hs, tally_at(key)) <= usize::MAX);
            if let Happening::Started { at, acquired } = hs.last() {
                if acquired {
                    let site = callsite(at);
                    assert(counts == earlier.insert(
                        site,
                        (count_of(earlier, site) + 1) as usize,
                    ));
                }
            }
        }
    }
}

/// While times are being collected, the table grows by one sample at the callsite of every timed
/// call that comes back and finds the table free, and by the nanoseconds of that call, whatever
/// else happens in between.
pub proof fn timing_adds_up(v: InstrumentsView, hs: Seq<Happening>)
    requires
        v.op_timing is Some,
        leaves_timing(hs),
        times_fit(v.op_timing->0, hs),
    ensures
        history(v, hs).op_timing matches Some(times) && times_add_up(v.op_timing->0, hs, times),
    decreases hs.len(),
{
    let start = v.op_timing->0;
    if hs.len() > 0 {
        let before = hs.drop_last();
        timing_leaves_before(hs);
        assert forall|key: Seq<char>|
            #![trigger weigh(before, sample_at(key))]
            #![trigger weigh(before, time_at(key))]
            time_of(start, key).0 + weigh(before, sample_at(key)) <= usize::MAX && time_of(
                start,
                key,
            ).1 + weigh(before, time_at(key)) <= u128::MAX by {
            weight_grows(hs, sample_at(key));
            weight_grows(hs, time_at(key));
            assert(time_of(start, key).0 + weigh(hs, sample_at(key)) <= usize::MAX);
        }
        timing_adds_up(v, before);
        let earlier = history(v, before).op_timing->0;
        let times = history(v, hs).op_timing->0;
        assert forall|key: Seq<char>|
            #![trigger times.contains_key(key)]
            #![trigger weigh(hs, sample_at(key))]
            time_of(times, key).0 == time_of(start, key).0 + weigh(hs, sample_at(key)) && time_of(
                times,
                key,
            ).1 == time_of(start, key).1 + weigh(hs, time_at(key)) && (times.contains_key(key)
                <==> start.contains_key(key) || weigh(hs, sample_at(key)) > 0) by {
            assert(time_of(earlier, key).0 == time_of(start, key).0 + weigh(
                before,
                sample_at(key),
            ));
            assert(earlier.contains_key(key) <==> start.contains_key(key) || weigh(
                before,
                sample_at(key),
            ) > 0);
            assert(weigh(hs, sample_at(key)) == weigh(before, sample_at(key)) + sample_at(key)(
                hs.last(),
            ));
            assert(weigh(hs, time_at(key)) == weigh(before, time_at(key)) + time_at(key)(
                hs.last(),
            ));
            assert(time_of(start, key).0 + weigh(hs, sample_at(key)) <= usize::MAX);
            if let Happening::Returned { at, elapsed_ns, acquired } = hs.last() {
                if acquired {
                    let site = callsite(at);
                    assert(times == earlier.insert(
                        site,
                        (
                            (time_of(earlier, site).0 + 1) as usize,
                            (time_of(earlier, site).1 + elapsed_ns) as u128,
                        ),
                    ));
                }
            }
        }
    }
}

/// Where both tables are enabled together and every operation at `key` that was tallied was also
/// timed, both tables say the same of how many there were.
pub proof fn collectors_see_the_same_operations(
    v: InstrumentsView,
    hs: Seq<Happening>,
    key: Seq<char>,
)
    requires
        leaves_breakdown(hs),
        leaves_timing(hs),
        counts_fit(Map::empty(), hs),
        times_fit(Map::empty(), hs),
        weigh(hs, tally_at(key)) == weigh(hs, sample_at(key)),
    ensures
        ({
            let end = history(v.breakdown_enabled().timing_enabled(), hs);
            &&& end.op_breakdown matches Some(counts)
            &&& end.op_timing matches Some(times)
            &&& count_of(counts, key) == time_of(times, key).0
            &&& counts.contains_key(key) <==> times.contains_key(key)
        }),
{
    let start = v.breakdown_enabled().timing_enabled();
    breakdown_counts_operations(start, hs);
    timing_adds_up(start, hs);
    let counts = history(start, hs).op_breakdown->0;
    let times = history(start, hs).op_timing->0;
    assert(counts.contains_key(key) <==> weigh(hs, tally_at(key)) > 0);
    assert(times.contains_key(key) <==> weigh(hs, sample_at(key)) > 0);
}

/// What was taken is gone: until it is enabled again, a table is not collected, whatever else
/// happens. Taking a table leaves the switch of all instruments as it is, and taking the times
/// stops the clock.
pub proof fn taken_tables_stay_away(v: InstrumentsView, hs: Seq<Happening>)
    ensures
        (forall|i: int| 0 <= i < hs.len() ==> !((#[trigger] hs[i]) is BreakdownEnabled))
            ==> history(v.breakdown_taken(), hs).op_breakdown is None,
        (forall|i: int| 0 <= i < hs.len() ==> !((#[trigger] hs[i]) is TimingEnabled)) ==> history(
            v.timing_taken(),
            hs,
        ).op_timing is None && !history(v.timing_taken(), hs).op_timing_enabled,
        v.breakdown_taken().instrument_enabled == v.instrument_enabled,
        v.timing_taken().instrument_enabled == v.instrument_enabled,
    decreases hs.len(),
{
    if hs.len() > 0 {
        let before = hs.drop_last();
        taken_tables_stay_away(v, before);
        if forall|i: int| 0 <= i < hs.len() ==> !((#[trigger] hs[i]) is BreakdownEnabled) {
            assert forall|i: int| 0 <= i < before.len() implies !((
            #[trigger] before[i]) is BreakdownEnabled) by {
                assert(!(hs[i] is BreakdownEnabled));
            }
            assert(!(hs[hs.len() - 1] is BreakdownEnabled));
        }
        if forall|i: int| 0 <= i < hs.len() ==> !((#[trigger] hs[i]) is TimingEnabled) {
            assert forall|i: int| 0 <= i < before.len() implies !((
            #[trigger] before[i]) is TimingEnabled) by {
                assert(!(hs[i] is TimingEnabled));
            }
            assert(!(hs[hs.len() - 1] is TimingEnabled));
        }
    }
}

proof fn weight_without(hs: Seq<Happening>, i: int, weight: spec_fn(Happening) -> nat)
    requires
        0 <= i < hs.len(),
    ensures
        weigh(hs, weight) == weigh(hs.remove(i), weight) + weight(hs[i]),
    decreases hs.len(),
{
    if i == hs.len() - 1 {
        assert(hs.remove(i) =~= hs.drop_last());
    } else {
        weight_without(hs.drop_last(), i, weight);
        assert(hs.remove(i).drop_last() =~= hs.drop_last().remove(i));
        assert(hs.remove(i).last() == hs.last());
    }
}

proof fn same_steps_weigh_the_same(
    a: Seq<Happening>,
    b: Seq<Happening>,
    weight: spec_fn(Happening) -> nat,
)
    requires
        a.to_multiset() == b.to_multiset(),
    ensures
        weigh(a, weight) == weigh(b, weight),
    decreases a.len(),
{
    to_multiset_len(a);
    to_multiset_len(b);
    if a.len() > 0 {
        let h = a.last();
        assert(a.contains(h));
        to_multiset_contains(a, h);
        to_multiset_contains(b, h);
        let i = choose|i: int| 0 <= i < b.len() && b[i] == h;
        to_multiset_remove(a, a.len() - 1);
        to_multiset_remove(b, i);
        assert(a.remove(a.len() - 1) =~= a.drop_last());
        same_steps_weigh_the_same(a.drop_last(), b.remove(i), weight);
        weight_without(b, i, weight);
    }
}

/// The order in which operations start and come back makes no difference to the instruments.
pub proof fn order_of_operations_does_not_matter(
    v: InstrumentsView,
    a: Seq<Happening>,
    b: Seq<Happening>,
)
    requires
        operations_only(a),
        operations_only(b),
        a.to_multiset() == b.to_multiset(),
        v.op_breakdown matches Some(counts) ==> counts_fit(counts, a),
        v.op_timing matches Some(times) ==> times_fit(times, a),
    ensures
        history(v, a) == history(v, b),
{
    let va = history(v, a);
    let vb = history(v, b);
    operations_keep_the_switches(v, a);
    operations_keep_the_switches(v, b);
    assert(forall|i: int| 0 <= i < a.len() ==> (#[trigger] a[i]) is Started || a[i] is Returned);
    assert(forall|i: int| 0 <= i < b.len() ==> (#[trigger] b[i]) is Started || b[i] is Returned);
    counter_counts_operations(v, a);
    counter_counts_operations(v, b);
    same_steps_weigh_the_same(a, b, start());
    if let Some(counts) = v.op_breakdown {
        assert(leaves_breakdown(a) && leaves_breakdown(b));
        assert forall|key: Seq<char>|
            count_of(counts, key) + #[trigger] weigh(b, tally_at(key)) <= usize::MAX by {
            same_steps_weigh_the_same(a, b, tally_at(key));
            assert(count_of(counts, key) + weigh(a, tally_at(key)) <= usize::MAX);
        }
        breakdown_counts_operations(v, a);
        breakdown_counts_operations(v, b);
        let ma = va.op_breakdown->0;
        let mb = vb.op_breakdown->0;
        assert forall|key: Seq<char>|
            (#[trigger] ma.contains_key(key) <==> mb.contains_key(key)) && count_of(ma, key)
                == count_of(mb, key) by {
            same_steps_weigh_the_same(a, b, tally_at(key));
            assert(mb.contains_key(key) <==> counts.contains_key(key) || weigh(b, tally_at(key))
                > 0);
        }
        assert forall|key: Seq<char>| #[trigger] ma.contains_key(key) implies ma[key]
            == mb[key] by {
            assert(count_of(ma, key) == count_of(mb, key));
        }
        assert(ma =~= mb);
    }
    if let Some(times) = v.op_timing {
        assert(leaves_timing(a) && leaves_timing(b));
        assert forall|key: Seq<char>|
            #![trigger weigh(b, sample_at(key))]
            #![trigger weigh(b, time_at(key))]
            time_of(times, key).0 + weigh(b, sample_at(key)) <= usize::MAX && time_of(
                times,
                key,
            ).1 + weigh(b, time_at(key)) <= u128::MAX by {
            same_steps_weigh_the_same(a, b, sample_at(key));
            same_steps_weigh_the_same(a, b, time_at(key));
            assert(time_of(times, key).0 + weigh(a, sample_at(key)) <= usize::MAX);
        }
        timing_adds_up(v, a);
        timing_adds_up(v, b);
        let ma = va.op_timing->0;
        let mb = vb.op_timing->0;
        assert forall|key: Seq<char>|
            (#[trigger] ma.contains_key(key) <==> mb.contains_key(key)) && time_of(ma, key)
                == time_of(mb, key) by {
            same_steps_weigh_the_same(a, b, sample_at(key));
            same_steps_weigh_the_same(a, b, time_at(key));
            assert(mb.contains_key(key) <==> times.contains_key(key) || weigh(b, sample_at(key))
                > 0);
        }
        assert forall|key: Seq<char>| #[trigger] ma.contains_key(key) implies ma[key]
            == mb[key] by {
            assert(time_of(ma, key) == time_of(mb, key));
        }
        assert(ma =~= mb);
    }
}

/// The sum of the counts of a listing.
pub open spec fn total(listing: Seq<(String, usize)>) -> nat
    decreases listing.len(),
{
    if listing.len() == 0 {
        0
    } else {
        total(listing.drop_last()) + listing.last().1 as nat
    }
}

/// The tallies at the callsites of a listing, taken together.
spec fn tallies_listed(hs: Seq<Happening>, listing: Seq<(String, usize)>) -> nat
    decreases listing.len(),
{
    if listing.len() == 0 {
        0
    } else {
        tallies_listed(hs, listing.drop_last()) + weigh(hs, tally_at(listing.last().0@))
    }
}

spec fn keys_differ(listing: Seq<(String, usize)>) -> bool {
    forall|i: int, j: int|
        0 <= i < j < listing.len() ==> (#[trigger] listing[i]).0@ != (#[trigger] listing[j]).0@
}

spec fn is_listed(key: Seq<char>, listing: Seq<(String, usize)>) -> bool {
    exists|i: int| 0 <= i < listing.len() && (#[trigger] listing[i]).0@ == key
}

/// The callsite at which a step is tallied is listed.
spec fn tally_is_listed(h: Happening, listing: Seq<(String, usize)>) -> bool {
    h matches Happening::Started { at, acquired: true } ==> is_listed(callsite(at), listing)
}

/// One more tally is one more listed, where its callsite is listed.
proof fn one_more_tally_listed(hs: Seq<Happening>, listing: Seq<(String, usize)>)
    requires
        hs.len() > 0,
        keys_differ(listing),
    ensures
        tallies_listed(hs, listing) == tallies_listed(hs.drop_last(), listing) + (
        match hs.last() {
            Happening::Started { at, acquired: true } if is_listed(callsite(at), listing) => 1nat,
            _ => 0,
        }),
    decreases listing.len(),
{
    if listing.len() > 0 {
        let rest = listing.drop_last();
        assert forall|i: int, j: int| 0 <= i < j < rest.len() implies (#[trigger] rest[i]).0@ != (
        #[trigger] rest[j]).0@ by {
            assert(listing[i].0@ != listing[j].0@);
        }
        one_more_tally_listed(hs, rest);
        if let Happening::Started { at, acquired: true } = hs.last() {
            let key = callsite(at);
            if is_listed(key, rest) {
                let i = choose|i: int| 0 <= i < rest.len() && (#[trigger] rest[i]).0@ == key;
                assert(listing[i].0@ == key);
                assert(listing[i].0@ != listing[listing.len() - 1].0@);
            } else if is_listed(key, listing) {
                let i = choose|i: int| 0 <= i < listing.len() && (#[trigger] listing[i]).0@ == key;
                if i < rest.len() {
                    assert(rest[i].0@ == key);
                }
            } else {
                assert(listing[listing.len() - 1].0@ != key);
            }
        }
    }
}

proof fn no_tallies_listed(listing: Seq<(String, usize)>)
    ensures
        tallies_listed(Seq::empty(), listing) == 0,
    decreases listing.len(),
{
    if listing.len() > 0 {
        no_tallies_listed(listing.drop_last());
    }
}

proof fn all_tallies_listed(hs: Seq<Happening>, listing: Seq<(String, usize)>)
    requires
        keys_differ(listing),
        forall|i: int| 0 <= i < hs.len() ==> tally_is_listed(#[trigger] hs[i], listing),
    ensures
        tallies_listed(hs, listing) == weigh(hs, tally()),
    decreases hs.len(),
{
    if hs.len() == 0 {
        assert(hs =~= Seq::empty());
        no_tallies_listed(listing);
    } else {
        let before = hs.drop_last();
        assert forall|i: int| 0 <= i < before.len() implies tally_is_listed(
            #[trigger] before[i],
            listing,
        ) by {
            assert(tally_is_listed(hs[i], listing));
        }
        all_tallies_listed(before, listing);
        one_more_tally_listed(hs, listing);
        assert(tally_is_listed(hs[hs.len() - 1], listing));
    }
}

proof fn total_is_tallies_listed(hs: Seq<Happening>, listing: Seq<(String, usize)>)
    requires
        forall|i: int|
            0 <= i < listing.len() ==> (#[trigger] listing[i]).1 == weigh(
                hs,
                tally_at(listing[i].0@),
            ),
    ensures
        total(listing) == tallies_listed(hs, listing),
    decreases listing.len(),
{
    if listing.len() > 0 {
        let rest = listing.drop_last();
        assert forall|i: int| 0 <= i < rest.len() implies (#[trigger] rest[i]).1 == weigh(
            hs,
            tally_at(rest[i].0@),
        ) by {
            assert(listing[i].1 == weigh(hs, tally_at(listing[i].0@)));
        }
        total_is_tallies_listed(hs, rest);
        assert(listing[listing.len() - 1].1 == weigh(hs, tally_at(listing[listing.len() - 1].0@)));
    }
}

proof fn step_weighs_in(hs: Seq<Happening>, i: int, weight: spec_fn(Happening) -> nat)
    requires
        0 <= i < hs.len(),
    ensures
        weight(hs[i]) <= weigh(hs, weight),
    decreases hs.len(),
{
    if i < hs.len() - 1 {
        step_weighs_in(hs.drop_last(), i, weight);
    }
}

/// What is taken after a history that was collected is a listing of the number of operations that
/// were tallied at each of their callsites, and these numbers add up to all that were tallied.
pub proof fn taken_breakdown_adds_up(
    v: InstrumentsView,
    hs: Seq<Happening>,
    listing: Seq<(String, usize)>,
)
    requires
        leaves_breakdown(hs),
        counts_fit(Map::empty(), hs),
        lists(listing, history(v.breakdown_enabled(), hs).op_breakdown->0),
    ensures
        forall|i: int|
            0 <= i < listing.len() ==> (#[trigger] listing[i]).1 == weigh(
                hs,
                tally_at(listing[i].0@),
            ),
        total(listing) == weigh(hs, tally()),
{
    breakdown_counts_operations(v.breakdown_enabled(), hs);
    let counts = history(v.breakdown_enabled(), hs).op_breakdown->0;
    assert forall|i: int| 0 <= i < listing.len() implies (#[trigger] listing[i]).1 == weigh(
        hs,
        tally_at(listing[i].0@),
    ) by {
        assert(counts.contains_key(listing[i].0@));
    }
    assert forall|i: int| 0 <= i < hs.len() implies tally_is_listed(#[trigger] hs[i], listing) by {
        if let Happening::Started { at, acquired: true } = hs[i] {
            step_weighs_in(hs, i, tally_at(callsite(at)));
            assert(weigh(hs, tally_at(callsite(at))) > 0);
            assert(counts.contains_key(callsite(at)));
        }
    }
    all_tallies_listed(hs, listing);
    total_is_tallies_listed(hs, listing);
}

/// What is taken after a history that was timed is a listing of callsites, each with the number of
/// calls that were timed there and how long these took. Every callsite of such a call is in it.
pub proof fn taken_timing_adds_up(
    v: InstrumentsView,
    hs: Seq<Happening>,
    listing: Seq<(String, (usize, u128))>,
)
    requires
        leaves_timing(hs),
        times_fit(Map::empty(), hs),
        lists(listing, history(v.timing_enabled(), hs).op_timing->0),
    ensures
        forall|i: int|
            0 <= i < listing.len() ==> (#[trigger] listing[i]).1.0 == weigh(
                hs,
                sample_at(listing[i].0@),
            ) && listing[i].1.1 == weigh(hs, time_at(listing[i].0@)),
        forall|key: Seq<char>| #[trigger]
            weigh(hs, sample_at(key)) > 0 ==> exists|j: int|
                0 <= j < listing.len() && (#[trigger] listing[j]).0@ == key,
{
    timing_adds_up(v.timing_enabled(), hs);
    let times = history(v.timing_enabled(), hs).op_timing->0;
    assert forall|i: int| 0 <= i < listing.len() implies (#[trigger] listing[i]).1.0 == weigh(
        hs,
        sample_at(listing[i].0@),
    ) && listing[i].1.1 == weigh(hs, time_at(listing[i].0@)) by {
        assert(times.contains_key(listing[i].0@));
    }
    assert forall|key: Seq<char>| #[trigger] weigh(hs, sample_at(key)) > 0 implies exists|j: int|
        0 <= j < listing.len() && (#[trigger] listing[j]).0@ == key by {
        assert(times.contains_key(key));
    }
}

} // verus!

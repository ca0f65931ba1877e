//! Queries of what MLX counts.

use vstd::prelude::*;
use vstd::utf8::{
    decode_utf8, encode_utf8, encode_utf8_decode_utf8, encode_utf8_valid_utf8, valid_utf8,
};

use crate::call::{Reply, Step};
use crate::error::{Exception, Location};
use crate::laws::text::is_error;
use crate::metal::stats::{
    astype_pair_stats, cmd_buffer_stats, eval_gpu_stats, histogram_text, kernel_cache_stats,
    prim_histogram, prim_histogram_dynamic, reset_astype_pair_stats, reset_cmd_buffer_stats,
    reset_eval_gpu_stats, reset_kernel_cache_stats, reset_prim_histogram,
    reset_prim_histogram_dynamic, reset_scheduler_stats, scheduler_stats, status_bitmap,
    utf8_error_text, Bin, Counter, HistogramDump, ResetCall,
};
use crate::text::signed_decimal;

verus! {

/// `kernel_cache_stats` reads its two counters in turn, whatever their values are, and gives both
/// in their order. The first that cannot be read ends the query, and the error names it.
pub proof fn kernel_cache_stats_reads_in_turn(
    replies: &[Reply<u64>],
    here: &Location,
    step: Step<Counter, Result<(u64, u64), Exception>>,
)
    requires
        call_ensures(kernel_cache_stats, (replies, here), step),
    ensures
        replies@.len() == 0 ==> step == Step::<Counter, Result<(u64, u64), Exception>>::Call(
            Counter::KernelCacheHits,
        ),
        replies@.len() >= 1 && replies@[0].status != 0 ==> (step matches Step::Done(result)
            && is_error(
            result,
            "metal::kernel_cache_hits failed (rc="@
                + signed_decimal(replies@[0].status as int) + ")"@,
            here,
        )),
        replies@.len() == 1 && replies@[0].status == 0 ==> step == Step::<
            Counter,
            Result<(u64, u64), Exception>,
        >::Call(Counter::KernelCacheMisses),
        replies@.len() >= 2 && replies@[0].status == 0 && replies@[1].status != 0 ==> (
        step matches Step::Done(result) && is_error(
            result,
            "metal::kernel_cache_misses failed (rc="@
                + signed_decimal(replies@[1].status as int) + ")"@,
            here,
        )),
        replies@.len() >= 2 && replies@[0].status == 0 && replies@[1].status == 0 ==> step
            == Step::<Counter, Result<(u64, u64), Exception>>::Done(
            Ok((replies@[0].value, replies@[1].value)),
        ),
{
}

/// `cmd_buffer_stats` reads its two counters in turn, whatever their values are, and gives both in
/// their order. The first that cannot be read ends the query, and the error names it.
pub proof fn cmd_buffer_stats_reads_in_turn(
    replies: &[Reply<u64>],
    here: &Location,
    step: Step<Counter, Result<(u64, u64), Exception>>,
)
    requires
        call_ensures(cmd_buffer_stats, (replies, here), step),
    ensures
        replies@.len() == 0 ==> step == Step::<Counter, Result<(u64, u64), Exception>>::Call(
            Counter::CmdBufferCommits,
        ),
        replies@.len() >= 1 && replies@[0].status != 0 ==> (step matches Step::Done(result)
            && is_error(
            result,
            "metal::cmd_buffer_commits failed (rc="@
                + signed_decimal(replies@[0].status as int) + ")"@,
            here,
        )),
        replies@.len() == 1 && replies@[0].status == 0 ==> step == Step::<
            Counter,
            Result<(u64, u64), Exception>,
        >::Call(Counter::CmdBufferOpsTotal),
        replies@.len() >= 2 && replies@[0].status == 0 && replies@[1].status != 0 ==> (
        step matches Step::Done(result) && is_error(
            result,
            "metal::cmd_buffer_ops_total failed (rc="@
                + signed_decimal(replies@[1].status as int) + ")"@,
            here,
        )),
        replies@.len() >= 2 && replies@[0].status == 0 && replies@[1].status == 0 ==> step
            == Step::<Counter, Result<(u64, u64), Exception>>::Done(
            Ok((replies@[0].value, replies@[1].value)),
        ),
{
}

/// `eval_gpu_stats` reads its two counters in turn, whatever their values are, and gives both in
/// their order. The first that cannot be read ends the query, and the error names it.
pub proof fn eval_gpu_stats_reads_in_turn(
    replies: &[Reply<u64>],
    here: &Location,
    step: Step<Counter, Result<(u64, u64), Exception>>,
)
    requires
        call_ensures(eval_gpu_stats, (replies, here), step),
    ensures
        replies@.len() == 0 ==> step == Step::<Counter, Result<(u64, u64), Exception>>::Call(
            Counter::EvalGpuCalls,
        ),
        replies@.len() >= 1 && replies@[0].status != 0 ==> (step matches Step::Done(result)
            && is_error(
            result,
            "metal::eval_gpu_calls failed (rc="@ + signed_decimal(replies@[0].status as int) + ")"@,
            here,
        )),
        replies@.len() == 1 && replies@[0].status == 0 ==> step == Step::<
            Counter,
            Result<(u64, u64), Exception>,
        >::Call(Counter::EvalGpuNs),
        replies@.len() >= 2 && replies@[0].status == 0 && replies@[1].status != 0 ==> (
        step matches Step::Done(result) && is_error(
            result,
            "metal::eval_gpu_ns failed (rc="@ + signed_decimal(replies@[1].status as int) + ")"@,
            here,
        )),
        replies@.len() >= 2 && replies@[0].status == 0 && replies@[1].status == 0 ==> step
            == Step::<Counter, Result<(u64, u64), Exception>>::Done(
            Ok((replies@[0].value, replies@[1].value)),
        ),
{
}

/// `scheduler_stats` reads its four counters in turn, whatever their values are, and gives all in
/// their order. The first that cannot be read ends the query, and the error names it.
pub proof fn scheduler_stats_reads_in_turn(
    replies: &[Reply<u64>],
    max_active: Option<Reply<i32>>,
    here: &Location,
    step: Step<Counter, Result<(u64, u64, u64, i32), Exception>>,
)
    requires
        call_ensures(scheduler_stats, (replies, max_active, here), step),
    ensures
        replies@.len() == 0 ==> step == Step::<
            Counter,
            Result<(u64, u64, u64, i32), Exception>,
        >::Call(Counter::SchedulerNewTaskCount),
        replies@.len() > 0 && replies@[0].status != 0 ==> (
        step matches Step::Done(result) && is_error(
            result,
            "metal::scheduler_new_task_count failed (rc="@ + signed_decimal(
                replies@[0].status as int,
            ) + ")"@,
            here,
        )),
        replies@.len() == 1 && replies@[0].status == 0 ==> step == Step::<
            Counter,
            Result<(u64, u64, u64, i32), Exception>,
        >::Call(Counter::SchedulerCompletionCount),
        replies@.len() > 1 && replies@[0].status == 0 && replies@[1].status != 0 ==> (
        step matches Step::Done(result) && is_error(
            result,
            "metal::scheduler_completion_count failed (rc="@ + signed_decimal(
                replies@[1].status as int,
            ) + ")"@,
            here,
        )),
        replies@.len() == 2 && replies@[0].status == 0 && replies@[1].status == 0
            ==> step == Step::<
            Counter,
            Result<(u64, u64, u64, i32), Exception>,
        >::Call(Counter::SchedulerLockWaitNs),
        replies@.len() > 2 && replies@[0].status == 0 && replies@[1].status == 0
            && replies@[2].status != 0
            ==> (
        step matches Step::Done(result) && is_error(
            result,
            "metal::scheduler_lock_wait_ns failed (rc="@ + signed_decimal(
                replies@[2].status as int,
            ) + ")"@,
            here,
        )),
        replies@.len() >= 3 && replies@[0].status == 0 && replies@[1].status == 0
            && replies@[2].status == 0 ==> {
            &&& max_active is None
                ==> step == Step::<Counter, Result<(u64, u64, u64, i32), Exception>>::Call(
                Counter::SchedulerMaxActiveTasks,
            )
            &&& max_active matches Some(r) ==> r.status != 0 ==> (step matches Step::Done(result)
                && is_error(
                result,
                "metal::scheduler_max_active_tasks failed (rc="@ + signed_decimal(r.status as int)
                    + ")"@,
                here,
            ))
            &&& max_active matches Some(r) ==> r.status == 0 ==> step == Step::<
                Counter,
                Result<(u64, u64, u64, i32), Exception>,
            >::Done(Ok((replies@[0].value, replies@[1].value, replies@[2].value, r.value)))
        },
{
}

/// `prim_histogram` reads its eight counters, one after the other and whatever becomes of them. It
/// succeeds where all statuses are zero, and gives the values in their order. Otherwise the error
/// holds the bits that are set in any of the statuses.
pub proof fn prim_histogram_reads_all_bins(
    replies: &[Reply<u64>],
    here: &Location,
    step: Step<Bin, Result<(u64, u64, u64, u64, u64, u64, u64, u64), Exception>>,
)
    requires
        call_ensures(prim_histogram, (replies, here), step),
    ensures
        replies@.len() == 0 ==> (step matches Step::Call(bin) && bin == Bin::PrimRmsNorm),
        replies@.len() == 1 ==> (step matches Step::Call(bin) && bin == Bin::PrimQmm),
        replies@.len() == 2 ==> (step matches Step::Call(bin) && bin == Bin::PrimReshape),
        replies@.len() == 3 ==> (step matches Step::Call(bin) && bin == Bin::PrimBroadcast),
        replies@.len() == 4 ==> (step matches Step::Call(bin) && bin == Bin::PrimMultiply),
        replies@.len() == 5 ==> (step matches Step::Call(bin) && bin == Bin::PrimTranspose),
        replies@.len() == 6 ==> (step matches Step::Call(bin) && bin == Bin::PrimCompiled),
        replies@.len() == 7 ==> (step matches Step::Call(bin) && bin == Bin::PrimOther),
        replies@.len() >= 8 ==> {
            let all_read = replies@[0].status == 0
            && replies@[1].status == 0
            && replies@[2].status == 0
            && replies@[3].status == 0
            && replies@[4].status == 0
            && replies@[5].status == 0
            && replies@[6].status == 0
            && replies@[7].status == 0;
            let bits = replies@[0].status
                    | replies@[1].status
                    | replies@[2].status
                    | replies@[3].status
                    | replies@[4].status
                    | replies@[5].status
                    | replies@[6].status
                    | replies@[7].status;
            &&& step matches Step::Done(result)
            &&& all_read ==> (result matches Ok(values) && values == (
                replies@[0].value,
                replies@[1].value,
                replies@[2].value,
                replies@[3].value,
                replies@[4].value,
                replies@[5].value,
                replies@[6].value,
                replies@[7].value,
            ))
            &&& !all_read ==> is_error(
                result,
                "metal::prim_histogram failed (rc bitmap="@ + signed_decimal(bits as int) + ")"@,
                here,
            )
        },
{
    if replies@.len() >= 8 {
        reveal_with_fuel(status_bitmap, 9);
        let s0 = replies@[0].status;
        let s1 = replies@[1].status;
        let s2 = replies@[2].status;
        let s3 = replies@[3].status;
        let s4 = replies@[4].status;
        let s5 = replies@[5].status;
        let s6 = replies@[6].status;
        let s7 = replies@[7].status;
        assert(0i32 | s0 | s1 | s2 | s3 | s4 | s5 | s6 | s7 ==
            s0 | s1 | s2 | s3 | s4 | s5 | s6 | s7) by (bit_vector);
        assert(s0 | s1 | s2 | s3 | s4 | s5 | s6 | s7 == 0 <==>
            s0 == 0 && s1 == 0 && s2 == 0 && s3 == 0 && s4 == 0 && s5 == 0 && s6 == 0 && s7 == 0)
            by (bit_vector);
        assert(status_bitmap(replies@, 8) == s0 | s1 | s2 | s3 | s4 | s5 | s6 | s7);
    }
}

/// `astype_pair_stats` reads its four counters, one after the other and whatever becomes of them.
/// It succeeds where all statuses are zero, and gives the values in their order. Otherwise the
/// error holds the bits that are set in any of the statuses.
pub proof fn astype_pair_stats_reads_all_bins(
    replies: &[Reply<u64>],
    here: &Location,
    step: Step<Bin, Result<(u64, u64, u64, u64), Exception>>,
)
    requires
        call_ensures(astype_pair_stats, (replies, here), step),
    ensures
        replies@.len() == 0 ==> (step matches Step::Call(bin) && bin == Bin::AstypeBf16ToFloat32),
        replies@.len() == 1 ==> (step matches Step::Call(bin) && bin == Bin::AstypeFloat32ToBf16),
        replies@.len() == 2 ==> (step matches Step::Call(bin) && bin == Bin::AstypeNoop),
        replies@.len() == 3 ==> (step matches Step::Call(bin) && bin == Bin::AstypeOtherPair),
        replies@.len() >= 4 ==> {
            let all_read = replies@[0].status == 0
            && replies@[1].status == 0
            && replies@[2].status == 0
            && replies@[3].status == 0;
            let bits = replies@[0].status
                    | replies@[1].status
                    | replies@[2].status
                    | replies@[3].status;
            &&& step matches Step::Done(result)
            &&& all_read ==> (result matches Ok(values) && values == (
                replies@[0].value,
                replies@[1].value,
                replies@[2].value,
                replies@[3].value,
            ))
            &&& !all_read ==> is_error(
                result,
                "metal::astype_pair_stats failed (rc bitmap="@ + signed_decimal(bits as int) + ")"@,
                here,
            )
        },
{
    if replies@.len() >= 4 {
        reveal_with_fuel(status_bitmap, 5);
        let s0 = replies@[0].status;
        let s1 = replies@[1].status;
        let s2 = replies@[2].status;
        let s3 = replies@[3].status;
        assert(0i32 | s0 | s1 | s2 | s3 == s0 | s1 | s2 | s3) by (bit_vector);
        assert(s0 | s1 | s2 | s3 == 0 <==>
            s0 == 0 && s1 == 0 && s2 == 0 && s3 == 0) by (bit_vector);
        assert(status_bitmap(replies@, 4) == s0 | s1 | s2 | s3);
    }
}

/// `reset_kernel_cache_stats` makes its own call, and succeeds where the status is zero.
pub proof fn reset_kernel_cache_stats_reports_its_status(
    reply: Option<i32>,
    here: &Location,
    step: Step<ResetCall, Result<(), Exception>>,
)
    requires
        call_ensures(reset_kernel_cache_stats, (reply, here), step),
    ensures
        reply is None ==> step == Step::<ResetCall, Result<(), Exception>>::Call(
            ResetCall::KernelCacheStats,
        ),
        reply matches Some(status) ==> {
            &&& step matches Step::Done(result)
            &&& status == 0 ==> result == Ok::<(), Exception>(())
            &&& status != 0 ==> is_error(
                result,
                "metal::reset_kernel_cache_stats failed (rc="@
                    + signed_decimal(status as int) + ")"@,
                here,
            )
        },
{
}

/// `reset_cmd_buffer_stats` makes its own call, and succeeds where the status is zero.
pub proof fn reset_cmd_buffer_stats_reports_its_status(
    reply: Option<i32>,
    here: &Location,
    step: Step<ResetCall, Result<(), Exception>>,
)
    requires
        call_ensures(reset_cmd_buffer_stats, (reply, here), step),
    ensures
        reply is None ==> step == Step::<ResetCall, Result<(), Exception>>::Call(
            ResetCall::CmdBufferStats,
        ),
        reply matches Some(status) ==> {
            &&& step matches Step::Done(result)
            &&& status == 0 ==> result == Ok::<(), Exception>(())
            &&& status != 0 ==> is_error(
                result,
                "metal::reset_cmd_buffer_stats failed (rc="@ + signed_decimal(status as int) + ")"@,
                here,
            )
        },
{
}

/// `reset_scheduler_stats` makes its own call, and succeeds where the status is zero.
pub proof fn reset_scheduler_stats_reports_its_status(
    reply: Option<i32>,
    here: &Location,
    step: Step<ResetCall, Result<(), Exception>>,
)
    requires
        call_ensures(reset_scheduler_stats, (reply, here), step),
    ensures
        reply is None ==> step == Step::<ResetCall, Result<(), Exception>>::Call(
            ResetCall::SchedulerStats,
        ),
        reply matches Some(status) ==> {
            &&& step matches Step::Done(result)
            &&& status == 0 ==> result == Ok::<(), Exception>(())
            &&& status != 0 ==> is_error(
                result,
                "metal::reset_scheduler_stats failed (rc="@ + signed_decimal(status as int) + ")"@,
                here,
            )
        },
{
}

/// `reset_eval_gpu_stats` makes its own call, and succeeds where the status is zero.
pub proof fn reset_eval_gpu_stats_reports_its_status(
    reply: Option<i32>,
    here: &Location,
    step: Step<ResetCall, Result<(), Exception>>,
)
    requires
        call_ensures(reset_eval_gpu_stats, (reply, here), step),
    ensures
        reply is None ==> step == Step::<ResetCall, Result<(), Exception>>::Call(
            ResetCall::EvalGpuStats,
        ),
        reply matches Some(status) ==> {
            &&& step matches Step::Done(result)
            &&& status == 0 ==> result == Ok::<(), Exception>(())
            &&& status != 0 ==> is_error(
                result,
                "metal::reset_eval_gpu_stats failed (rc="@ + signed_decimal(status as int) + ")"@,
                here,
            )
        },
{
}

/// `reset_prim_histogram` makes its own call, and succeeds where the status is zero.
pub proof fn reset_prim_histogram_reports_its_status(
    reply: Option<i32>,
    here: &Location,
    step: Step<ResetCall, Result<(), Exception>>,
)
    requires
        call_ensures(reset_prim_histogram, (reply, here), step),
    ensures
        reply is None ==> step == Step::<ResetCall, Result<(), Exception>>::Call(
            ResetCall::PrimHist,
        ),
        reply matches Some(status) ==> {
            &&& step matches Step::Done(result)
            &&& status == 0 ==> result == Ok::<(), Exception>(())
            &&& status != 0 ==> is_error(
                result,
                "metal::reset_prim_histogram failed (rc="@ + signed_decimal(status as int) + ")"@,
                here,
            )
        },
{
}

/// `reset_prim_histogram_dynamic` makes its own call, and succeeds where the status is zero.
pub proof fn reset_prim_histogram_dynamic_reports_its_status(
    reply: Option<i32>,
    here: &Location,
    step: Step<ResetCall, Result<(), Exception>>,
)
    requires
        call_ensures(reset_prim_histogram_dynamic, (reply, here), step),
    ensures
        reply is None ==> step == Step::<ResetCall, Result<(), Exception>>::Call(
            ResetCall::PrimHistDynamic,
        ),
        reply matches Some(status) ==> {
            &&& step matches Step::Done(result)
            &&& status == 0 ==> result == Ok::<(), Exception>(())
            &&& status != 0 ==> is_error(
                result,
                "metal::reset_prim_histogram_dynamic failed (rc="@
                    + signed_decimal(status as int) + ")"@,
                here,
            )
        },
{
}

/// `reset_astype_pair_stats` makes its own call, and succeeds where the status is zero.
pub proof fn reset_astype_pair_stats_reports_its_status(
    reply: Option<i32>,
    here: &Location,
    step: Step<ResetCall, Result<(), Exception>>,
)
    requires
        call_ensures(reset_astype_pair_stats, (reply, here), step),
    ensures
        reply is None ==> step == Step::<ResetCall, Result<(), Exception>>::Call(
            ResetCall::AstypePair,
        ),
        reply matches Some(status) ==> {
            &&& step matches Step::Done(result)
            &&& status == 0 ==> result == Ok::<(), Exception>(())
            &&& status != 0 ==> is_error(
                result,
                "metal::reset_astype_pair_stats failed (rc="@
                    + signed_decimal(status as int) + ")"@,
                here,
            )
        },
{
}

/// The histogram by name is dumped into a buffer of 64 KiB. The bytes that were written are given
/// as the text that they encode, and nothing else is ever given: a call that failed, a histogram
/// that does not fit, and bytes that are not UTF-8 are errors.
pub proof fn histogram_by_name_is_what_was_written(
    reply: Option<HistogramDump>,
    here: &Location,
    step: Step<usize, Result<String, Exception>>,
)
    requires
        call_ensures(prim_histogram_dynamic, (reply, here), step),
    ensures
        reply is None ==> step == Step::<usize, Result<String, Exception>>::Call(65_536usize),
        reply matches Some(dump) ==> {
            let buffer = dump.buffer@;
            let bytes = if dump.written < 0 {
                buffer
            } else {
                buffer.take(dump.written as int)
            };
            &&& step matches Step::Done(result)
            &&& dump.status != 0 ==> is_error(
                result,
                "metal::prim_histogram_dynamic failed (rc="@ + signed_decimal(dump.status as int)
                    + ")"@,
                here,
            )
            &&& dump.status == 0 && dump.written > buffer.len() ==> is_error(
                result,
                "metal::prim_histogram_dynamic: histogram does not fit the buffer"@,
                here,
            )
            &&& dump.status == 0 && dump.written <= buffer.len() && valid_utf8(bytes) ==> (
            result matches Ok(text) && text@ == decode_utf8(bytes))
            &&& dump.status == 0 && dump.written <= buffer.len() && !valid_utf8(bytes)
                ==> is_error(
                result,
                "prim_histogram_dynamic: non-UTF8 output: "@ + utf8_error_text(bytes),
                here,
            )
        },
{
}

/// A text that was written to the front of the buffer is read back as it was written.
pub proof fn dumped_histogram_is_read_back(
    text: Seq<char>,
    dump: HistogramDump,
    here: &Location,
    step: Step<usize, Result<String, Exception>>,
)
    requires
        call_ensures(prim_histogram_dynamic, (Some(dump), here), step),
        dump.status == 0,
        dump.written == encode_utf8(text).len(),
        dump.written <= dump.buffer@.len(),
        dump.buffer@.take(dump.written as int) == encode_utf8(text),
    ensures
        step matches Step::Done(Ok(read)) && read@ == text,
{
    histogram_by_name_is_what_was_written(Some(dump), here, step);
    encode_utf8_valid_utf8(text);
    encode_utf8_decode_utf8(text);
}

/// A histogram that was decoded is handed on, and the reason why it could not be is wrapped.
pub proof fn decoded_histogram_is_handed_on(
    decoded: Result<String, String>,
    here: &Location,
    result: Result<String, Exception>,
)
    requires
        call_ensures(histogram_text, (decoded, here), result),
    ensures
        decoded matches Ok(text) ==> result == Ok::<String, Exception>(text),
        decoded matches Err(why) ==> is_error(
            result,
            "prim_histogram_dynamic: non-UTF8 output: "@ + why@,
            here,
        ),
{
}

} // verus!
